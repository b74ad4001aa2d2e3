//! Presets: the saved booking / identity pairs a run can start from.
//!
//! A preset is only usable when its two halves agree: every identity slot
//! owed by the booking's ticket counts must have its positional key present
//! among the confirmation's identity fields. The well-formedness check and
//! the key lookup are specified here, and the preset display walks the
//! slots exactly as the confirmation submission will.

use vstd::prelude::*;

use std::io::Write;

use crate::codec::TicketCategory;
use crate::codec::booking_ticket_categories;
use crate::codec::format_u32;
use crate::codec::generate_identity_keys;
use crate::codec::spec_booking_categories;
use crate::codec::spec_identity_slots;
use crate::codec::spec_slot_matches;
use crate::codec::spec_supplement_key;
use crate::codec::spec_total_tickets;
use crate::codec::str_equal;
use crate::models::BookingPersistedView;
use crate::models::Preset;
use crate::models::SupplementId;
use crate::models::SupplementIdView;
use crate::models::TicketConfirmationPersistedView;
use crate::models::cabin_class_name;
use crate::models::seat_pref_name;
use crate::models::station_name;

verus! {

/// Relies on the standard library's `Write` impl for standard output: puts
/// one line on standard output.
#[verifier::external_body]
fn print_line(s: &str) {
    let _ = writeln!(std::io::stdout(), "{}", s);
}

/// The value stored under `key`, scanning the identity fields in order.
pub open spec fn spec_lookup_supplement(ids: Seq<SupplementIdView>, key: Seq<char>) -> Option<
    Seq<char>,
>
    decreases ids.len(),
{
    if ids.len() == 0 {
        None
    } else if ids[0].key == key {
        Some(ids[0].value)
    } else {
        spec_lookup_supplement(ids.drop_first(), key)
    }
}

/// The views of a list of identity fields, in order.
pub open spec fn spec_supplement_views(v: Seq<SupplementId>) -> Seq<SupplementIdView> {
    Seq::new(v.len(), |i: int| v[i]@)
}

/// The identity string stored under `key`, if any; the first match wins.
pub fn lookup_supplement_id(ids: &Vec<SupplementId>, key: &str) -> (r: Option<String>)
    ensures
        r.deep_view() == spec_lookup_supplement(spec_supplement_views(ids@), key@),
{
    let ghost vseq = spec_supplement_views(ids@);
    proof {
        assert(vseq.skip(0) =~= vseq);
    }
    let mut i: usize = 0;
    while i < ids.len()
        invariant
            vseq == spec_supplement_views(ids@),
            i <= ids@.len(),
            spec_lookup_supplement(vseq, key@) == spec_lookup_supplement(
                vseq.skip(i as int),
                key@,
            ),
        decreases ids@.len() - i,
    {
        proof {
            assert(vseq.skip(i as int)[0] == vseq[i as int]);
            assert(vseq[i as int] == ids@[i as int]@);
        }
        let entry = &ids[i];
        if str_equal(entry.key.as_str(), key) {
            return Some(entry.value.clone());
        }
        proof {
            assert(vseq.skip(i as int).drop_first() =~= vseq.skip(i as int + 1));
        }
        i = i + 1;
    }
    proof {
        assert(vseq.skip(i as int) =~= Seq::<SupplementIdView>::empty());
    }
    None
}

/// A preset's two halves agree: the total ticket count is small enough for
/// positional keys, and every identity slot owed by the booking's
/// categories has its key present among the confirmation's identity fields.
pub open spec fn spec_preset_wellformed(
    booking: BookingPersistedView,
    confirmation: TicketConfirmationPersistedView,
) -> bool {
    let slots = spec_identity_slots(spec_booking_categories(booking), 0);
    &&& spec_total_tickets(spec_booking_categories(booking)) <= u8::MAX
    &&& forall|i: int|
        0 <= i < slots.len() ==> spec_lookup_supplement(
            confirmation.supplemental_ids,
            spec_supplement_key((#[trigger] slots[i]).position),
        ) is Some
}

proof fn lemma_total_booking_categories(b: BookingPersistedView)
    ensures
        spec_total_tickets(spec_booking_categories(b)) == b.adult_ticket_num
            + b.child_ticket_num + b.disabled_ticket_num + b.elder_ticket_num
            + b.college_ticket_num,
{
    let cats = spec_booking_categories(b);
    let s1 = cats.drop_first();
    let s2 = s1.drop_first();
    let s3 = s2.drop_first();
    let s4 = s3.drop_first();
    let s5 = s4.drop_first();
    assert(s5 =~= Seq::<TicketCategory>::empty());
    assert(spec_total_tickets(s5) == 0);
    assert(spec_total_tickets(s4) == s4[0].count + spec_total_tickets(s5));
    assert(spec_total_tickets(s3) == s3[0].count + spec_total_tickets(s4));
    assert(spec_total_tickets(s2) == s2[0].count + spec_total_tickets(s3));
    assert(spec_total_tickets(s1) == s1[0].count + spec_total_tickets(s2));
    assert(spec_total_tickets(cats) == cats[0].count + spec_total_tickets(s1));
}

/// Decides whether a preset is well formed: used before a run leans on the
/// preset's identity fields.
pub fn preset_is_wellformed(p: &Preset) -> (r: bool)
    ensures
        r == spec_preset_wellformed(p.booking@, p.ticket_confirmation@),
{
    let b = &p.booking;
    let total: u32 = b.adult_ticket_num as u32 + b.child_ticket_num as u32
        + b.disabled_ticket_num as u32 + b.elder_ticket_num as u32
        + b.college_ticket_num as u32;
    proof {
        lemma_total_booking_categories(p.booking@);
    }
    if total > 255 {
        return false;
    }
    let cats = booking_ticket_categories(b);
    let slots = generate_identity_keys(&cats);
    let ghost model = spec_identity_slots(spec_booking_categories(p.booking@), 0);
    let ghost conf = p.ticket_confirmation@.supplemental_ids;
    proof {
        assert(conf =~= spec_supplement_views(p.ticket_confirmation.supplemental_ids@));
    }
    let mut i: usize = 0;
    while i < slots.len()
        invariant
            slots@.len() == model.len(),
            forall|j: int|
                0 <= j < slots@.len() ==> spec_slot_matches(#[trigger] slots@[j]@, model[j]),
            model == spec_identity_slots(spec_booking_categories(p.booking@), 0),
            conf == p.ticket_confirmation@.supplemental_ids,
            conf == spec_supplement_views(p.ticket_confirmation.supplemental_ids@),
            spec_total_tickets(spec_booking_categories(p.booking@)) <= u8::MAX,
            i <= slots@.len(),
            forall|j: int|
                0 <= j < i ==> spec_lookup_supplement(
                    conf,
                    spec_supplement_key((#[trigger] model[j]).position),
                ) is Some,
        decreases slots@.len() - i,
    {
        let slot = &slots[i];
        match lookup_supplement_id(&p.ticket_confirmation.supplemental_ids, slot.key.as_str()) {
            Some(v) => {},
            None => {
                proof {
                    assert(spec_slot_matches(slots@[i as int]@, model[i as int]));
                    assert(slot.key@ == spec_supplement_key(model[i as int].position));
                    assert(spec_lookup_supplement(
                        conf,
                        spec_supplement_key(model[i as int].position),
                    ) is None);
                }
                return false;
            },
        }
        proof {
            assert(spec_slot_matches(slots@[i as int]@, model[i as int]));
            assert(slot.key@ == spec_supplement_key(model[i as int].position));
        }
        i = i + 1;
    }
    true
}

fn print_labeled(label: &str, value: &str) {
    let mut l = String::from_str(label);
    l.append(value);
    print_line(l.as_str());
}

/// Prints one preset under its 1-based number: the contact data, the
/// booking fields, the five ticket counts, and one line per identity slot
/// owed by the counts, in canonical order.
pub fn print_preset(preset_num: usize, preset: &Preset)
    requires
        preset_num <= u32::MAX,
        spec_preset_wellformed(preset.booking@, preset.ticket_confirmation@),
{
    let number = format_u32(preset_num as u32);
    print_labeled("Preset #", number.as_str());
    print_labeled(
        "  Personal ID:                    ",
        preset.ticket_confirmation.personal_id.as_str(),
    );
    print_labeled(
        "  Phone:                          ",
        preset.ticket_confirmation.phone_num.as_str(),
    );
    let start = station_name(preset.booking.start_station);
    print_labeled("  Depart Station:                 ", start.as_str());
    let dest = station_name(preset.booking.dest_station);
    print_labeled("  Destination Station:            ", dest.as_str());
    print_labeled("  Depart Date:                    ", preset.booking.outbound_date.as_str());
    print_labeled("  Depart Time:                    ", preset.booking.outbound_time.as_str());
    let cabin = cabin_class_name(preset.booking.class_type);
    print_labeled("  Cabin Class:                    ", cabin.as_str());
    let seat = seat_pref_name(preset.booking.seat_prefer);
    print_labeled("  Seat Preference:                ", seat.as_str());
    let adult = format_u32(preset.booking.adult_ticket_num as u32);
    print_labeled("  Adult ticket number:            ", adult.as_str());
    let child = format_u32(preset.booking.child_ticket_num as u32);
    print_labeled("  Child ticket number:            ", child.as_str());
    let disabled = format_u32(preset.booking.disabled_ticket_num as u32);
    print_labeled("  Disabled ticket number:         ", disabled.as_str());
    let elder = format_u32(preset.booking.elder_ticket_num as u32);
    print_labeled("  Elder ticket number:            ", elder.as_str());
    let college = format_u32(preset.booking.college_ticket_num as u32);
    print_labeled("  College ticket number:          ", college.as_str());
    let cats = booking_ticket_categories(&preset.booking);
    let slots = generate_identity_keys(&cats);
    let ghost model = spec_identity_slots(spec_booking_categories(preset.booking@), 0);
    let ghost conf = preset.ticket_confirmation@.supplemental_ids;
    proof {
        assert(conf =~= spec_supplement_views(preset.ticket_confirmation.supplemental_ids@));
    }
    let mut i: usize = 0;
    while i < slots.len()
        invariant
            slots@.len() == model.len(),
            forall|j: int|
                0 <= j < slots@.len() ==> spec_slot_matches(#[trigger] slots@[j]@, model[j]),
            model == spec_identity_slots(spec_booking_categories(preset.booking@), 0),
            conf == spec_supplement_views(preset.ticket_confirmation.supplemental_ids@),
            forall|j: int|
                0 <= j < model.len() ==> spec_lookup_supplement(
                    conf,
                    spec_supplement_key((#[trigger] model[j]).position),
                ) is Some,
            i <= slots@.len(),
        decreases slots@.len() - i,
    {
        let slot = &slots[i];
        let mut l = if slot.tag == 'W' {
            String::from_str("  Disabled ticket #")
        } else {
            String::from_str("  Elder ticket #")
        };
        let ordinal = format_u32(slot.index_in_category as u32 + 1);
        l.append(ordinal.as_str());
        if slot.tag == 'W' {
            l.append(" personal ID: ");
        } else {
            l.append(" personal ID:    ");
        }
        proof {
            assert(spec_slot_matches(slots@[i as int]@, model[i as int]));
            assert(slot.key@ == spec_supplement_key(model[i as int].position));
        }
        match lookup_supplement_id(
            &preset.ticket_confirmation.supplemental_ids,
            slot.key.as_str(),
        ) {
            Some(v) => {
                l.append(v.as_str());
            },
            None => {
                unreached::<()>();
            },
        }
        print_line(l.as_str());
        i = i + 1;
    }
    print_line("");
}

/// Prints every preset, numbered from one.
pub fn print_presets(presets: &Vec<Preset>)
    requires
        presets@.len() < u32::MAX,
        forall|i: int|
            0 <= i < presets@.len() ==> spec_preset_wellformed(
                (#[trigger] presets@[i]).booking@,
                presets@[i].ticket_confirmation@,
            ),
{
    let mut i: usize = 0;
    while i < presets.len()
        invariant
            presets@.len() < u32::MAX,
            forall|j: int|
                0 <= j < presets@.len() ==> spec_preset_wellformed(
                    (#[trigger] presets@[j]).booking@,
                    presets@[j].ticket_confirmation@,
                ),
            i <= presets@.len(),
        decreases presets@.len() - i,
    {
        print_preset(i + 1, &presets[i]);
        i = i + 1;
    }
}

} // verus!
