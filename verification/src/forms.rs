//! Wire encoding of the three form submissions: each request is rendered as
//! an ordered list of form fields carrying the exact field names the
//! external server derives from its component paths, with ordinal codes for
//! the enumerations and suffix-tagged counts for the ticket quantities.

use vstd::prelude::*;

use crate::codec::encode_ticket_count;
use crate::codec::format_i32;
use crate::codec::format_u32;
use crate::codec::spec_digits;
use crate::codec::spec_signed_digits;
use crate::models::Booking;
use crate::models::BookingView;
use crate::models::TicketConfirmation;
use crate::models::TicketConfirmationView;
use crate::models::TrainSelection;
use crate::models::TrainSelectionView;
use crate::models::spec_cabin_class_code;
use crate::models::spec_seat_pref_code;
use crate::models::spec_station_code;
use crate::models::spec_trip_code;
use crate::models::cabin_class_code;
use crate::models::seat_pref_code;
use crate::models::station_code;
use crate::models::trip_code;

verus! {

/// One form field of a submission: a wire field name and its value.
#[derive(Debug, PartialEq)]
pub struct FormField {
    pub name: String,
    pub value: String,
}

/// Mathematical model of a `FormField`.
pub struct FormFieldView {
    pub name: Seq<char>,
    pub value: Seq<char>,
}

impl View for FormField {
    type V = FormFieldView;

    open spec fn view(&self) -> FormFieldView {
        FormFieldView { name: self.name@, value: self.value@ }
    }
}

/// A form field as a model value.
pub open spec fn spec_field(name: Seq<char>, value: Seq<char>) -> FormFieldView {
    FormFieldView { name, value }
}

/// The views of a field list, in order.
pub open spec fn spec_form_views(v: Seq<FormField>) -> Seq<FormFieldView> {
    Seq::new(v.len(), |i: int| v[i]@)
}

/// Appends an optional field: present values are appended, absent ones are
/// omitted from the submission.
pub open spec fn spec_opt_field(
    base: Seq<FormFieldView>,
    name: Seq<char>,
    v: Option<Seq<char>>,
) -> Seq<FormFieldView> {
    match v {
        Some(x) => base.push(spec_field(name, x)),
        None => base,
    }
}

/// The full booking submission, field by field: stations as ordinal codes,
/// the outbound date and time slot verbatim, seat preference, cabin class
/// and trip kind as ordinal codes, the five suffix-tagged ticket counts in
/// canonical row order, then the session-specific fields; the inbound and
/// train-override fields appear only when present.
pub open spec fn spec_booking_form(b: BookingView) -> Seq<FormFieldView> {
    let base = seq![
        spec_field(
            "selectStartStation"@,
            spec_digits(spec_station_code(b.persisted.start_station) as nat),
        ),
        spec_field(
            "selectDestinationStation"@,
            spec_digits(spec_station_code(b.persisted.dest_station) as nat),
        ),
        spec_field("toTimeInputField"@, b.persisted.outbound_date),
        spec_field("toTimeTable"@, b.persisted.outbound_time),
        spec_field(
            "seatCon:seatRadioGroup"@,
            spec_digits(spec_seat_pref_code(b.persisted.seat_prefer) as nat),
        ),
        spec_field(
            "trainCon:trainRadioGroup"@,
            spec_digits(spec_cabin_class_code(b.persisted.class_type) as nat),
        ),
        spec_field(
            "ticketPanel:rows:0:ticketAmount"@,
            spec_digits(b.persisted.adult_ticket_num as nat) + "F"@,
        ),
        spec_field(
            "ticketPanel:rows:1:ticketAmount"@,
            spec_digits(b.persisted.child_ticket_num as nat) + "H"@,
        ),
        spec_field(
            "ticketPanel:rows:2:ticketAmount"@,
            spec_digits(b.persisted.disabled_ticket_num as nat) + "W"@,
        ),
        spec_field(
            "ticketPanel:rows:3:ticketAmount"@,
            spec_digits(b.persisted.elder_ticket_num as nat) + "E"@,
        ),
        spec_field(
            "ticketPanel:rows:4:ticketAmount"@,
            spec_digits(b.persisted.college_ticket_num as nat) + "P"@,
        ),
        spec_field("bookingMethod"@, b.search_by),
        spec_field("tripCon:typesoftrip"@, spec_digits(spec_trip_code(b.types_of_trip) as nat)),
        spec_field("homeCaptcha:securityCode"@, b.security_code),
        spec_field("BookingS1Form:hf:0"@, b.form_mark),
    ];
    let d1 = spec_opt_field(base, "backTimeInputField"@, b.inbound_date);
    let d2 = spec_opt_field(d1, "backTimeTable"@, b.inbound_time);
    let d3 = spec_opt_field(
        d2,
        "toTrainIDInputField"@,
        match b.to_train_id {
            Some(n) => Some(spec_signed_digits(n as int)),
            None => None,
        },
    );
    spec_opt_field(
        d3,
        "backTrainIDInputField"@,
        match b.back_train_id {
            Some(n) => Some(spec_signed_digits(n as int)),
            None => None,
        },
    )
}

fn field(name: &str, value: String) -> (r: FormField)
    ensures
        r@ == spec_field(name@, value@),
{
    FormField { name: String::from_str(name), value }
}

/// Renders a booking as its wire form fields, in submission order.
#[verifier::rlimit(100)]
pub fn booking_form_fields(b: &Booking) -> (r: Vec<FormField>)
    ensures
        spec_form_views(r@) == spec_booking_form(b@),
{
    let mut out: Vec<FormField> = Vec::new();
    out.push(
        field("selectStartStation", format_u32(station_code(b.persisted.start_station) as u32)),
    );
    out.push(
        field(
            "selectDestinationStation",
            format_u32(station_code(b.persisted.dest_station) as u32),
        ),
    );
    out.push(field("toTimeInputField", b.persisted.outbound_date.clone()));
    out.push(field("toTimeTable", b.persisted.outbound_time.clone()));
    out.push(
        field("seatCon:seatRadioGroup", format_u32(seat_pref_code(b.persisted.seat_prefer) as u32)),
    );
    out.push(
        field(
            "trainCon:trainRadioGroup",
            format_u32(cabin_class_code(b.persisted.class_type) as u32),
        ),
    );
    out.push(
        field(
            "ticketPanel:rows:0:ticketAmount",
            encode_ticket_count(b.persisted.adult_ticket_num, "F"),
        ),
    );
    out.push(
        field(
            "ticketPanel:rows:1:ticketAmount",
            encode_ticket_count(b.persisted.child_ticket_num, "H"),
        ),
    );
    out.push(
        field(
            "ticketPanel:rows:2:ticketAmount",
            encode_ticket_count(b.persisted.disabled_ticket_num, "W"),
        ),
    );
    out.push(
        field(
            "ticketPanel:rows:3:ticketAmount",
            encode_ticket_count(b.persisted.elder_ticket_num, "E"),
        ),
    );
    out.push(
        field(
            "ticketPanel:rows:4:ticketAmount",
            encode_ticket_count(b.persisted.college_ticket_num, "P"),
        ),
    );
    out.push(field("bookingMethod", b.search_by.clone()));
    out.push(field("tripCon:typesoftrip", format_u32(trip_code(b.types_of_trip) as u32)));
    out.push(field("homeCaptcha:securityCode", b.security_code.clone()));
    out.push(field("BookingS1Form:hf:0", b.form_mark.clone()));
    proof {
        assert(spec_form_views(out@) =~= spec_booking_form(b@).subrange(0, 15));
    }
    match &b.inbound_date {
        Some(s) => {
            out.push(field("backTimeInputField", s.clone()));
        },
        None => {},
    }
    match &b.inbound_time {
        Some(s) => {
            out.push(field("backTimeTable", s.clone()));
        },
        None => {},
    }
    match b.to_train_id {
        Some(n) => {
            out.push(field("toTrainIDInputField", format_i32(n as i32)));
        },
        None => {},
    }
    match b.back_train_id {
        Some(n) => {
            out.push(field("backTrainIDInputField", format_i32(n as i32)));
        },
        None => {},
    }
    proof {
        assert(spec_form_views(out@) =~= spec_booking_form(b@));
    }
    out
}

/// The train-selection submission: the chosen row's opaque token and the
/// form mark.
pub open spec fn spec_train_selection_form(t: TrainSelectionView) -> Seq<FormFieldView> {
    seq![
        spec_field("TrainQueryDataViewPanel:TrainGroup"@, t.selected_train),
        spec_field("BookingS2Form:hf:0"@, t.form_mark),
    ]
}

/// Renders a train selection as its wire form fields.
pub fn train_selection_form_fields(t: &TrainSelection) -> (r: Vec<FormField>)
    ensures
        spec_form_views(r@) == spec_train_selection_form(t@),
{
    let mut out: Vec<FormField> = Vec::new();
    out.push(field("TrainQueryDataViewPanel:TrainGroup", t.selected_train.clone()));
    out.push(field("BookingS2Form:hf:0", t.form_mark.clone()));
    proof {
        assert(spec_form_views(out@) =~= spec_train_selection_form(t@));
    }
    out
}

/// The confirmation submission, field by field: contact data, then every
/// positional identity field in list order, then the member-system token and
/// the fixed defaults.
pub open spec fn spec_confirmation_form(t: TicketConfirmationView) -> Seq<FormFieldView> {
    let head = seq![
        spec_field("dummyId"@, t.persisted.personal_id),
        spec_field("dummyPhone"@, t.persisted.phone_num),
    ];
    let ids = Seq::new(
        t.persisted.supplemental_ids.len(),
        |i: int|
            spec_field(
                t.persisted.supplemental_ids[i].key,
                t.persisted.supplemental_ids[i].value,
            ),
    );
    let tail = seq![
        spec_field(
            "TicketMemberSystemInputPanel:TakerMemberSystemDataView:memberSystemRadioGroup"@,
            t.member_radio,
        ),
        spec_field("BookingS3FormSP:hf:0"@, t.form_mark),
        spec_field("idInputRadio"@, spec_signed_digits(t.id_input_radio as int)),
        spec_field("diffOver"@, spec_signed_digits(t.diff_over as int)),
        spec_field("email"@, t.email),
        spec_field("agree"@, t.agree),
        spec_field("isGoBackM"@, t.go_back_m),
        spec_field("backHome"@, t.back_home),
        spec_field("TgoError"@, spec_signed_digits(t.tgo_error as int)),
    ];
    head + ids + tail
}

/// Renders a ticket confirmation as its wire form fields, in submission
/// order.
pub fn ticket_confirmation_form_fields(t: &TicketConfirmation) -> (r: Vec<FormField>)
    ensures
        spec_form_views(r@) == spec_confirmation_form(t@),
{
    let ghost ids = Seq::new(
        t@.persisted.supplemental_ids.len(),
        |i: int|
            spec_field(
                t@.persisted.supplemental_ids[i].key,
                t@.persisted.supplemental_ids[i].value,
            ),
    );
    let mut out: Vec<FormField> = Vec::new();
    out.push(field("dummyId", t.persisted.personal_id.clone()));
    out.push(field("dummyPhone", t.persisted.phone_num.clone()));
    let mut i: usize = 0;
    while i < t.persisted.supplemental_ids.len()
        invariant
            ids == Seq::new(
                t@.persisted.supplemental_ids.len(),
                |j: int|
                    spec_field(
                        t@.persisted.supplemental_ids[j].key,
                        t@.persisted.supplemental_ids[j].value,
                    ),
            ),
            i <= t.persisted.supplemental_ids@.len(),
            out@.len() == 2 + i as nat,
            out@[0]@ == spec_field("dummyId"@, t@.persisted.personal_id),
            out@[1]@ == spec_field("dummyPhone"@, t@.persisted.phone_num),
            forall|j: int| 2 <= j < 2 + i ==> #[trigger] out@[j]@ == ids[j - 2],
        decreases t.persisted.supplemental_ids@.len() - i,
    {
        let entry = &t.persisted.supplemental_ids[i];
        out.push(field(entry.key.as_str(), entry.value.clone()));
        proof {
            assert(t@.persisted.supplemental_ids[i as int] == t.persisted.supplemental_ids@[i
                as int]@);
            assert(out@[2 + i as int]@ == ids[i as int]);
        }
        i = i + 1;
    }
    out.push(
        field(
            "TicketMemberSystemInputPanel:TakerMemberSystemDataView:memberSystemRadioGroup",
            t.member_radio.clone(),
        ),
    );
    out.push(field("BookingS3FormSP:hf:0", t.form_mark.clone()));
    out.push(field("idInputRadio", format_i32(t.id_input_radio as i32)));
    out.push(field("diffOver", format_i32(t.diff_over as i32)));
    out.push(field("email", t.email.clone()));
    out.push(field("agree", t.agree.clone()));
    out.push(field("isGoBackM", t.go_back_m.clone()));
    out.push(field("backHome", t.back_home.clone()));
    out.push(field("TgoError", format_i32(t.tgo_error as i32)));
    proof {
        let target = spec_confirmation_form(t@);
        let n: int = ids.len() as int;
        assert(out@.len() == 2 + n + 9);
        assert(target.len() == 2 + n + 9);
        assert forall|k: int| 0 <= k < out@.len() implies #[trigger] spec_form_views(out@)[k]
            == target[k] by {
            if k < 2 {
                assert(out@[k]@ == target[k]);
            } else if k < 2 + n {
                assert(out@[k]@ == ids[k - 2]);
                assert(target[k] == ids[k - 2]);
            } else {
                assert(out@[k]@ == target[k]);
            }
        }
        assert(spec_form_views(out@) =~= target);
    }
    out
}

/// The URL the booking form is submitted to, bound to one session.
pub fn gen_booking_url(session_id: String) -> (r: String)
    ensures
        r@ == "https://irs.thsrc.com.tw/IMINT/;jsessionid="@ + session_id@
            + "?wicket:interface=:0:BookingS1Form::IFormSubmitListener"@,
{
    let mut r = String::from_str("https://irs.thsrc.com.tw/IMINT/;jsessionid=");
    r.append(session_id.as_str());
    r.append("?wicket:interface=:0:BookingS1Form::IFormSubmitListener");
    r
}

/// A calendar date, held as plain year, month and day numbers.
#[derive(Clone, Copy, Debug, PartialEq, Eq, Structural)]
pub struct Date {
    pub year: u16,
    pub month: u8,
    pub day: u8,
}

/// A number rendered with at least two digits, zero-padded.
pub open spec fn spec_two_digits(n: nat) -> Seq<char> {
    if n < 10 {
        seq!['0'] + spec_digits(n)
    } else {
        spec_digits(n)
    }
}

/// A number rendered with at least four digits, zero-padded.
pub open spec fn spec_four_digits(n: nat) -> Seq<char> {
    if n < 10 {
        seq!['0', '0', '0'] + spec_digits(n)
    } else if n < 100 {
        seq!['0', '0'] + spec_digits(n)
    } else if n < 1000 {
        seq!['0'] + spec_digits(n)
    } else {
        spec_digits(n)
    }
}

/// A date in the single wire format the booking form accepts:
/// `YYYY/MM/DD`, zero-padded.
pub open spec fn spec_date_string(d: Date) -> Seq<char> {
    spec_four_digits(d.year as nat) + "/"@ + spec_two_digits(d.month as nat) + "/"@
        + spec_two_digits(d.day as nat)
}

fn two_digit_string(n: u8) -> (r: String)
    ensures
        r@ == spec_two_digits(n as nat),
{
    let digits = format_u32(n as u32);
    if n < 10 {
        let mut r = String::from_str("0");
        r.append(digits.as_str());
        proof {
            reveal_strlit("0");
            assert(r@ =~= spec_two_digits(n as nat));
        }
        r
    } else {
        digits
    }
}

/// Renders a date in the wire format `YYYY/MM/DD`.
pub fn format_date(d: Date) -> (r: String)
    ensures
        r@ == spec_date_string(d),
{
    let digits = format_u32(d.year as u32);
    let mut r = if d.year < 10 {
        String::from_str("000")
    } else if d.year < 100 {
        String::from_str("00")
    } else if d.year < 1000 {
        String::from_str("0")
    } else {
        String::new()
    };
    r.append(digits.as_str());
    proof {
        reveal_strlit("0");
        reveal_strlit("00");
        reveal_strlit("000");
        assert(r@ =~= spec_four_digits(d.year as nat));
    }
    r.append("/");
    let month = two_digit_string(d.month);
    r.append(month.as_str());
    r.append("/");
    let day = two_digit_string(d.day);
    r.append(day.as_str());
    r
}

} // verus!
