use thsr_ticket::codec::booking_ticket_categories;
use thsr_ticket::codec::format_supplement_ids_key;
use thsr_ticket::codec::generate_identity_keys;
use thsr_ticket::codec::TicketCategory;
use thsr_ticket::models::BookingPersisted;
use thsr_ticket::models::CabinClass;
use thsr_ticket::models::SeatPref;
use thsr_ticket::models::Station;

fn booking_with_counts(adult: u8, child: u8, disabled: u8, elder: u8, college: u8) -> BookingPersisted {
    BookingPersisted {
        start_station: Station::Nangang,
        dest_station: Station::Zuouing,
        outbound_date: String::from("2025/01/21"),
        outbound_time: String::from("930A"),
        seat_prefer: SeatPref::NoPref,
        class_type: CabinClass::Standard,
        adult_ticket_num: adult,
        child_ticket_num: child,
        disabled_ticket_num: disabled,
        elder_ticket_num: elder,
        college_ticket_num: college,
    }
}

#[test]
fn cursor_advances_across_categories_without_identity() {
    // adult=1, child=0, disabled=2, elder=1, college=0: the adult ticket
    // consumes position 0, so the identity keys sit at positions 1, 2
    // (disabled) and 3 (elder).
    let booking = booking_with_counts(1, 0, 2, 1, 0);
    let cats = booking_ticket_categories(&booking);
    let slots = generate_identity_keys(&cats);
    assert_eq!(slots.len(), 3);
    assert_eq!(slots[0].position, 1);
    assert_eq!(slots[0].tag, 'W');
    assert_eq!(slots[0].index_in_category, 0);
    assert_eq!(slots[1].position, 2);
    assert_eq!(slots[1].tag, 'W');
    assert_eq!(slots[1].index_in_category, 1);
    assert_eq!(slots[2].position, 3);
    assert_eq!(slots[2].tag, 'E');
    assert_eq!(slots[2].index_in_category, 0);
    assert_eq!(slots[0].key, format_supplement_ids_key(1));
    assert_eq!(slots[1].key, format_supplement_ids_key(2));
    assert_eq!(slots[2].key, format_supplement_ids_key(3));
}

#[test]
fn no_identity_categories_emit_no_keys() {
    let booking = booking_with_counts(2, 1, 0, 0, 3);
    let cats = booking_ticket_categories(&booking);
    let slots = generate_identity_keys(&cats);
    assert!(slots.is_empty());
}

#[test]
fn elder_positions_follow_all_earlier_counts() {
    // adult=1 and elder=1: the elder identity key sits at position 1.
    let booking = booking_with_counts(1, 0, 0, 1, 0);
    let cats = booking_ticket_categories(&booking);
    let slots = generate_identity_keys(&cats);
    assert_eq!(slots.len(), 1);
    assert_eq!(slots[0].position, 1);
    assert_eq!(slots[0].tag, 'E');
    assert_eq!(
        slots[0].key,
        "TicketPassengerInfoInputPanel:passengerDataView:1:passengerDataView2:passengerDataIdNumber"
    );
}

#[test]
fn canonical_category_table_is_fixed() {
    let booking = booking_with_counts(1, 2, 3, 4, 5);
    let cats = booking_ticket_categories(&booking);
    let expected = [
        ('F', false, 1u8),
        ('H', false, 2),
        ('W', true, 3),
        ('E', true, 4),
        ('P', false, 5),
    ];
    assert_eq!(cats.len(), 5);
    for (cat, (tag, requires_identity, count)) in cats.iter().zip(expected) {
        assert_eq!(*cat, TicketCategory { tag, requires_identity, count });
    }
}

#[test]
fn custom_category_tables_are_walked_in_order() {
    let cats = vec![
        TicketCategory { tag: 'A', requires_identity: true, count: 2 },
        TicketCategory { tag: 'B', requires_identity: false, count: 5 },
        TicketCategory { tag: 'C', requires_identity: true, count: 1 },
    ];
    let slots = generate_identity_keys(&cats);
    assert_eq!(slots.len(), 3);
    assert_eq!((slots[0].position, slots[0].tag), (0, 'A'));
    assert_eq!((slots[1].position, slots[1].tag), (1, 'A'));
    assert_eq!((slots[2].position, slots[2].tag), (7, 'C'));
}
