use thsr_ticket::codec::format_supplement_ids_key;
use thsr_ticket::models::BookingPersisted;
use thsr_ticket::models::CabinClass;
use thsr_ticket::models::Preset;
use thsr_ticket::models::SeatPref;
use thsr_ticket::models::Station;
use thsr_ticket::models::SupplementId;
use thsr_ticket::models::TicketConfirmationPersisted;
use thsr_ticket::models::WorkflowError;
use thsr_ticket::presets::lookup_supplement_id;
use thsr_ticket::presets::preset_is_wellformed;
use thsr_ticket::presets::print_presets;
use thsr_ticket::workflow::select_preset;

fn preset(disabled: u8, elder: u8, ids: Vec<SupplementId>) -> Preset {
    Preset {
        booking: BookingPersisted {
            start_station: Station::Taipei,
            dest_station: Station::Taichung,
            outbound_date: "2025/02/01".to_string(),
            outbound_time: "1000A".to_string(),
            seat_prefer: SeatPref::Aisle,
            class_type: CabinClass::Business,
            adult_ticket_num: 1,
            child_ticket_num: 0,
            disabled_ticket_num: disabled,
            elder_ticket_num: elder,
            college_ticket_num: 0,
        },
        ticket_confirmation: TicketConfirmationPersisted {
            personal_id: "A123456789".to_string(),
            phone_num: "0911222333".to_string(),
            supplemental_ids: ids,
        },
    }
}

#[test]
fn selecting_a_listed_preset_returns_it() {
    let presets = vec![preset(0, 0, vec![]), preset(1, 0, vec![])];
    let chosen = select_preset(&presets, 2).unwrap();
    assert_eq!(chosen.booking.disabled_ticket_num, 1);
}

#[test]
fn an_out_of_range_preset_index_is_not_found() {
    let presets = vec![preset(0, 0, vec![])];
    assert!(matches!(select_preset(&presets, 0).unwrap_err(), WorkflowError::PresetNotFound));
    assert!(matches!(select_preset(&presets, 2).unwrap_err(), WorkflowError::PresetNotFound));
}

#[test]
fn a_preset_with_every_owed_key_is_well_formed() {
    // adult=1 then one elder ticket: its identity key sits at position 1.
    let p = preset(
        0,
        1,
        vec![SupplementId { key: format_supplement_ids_key(1), value: "B123456789".to_string() }],
    );
    assert!(preset_is_wellformed(&p));
}

#[test]
fn a_preset_missing_an_owed_key_is_not_well_formed() {
    let p = preset(0, 1, vec![]);
    assert!(!preset_is_wellformed(&p));
    // A key at the wrong position does not satisfy the elder slot either.
    let wrong = preset(
        0,
        1,
        vec![SupplementId { key: format_supplement_ids_key(0), value: "B123456789".to_string() }],
    );
    assert!(!preset_is_wellformed(&wrong));
}

#[test]
fn printing_well_formed_presets_walks_every_identity_slot() {
    let presets = vec![
        preset(0, 0, vec![]),
        preset(
            1,
            1,
            vec![
                SupplementId {
                    key: format_supplement_ids_key(1),
                    value: "C123456789".to_string(),
                },
                SupplementId {
                    key: format_supplement_ids_key(2),
                    value: "D123456789".to_string(),
                },
            ],
        ),
    ];
    for p in &presets {
        assert!(preset_is_wellformed(p));
    }
    print_presets(&presets);
}

#[test]
fn lookup_finds_the_first_matching_key() {
    let ids = vec![
        SupplementId { key: "k1".to_string(), value: "first".to_string() },
        SupplementId { key: "k2".to_string(), value: "second".to_string() },
        SupplementId { key: "k1".to_string(), value: "shadowed".to_string() },
    ];
    assert_eq!(lookup_supplement_id(&ids, "k1"), Some("first".to_string()));
    assert_eq!(lookup_supplement_id(&ids, "k2"), Some("second".to_string()));
    assert_eq!(lookup_supplement_id(&ids, "k3"), None);
}
