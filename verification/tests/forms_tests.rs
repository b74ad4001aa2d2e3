use thsr_ticket::forms::booking_form_fields;
use thsr_ticket::forms::format_date;
use thsr_ticket::forms::gen_booking_url;
use thsr_ticket::forms::ticket_confirmation_form_fields;
use thsr_ticket::forms::train_selection_form_fields;
use thsr_ticket::forms::Date;
use thsr_ticket::models::Booking;
use thsr_ticket::models::BookingPersisted;
use thsr_ticket::models::CabinClass;
use thsr_ticket::models::SeatPref;
use thsr_ticket::models::Station;
use thsr_ticket::models::SupplementId;
use thsr_ticket::models::TicketConfirmation;
use thsr_ticket::models::TicketConfirmationPersisted;
use thsr_ticket::models::TrainSelection;
use thsr_ticket::models::Trip;

fn sample_booking() -> Booking {
    Booking {
        persisted: BookingPersisted {
            start_station: Station::Nangang,
            dest_station: Station::Zuouing,
            outbound_date: "2025/01/21".to_string(),
            outbound_time: "930A".to_string(),
            seat_prefer: SeatPref::Window,
            class_type: CabinClass::Standard,
            adult_ticket_num: 1,
            child_ticket_num: 0,
            disabled_ticket_num: 0,
            elder_ticket_num: 1,
            college_ticket_num: 0,
        },
        search_by: "radio31".to_string(),
        types_of_trip: Trip::OneWay,
        security_code: "ab12".to_string(),
        form_mark: String::new(),
        inbound_date: None,
        inbound_time: None,
        to_train_id: None,
        back_train_id: None,
    }
}

#[test]
fn booking_fields_follow_the_wire_contract() {
    let fields = booking_form_fields(&sample_booking());
    let pairs: Vec<(&str, &str)> = fields
        .iter()
        .map(|f| (f.name.as_str(), f.value.as_str()))
        .collect();
    assert_eq!(
        pairs,
        vec![
            ("selectStartStation", "1"),
            ("selectDestinationStation", "12"),
            ("toTimeInputField", "2025/01/21"),
            ("toTimeTable", "930A"),
            ("seatCon:seatRadioGroup", "1"),
            ("trainCon:trainRadioGroup", "0"),
            ("ticketPanel:rows:0:ticketAmount", "1F"),
            ("ticketPanel:rows:1:ticketAmount", "0H"),
            ("ticketPanel:rows:2:ticketAmount", "0W"),
            ("ticketPanel:rows:3:ticketAmount", "1E"),
            ("ticketPanel:rows:4:ticketAmount", "0P"),
            ("bookingMethod", "radio31"),
            ("tripCon:typesoftrip", "0"),
            ("homeCaptcha:securityCode", "ab12"),
            ("BookingS1Form:hf:0", ""),
        ]
    );
}

#[test]
fn absent_inbound_fields_are_omitted_and_present_ones_appear() {
    let mut booking = sample_booking();
    booking.inbound_date = Some("2025/01/25".to_string());
    booking.to_train_id = Some(152);
    let fields = booking_form_fields(&booking);
    assert_eq!(fields.len(), 17);
    assert_eq!(fields[15].name, "backTimeInputField");
    assert_eq!(fields[15].value, "2025/01/25");
    assert_eq!(fields[16].name, "toTrainIDInputField");
    assert_eq!(fields[16].value, "152");
}

#[test]
fn train_selection_fields_carry_the_token() {
    let selection = TrainSelection {
        selected_train: "token-152".to_string(),
        form_mark: String::new(),
    };
    let fields = train_selection_form_fields(&selection);
    assert_eq!(fields.len(), 2);
    assert_eq!(fields[0].name, "TrainQueryDataViewPanel:TrainGroup");
    assert_eq!(fields[0].value, "token-152");
    assert_eq!(fields[1].name, "BookingS2Form:hf:0");
    assert_eq!(fields[1].value, "");
}

#[test]
fn confirmation_fields_flatten_the_identity_keys_in_order() {
    let confirmation = TicketConfirmation {
        persisted: TicketConfirmationPersisted {
            personal_id: "A123456789".to_string(),
            phone_num: "0911222333".to_string(),
            supplemental_ids: vec![
                SupplementId {
                    key: "TicketPassengerInfoInputPanel:passengerDataView:1:passengerDataView2:passengerDataIdNumber".to_string(),
                    value: "B123456789".to_string(),
                },
            ],
        },
        member_radio: "radio41".to_string(),
        form_mark: String::new(),
        id_input_radio: 0,
        diff_over: 1,
        email: String::new(),
        agree: "on".to_string(),
        go_back_m: String::new(),
        back_home: String::new(),
        tgo_error: 1,
    };
    let fields = ticket_confirmation_form_fields(&confirmation);
    let pairs: Vec<(&str, &str)> = fields
        .iter()
        .map(|f| (f.name.as_str(), f.value.as_str()))
        .collect();
    assert_eq!(
        pairs,
        vec![
            ("dummyId", "A123456789"),
            ("dummyPhone", "0911222333"),
            (
                "TicketPassengerInfoInputPanel:passengerDataView:1:passengerDataView2:passengerDataIdNumber",
                "B123456789"
            ),
            (
                "TicketMemberSystemInputPanel:TakerMemberSystemDataView:memberSystemRadioGroup",
                "radio41"
            ),
            ("BookingS3FormSP:hf:0", ""),
            ("idInputRadio", "0"),
            ("diffOver", "1"),
            ("email", ""),
            ("agree", "on"),
            ("isGoBackM", ""),
            ("backHome", ""),
            ("TgoError", "1"),
        ]
    );
}

#[test]
fn the_booking_url_embeds_the_session_id() {
    assert_eq!(
        gen_booking_url("ABCDEF".to_string()),
        "https://irs.thsrc.com.tw/IMINT/;jsessionid=ABCDEF?wicket:interface=:0:BookingS1Form::IFormSubmitListener"
    );
}

#[test]
fn dates_render_zero_padded() {
    assert_eq!(format_date(Date { year: 2025, month: 1, day: 21 }), "2025/01/21");
    assert_eq!(format_date(Date { year: 2025, month: 11, day: 3 }), "2025/11/03");
    assert_eq!(format_date(Date { year: 987, month: 12, day: 31 }), "0987/12/31");
}
