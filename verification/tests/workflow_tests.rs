use thsr_ticket::models::BookingPersisted;
use thsr_ticket::models::CabinClass;
use thsr_ticket::models::SeatPref;
use thsr_ticket::models::Station;
use thsr_ticket::models::SupplementId;
use thsr_ticket::models::TicketConfirmationPersisted;
use thsr_ticket::models::WorkflowError;
use thsr_ticket::workflow::SessionWorkflow;

fn booking_page() -> String {
    "<html><body>\
     <input name=\"bookingMethod\" data-target=\"search-by-time\" value=\"radio31\"/>\
     <select name=\"toTimeTable\">\
     <option selected=\"selected\">-</option>\
     <option value=\"930A\">9:30</option>\
     <option value=\"1000A\">10:00</option>\
     </select>\
     <img id=\"BookingS1Form_homeCaptcha_passCode\" src=\"/captcha/image.png\"/>\
     </body></html>"
        .to_string()
}

fn trains_page() -> String {
    "<html><body>\
     <label><span id=\"QueryCode\">152</span>\
     <span id=\"QueryDeparture\">09:30</span>\
     <span id=\"QueryArrival\">11:14</span>\
     <div class=\"duration\"><span>travel</span><span>1:44</span></div>\
     <input name=\"TrainQueryDataViewPanel:TrainGroup\" value=\"token-152\"/></label>\
     </body></html>"
        .to_string()
}

fn member_page() -> String {
    "<html><body>\
     <input name=\"TicketMemberSystemInputPanel:TakerMemberSystemDataView:memberSystemRadioGroup\" \
     checked=\"checked\" value=\"radio41\"/>\
     </body></html>"
        .to_string()
}

fn confirmation_page() -> String {
    "<html><body>\
     <p class=\"pnr-code\"><span>07128249</span></p>\
     <span id=\"setTrainTotalPriceValue\">2,830</span>\
     <span class=\"date\"><span>2025/01/21</span></span>\
     <p class=\"departure-stn\"><span>Nangang</span></p>\
     <p class=\"arrival-stn\"><span>Zuoying</span></p>\
     <span id=\"setTrainDeparture0\">09:30</span>\
     <span id=\"setTrainArrival0\">11:14</span>\
     <span id=\"setTrainCode0\">152</span>\
     <div><p class=\"info-title\">\u{8eca}\u{5ec2}</p><p class=\"info-data\"><span>Standard</span></p></div>\
     <div class=\"seat-label\"><span>10-12A</span></div>\
     </body></html>"
        .to_string()
}

fn draft() -> BookingPersisted {
    BookingPersisted {
        start_station: Station::Nangang,
        dest_station: Station::Zuouing,
        outbound_date: "2025/01/21".to_string(),
        outbound_time: "930A".to_string(),
        seat_prefer: SeatPref::NoPref,
        class_type: CabinClass::Standard,
        adult_ticket_num: 1,
        child_ticket_num: 0,
        disabled_ticket_num: 0,
        elder_ticket_num: 1,
        college_ticket_num: 0,
    }
}

#[test]
fn a_full_run_reaches_a_confirmation_summary() {
    let mut workflow = SessionWorkflow::new();

    // Stage 1: the booking page starts the session and names the CAPTCHA.
    let captcha_url = workflow
        .start_session(&booking_page(), "SESS42".to_string())
        .unwrap();
    assert_eq!(captcha_url, "https://irs.thsrc.com.tw/captcha/image.png");

    // Stage 2: a human solves the CAPTCHA.
    workflow.provide_captcha_solution("ab12".to_string());

    // Stage 3: the booking submission is assembled and its response lists
    // the trains.
    let url = workflow.submit_booking_url();
    assert!(url.contains("jsessionid=SESS42"));
    let booking = workflow.booking_request(&draft());
    assert_eq!(booking.search_by, "radio31");
    assert_eq!(booking.security_code, "ab12");
    assert_eq!(booking.persisted.outbound_time, "930A");
    workflow.absorb_booking_response(&trains_page()).unwrap();
    assert!(workflow.listed_trains().len() >= 1);
    assert_eq!(workflow.listed_trains()[0].id, 152);

    // Stage 4: the first train is selected and the response carries the
    // member token.
    let selection = workflow.select_train(0);
    assert_eq!(selection.selected_train, "token-152");
    workflow.absorb_train_selection_response(&member_page()).unwrap();

    // Stage 5: the confirmation is assembled with one elder identity and
    // its response yields the summary.
    let worksheet = TicketConfirmationPersisted {
        personal_id: "A123456789".to_string(),
        phone_num: "0911222333".to_string(),
        supplemental_ids: vec![SupplementId {
            key: "TicketPassengerInfoInputPanel:passengerDataView:1:passengerDataView2:passengerDataIdNumber"
                .to_string(),
            value: "B123456789".to_string(),
        }],
    };
    let confirmation = workflow.ticket_confirmation_request(&worksheet);
    assert_eq!(confirmation.member_radio, "radio41");
    assert_eq!(confirmation.agree, "on");
    let summary = workflow.absorb_confirmation_response(&confirmation_page()).unwrap();
    assert!(!summary.ticket_id.is_empty());
    assert_eq!(summary.ticket_id, "07128249");
}

#[test]
fn a_rejected_submission_carries_the_server_messages() {
    let mut workflow = SessionWorkflow::new();
    workflow
        .start_session(&booking_page(), "SESS42".to_string())
        .unwrap();
    workflow.provide_captcha_solution("wrong".to_string());
    let rejection = "<html><body>\
        <span class=\"feedbackPanelERROR\">Security code mismatch.</span>\
        </body></html>";
    let err = workflow.absorb_booking_response(rejection).unwrap_err();
    match err {
        WorkflowError::ValidationRejected(messages) => {
            assert_eq!(messages.errors, vec!["Security code mismatch.".to_string()]);
        },
        other => panic!("expected a validation rejection, got {:?}", other),
    }
}

#[test]
fn a_diverged_page_fails_the_run_as_malformed() {
    let mut workflow = SessionWorkflow::new();
    let err = workflow
        .start_session("<html><body></body></html>", "SESS42".to_string())
        .unwrap_err();
    assert!(matches!(err, WorkflowError::MalformedDocument));
}
