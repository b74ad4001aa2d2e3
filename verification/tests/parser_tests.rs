use thsr_ticket::models::WorkflowError;
use thsr_ticket::parser::assert_submission_errors;
use thsr_ticket::parser::extract_validation_errors;
use thsr_ticket::parser::extract_booking_form_params;
use thsr_ticket::parser::extract_captcha_url;
use thsr_ticket::parser::extract_confirmation_summary;
use thsr_ticket::parser::extract_member_token;
use thsr_ticket::parser::extract_train_options;
use thsr_ticket::parser::parse_discount;

fn train_row(code: &str, depart: &str, arrive: &str, duration: &str, markers: &str, token: &str) -> String {
    format!(
        "<label><span id=\"QueryCode\">{code}</span>\
         <span id=\"QueryDeparture\">{depart}</span>\
         <span id=\"QueryArrival\">{arrive}</span>\
         <div class=\"duration\"><span>travel</span><span>{duration}</span></div>\
         {markers}\
         <input name=\"TrainQueryDataViewPanel:TrainGroup\" value=\"{token}\"/></label>"
    )
}

#[test]
fn two_feedback_errors_come_back_in_document_order() {
    let html = "<html><body>\
        <span class=\"feedbackPanelERROR\">Please enter the booking deadline.</span>\
        <div><span class=\"feedbackPanelERROR\">Security code mismatch.</span></div>\
        </body></html>";
    assert_eq!(
        extract_validation_errors(html),
        vec![
            "Please enter the booking deadline.".to_string(),
            "Security code mismatch.".to_string(),
        ]
    );
    let err = assert_submission_errors(html.to_string()).unwrap_err();
    assert_eq!(
        err.errors,
        vec![
            "Please enter the booking deadline.".to_string(),
            "Security code mismatch.".to_string(),
        ]
    );
}

#[test]
fn a_document_without_feedback_errors_yields_an_empty_list() {
    let html = "<html><body><p>all good</p></body></html>";
    assert_eq!(extract_validation_errors(html), Vec::<String>::new());
    assert!(assert_submission_errors(html.to_string()).is_ok());
}

#[test]
fn two_train_rows_are_extracted_in_row_order() {
    let row1 = train_row(
        "152",
        "10:30",
        "12:00",
        "1:30",
        "<p class=\"early-bird\">Early Bird</p>",
        "token-152",
    );
    let row2 = train_row("163", "11:00", "12:45", "1:45", "", "token-163");
    let html = format!("<html><body>{row1}{row2}</body></html>");
    let trains = extract_train_options(&html).unwrap();
    assert_eq!(trains.len(), 2);
    assert_eq!(trains[0].id, 152);
    assert_eq!(trains[0].depart, "10:30");
    assert_eq!(trains[0].arrive, "12:00");
    assert_eq!(trains[0].travel_time, "1:30");
    assert_eq!(trains[0].discount_str, "Early Bird");
    assert_eq!(trains[0].form_value, "token-152");
    assert_eq!(trains[1].id, 163);
    assert_eq!(trains[1].discount_str, "");
    assert_eq!(trains[1].form_value, "token-163");
}

#[test]
fn both_discount_labels_join_with_a_comma() {
    let row = train_row(
        "100",
        "08:00",
        "09:00",
        "1:00",
        "<p class=\"early-bird\">Early Bird</p><p class=\"student\">College Student</p>",
        "t",
    );
    let trains = extract_train_options(&format!("<html><body>{row}</body></html>")).unwrap();
    assert_eq!(trains[0].discount_str, "Early Bird, College Student");
}

#[test]
fn parse_discount_reads_one_row_fragment() {
    assert_eq!(parse_discount("<p class=\"student\">College Student</p>"), "College Student");
    assert_eq!(parse_discount("<p>nothing marked</p>"), "");
}

#[test]
fn a_row_missing_its_code_is_a_malformed_document() {
    let row = "<label><span id=\"QueryDeparture\">10:30</span></label>";
    let err = extract_train_options(&format!("<html><body>{row}</body></html>")).unwrap_err();
    assert!(matches!(err, WorkflowError::MalformedDocument));
}

#[test]
fn a_row_with_a_non_numeric_code_is_a_malformed_document() {
    let row = train_row("15a", "10:30", "12:00", "1:30", "", "t");
    let err = extract_train_options(&format!("<html><body>{row}</body></html>")).unwrap_err();
    assert!(matches!(err, WorkflowError::MalformedDocument));
}

#[test]
fn the_checked_member_radio_value_is_the_token() {
    let html = "<html><body>\
        <input name=\"TicketMemberSystemInputPanel:TakerMemberSystemDataView:memberSystemRadioGroup\" value=\"radio40\"/>\
        <input name=\"TicketMemberSystemInputPanel:TakerMemberSystemDataView:memberSystemRadioGroup\" checked=\"checked\" value=\"radio41\"/>\
        </body></html>";
    assert_eq!(extract_member_token(html).unwrap(), "radio41");
}

#[test]
fn a_page_without_a_checked_member_radio_is_malformed() {
    let html = "<html><body><input name=\"other\" value=\"x\"/></body></html>";
    let err = extract_member_token(html).unwrap_err();
    assert!(matches!(err, WorkflowError::MalformedDocument));
}

fn booking_page() -> String {
    "<html><body>\
     <input name=\"bookingMethod\" data-target=\"search-by-time\" value=\"radio31\"/>\
     <select name=\"toTimeTable\">\
     <option selected=\"selected\">-</option>\
     <option value=\"900A\">9:00</option>\
     <option value=\"930A\">9:30</option>\
     </select>\
     <img id=\"BookingS1Form_homeCaptcha_passCode\" src=\"/captcha/image.png\"/>\
     </body></html>"
        .to_string()
}

#[test]
fn booking_form_params_carry_token_slots_and_session() {
    let params = extract_booking_form_params(&booking_page(), "SESS42".to_string()).unwrap();
    assert_eq!(params.session_id, "SESS42");
    assert_eq!(params.search_by_time_value, "radio31");
    assert_eq!(params.time_options, vec!["900A".to_string(), "930A".to_string()]);
}

#[test]
fn a_page_without_the_search_token_is_malformed() {
    let html = "<html><body><select name=\"toTimeTable\"></select></body></html>";
    let err = extract_booking_form_params(html, "S".to_string()).unwrap_err();
    assert!(matches!(err, WorkflowError::MalformedDocument));
}

#[test]
fn the_captcha_url_is_rooted_at_the_booking_site() {
    let url = extract_captcha_url(&booking_page()).unwrap();
    assert_eq!(url, "https://irs.thsrc.com.tw/captcha/image.png");
}

fn confirmation_page() -> String {
    format!(
        "<html><body>\
         <p class=\"pnr-code\"><span>07128249</span><span>other</span></p>\
         <span id=\"setTrainTotalPriceValue\">2,830</span>\
         <span class=\"date\"><span>2025/01/21</span></span>\
         <p class=\"departure-stn\"><span>Nangang</span></p>\
         <p class=\"arrival-stn\"><span>Zuoying</span></p>\
         <span id=\"setTrainDeparture0\">09:30</span>\
         <span id=\"setTrainArrival0\">11:14</span>\
         <span id=\"setTrainCode0\">152</span>\
         <div><p class=\"info-title\">\u{8eca}\u{5ec2}</p><p class=\"info-data\"><span>Standard</span></p></div>\
         <div class=\"seat-label\"><span>10-12A</span></div>\
         <div class=\"seat-label\"><span>10-12B</span></div>\
         </body></html>"
    )
}

#[test]
fn the_confirmation_summary_reads_every_fixed_field() {
    let summary = extract_confirmation_summary(&confirmation_page()).unwrap();
    assert_eq!(summary.ticket_id, "07128249");
    assert_eq!(summary.total_price, "2,830");
    assert_eq!(summary.date, "2025/01/21");
    assert_eq!(summary.from_station, "Nangang");
    assert_eq!(summary.to_station, "Zuoying");
    assert_eq!(summary.depart_time, "09:30");
    assert_eq!(summary.arrive_time, "11:14");
    assert_eq!(summary.train_code, "152");
    assert_eq!(summary.cabin_label, "Standard");
    assert_eq!(summary.seat_labels, vec!["10-12A".to_string(), "10-12B".to_string()]);
}

#[test]
fn a_confirmation_page_without_a_ticket_id_is_malformed() {
    let html = "<html><body><span id=\"setTrainTotalPriceValue\">2,830</span></body></html>";
    let err = extract_confirmation_summary(html).unwrap_err();
    assert!(matches!(err, WorkflowError::MalformedDocument));
}
