use thsr_ticket::codec::decode_ticket_count;
use thsr_ticket::codec::encode_ticket_count;
use thsr_ticket::codec::format_i32;
use thsr_ticket::codec::format_supplement_ids_key;
use thsr_ticket::codec::format_u32;
use thsr_ticket::codec::parse_u32;
use thsr_ticket::codec::str_equal;
use thsr_ticket::models::WorkflowError;

#[test]
fn encode_produces_count_then_suffix() {
    assert_eq!(encode_ticket_count(1, "F"), "1F");
    assert_eq!(encode_ticket_count(0, "H"), "0H");
    assert_eq!(encode_ticket_count(255, "P"), "255P");
    assert_eq!(encode_ticket_count(12, "E"), "12E");
}

#[test]
fn decode_round_trips_every_count_and_suffix() {
    for suffix in ["F", "H", "W", "E", "P"] {
        for n in 0..=255u8 {
            let wire = encode_ticket_count(n, suffix);
            assert_eq!(decode_ticket_count(&wire, suffix), Ok(n));
        }
    }
}

#[test]
fn decode_rejects_suffix_mismatch() {
    assert_eq!(decode_ticket_count("3X", "F"), Err(WorkflowError::MalformedCount));
}

#[test]
fn decode_rejects_empty_numeric_prefix() {
    assert_eq!(decode_ticket_count("F", "F"), Err(WorkflowError::MalformedCount));
}

#[test]
fn decode_rejects_short_and_empty_strings() {
    assert_eq!(decode_ticket_count("", "F"), Err(WorkflowError::MalformedCount));
    assert_eq!(decode_ticket_count("", ""), Err(WorkflowError::MalformedCount));
}

#[test]
fn decode_accepts_leading_zeros() {
    assert_eq!(decode_ticket_count("007F", "F"), Ok(7));
    assert_eq!(decode_ticket_count("00W", "W"), Ok(0));
}

#[test]
fn decode_rejects_sign_characters() {
    assert_eq!(decode_ticket_count("+3F", "F"), Err(WorkflowError::MalformedCount));
    assert_eq!(decode_ticket_count("-3F", "F"), Err(WorkflowError::MalformedCount));
}

#[test]
fn decode_rejects_counts_too_large_for_a_byte() {
    assert_eq!(decode_ticket_count("255E", "E"), Ok(255));
    assert_eq!(decode_ticket_count("256E", "E"), Err(WorkflowError::MalformedCount));
    assert_eq!(
        decode_ticket_count("99999999999999999999E", "E"),
        Err(WorkflowError::MalformedCount)
    );
}

#[test]
fn decode_with_empty_suffix_reads_the_digits() {
    assert_eq!(decode_ticket_count("12", ""), Ok(12));
}

#[test]
fn format_u32_renders_canonical_decimal() {
    assert_eq!(format_u32(0), "0");
    assert_eq!(format_u32(7), "7");
    assert_eq!(format_u32(10), "10");
    assert_eq!(format_u32(4294967295), "4294967295");
}

#[test]
fn format_i32_renders_sign() {
    assert_eq!(format_i32(0), "0");
    assert_eq!(format_i32(152), "152");
    assert_eq!(format_i32(-5), "-5");
    assert_eq!(format_i32(i32::MIN), "-2147483648");
}

#[test]
fn parse_u32_accepts_digit_strings_only() {
    assert_eq!(parse_u32("0"), Some(0));
    assert_eq!(parse_u32("152"), Some(152));
    assert_eq!(parse_u32("4294967295"), Some(4294967295));
    assert_eq!(parse_u32("4294967296"), None);
    assert_eq!(parse_u32(""), None);
    assert_eq!(parse_u32("12a"), None);
    assert_eq!(parse_u32("+12"), None);
}

#[test]
fn supplement_key_embeds_the_position() {
    assert_eq!(
        format_supplement_ids_key(3),
        "TicketPassengerInfoInputPanel:passengerDataView:3:passengerDataView2:passengerDataIdNumber"
    );
    assert_eq!(
        format_supplement_ids_key(0),
        "TicketPassengerInfoInputPanel:passengerDataView:0:passengerDataView2:passengerDataIdNumber"
    );
}

#[test]
fn str_equal_compares_contents() {
    assert!(str_equal("abc", "abc"));
    assert!(!str_equal("abc", "abd"));
    assert!(!str_equal("abc", "abcd"));
    assert!(str_equal("", ""));
}
