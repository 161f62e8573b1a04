use holdinvoice::hooks::{get_failure_message, parse_failure_message};

#[test]
fn failure_message_layout() {
    assert_eq!(get_failure_message(800_000, 1000), "400F00000000000003E8000C3500");
    assert_eq!(get_failure_message(0, 0), "400F000000000000000000000000");
    assert_eq!(get_failure_message(u32::MAX, u64::MAX), "400FFFFFFFFFFFFFFFFFFFFFFFFF");
}

#[test]
fn failure_message_reads_back() {
    for (height, amount) in [(0u32, 0u64), (1, 1), (800_000, 1000), (u32::MAX, u64::MAX), (7, 600)] {
        let message = get_failure_message(height, amount);
        assert_eq!(message.len(), 28);
        assert_eq!(parse_failure_message(&message), Some((amount, height)));
    }
}

#[test]
fn failure_message_parse_reads_lower_case_digits() {
    assert_eq!(parse_failure_message("400F00000000000003e8000c3500"), Some((1000, 800_000)));
}

#[test]
fn failure_message_parse_rejects_other_text() {
    assert_eq!(parse_failure_message(""), None);
    assert_eq!(parse_failure_message("400F"), None);
    assert_eq!(parse_failure_message("400E00000000000003E8000C3500"), None);
    assert_eq!(parse_failure_message("400f00000000000003E8000C3500"), None);
    assert_eq!(parse_failure_message("400F00000000000003E8000C350"), None);
    assert_eq!(parse_failure_message("400F00000000000003E8000C35000"), None);
    assert_eq!(parse_failure_message("400F0000000000000XE8000C3500"), None);
    assert_eq!(parse_failure_message("400F00000000000003E8000C35G0"), None);
}
