use stasis_bot::blockpos::{BlockPos, BlockPosParseError, BlockPosString};
use stasis_bot::chat::ChatAction;
use stasis_bot::commands::normalize_command;
use stasis_bot::soundness::{describe_entity, EntityInfo};
use stasis_bot::text::{
    ends_with, find_text, join_strings, parse_i32, parse_int, push_dec_padded, remove_line_breaks, replace_text,
    starts_with, str_eq_ignore_ascii_case, substring, trim, IntErrorKind,
};

#[test]
fn block_pos_text_round_trip() {
    for p in [BlockPos::new(0, 0, 0), BlockPos::new(-12, 64, 300), BlockPos::new(i32::MIN, i32::MAX, -1)] {
        let text = BlockPosString(p).to_text();
        assert_eq!(BlockPosString::from_str(&text), Ok(BlockPosString(p)));
    }
}

#[test]
fn block_pos_text_form() {
    assert_eq!(BlockPosString(BlockPos::new(1, -2, 3)).to_text(), "1, -2, 3");
}

#[test]
fn block_pos_ignores_spaces() {
    assert_eq!(BlockPosString::from_str(" 1 ,2,  -3 "), Ok(BlockPosString(BlockPos::new(1, 2, -3))));
}

#[test]
fn block_pos_wrong_part_count() {
    assert_eq!(BlockPosString::from_str("1,2"), Err(BlockPosParseError::WrongPartCount));
    assert_eq!(BlockPosString::from_str("1,2,3,4"), Err(BlockPosParseError::WrongPartCount));
}

#[test]
fn block_pos_invalid_number() {
    assert_eq!(BlockPosString::from_str("1,x,3"), Err(BlockPosParseError::InvalidNumber(1)));
    assert_eq!(BlockPosString::from_str("99999999999,0,0"), Err(BlockPosParseError::InvalidNumber(0)));
    assert_eq!(BlockPosString::from_str("0,0,"), Err(BlockPosParseError::InvalidNumber(2)));
}

#[test]
fn parse_i32_accepts_signs() {
    assert_eq!(parse_i32("+7"), Some(7));
    assert_eq!(parse_i32("-2147483648"), Some(i32::MIN));
    assert_eq!(parse_i32("2147483648"), None);
    assert_eq!(parse_i32("-"), None);
}

#[test]
fn parse_int_error_kinds() {
    assert_eq!(parse_int("", false, 0, 255), Err(IntErrorKind::Empty));
    assert_eq!(parse_int("12a", false, 0, 255), Err(IntErrorKind::InvalidDigit));
    assert_eq!(parse_int("256", false, 0, 255), Err(IntErrorKind::PosOverflow));
    assert_eq!(parse_int("-129", true, -128, 127), Err(IntErrorKind::NegOverflow));
    assert_eq!(parse_int("-5", false, 0, 255), Err(IntErrorKind::InvalidDigit));
    assert_eq!(parse_int("+42", false, 0, 255), Ok(42));
    assert_eq!(IntErrorKind::Empty.describe(), "cannot parse integer from empty string");
    assert_eq!(IntErrorKind::NegOverflow.describe(), "number too small to fit in target type");
}

#[test]
fn uuid_text_is_hyphenated_lowercase() {
    let player = |uuid: u128| EntityInfo {
        kind_id: "minecraft:player".to_string(),
        profile: Some(("Alex".to_string(), uuid)),
        custom_name: None,
    };
    assert_eq!(
        describe_entity(9, &Some(player(0x67e5504410b1426f9247bb680e5fe0c8))),
        "Alex (uuid: 67e55044-10b1-426f-9247-bb680e5fe0c8, id: 9)"
    );
    assert_eq!(describe_entity(0, &Some(player(0))), "Alex (uuid: 00000000-0000-0000-0000-000000000000, id: 0)");
}

#[test]
fn replace_text_replaces_every_occurrence() {
    assert_eq!(replace_text("/tpaccept {NAME} {NAME}", "{NAME}", "Steve"), "/tpaccept Steve Steve");
    assert_eq!(replace_text("/tpdeny", "{NAME}", "Steve"), "/tpdeny");
    assert_eq!(replace_text("aaa", "aa", "b"), "ba");
}

#[test]
fn searching_text() {
    assert_eq!(find_text("abcabc", "bc", 2), Some(4));
    assert_eq!(find_text("abc", "x", 0), None);
    assert!(starts_with("hello", "he"));
    assert!(ends_with("hello", "llo"));
    assert!(!ends_with("lo", "hello"));
    assert_eq!(substring("hello", 1, 3), "el");
}

#[test]
fn trimming_and_line_breaks() {
    assert_eq!(trim("  a b \t"), "a b");
    assert_eq!(remove_line_breaks("a\r\nb\n"), "ab");
}

#[test]
fn case_helpers() {
    assert_eq!(normalize_command("HeLLo"), "hello");
    assert!(str_eq_ignore_ascii_case("Steve", "sTEVE"));
    assert!(!str_eq_ignore_ascii_case("Steve", "Steven"));
}

#[test]
fn debug_text_quotes() {
    assert_eq!(ChatAction::Command("abc".to_string()).describe(), "Command: \"abc\"");
    assert_eq!(ChatAction::Chat("a\"b".to_string()).describe(), "Chat message: \"a\\\"b\"");
}

#[test]
fn joining_and_padding() {
    let items = vec!["a".to_string(), "b".to_string(), "c".to_string()];
    assert_eq!(join_strings(&items, ", "), "a, b, c");
    assert_eq!(join_strings(&Vec::new(), ", "), "");
    let mut s = String::new();
    push_dec_padded(&mut s, 7, 3);
    assert_eq!(s, "007");
}
