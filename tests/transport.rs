use budgetgram::action::{Action, CreateCategory, Direction};
use budgetgram::codec::DecodeError;
use budgetgram::dispatch::{dispatch, Dispatch};
use budgetgram::transport::{fits_token, from_text, is_decodable_text, parse_token, to_text, token};

#[test]
fn every_byte_value_round_trips_through_text() {
    let all: Vec<u8> = (0..=255).collect();
    let t = to_text(&all);
    assert_eq!(from_text(&t), Ok(all.clone()));
    for b in 0..=255u8 {
        let t = to_text(&[b]);
        assert_eq!(from_text(&t), Ok(vec![b]));
    }
}

#[test]
fn empty_bytes_give_empty_text() {
    assert_eq!(to_text(&[]), "");
    assert_eq!(from_text(""), Ok(vec![]));
}

#[test]
fn text_differs_from_the_bytes() {
    assert_eq!(to_text(&[0x2A, 0x04]), "\u{15}\u{1}\u{780}");
    assert_ne!(to_text(b"AB").as_bytes(), b"AB");
}

#[test]
fn escaped_groups_take_two_bytes() {
    // a zero group followed by another group is written as one two-byte character
    let t = to_text(&[0x00, 0xFF]);
    assert!(t.chars().any(|c| c as u32 > 127));
    assert_eq!(from_text(&t), Ok(vec![0x00, 0xFF]));
}

#[test]
fn text_with_an_unused_escape_slot_is_rejected() {
    assert!(!is_decodable_text("\u{0600}"));
    assert!(is_decodable_text("abc\u{0700}"));
    assert_eq!(from_text("ab\u{0600}"), Err(DecodeError::Malformed));
    assert_eq!(parse_token("\u{0E00}"), Err(DecodeError::Malformed));
}

#[test]
fn token_size_precheck() {
    assert!(fits_token(0));
    assert!(fits_token(28));
    assert!(!fits_token(29));
    assert!(!fits_token(usize::MAX));
}

#[test]
fn stale_or_foreign_payloads_are_only_acknowledged() {
    assert_eq!(dispatch(None), Dispatch::AcknowledgeOnly);
    assert_eq!(dispatch(Some("")), Dispatch::AcknowledgeOnly);
    assert_eq!(dispatch(Some("\u{0600}")), Dispatch::AcknowledgeOnly);
    assert_eq!(dispatch(Some("hello")), Dispatch::AcknowledgeOnly);
}

#[test]
fn own_tokens_reach_their_handler() {
    let a = Action::CreateCategory(CreateCategory { direction: Direction::Income });
    let t = token(&a).unwrap();
    assert_eq!(dispatch(Some(&t)), Dispatch::Handle(a));
}
