use budgetgram::action::{
    Action, ApproveTransactionCategory, CategoryField, CreateCategory, CreateTransaction,
    DeleteCategory, Direction, ShowCategoryList, ShowCategorySettings, UpdateCategory,
};
use budgetgram::codec::{decode, encode, DecodeError, MAX_ENCODED_LEN};
use budgetgram::transport::{parse_token, token};
use budgetgram::wire::{read_varint, write_varint};

fn all_kinds() -> Vec<Action> {
    let list = ShowCategoryList { direction: Direction::Expense };
    vec![
        Action::ShowSettings,
        Action::ShowCategoryList(list),
        Action::ShowCategoryList(ShowCategoryList { direction: Direction::Unspecified }),
        Action::ShowCategorySettings(ShowCategorySettings { category_id: 7, navigated_from: Some(list) }),
        Action::ShowCategorySettings(ShowCategorySettings { category_id: -1, navigated_from: None }),
        Action::ShowCategorySettings(ShowCategorySettings {
            category_id: i64::MIN,
            navigated_from: Some(ShowCategoryList { direction: Direction::Unspecified }),
        }),
        Action::CreateCategory(CreateCategory { direction: Direction::Income }),
        Action::UpdateCategory(UpdateCategory { category_id: 33, field: CategoryField::Label }),
        Action::UpdateCategory(UpdateCategory { category_id: 0, field: CategoryField::Unspecified }),
        Action::DeleteCategory(DeleteCategory { category_id: i64::MAX }),
        Action::CancelCreateCategory,
        Action::CancelUpdateCategory,
        Action::CreateTransaction(CreateTransaction {
            transaction_id: -5,
            direction: Direction::Expense,
            is_short_mode: true,
        }),
        Action::CreateTransaction(CreateTransaction {
            transaction_id: 12,
            direction: Direction::Income,
            is_short_mode: false,
        }),
        Action::ApproveTransactionCategory(ApproveTransactionCategory {
            transaction_id: i64::MIN,
            category_id: i64::MIN,
        }),
    ]
}

#[test]
fn test() {
    let callback = Action::UpdateCategory(UpdateCategory { category_id: 33, field: CategoryField::Label });
    let str = token(&callback).unwrap();
    assert_eq!(str.as_str(), "\u{15}\u{1}\u{1}\u{2}\u{8}@\u{4}");
    assert_eq!(parse_token(&str).unwrap(), callback);
}

#[test]
fn binary_form_of_update_category() {
    let a = Action::UpdateCategory(UpdateCategory { category_id: 33, field: CategoryField::Label });
    assert_eq!(encode(&a), vec![0x2A, 0x04, 0x08, 0x21, 0x10, 0x02]);
}

#[test]
fn defaults_are_left_out() {
    assert_eq!(encode(&Action::ShowSettings), vec![0x0A, 0x00]);
    let a = Action::ShowCategoryList(ShowCategoryList { direction: Direction::Unspecified });
    assert_eq!(encode(&a), vec![0x12, 0x00]);
    let b = Action::ShowCategoryList(ShowCategoryList { direction: Direction::Income });
    assert_eq!(encode(&b), vec![0x12, 0x02, 0x08, 0x02]);
}

#[test]
fn negative_id_takes_ten_bytes() {
    let a = Action::DeleteCategory(DeleteCategory { category_id: -1 });
    let mut expected = vec![0x32, 0x0B, 0x08];
    expected.extend_from_slice(&[0xFF; 9]);
    expected.push(0x01);
    assert_eq!(encode(&a), expected);
}

#[test]
fn every_kind_round_trips_in_binary() {
    for a in all_kinds() {
        assert_eq!(decode(&encode(&a)), Ok(a));
    }
}

#[test]
fn every_kind_round_trips_through_a_token() {
    for a in all_kinds() {
        let t = token(&a).unwrap();
        assert_eq!(parse_token(&t), Ok(a));
    }
}

#[test]
fn encoding_is_deterministic() {
    for a in all_kinds() {
        assert_eq!(encode(&a), encode(&a));
        assert_eq!(token(&a), token(&a));
    }
}

#[test]
fn largest_action_fits_in_a_token() {
    let a = Action::ApproveTransactionCategory(ApproveTransactionCategory {
        transaction_id: -1,
        category_id: -1,
    });
    assert_eq!(encode(&a).len() as u64, MAX_ENCODED_LEN);
    for a in all_kinds() {
        let t = token(&a).unwrap();
        assert!(t.len() <= 64);
        assert!(encode(&a).len() as u64 <= MAX_ENCODED_LEN);
    }
}

#[test]
fn empty_input_is_an_unknown_variant() {
    assert_eq!(decode(&[]), Err(DecodeError::UnknownVariant));
}

#[test]
fn truncated_input_is_rejected() {
    for a in all_kinds() {
        let bytes = encode(&a);
        for k in 0..bytes.len() {
            assert!(decode(&bytes[..k]).is_err(), "prefix {} of {:?}", k, a);
        }
    }
}

#[test]
fn unknown_top_level_field_is_skipped() {
    // field 15 (varint 1), then the update-category variant
    let mut bytes = vec![0x78, 0x01];
    bytes.extend_from_slice(&[0x2A, 0x04, 0x08, 0x21, 0x10, 0x02]);
    assert_eq!(
        decode(&bytes),
        Ok(Action::UpdateCategory(UpdateCategory { category_id: 33, field: CategoryField::Label }))
    );
}

#[test]
fn only_unknown_fields_is_an_unknown_variant() {
    assert_eq!(decode(&[0x78, 0x01]), Err(DecodeError::UnknownVariant));
    assert_eq!(decode(&[0x5A, 0x00]), Err(DecodeError::UnknownVariant));
}

#[test]
fn unknown_inner_field_is_skipped() {
    // delete-category with an extra field 9 (fixed32) before the id
    let bytes = vec![0x32, 0x07, 0x4D, 0x01, 0x02, 0x03, 0x04, 0x08, 0x05];
    assert_eq!(decode(&bytes), Ok(Action::DeleteCategory(DeleteCategory { category_id: 5 })));
}

#[test]
fn wrong_wire_type_is_malformed() {
    // variant field 2 written as a varint
    assert_eq!(decode(&[0x10, 0x01]), Err(DecodeError::Malformed));
    // category id written as a byte string
    assert_eq!(decode(&[0x32, 0x02, 0x0A, 0x00]), Err(DecodeError::Malformed));
}

#[test]
fn field_number_zero_is_malformed() {
    assert_eq!(decode(&[0x00, 0x00]), Err(DecodeError::Malformed));
}

#[test]
fn last_variant_wins() {
    let bytes = vec![0x0A, 0x00, 0x3A, 0x00];
    assert_eq!(decode(&bytes), Ok(Action::CancelCreateCategory));
}

#[test]
fn unknown_enum_values_read_as_unspecified() {
    assert_eq!(
        decode(&[0x12, 0x02, 0x08, 0x09]),
        Ok(Action::ShowCategoryList(ShowCategoryList { direction: Direction::Unspecified }))
    );
}

#[test]
fn random_and_flipped_bytes_never_panic() {
    let mut state: u64 = 0x2545_F491_4F6C_DD1D;
    for len in 0..40usize {
        for _ in 0..50 {
            let mut bytes = Vec::with_capacity(len);
            for _ in 0..len {
                state ^= state << 13;
                state ^= state >> 7;
                state ^= state << 17;
                bytes.push((state >> 24) as u8);
            }
            let _ = decode(&bytes);
        }
    }
    for a in all_kinds() {
        let bytes = encode(&a);
        for i in 0..bytes.len() {
            for bit in 0..8 {
                let mut flipped = bytes.clone();
                flipped[i] ^= 1 << bit;
                let _ = decode(&flipped);
            }
        }
    }
}

#[test]
fn overlong_varint_is_rejected() {
    let bytes = vec![0xFF; 11];
    assert_eq!(read_varint(&bytes, 0, bytes.len()), None);
    let mut big = vec![0xFF; 9];
    big.push(0x02);
    assert_eq!(read_varint(&big, 0, big.len()), None);
    let mut max = vec![0xFF; 9];
    max.push(0x01);
    assert_eq!(read_varint(&max, 0, max.len()), Some((u64::MAX, 10)));
}

#[test]
fn varint_examples() {
    let mut out = Vec::new();
    write_varint(&mut out, 300);
    assert_eq!(out, vec![0xAC, 0x02]);
    assert_eq!(read_varint(&out, 0, out.len()), Some((300, 2)));
    assert_eq!(read_varint(&[0x80], 0, 1), None);
}
