//! Binary form of an action: one length-delimited field whose number names the variant
//! and whose content holds the variant's own fields. Default values are left out.
use crate::action::{
    Direction, CategoryField, direction_number, direction_of, field_number, field_of, Action, ApproveTransactionCategory,
    CreateCategory, CreateTransaction, DeleteCategory, ShowCategoryList, ShowCategorySettings,
    UpdateCategory,
};
use crate::wire::{
    field_bytes, fields_bytes, lacks, lemma_fields_bytes_concat, lemma_fields_bytes_single,
    lemma_fields_round_trip, lemma_scan_bytes_skip, lemma_scan_varint_field, lemma_varint_bytes_len,
    parse_fields, scan_bytes, scan_varint, varint_bytes, varint_field, writable, RawField, WireValue,
    Field, field_within, fields_view, find_bytes, find_varint, read_fields, write_bytes_field,
    write_varint_field,
};
use vstd::prelude::*;

verus! {

pub const TAG_SHOW_SETTINGS: u64 = 1;

pub const TAG_SHOW_CATEGORY_LIST: u64 = 2;

pub const TAG_SHOW_CATEGORY_SETTINGS: u64 = 3;

pub const TAG_CREATE_CATEGORY: u64 = 4;

pub const TAG_UPDATE_CATEGORY: u64 = 5;

pub const TAG_DELETE_CATEGORY: u64 = 6;

pub const TAG_CANCEL_CREATE_CATEGORY: u64 = 7;

pub const TAG_CANCEL_UPDATE_CATEGORY: u64 = 8;

pub const TAG_CREATE_TRANSACTION: u64 = 9;

pub const TAG_APPROVE_TRANSACTION_CATEGORY: u64 = 10;

/// Why a byte string is not an action.
#[derive(Clone, Copy, Debug, PartialEq, Eq, Structural)]
pub enum DecodeError {
    /// Truncated or otherwise ill-formed input.
    Malformed,
    /// Well-formed input that names no variant this build knows.
    UnknownVariant,
}

/// Two's complement bits of `v`, as protobuf writes an `int64`.
pub open spec fn wire_of_i64(v: i64) -> u64 {
    if v >= 0 {
        v as u64
    } else {
        (v + 0x1_0000_0000_0000_0000) as u64
    }
}

pub open spec fn i64_of_wire(u: u64) -> i64 {
    if u < 0x8000_0000_0000_0000 {
        u as i64
    } else {
        (u - 0x1_0000_0000_0000_0000) as i64
    }
}

pub open spec fn bool_number(b: bool) -> u64 {
    if b {
        1
    } else {
        0
    }
}

pub open spec fn action_tag(a: Action) -> u64 {
    match a {
        Action::ShowSettings => TAG_SHOW_SETTINGS,
        Action::ShowCategoryList(_) => TAG_SHOW_CATEGORY_LIST,
        Action::ShowCategorySettings(_) => TAG_SHOW_CATEGORY_SETTINGS,
        Action::CreateCategory(_) => TAG_CREATE_CATEGORY,
        Action::UpdateCategory(_) => TAG_UPDATE_CATEGORY,
        Action::DeleteCategory(_) => TAG_DELETE_CATEGORY,
        Action::CancelCreateCategory => TAG_CANCEL_CREATE_CATEGORY,
        Action::CancelUpdateCategory => TAG_CANCEL_UPDATE_CATEGORY,
        Action::CreateTransaction(_) => TAG_CREATE_TRANSACTION,
        Action::ApproveTransactionCategory(_) => TAG_APPROVE_TRANSACTION_CATEGORY,
    }
}

pub open spec fn list_fields(l: ShowCategoryList) -> Seq<RawField> {
    varint_field(1, direction_number(l.direction))
}

pub open spec fn origin_field(o: Option<ShowCategoryList>) -> Seq<RawField> {
    match o {
        None => seq![],
        Some(l) => seq![RawField { number: 2, value: WireValue::Bytes(fields_bytes(list_fields(l))) }],
    }
}

/// The fields of the variant's own message.
pub open spec fn payload_fields(a: Action) -> Seq<RawField> {
    match a {
        Action::ShowSettings => seq![],
        Action::ShowCategoryList(l) => list_fields(l),
        Action::ShowCategorySettings(s) => varint_field(1, wire_of_i64(s.category_id)) + origin_field(
            s.navigated_from,
        ),
        Action::CreateCategory(c) => varint_field(1, direction_number(c.direction)),
        Action::UpdateCategory(u) => varint_field(1, wire_of_i64(u.category_id)) + varint_field(
            2,
            field_number(u.field),
        ),
        Action::DeleteCategory(d) => varint_field(1, wire_of_i64(d.category_id)),
        Action::CancelCreateCategory => seq![],
        Action::CancelUpdateCategory => seq![],
        Action::CreateTransaction(t) => varint_field(1, wire_of_i64(t.transaction_id)) + varint_field(
            2,
            direction_number(t.direction),
        ) + varint_field(3, bool_number(t.is_short_mode)),
        Action::ApproveTransactionCategory(t) => varint_field(1, wire_of_i64(t.transaction_id))
            + varint_field(2, wire_of_i64(t.category_id)),
    }
}

pub open spec fn payload_bytes(a: Action) -> Seq<u8> {
    fields_bytes(payload_fields(a))
}

/// The binary form of `a`.
pub open spec fn encode_spec(a: Action) -> Seq<u8> {
    field_bytes(RawField { number: action_tag(a), value: WireValue::Bytes(payload_bytes(a)) })
}

pub open spec fn decode_list(fs: Seq<RawField>) -> Option<ShowCategoryList> {
    match scan_varint(fs, 1) {
        None => None,
        Some(d) => Some(ShowCategoryList { direction: direction_of(d) }),
    }
}

pub open spec fn decode_origin(fs: Seq<RawField>) -> Option<Option<ShowCategoryList>> {
    match scan_bytes(fs, 2, 2) {
        None => None,
        Some(None) => Some(None),
        Some(Some((_, p))) => match parse_fields(p) {
            None => None,
            Some(inner) => match decode_list(inner) {
                None => None,
                Some(l) => Some(Some(l)),
            },
        },
    }
}

/// Reads the fields of the variant numbered `tag`; unknown field numbers are skipped.
pub open spec fn decode_payload(tag: u64, fs: Seq<RawField>) -> Option<Action> {
    if tag == TAG_SHOW_SETTINGS {
        Some(Action::ShowSettings)
    } else if tag == TAG_SHOW_CATEGORY_LIST {
        match decode_list(fs) {
            None => None,
            Some(l) => Some(Action::ShowCategoryList(l)),
        }
    } else if tag == TAG_SHOW_CATEGORY_SETTINGS {
        match (scan_varint(fs, 1), decode_origin(fs)) {
            (Some(id), Some(o)) => Some(
                Action::ShowCategorySettings(
                    ShowCategorySettings { category_id: i64_of_wire(id), navigated_from: o },
                ),
            ),
            _ => None,
        }
    } else if tag == TAG_CREATE_CATEGORY {
        match scan_varint(fs, 1) {
            None => None,
            Some(d) => Some(Action::CreateCategory(CreateCategory { direction: direction_of(d) })),
        }
    } else if tag == TAG_UPDATE_CATEGORY {
        match (scan_varint(fs, 1), scan_varint(fs, 2)) {
            (Some(id), Some(f)) => Some(
                Action::UpdateCategory(
                    UpdateCategory { category_id: i64_of_wire(id), field: field_of(f) },
                ),
            ),
            _ => None,
        }
    } else if tag == TAG_DELETE_CATEGORY {
        match scan_varint(fs, 1) {
            None => None,
            Some(id) => Some(
                Action::DeleteCategory(DeleteCategory { category_id: i64_of_wire(id) }),
            ),
        }
    } else if tag == TAG_CANCEL_CREATE_CATEGORY {
        Some(Action::CancelCreateCategory)
    } else if tag == TAG_CANCEL_UPDATE_CATEGORY {
        Some(Action::CancelUpdateCategory)
    } else if tag == TAG_CREATE_TRANSACTION {
        match (scan_varint(fs, 1), scan_varint(fs, 2), scan_varint(fs, 3)) {
            (Some(id), Some(d), Some(s)) => Some(
                Action::CreateTransaction(
                    CreateTransaction {
                        transaction_id: i64_of_wire(id),
                        direction: direction_of(d),
                        is_short_mode: s != 0,
                    },
                ),
            ),
            _ => None,
        }
    } else if tag == TAG_APPROVE_TRANSACTION_CATEGORY {
        match (scan_varint(fs, 1), scan_varint(fs, 2)) {
            (Some(t), Some(c)) => Some(
                Action::ApproveTransactionCategory(
                    ApproveTransactionCategory {
                        transaction_id: i64_of_wire(t),
                        category_id: i64_of_wire(c),
                    },
                ),
            ),
            _ => None,
        }
    } else {
        None
    }
}

/// What `b` decodes to. The last field naming a known variant wins; fields with other
/// numbers are skipped, at the top and inside the variant.
pub open spec fn decode_spec(b: Seq<u8>) -> Result<Action, DecodeError> {
    match parse_fields(b) {
        None => Err(DecodeError::Malformed),
        Some(fs) => match scan_bytes(fs, TAG_SHOW_SETTINGS, TAG_APPROVE_TRANSACTION_CATEGORY) {
            None => Err(DecodeError::Malformed),
            Some(None) => Err(DecodeError::UnknownVariant),
            Some(Some((tag, p))) => match parse_fields(p) {
                None => Err(DecodeError::Malformed),
                Some(pf) => match decode_payload(tag, pf) {
                    None => Err(DecodeError::Malformed),
                    Some(a) => Ok(a),
                },
            },
        },
    }
}

/// Longest binary form of any action, in bytes.
pub const MAX_ENCODED_LEN: u64 = 24;

pub open spec fn all_writable(fs: Seq<RawField>) -> bool {
    forall|i: int| 0 <= i < fs.len() ==> writable(#[trigger] fs[i])
}

proof fn lemma_all_writable_concat(a: Seq<RawField>, b: Seq<RawField>)
    requires
        all_writable(a),
        all_writable(b),
    ensures
        all_writable(a + b),
{
    assert forall|i: int| 0 <= i < (a + b).len() implies writable(#[trigger] (a + b)[i]) by {
        if i < a.len() {
            assert((a + b)[i] == a[i]);
        } else {
            assert((a + b)[i] == b[i - a.len()]);
        }
    }
}

proof fn lemma_varint_field_size(number: u64, v: u64)
    requires
        1 <= number < 16,
    ensures
        all_writable(varint_field(number, v)),
        fields_bytes(varint_field(number, v)).len() <= 11,
        v < 128 ==> fields_bytes(varint_field(number, v)).len() <= 2,
{
    if v != 0 {
        let f = RawField { number, value: WireValue::Varint(v) };
        lemma_fields_bytes_single(f);
        lemma_varint_bytes_len((number * 8) as u64);
        lemma_varint_bytes_len(v);
    }
}

proof fn lemma_i64_wire(v: i64)
    ensures
        i64_of_wire(wire_of_i64(v)) == v,
{
}

proof fn lemma_concat_size(a: Seq<RawField>, b: Seq<RawField>)
    requires
        all_writable(a),
        all_writable(b),
    ensures
        all_writable(a + b),
        fields_bytes(a + b).len() == fields_bytes(a).len() + fields_bytes(b).len(),
{
    lemma_all_writable_concat(a, b);
    lemma_fields_bytes_concat(a, b);
}

proof fn lemma_origin_size(o: Option<ShowCategoryList>)
    ensures
        all_writable(origin_field(o)),
        fields_bytes(origin_field(o)).len() <= 4,
{
    if let Some(l) = o {
        lemma_varint_field_size(1, direction_number(l.direction));
        let p = fields_bytes(list_fields(l));
        let f = RawField { number: 2, value: WireValue::Bytes(p) };
        lemma_fields_bytes_single(f);
        lemma_varint_bytes_len(18u64);
        lemma_varint_bytes_len(p.len() as u64);
    }
}

/// The fields of every variant can be written, and they take at most 22 bytes.
proof fn lemma_payload_size(a: Action)
    ensures
        all_writable(payload_fields(a)),
        payload_bytes(a).len() <= 22,
{
    match a {
        Action::ShowCategoryList(l) => {
            lemma_varint_field_size(1, direction_number(l.direction));
        },
        Action::ShowCategorySettings(s) => {
            lemma_varint_field_size(1, wire_of_i64(s.category_id));
            lemma_origin_size(s.navigated_from);
            lemma_concat_size(
                varint_field(1, wire_of_i64(s.category_id)),
                origin_field(s.navigated_from),
            );
        },
        Action::CreateCategory(c) => {
            lemma_varint_field_size(1, direction_number(c.direction));
        },
        Action::UpdateCategory(u) => {
            lemma_varint_field_size(1, wire_of_i64(u.category_id));
            lemma_varint_field_size(2, field_number(u.field));
            lemma_concat_size(
                varint_field(1, wire_of_i64(u.category_id)),
                varint_field(2, field_number(u.field)),
            );
        },
        Action::DeleteCategory(d) => {
            lemma_varint_field_size(1, wire_of_i64(d.category_id));
        },
        Action::CreateTransaction(t) => {
            let a1 = varint_field(1, wire_of_i64(t.transaction_id));
            let a2 = varint_field(2, direction_number(t.direction));
            let a3 = varint_field(3, bool_number(t.is_short_mode));
            lemma_varint_field_size(1, wire_of_i64(t.transaction_id));
            lemma_varint_field_size(2, direction_number(t.direction));
            lemma_varint_field_size(3, bool_number(t.is_short_mode));
            lemma_concat_size(a1, a2);
            lemma_concat_size(a1 + a2, a3);
        },
        Action::ApproveTransactionCategory(t) => {
            lemma_varint_field_size(1, wire_of_i64(t.transaction_id));
            lemma_varint_field_size(2, wire_of_i64(t.category_id));
            lemma_concat_size(
                varint_field(1, wire_of_i64(t.transaction_id)),
                varint_field(2, wire_of_i64(t.category_id)),
            );
        },
        _ => {},
    }
}

/// The binary form of an action is one key byte, one length byte and the variant's
/// fields; it never exceeds `MAX_ENCODED_LEN` bytes.
pub proof fn lemma_encoded_size(a: Action)
    ensures
        encode_spec(a) == seq![(action_tag(a) * 8 + 2) as u8, payload_bytes(a).len() as u8]
            + payload_bytes(a),
        payload_bytes(a).len() <= 22,
        encode_spec(a).len() <= MAX_ENCODED_LEN,
{
    lemma_payload_size(a);
    let key = (action_tag(a) * 8 + 2) as u64;
    assert(varint_bytes(key) =~= seq![key as u8]);
    assert(varint_bytes(payload_bytes(a).len() as u64) =~= seq![payload_bytes(a).len() as u8]);
    assert(encode_spec(a) =~= seq![key as u8, payload_bytes(a).len() as u8] + payload_bytes(a));
}

proof fn lemma_decode_list(l: ShowCategoryList)
    ensures
        decode_list(list_fields(l)) == Some(l),
{
    let v = varint_field(1, direction_number(l.direction));
    lemma_scan_varint_field(seq![], seq![], 1, direction_number(l.direction));
    assert(Seq::<RawField>::empty() + v + Seq::<RawField>::empty() =~= v);
}

proof fn lemma_decode_origin(id: u64, o: Option<ShowCategoryList>)
    ensures
        decode_origin(varint_field(1, id) + origin_field(o)) == Some(o),
{
    let v = varint_field(1, id);
    let fs = v + origin_field(o);
    lemma_scan_bytes_skip(seq![], v, 2, 2);
    assert(Seq::<RawField>::empty() + v =~= v);
    match o {
        None => {
            assert(fs =~= v);
        },
        Some(l) => {
            assert(fs.drop_last() =~= v);
            lemma_varint_field_size(1, direction_number(l.direction));
            lemma_fields_round_trip(list_fields(l));
            lemma_decode_list(l);
        },
    }
}

proof fn lemma_decode_payload(a: Action)
    ensures
        decode_payload(action_tag(a), payload_fields(a)) == Some(a),
{
    let e = Seq::<RawField>::empty();
    match a {
        Action::ShowCategoryList(l) => {
            lemma_decode_list(l);
        },
        Action::ShowCategorySettings(s) => {
            let v = varint_field(1, wire_of_i64(s.category_id));
            let o = origin_field(s.navigated_from);
            lemma_scan_varint_field(e, o, 1, wire_of_i64(s.category_id));
            assert(e + v + o =~= v + o);
            lemma_decode_origin(wire_of_i64(s.category_id), s.navigated_from);
            lemma_i64_wire(s.category_id);
        },
        Action::CreateCategory(c) => {
            let v = varint_field(1, direction_number(c.direction));
            lemma_scan_varint_field(e, e, 1, direction_number(c.direction));
            assert(e + v + e =~= v);
        },
        Action::UpdateCategory(u) => {
            let v1 = varint_field(1, wire_of_i64(u.category_id));
            let v2 = varint_field(2, field_number(u.field));
            lemma_scan_varint_field(e, v2, 1, wire_of_i64(u.category_id));
            lemma_scan_varint_field(v1, e, 2, field_number(u.field));
            assert(e + v1 + v2 =~= v1 + v2);
            assert(v1 + v2 + e =~= v1 + v2);
            lemma_i64_wire(u.category_id);
        },
        Action::DeleteCategory(d) => {
            let v = varint_field(1, wire_of_i64(d.category_id));
            lemma_scan_varint_field(e, e, 1, wire_of_i64(d.category_id));
            assert(e + v + e =~= v);
            lemma_i64_wire(d.category_id);
        },
        Action::CreateTransaction(t) => {
            let v1 = varint_field(1, wire_of_i64(t.transaction_id));
            let v2 = varint_field(2, direction_number(t.direction));
            let v3 = varint_field(3, bool_number(t.is_short_mode));
            lemma_scan_varint_field(e, v2 + v3, 1, wire_of_i64(t.transaction_id));
            lemma_scan_varint_field(v1, v3, 2, direction_number(t.direction));
            lemma_scan_varint_field(v1 + v2, e, 3, bool_number(t.is_short_mode));
            assert(e + v1 + (v2 + v3) =~= v1 + v2 + v3);
            assert(v1 + v2 + v3 + e =~= v1 + v2 + v3);
            lemma_i64_wire(t.transaction_id);
        },
        Action::ApproveTransactionCategory(t) => {
            let v1 = varint_field(1, wire_of_i64(t.transaction_id));
            let v2 = varint_field(2, wire_of_i64(t.category_id));
            lemma_scan_varint_field(e, v2, 1, wire_of_i64(t.transaction_id));
            lemma_scan_varint_field(v1, e, 2, wire_of_i64(t.category_id));
            assert(e + v1 + v2 =~= v1 + v2);
            assert(v1 + v2 + e =~= v1 + v2);
            lemma_i64_wire(t.transaction_id);
            lemma_i64_wire(t.category_id);
        },
        _ => {},
    }
}

/// Decoding the binary form of an action gives the action back.
pub proof fn lemma_decode_encode(a: Action)
    ensures
        decode_spec(encode_spec(a)) == Ok::<Action, DecodeError>(a),
{
    lemma_payload_size(a);
    let top = RawField { number: action_tag(a), value: WireValue::Bytes(payload_bytes(a)) };
    let one = seq![top];
    lemma_fields_bytes_single(top);
    assert(one[0] == top);
    lemma_fields_round_trip(one);
    assert(parse_fields(encode_spec(a)) == Some(one));
    assert(one.drop_last() =~= Seq::<RawField>::empty());
    assert(one.last() == top);
    assert(scan_bytes(one.drop_last(), TAG_SHOW_SETTINGS, TAG_APPROVE_TRANSACTION_CATEGORY) == Some(
        None::<(u64, Seq<u8>)>,
    ));
    assert(scan_bytes(one, TAG_SHOW_SETTINGS, TAG_APPROVE_TRANSACTION_CATEGORY) == Some(
        Some((action_tag(a), payload_bytes(a))),
    ));
    lemma_fields_round_trip(payload_fields(a));
    assert(parse_fields(payload_bytes(a)) == Some(payload_fields(a)));
    lemma_decode_payload(a);
}

/// Every proper prefix of the binary form of an action is rejected: cutting a token
/// short never yields another action.
pub proof fn lemma_truncated_rejected(a: Action, k: int)
    requires
        0 <= k < encode_spec(a).len(),
    ensures
        decode_spec(encode_spec(a).subrange(0, k)) is Err,
{
    lemma_encoded_size(a);
    let s = encode_spec(a).subrange(0, k);
    if k == 0 {
        assert(s =~= Seq::<u8>::empty());
        assert(scan_bytes(Seq::<RawField>::empty(), TAG_SHOW_SETTINGS, TAG_APPROVE_TRANSACTION_CATEGORY)
            == Some(None::<(u64, Seq<u8>)>));
    } else {
        assert(s[0] == encode_spec(a)[0]);
        let rest = s.subrange(1, k);
        if k >= 2 {
            assert(rest[0] == encode_spec(a)[1]);
            assert(rest.subrange(1, rest.len() as int).len() < payload_bytes(a).len());
        } else {
            assert(rest.len() == 0);
        }
    }
}

// ---------------------------------------------------------------------------
// Executable encoding and decoding.

fn i64_to_wire(v: i64) -> (r: u64)
    ensures
        r == wire_of_i64(v),
{
    if v >= 0 {
        v as u64
    } else {
        ((v + i64::MAX) + 1) as u64 + 0x8000_0000_0000_0000
    }
}

fn i64_from_wire(u: u64) -> (r: i64)
    ensures
        r == i64_of_wire(u),
{
    if u < 0x8000_0000_0000_0000 {
        u as i64
    } else {
        ((u - 0x8000_0000_0000_0000) as i64 - i64::MAX) - 1
    }
}

/// The field number that names the variant of `a`.
pub fn variant_tag(a: &Action) -> (r: u64)
    ensures
        r == action_tag(*a),
{
    match a {
        Action::ShowSettings => TAG_SHOW_SETTINGS,
        Action::ShowCategoryList(_) => TAG_SHOW_CATEGORY_LIST,
        Action::ShowCategorySettings(_) => TAG_SHOW_CATEGORY_SETTINGS,
        Action::CreateCategory(_) => TAG_CREATE_CATEGORY,
        Action::UpdateCategory(_) => TAG_UPDATE_CATEGORY,
        Action::DeleteCategory(_) => TAG_DELETE_CATEGORY,
        Action::CancelCreateCategory => TAG_CANCEL_CREATE_CATEGORY,
        Action::CancelUpdateCategory => TAG_CANCEL_UPDATE_CATEGORY,
        Action::CreateTransaction(_) => TAG_CREATE_TRANSACTION,
        Action::ApproveTransactionCategory(_) => TAG_APPROVE_TRANSACTION_CATEGORY,
    }
}

/// Appends field `number` holding `v`, or nothing when `v` is zero.
fn write_optional_varint(out: &mut Vec<u8>, number: u64, v: u64)
    requires
        1 <= number < 16,
    ensures
        final(out)@ == old(out)@ + fields_bytes(varint_field(number, v)),
{
    if v != 0 {
        write_varint_field(out, number, v);
        proof {
            lemma_fields_bytes_single(RawField { number, value: WireValue::Varint(v) });
        }
    } else {
        assert(old(out)@ + fields_bytes(varint_field(number, v)) =~= old(out)@);
    }
}

/// Writing two lists of fields one after the other writes their concatenation.
proof fn lemma_append_fields(base: Seq<u8>, a: Seq<RawField>, b: Seq<RawField>)
    ensures
        base + fields_bytes(a) + fields_bytes(b) == base + fields_bytes(a + b),
{
    lemma_fields_bytes_concat(a, b);
    assert(base + fields_bytes(a) + fields_bytes(b) =~= base + (fields_bytes(a) + fields_bytes(b)));
}

fn write_list(out: &mut Vec<u8>, l: &ShowCategoryList)
    ensures
        final(out)@ == old(out)@ + fields_bytes(list_fields(*l)),
{
    write_optional_varint(out, 1, l.direction.number());
}

/// Appends the fields of the variant's own message.
fn write_payload(out: &mut Vec<u8>, a: &Action)
    ensures
        final(out)@ == old(out)@ + payload_bytes(*a),
{
    let ghost base = old(out)@;
    match a {
        Action::ShowCategoryList(l) => {
            write_list(out, l);
        },
        Action::ShowCategorySettings(s) => {
            write_optional_varint(out, 1, i64_to_wire(s.category_id));
            match &s.navigated_from {
                None => {
                    assert(out@ =~= base + fields_bytes(varint_field(1, wire_of_i64(s.category_id)))
                        + fields_bytes(origin_field(s.navigated_from)));
                },
                Some(l) => {
                    let mut inner: Vec<u8> = Vec::new();
                    write_list(&mut inner, l);
                    assert(inner@ =~= fields_bytes(list_fields(*l)));
                    write_bytes_field(out, 2, &inner);
                    proof {
                        lemma_fields_bytes_single(
                            RawField { number: 2, value: WireValue::Bytes(inner@) },
                        );
                    }
                },
            }
            proof {
                lemma_append_fields(
                    base,
                    varint_field(1, wire_of_i64(s.category_id)),
                    origin_field(s.navigated_from),
                );
            }
        },
        Action::CreateCategory(c) => {
            write_optional_varint(out, 1, c.direction.number());
        },
        Action::UpdateCategory(u) => {
            write_optional_varint(out, 1, i64_to_wire(u.category_id));
            write_optional_varint(out, 2, u.field.number());
            proof {
                lemma_append_fields(
                    base,
                    varint_field(1, wire_of_i64(u.category_id)),
                    varint_field(2, field_number(u.field)),
                );
            }
        },
        Action::DeleteCategory(d) => {
            write_optional_varint(out, 1, i64_to_wire(d.category_id));
        },
        Action::CreateTransaction(t) => {
            let ghost v1 = varint_field(1, wire_of_i64(t.transaction_id));
            let ghost v2 = varint_field(2, direction_number(t.direction));
            let ghost v3 = varint_field(3, bool_number(t.is_short_mode));
            write_optional_varint(out, 1, i64_to_wire(t.transaction_id));
            write_optional_varint(out, 2, t.direction.number());
            proof {
                lemma_append_fields(base, v1, v2);
            }
            let short: u64 = if t.is_short_mode {
                1
            } else {
                0
            };
            write_optional_varint(out, 3, short);
            proof {
                lemma_append_fields(base, v1 + v2, v3);
            }
        },
        Action::ApproveTransactionCategory(t) => {
            write_optional_varint(out, 1, i64_to_wire(t.transaction_id));
            write_optional_varint(out, 2, i64_to_wire(t.category_id));
            proof {
                lemma_append_fields(
                    base,
                    varint_field(1, wire_of_i64(t.transaction_id)),
                    varint_field(2, wire_of_i64(t.category_id)),
                );
            }
        },
        _ => {
            assert(out@ =~= base + payload_bytes(*a));
        },
    }
}

/// The binary form of `a`.
pub fn encode(a: &Action) -> (r: Vec<u8>)
    ensures
        r@ == encode_spec(*a),
        r@.len() <= MAX_ENCODED_LEN,
{
    let mut payload: Vec<u8> = Vec::new();
    write_payload(&mut payload, a);
    assert(payload@ =~= payload_bytes(*a));
    let mut out: Vec<u8> = Vec::new();
    write_bytes_field(&mut out, variant_tag(a), &payload);
    assert(out@ =~= encode_spec(*a));
    proof {
        lemma_encoded_size(*a);
    }
    out
}

fn decode_list_fields(fields: &Vec<Field>, Ghost(b): Ghost<Seq<u8>>) -> (r: Option<ShowCategoryList>)
    ensures
        r == decode_list(fields_view(fields@, b)),
{
    match find_varint(fields, 1, Ghost(b)) {
        None => None,
        Some(d) => Some(ShowCategoryList { direction: Direction::from_number(d) }),
    }
}

fn decode_origin_fields(b: &[u8], fields: &Vec<Field>) -> (r: Option<Option<ShowCategoryList>>)
    requires
        forall|i: int| 0 <= i < fields@.len() ==> field_within(#[trigger] fields@[i], 0, b@.len() as int),
    ensures
        r == decode_origin(fields_view(fields@, b@)),
{
    match find_bytes(fields, 2, 2, Ghost(b@)) {
        None => None,
        Some(None) => Some(None),
        Some(Some((_, s, e))) => {
            match read_fields(b, s, e) {
                None => None,
                Some(inner) => match decode_list_fields(&inner, Ghost(b@)) {
                    None => None,
                    Some(l) => Some(Some(l)),
                },
            }
        },
    }
}

/// Reads the fields of the variant numbered `tag`.
fn decode_payload_fields(b: &[u8], fields: &Vec<Field>, tag: u64) -> (r: Option<Action>)
    requires
        forall|i: int| 0 <= i < fields@.len() ==> field_within(#[trigger] fields@[i], 0, b@.len() as int),
    ensures
        r == decode_payload(tag, fields_view(fields@, b@)),
{
    let ghost g = b@;
    if tag == TAG_SHOW_SETTINGS {
        Some(Action::ShowSettings)
    } else if tag == TAG_SHOW_CATEGORY_LIST {
        match decode_list_fields(fields, Ghost(g)) {
            None => None,
            Some(l) => Some(Action::ShowCategoryList(l)),
        }
    } else if tag == TAG_SHOW_CATEGORY_SETTINGS {
        let id = find_varint(fields, 1, Ghost(g));
        let origin = decode_origin_fields(b, fields);
        match (id, origin) {
            (Some(id), Some(o)) => Some(
                Action::ShowCategorySettings(
                    ShowCategorySettings { category_id: i64_from_wire(id), navigated_from: o },
                ),
            ),
            _ => None,
        }
    } else if tag == TAG_CREATE_CATEGORY {
        match find_varint(fields, 1, Ghost(g)) {
            None => None,
            Some(d) => Some(
                Action::CreateCategory(CreateCategory { direction: Direction::from_number(d) }),
            ),
        }
    } else if tag == TAG_UPDATE_CATEGORY {
        match (find_varint(fields, 1, Ghost(g)), find_varint(fields, 2, Ghost(g))) {
            (Some(id), Some(f)) => Some(
                Action::UpdateCategory(
                    UpdateCategory {
                        category_id: i64_from_wire(id),
                        field: CategoryField::from_number(f),
                    },
                ),
            ),
            _ => None,
        }
    } else if tag == TAG_DELETE_CATEGORY {
        match find_varint(fields, 1, Ghost(g)) {
            None => None,
            Some(id) => Some(
                Action::DeleteCategory(DeleteCategory { category_id: i64_from_wire(id) }),
            ),
        }
    } else if tag == TAG_CANCEL_CREATE_CATEGORY {
        Some(Action::CancelCreateCategory)
    } else if tag == TAG_CANCEL_UPDATE_CATEGORY {
        Some(Action::CancelUpdateCategory)
    } else if tag == TAG_CREATE_TRANSACTION {
        match (
            find_varint(fields, 1, Ghost(g)),
            find_varint(fields, 2, Ghost(g)),
            find_varint(fields, 3, Ghost(g)),
        ) {
            (Some(id), Some(d), Some(s)) => Some(
                Action::CreateTransaction(
                    CreateTransaction {
                        transaction_id: i64_from_wire(id),
                        direction: Direction::from_number(d),
                        is_short_mode: s != 0,
                    },
                ),
            ),
            _ => None,
        }
    } else if tag == TAG_APPROVE_TRANSACTION_CATEGORY {
        match (find_varint(fields, 1, Ghost(g)), find_varint(fields, 2, Ghost(g))) {
            (Some(t), Some(c)) => Some(
                Action::ApproveTransactionCategory(
                    ApproveTransactionCategory {
                        transaction_id: i64_from_wire(t),
                        category_id: i64_from_wire(c),
                    },
                ),
            ),
            _ => None,
        }
    } else {
        None
    }
}

/// Decodes the binary form of an action. Never panics, whatever the bytes.
pub fn decode(b: &[u8]) -> (r: Result<Action, DecodeError>)
    ensures
        r == decode_spec(b@),
{
    assert(b@.subrange(0, b@.len() as int) =~= b@);
    let fields = match read_fields(b, 0, b.len()) {
        None => return Err(DecodeError::Malformed),
        Some(f) => f,
    };
    let (tag, s, e) = match find_bytes(
        &fields,
        TAG_SHOW_SETTINGS,
        TAG_APPROVE_TRANSACTION_CATEGORY,
        Ghost(b@),
    ) {
        None => return Err(DecodeError::Malformed),
        Some(None) => return Err(DecodeError::UnknownVariant),
        Some(Some(x)) => x,
    };
    let inner = match read_fields(b, s, e) {
        None => return Err(DecodeError::Malformed),
        Some(f) => f,
    };
    match decode_payload_fields(b, &inner, tag) {
        None => Err(DecodeError::Malformed),
        Some(a) => Ok(a),
    }
}

} // verus!
