//! Protobuf-compatible wire format: base-128 varints and tagged fields.
use vstd::prelude::*;

verus! {

/// Largest tail value a continuation byte may carry so that the whole varint fits in 64 bits.
pub const VARINT_TAIL_LIMIT: u64 = 0x0200_0000_0000_0000;

/// Longest varint accepted, in bytes.
pub const VARINT_MAX_BYTES: u8 = 10;

/// The canonical base-128 encoding of `v`, least significant group first.
pub open spec fn varint_bytes(v: u64) -> Seq<u8>
    decreases v,
{
    if v < 128 {
        seq![v as u8]
    } else {
        seq![(v % 128 + 128) as u8] + varint_bytes(v / 128)
    }
}

/// Reads a varint of at most `fuel` bytes from the front of `s`: its value and its length.
/// Fails on a missing terminating byte and on a value that does not fit in 64 bits.
pub open spec fn parse_varint_fuel(s: Seq<u8>, fuel: nat) -> Option<(u64, nat)>
    decreases fuel,
{
    if s.len() == 0 {
        None
    } else if s[0] < 128 {
        Some((s[0] as u64, 1))
    } else if fuel <= 1 {
        None
    } else {
        match parse_varint_fuel(s.drop_first(), (fuel - 1) as nat) {
            None => None,
            Some((t, n)) => if t < VARINT_TAIL_LIMIT {
                Some((((s[0] - 128) + 128 * t) as u64, n + 1))
            } else {
                None
            },
        }
    }
}

pub open spec fn parse_varint(s: Seq<u8>) -> Option<(u64, nat)> {
    parse_varint_fuel(s, VARINT_MAX_BYTES as nat)
}

/// A 64-bit value takes one to ten bytes, and one byte below 128.
pub proof fn lemma_varint_bytes_len(v: u64)
    ensures
        1 <= varint_bytes(v).len() <= 10,
        v < 128 ==> varint_bytes(v).len() == 1,
    decreases v,
{
    if v >= 128 {
        reveal_with_fuel(pow128, 11);
        assert(pow128(10) == 0x40_0000_0000_0000_0000int);
        lemma_varint_bytes_len_bound(v, 10);
    }
}

/// `varint_bytes(v)` has at most `k` bytes when `v < 128^k`.
proof fn lemma_varint_bytes_len_bound(v: u64, k: nat)
    requires
        k >= 1,
        v < pow128(k),
    ensures
        1 <= varint_bytes(v).len() <= k,
    decreases v,
{
    if v >= 128 {
        assert(k >= 2) by {
            if k == 1 {
                assert(pow128(1) == 128 * pow128(0));
            }
        }
        assert(pow128(k) == 128 * pow128((k - 1) as nat));
        assert(v / 128 < pow128((k - 1) as nat)) by (nonlinear_arith)
            requires
                v < 128 * pow128((k - 1) as nat),
        ;
        lemma_varint_bytes_len_bound(v / 128, (k - 1) as nat);
    }
}

pub open spec fn pow128(k: nat) -> int
    decreases k,
{
    if k == 0 {
        1
    } else {
        128 * pow128((k - 1) as nat)
    }
}

/// Reading back an encoded varint gives the value and its length, whatever follows it.
pub proof fn lemma_varint_round_trip(v: u64, rest: Seq<u8>)
    ensures
        parse_varint(varint_bytes(v) + rest) == Some((v, varint_bytes(v).len())),
{
    lemma_varint_bytes_len(v);
    lemma_varint_round_trip_fuel(v, rest, 10);
}

proof fn lemma_varint_round_trip_fuel(v: u64, rest: Seq<u8>, fuel: nat)
    requires
        varint_bytes(v).len() <= fuel,
    ensures
        parse_varint_fuel(varint_bytes(v) + rest, fuel) == Some((v, varint_bytes(v).len())),
    decreases v,
{
    let s = varint_bytes(v) + rest;
    if v >= 128 {
        let t = v / 128;
        assert(s.drop_first() =~= varint_bytes(t) + rest);
        lemma_varint_round_trip_fuel(t, rest, (fuel - 1) as nat);
        assert(t < VARINT_TAIL_LIMIT);
    }
}

/// Reads a varint of at most `fuel` bytes from `b[pos..end]`.
pub fn read_varint_fuel(b: &[u8], pos: usize, end: usize, fuel: u8) -> (r: Option<(u64, usize)>)
    requires
        pos <= end <= b@.len(),
    ensures
        r is Some <==> parse_varint_fuel(b@.subrange(pos as int, end as int), fuel as nat) is Some,
        r matches Some((v, n)) ==> parse_varint_fuel(
            b@.subrange(pos as int, end as int),
            fuel as nat,
        ) == Some((v, n as nat)) && 1 <= n <= end - pos,
    decreases fuel,
{
    let ghost s = b@.subrange(pos as int, end as int);
    if pos >= end {
        return None;
    }
    let x = b[pos];
    if x < 128 {
        return Some((x as u64, 1));
    }
    if fuel <= 1 {
        return None;
    }
    assert(s.drop_first() =~= b@.subrange(pos + 1, end as int));
    match read_varint_fuel(b, pos + 1, end, fuel - 1) {
        None => None,
        Some((t, n)) => {
            if t < VARINT_TAIL_LIMIT {
                Some(((x - 128) as u64 + 128 * t, n + 1))
            } else {
                None
            }
        },
    }
}

/// Reads a varint from `b[pos..end]`: its value and how many bytes it took.
pub fn read_varint(b: &[u8], pos: usize, end: usize) -> (r: Option<(u64, usize)>)
    requires
        pos <= end <= b@.len(),
    ensures
        r is Some <==> parse_varint(b@.subrange(pos as int, end as int)) is Some,
        r matches Some((v, n)) ==> parse_varint(b@.subrange(pos as int, end as int)) == Some(
            (v, n as nat),
        ) && 1 <= n <= end - pos,
{
    read_varint_fuel(b, pos, end, VARINT_MAX_BYTES)
}

/// Appends the encoding of `v` to `out`.
pub fn write_varint(out: &mut Vec<u8>, v: u64)
    ensures
        final(out)@ == old(out)@ + varint_bytes(v),
{
    let mut x = v;
    while x >= 128
        invariant
            out@ + varint_bytes(x) == old(out)@ + varint_bytes(v),
        decreases x,
    {
        let ghost before = out@;
        out.push((x % 128 + 128) as u8);
        assert(out@ + varint_bytes(x / 128) =~= before + varint_bytes(x));
        x = x / 128;
    }
    let ghost before = out@;
    out.push(x as u8);
    assert(out@ =~= before + varint_bytes(x));
}

/// What a field carries on the wire.
pub enum WireValue {
    Varint(u64),
    Bytes(Seq<u8>),
    /// A fixed-width value (32 or 64 bits); this format never reads its content.
    Fixed,
}

/// A decoded field: its number and its value.
pub struct RawField {
    pub number: u64,
    pub value: WireValue,
}

/// Wire type of varint fields.
pub const WIRE_VARINT: u64 = 0;

/// Wire type of 64-bit fixed fields.
pub const WIRE_FIXED64: u64 = 1;

/// Wire type of length-delimited fields.
pub const WIRE_BYTES: u64 = 2;

/// Wire type of 32-bit fixed fields.
pub const WIRE_FIXED32: u64 = 5;

/// Field numbers must stay below this bound so that the key fits in 64 bits.
pub const FIELD_NUMBER_LIMIT: u64 = 0x2000_0000_0000_0000;

/// Reads one field from the front of `s`: the field and how many bytes it took.
pub open spec fn parse_field(s: Seq<u8>) -> Option<(RawField, nat)> {
    match parse_varint(s) {
        None => None,
        Some((key, n1)) => {
            let number = (key / 8) as u64;
            let rest = s.subrange(n1 as int, s.len() as int);
            if number == 0 {
                None
            } else if key % 8 == WIRE_VARINT {
                match parse_varint(rest) {
                    None => None,
                    Some((v, n2)) => Some((RawField { number, value: WireValue::Varint(v) }, n1 + n2)),
                }
            } else if key % 8 == WIRE_FIXED64 {
                if rest.len() >= 8 {
                    Some((RawField { number, value: WireValue::Fixed }, n1 + 8))
                } else {
                    None
                }
            } else if key % 8 == WIRE_BYTES {
                match parse_varint(rest) {
                    None => None,
                    Some((len, n2)) => if n2 + len <= rest.len() {
                        Some(
                            (
                                RawField {
                                    number,
                                    value: WireValue::Bytes(rest.subrange(n2 as int, n2 + len)),
                                },
                                (n1 + n2 + len) as nat,
                            ),
                        )
                    } else {
                        None
                    },
                }
            } else if key % 8 == WIRE_FIXED32 {
                if rest.len() >= 4 {
                    Some((RawField { number, value: WireValue::Fixed }, n1 + 4))
                } else {
                    None
                }
            } else {
                None
            }
        },
    }
}

/// Splits a whole message body into its fields, in order.
pub open spec fn parse_fields(s: Seq<u8>) -> Option<Seq<RawField>>
    decreases s.len(),
{
    if s.len() == 0 {
        Some(seq![])
    } else {
        match parse_field(s) {
            None => None,
            Some((f, n)) => if 0 < n <= s.len() {
                match parse_fields(s.subrange(n as int, s.len() as int)) {
                    None => None,
                    Some(fs) => Some(seq![f] + fs),
                }
            } else {
                None
            },
        }
    }
}

pub open spec fn key_bytes(number: u64, wire_type: u64) -> Seq<u8> {
    varint_bytes((number * 8 + wire_type) as u64)
}

/// The encoding of one field.
pub open spec fn field_bytes(f: RawField) -> Seq<u8> {
    match f.value {
        WireValue::Varint(v) => key_bytes(f.number, WIRE_VARINT) + varint_bytes(v),
        WireValue::Bytes(p) => key_bytes(f.number, WIRE_BYTES) + varint_bytes(p.len() as u64) + p,
        WireValue::Fixed => seq![],
    }
}

/// The encoding of a message body made of `fs`, in order.
pub open spec fn fields_bytes(fs: Seq<RawField>) -> Seq<u8>
    decreases fs.len(),
{
    if fs.len() == 0 {
        seq![]
    } else {
        field_bytes(fs[0]) + fields_bytes(fs.drop_first())
    }
}

/// A field this format writes: a valid number, and a varint or a byte string.
pub open spec fn writable(f: RawField) -> bool {
    &&& 1 <= f.number < FIELD_NUMBER_LIMIT
    &&& match f.value {
        WireValue::Varint(_) => true,
        WireValue::Bytes(p) => p.len() <= u64::MAX,
        WireValue::Fixed => false,
    }
}

pub proof fn lemma_field_round_trip(f: RawField, rest: Seq<u8>)
    requires
        writable(f),
    ensures
        parse_field(field_bytes(f) + rest) == Some((f, field_bytes(f).len())),
        field_bytes(f).len() >= 2,
{
    let wt: u64 = if f.value is Varint { WIRE_VARINT } else { WIRE_BYTES };
    let key = (f.number * 8 + wt) as u64;
    let kb = key_bytes(f.number, wt);
    assert(key / 8 == f.number && key % 8 == wt);
    match f.value {
        WireValue::Varint(v) => {
            let vb = varint_bytes(v);
            assert(field_bytes(f) + rest =~= kb + (vb + rest));
            lemma_varint_round_trip(key, vb + rest);
            lemma_varint_bytes_len(key);
            lemma_varint_bytes_len(v);
            let s = field_bytes(f) + rest;
            assert(s.subrange(kb.len() as int, s.len() as int) =~= vb + rest);
            lemma_varint_round_trip(v, rest);
        },
        WireValue::Bytes(p) => {
            let lb = varint_bytes(p.len() as u64);
            assert(field_bytes(f) + rest =~= kb + (lb + (p + rest)));
            lemma_varint_round_trip(key, lb + (p + rest));
            lemma_varint_bytes_len(key);
            lemma_varint_bytes_len(p.len() as u64);
            let s = field_bytes(f) + rest;
            let r = s.subrange(kb.len() as int, s.len() as int);
            assert(r =~= lb + (p + rest));
            lemma_varint_round_trip(p.len() as u64, p + rest);
            assert(r.subrange(lb.len() as int, (lb.len() + p.len()) as int) =~= p);
        },
        WireValue::Fixed => {},
    }
}

/// Splitting the encoding of writable fields gives the fields back.
pub proof fn lemma_fields_round_trip(fs: Seq<RawField>)
    requires
        forall|i: int| 0 <= i < fs.len() ==> writable(#[trigger] fs[i]),
    ensures
        parse_fields(fields_bytes(fs)) == Some(fs),
    decreases fs.len(),
{
    if fs.len() > 0 {
        let tail = fs.drop_first();
        let s = fields_bytes(fs);
        lemma_field_round_trip(fs[0], fields_bytes(tail));
        let n = field_bytes(fs[0]).len();
        assert(s.subrange(n as int, s.len() as int) =~= fields_bytes(tail));
        assert forall|i: int| 0 <= i < tail.len() implies writable(#[trigger] tail[i]) by {
            assert(tail[i] == fs[i + 1]);
        }
        lemma_fields_round_trip(tail);
        assert(seq![fs[0]] + tail =~= fs);
    }
}

pub proof fn lemma_fields_bytes_concat(a: Seq<RawField>, b: Seq<RawField>)
    ensures
        fields_bytes(a + b) == fields_bytes(a) + fields_bytes(b),
    decreases a.len(),
{
    if a.len() == 0 {
        assert(a + b =~= b);
        assert(fields_bytes(a) + fields_bytes(b) =~= fields_bytes(b));
    } else {
        assert((a + b).drop_first() =~= a.drop_first() + b);
        lemma_fields_bytes_concat(a.drop_first(), b);
        assert(fields_bytes(a + b) =~= fields_bytes(a) + fields_bytes(b));
    }
}

pub proof fn lemma_fields_bytes_single(f: RawField)
    ensures
        fields_bytes(seq![f]) == field_bytes(f),
{
    let e = seq![f].drop_first();
    assert(e =~= Seq::<RawField>::empty());
    assert(fields_bytes(e) == Seq::<u8>::empty());
    assert(field_bytes(f) + fields_bytes(e) =~= field_bytes(f));
}

/// The value of the last field numbered `number`, which must be a varint wherever it
/// occurs; zero when there is none.
pub open spec fn scan_varint(fs: Seq<RawField>, number: u64) -> Option<u64>
    decreases fs.len(),
{
    if fs.len() == 0 {
        Some(0)
    } else {
        match scan_varint(fs.drop_last(), number) {
            None => None,
            Some(prev) => if fs.last().number == number {
                match fs.last().value {
                    WireValue::Varint(v) => Some(v),
                    _ => None,
                }
            } else {
                Some(prev)
            },
        }
    }
}

/// The last field whose number lies in `lo..=hi`, with its number and content; such
/// fields must be length-delimited wherever they occur.
pub open spec fn scan_bytes(fs: Seq<RawField>, lo: u64, hi: u64) -> Option<Option<(u64, Seq<u8>)>>
    decreases fs.len(),
{
    if fs.len() == 0 {
        Some(None)
    } else {
        match scan_bytes(fs.drop_last(), lo, hi) {
            None => None,
            Some(prev) => if lo <= fs.last().number <= hi {
                match fs.last().value {
                    WireValue::Bytes(p) => Some(Some((fs.last().number, p))),
                    _ => None,
                }
            } else {
                Some(prev)
            },
        }
    }
}

/// No field of `fs` is numbered `number`.
pub open spec fn lacks(fs: Seq<RawField>, number: u64) -> bool {
    forall|i: int| 0 <= i < fs.len() ==> (#[trigger] fs[i]).number != number
}

pub proof fn lemma_scan_varint_skip(a: Seq<RawField>, b: Seq<RawField>, number: u64)
    requires
        lacks(b, number),
    ensures
        scan_varint(a + b, number) == scan_varint(a, number),
    decreases b.len(),
{
    if b.len() == 0 {
        assert(a + b =~= a);
    } else {
        assert((a + b).drop_last() =~= a + b.drop_last());
        assert((a + b).last() == b.last());
        lemma_scan_varint_skip(a, b.drop_last(), number);
    }
}

pub proof fn lemma_scan_bytes_skip(a: Seq<RawField>, b: Seq<RawField>, lo: u64, hi: u64)
    requires
        forall|i: int| 0 <= i < b.len() ==> !(lo <= (#[trigger] b[i]).number <= hi),
    ensures
        scan_bytes(a + b, lo, hi) == scan_bytes(a, lo, hi),
    decreases b.len(),
{
    if b.len() == 0 {
        assert(a + b =~= a);
    } else {
        assert((a + b).drop_last() =~= a + b.drop_last());
        assert((a + b).last() == b.last());
        lemma_scan_bytes_skip(a, b.drop_last(), lo, hi);
    }
}

/// The field numbered `number` holding `v`, or no field when `v` is zero (the default).
pub open spec fn varint_field(number: u64, v: u64) -> Seq<RawField> {
    if v == 0 {
        seq![]
    } else {
        seq![RawField { number, value: WireValue::Varint(v) }]
    }
}

/// A varint written among fields with other numbers is read back, zero included.
pub proof fn lemma_scan_varint_field(a: Seq<RawField>, b: Seq<RawField>, number: u64, v: u64)
    requires
        lacks(a, number),
        lacks(b, number),
    ensures
        scan_varint(a + varint_field(number, v) + b, number) == Some(v),
{
    lemma_scan_varint_skip(a + varint_field(number, v), b, number);
    lemma_scan_varint_skip(seq![], a, number);
    assert(seq![] + a =~= a);
    if v != 0 {
        let s = a + varint_field(number, v);
        assert(s.drop_last() =~= a);
    } else {
        assert(a + varint_field(number, v) =~= a);
    }
}

// ---------------------------------------------------------------------------
// Executable reading and writing.

/// A field as read from a buffer; byte strings are given by their range in the buffer.
#[derive(Clone, Copy, Debug, PartialEq, Eq)]
pub enum FieldValue {
    Varint(u64),
    Bytes(usize, usize),
    Fixed,
}

#[derive(Clone, Copy, Debug, PartialEq, Eq)]
pub struct Field {
    pub number: u64,
    pub value: FieldValue,
}

/// What `f`, read from the buffer `b`, stands for.
pub open spec fn field_view(f: Field, b: Seq<u8>) -> RawField {
    RawField {
        number: f.number,
        value: match f.value {
            FieldValue::Varint(v) => WireValue::Varint(v),
            FieldValue::Bytes(s, e) => WireValue::Bytes(b.subrange(s as int, e as int)),
            FieldValue::Fixed => WireValue::Fixed,
        },
    }
}

pub open spec fn fields_view(fs: Seq<Field>, b: Seq<u8>) -> Seq<RawField> {
    fs.map_values(|f: Field| field_view(f, b))
}

/// The byte range of `f`, if any, lies within `start..end`.
pub open spec fn field_within(f: Field, start: int, end: int) -> bool {
    match f.value {
        FieldValue::Bytes(s, e) => start <= s <= e <= end,
        _ => true,
    }
}

/// Reads one field from `b[pos..end]`: the field and how many bytes it took.
pub fn read_field(b: &[u8], pos: usize, end: usize) -> (r: Option<(Field, usize)>)
    requires
        pos <= end <= b@.len(),
    ensures
        r is Some <==> parse_field(b@.subrange(pos as int, end as int)) is Some,
        r matches Some((f, n)) ==> {
            &&& parse_field(b@.subrange(pos as int, end as int)) == Some((field_view(f, b@), n as nat))
            &&& 1 <= n <= end - pos
            &&& field_within(f, pos as int, end as int)
        },
{
    let ghost s = b@.subrange(pos as int, end as int);
    let (key, n1) = match read_varint(b, pos, end) {
        None => return None,
        Some(x) => x,
    };
    let number = key / 8;
    let wire_type = key % 8;
    if number == 0 {
        return None;
    }
    let p = pos + n1;
    assert(s.subrange(n1 as int, s.len() as int) =~= b@.subrange(p as int, end as int));
    if wire_type == WIRE_VARINT {
        match read_varint(b, p, end) {
            None => None,
            Some((v, n2)) => Some((Field { number, value: FieldValue::Varint(v) }, n1 + n2)),
        }
    } else if wire_type == WIRE_FIXED64 {
        if end - p >= 8 {
            Some((Field { number, value: FieldValue::Fixed }, n1 + 8))
        } else {
            None
        }
    } else if wire_type == WIRE_BYTES {
        match read_varint(b, p, end) {
            None => None,
            Some((len, n2)) => {
                let q = p + n2;
                if len <= (end - q) as u64 {
                    let e = q + len as usize;
                    assert(b@.subrange(p as int, end as int).subrange(n2 as int, n2 + len)
                        =~= b@.subrange(q as int, e as int));
                    Some((Field { number, value: FieldValue::Bytes(q, e) }, n1 + n2 + len as usize))
                } else {
                    None
                }
            },
        }
    } else if wire_type == WIRE_FIXED32 {
        if end - p >= 4 {
            Some((Field { number, value: FieldValue::Fixed }, n1 + 4))
        } else {
            None
        }
    } else {
        None
    }
}

/// Splits the message body `b[start..end]` into its fields.
pub fn read_fields(b: &[u8], start: usize, end: usize) -> (r: Option<Vec<Field>>)
    requires
        start <= end <= b@.len(),
    ensures
        r is Some <==> parse_fields(b@.subrange(start as int, end as int)) is Some,
        r matches Some(v) ==> {
            &&& parse_fields(b@.subrange(start as int, end as int)) == Some(fields_view(v@, b@))
            &&& forall|i: int|
                0 <= i < v@.len() ==> field_within(#[trigger] v@[i], start as int, end as int)
        },
{
    let mut out: Vec<Field> = Vec::new();
    let mut pos = start;
    while pos < end
        invariant
            start <= pos <= end <= b@.len(),
            parse_fields(b@.subrange(start as int, end as int)) == match parse_fields(
                b@.subrange(pos as int, end as int),
            ) {
                None => None,
                Some(fs) => Some(fields_view(out@, b@) + fs),
            },
            forall|i: int| 0 <= i < out@.len() ==> field_within(#[trigger] out@[i], start as int, end as int),
        decreases end - pos,
    {
        let ghost s = b@.subrange(pos as int, end as int);
        match read_field(b, pos, end) {
            None => {
                return None;
            },
            Some((f, n)) => {
                assert(s.subrange(n as int, s.len() as int) =~= b@.subrange(pos + n, end as int));
                let ghost old_out = out@;
                out.push(f);
                assert(fields_view(out@, b@) =~= fields_view(old_out, b@) + seq![field_view(f, b@)]);
                assert forall|fs: Seq<RawField>|
                    #![auto]
                    fields_view(old_out, b@) + (seq![field_view(f, b@)] + fs) =~= fields_view(out@, b@) + fs by {}
                pos = pos + n;
            },
        }
    }
    assert(b@.subrange(pos as int, end as int) =~= Seq::<u8>::empty());
    assert(fields_view(out@, b@) + seq![] =~= fields_view(out@, b@));
    Some(out)
}

proof fn lemma_scan_varint_none_extends(fs: Seq<RawField>, k: int, number: u64)
    requires
        0 <= k <= fs.len(),
        scan_varint(fs.subrange(0, k), number) is None,
    ensures
        scan_varint(fs, number) is None,
    decreases fs.len() - k,
{
    if k == fs.len() {
        assert(fs.subrange(0, k) =~= fs);
    } else {
        assert(fs.subrange(0, k + 1).drop_last() =~= fs.subrange(0, k));
        lemma_scan_varint_none_extends(fs, k + 1, number);
    }
}

proof fn lemma_scan_bytes_none_extends(fs: Seq<RawField>, k: int, lo: u64, hi: u64)
    requires
        0 <= k <= fs.len(),
        scan_bytes(fs.subrange(0, k), lo, hi) is None,
    ensures
        scan_bytes(fs, lo, hi) is None,
    decreases fs.len() - k,
{
    if k == fs.len() {
        assert(fs.subrange(0, k) =~= fs);
    } else {
        assert(fs.subrange(0, k + 1).drop_last() =~= fs.subrange(0, k));
        lemma_scan_bytes_none_extends(fs, k + 1, lo, hi);
    }
}

/// Finds the value of the varint field numbered `number` among fields read from `b`.
pub fn find_varint(fields: &Vec<Field>, number: u64, Ghost(b): Ghost<Seq<u8>>) -> (r: Option<u64>)
    ensures
        r == scan_varint(fields_view(fields@, b), number),
{
    let ghost all = fields_view(fields@, b);
    let mut acc: u64 = 0;
    let mut i: usize = 0;
    while i < fields.len()
        invariant
            i <= fields@.len(),
            all == fields_view(fields@, b),
            scan_varint(all.subrange(0, i as int), number) == Some(acc),
        decreases fields.len() - i,
    {
        proof {
            assert(all.subrange(0, i + 1).drop_last() =~= all.subrange(0, i as int));
        }
        let f = fields[i];
        if f.number == number {
            match f.value {
                FieldValue::Varint(v) => {
                    acc = v;
                },
                _ => {
                    proof {
                        lemma_scan_varint_none_extends(all, i + 1, number);
                    }
                    return None;
                },
            }
        }
        i = i + 1;
    }
    assert(all.subrange(0, i as int) =~= all);
    Some(acc)
}

/// Finds the last length-delimited field numbered within `lo..=hi` among fields read
/// from `b`: its number and its byte range.
pub fn find_bytes(fields: &Vec<Field>, lo: u64, hi: u64, Ghost(b): Ghost<Seq<u8>>) -> (r: Option<
    Option<(u64, usize, usize)>,
>)
    ensures
        r is None <==> scan_bytes(fields_view(fields@, b), lo, hi) is None,
        r == Some(None::<(u64, usize, usize)>) <==> scan_bytes(fields_view(fields@, b), lo, hi)
            == Some(None::<(u64, Seq<u8>)>),
        r matches Some(Some((n, s, e))) ==> {
            &&& scan_bytes(fields_view(fields@, b), lo, hi) == Some(
                Some((n, b.subrange(s as int, e as int))),
            )
            &&& exists|j: int| 0 <= j < fields@.len() && fields@[j].value == FieldValue::Bytes(s, e)
        },
{
    let ghost all = fields_view(fields@, b);
    let mut found: Option<(u64, usize, usize)> = None;
    let mut i: usize = 0;
    while i < fields.len()
        invariant
            i <= fields@.len(),
            all == fields_view(fields@, b),
            scan_bytes(all.subrange(0, i as int), lo, hi) == match found {
                None => Some(None),
                Some((n, s, e)) => Some(Some((n, b.subrange(s as int, e as int)))),
            },
            found matches Some((n, s, e)) ==> exists|j: int|
                0 <= j < fields@.len() && fields@[j].value == FieldValue::Bytes(s, e),
        decreases fields.len() - i,
    {
        proof {
            assert(all.subrange(0, i + 1).drop_last() =~= all.subrange(0, i as int));
        }
        let f = fields[i];
        if lo <= f.number && f.number <= hi {
            match f.value {
                FieldValue::Bytes(s, e) => {
                    found = Some((f.number, s, e));
                },
                _ => {
                    proof {
                        lemma_scan_bytes_none_extends(all, i + 1, lo, hi);
                    }
                    return None;
                },
            }
        }
        i = i + 1;
    }
    assert(all.subrange(0, i as int) =~= all);
    Some(found)
}

/// Appends the key of field `number` with the given wire type.
fn write_key(out: &mut Vec<u8>, number: u64, wire_type: u64)
    requires
        1 <= number < FIELD_NUMBER_LIMIT,
        wire_type < 8,
    ensures
        final(out)@ == old(out)@ + key_bytes(number, wire_type),
{
    write_varint(out, number * 8 + wire_type);
}

/// Appends a varint field.
pub fn write_varint_field(out: &mut Vec<u8>, number: u64, v: u64)
    requires
        1 <= number < FIELD_NUMBER_LIMIT,
    ensures
        final(out)@ == old(out)@ + field_bytes(RawField { number, value: WireValue::Varint(v) }),
{
    write_key(out, number, WIRE_VARINT);
    write_varint(out, v);
    assert(out@ =~= old(out)@ + field_bytes(RawField { number, value: WireValue::Varint(v) }));
}

/// Appends a length-delimited field holding `payload`.
pub fn write_bytes_field(out: &mut Vec<u8>, number: u64, payload: &Vec<u8>)
    requires
        1 <= number < FIELD_NUMBER_LIMIT,
    ensures
        final(out)@ == old(out)@ + field_bytes(RawField { number, value: WireValue::Bytes(payload@) }),
{
    write_key(out, number, WIRE_BYTES);
    write_varint(out, payload.len() as u64);
    let mut i: usize = 0;
    let ghost mid = out@;
    while i < payload.len()
        invariant
            i <= payload@.len(),
            out@ == mid + payload@.subrange(0, i as int),
        decreases payload.len() - i,
    {
        out.push(payload[i]);
        assert(out@ =~= mid + payload@.subrange(0, i + 1));
        i = i + 1;
    }
    assert(payload@.subrange(0, i as int) =~= payload@);
    assert(out@ =~= old(out)@ + field_bytes(RawField { number, value: WireValue::Bytes(payload@) }));
}

} // verus!
