//! The wire format of the length-delimited message encoding.
//!
//! A message is a run of fields. Each field starts with a varint key holding
//! a field number and a wire type; the wire type decides how the field's
//! payload is laid out. This module splits a byte run into a typed field
//! sequence and decodes the scalar encodings (varints, zigzag-signed values,
//! packed arrays) that the block messages use.

use vstd::prelude::*;

use crate::error::WireError;

verus! {

/// The payload of one decoded field, at the spec level.
pub enum SpecFieldData {
    /// A varint payload (wire type 0).
    Varint(u64),
    /// A fixed eight-byte payload (wire type 1). No message of this format
    /// declares such a field, so the payload is dropped; the field is kept
    /// only so unknown fields can be skipped.
    Fixed64,
    /// A length-delimited payload (wire type 2).
    Bytes(Seq<u8>),
    /// A fixed four-byte payload (wire type 5), dropped like `Fixed64`.
    Fixed32,
}

/// One decoded field, at the spec level.
pub struct SpecField {
    /// The field number.
    pub num: u64,
    /// The field payload.
    pub data: SpecFieldData,
}

/// The payload of one decoded field.
pub enum FieldData {
    /// A varint payload (wire type 0).
    Varint(u64),
    /// A fixed eight-byte payload (wire type 1), dropped.
    Fixed64,
    /// A length-delimited payload (wire type 2).
    Bytes(Vec<u8>),
    /// A fixed four-byte payload (wire type 5), dropped.
    Fixed32,
}

/// One decoded field: a field number and a payload.
pub struct Field {
    /// The field number.
    pub num: u64,
    /// The field payload.
    pub data: FieldData,
}

impl View for FieldData {
    type V = SpecFieldData;

    open spec fn view(&self) -> SpecFieldData {
        match self {
            FieldData::Varint(v) => SpecFieldData::Varint(*v),
            FieldData::Fixed64 => SpecFieldData::Fixed64,
            FieldData::Bytes(b) => SpecFieldData::Bytes(b@),
            FieldData::Fixed32 => SpecFieldData::Fixed32,
        }
    }
}

impl View for Field {
    type V = SpecField;

    open spec fn view(&self) -> SpecField {
        SpecField { num: self.num, data: self.data@ }
    }
}

impl DeepView for Field {
    type V = SpecField;

    open spec fn deep_view(&self) -> SpecField {
        self@
    }
}

/// Decodes a base-128 varint whose first byte sits at position `i`, with `k`
/// bytes already consumed into the accumulator `acc`. Bits beyond the 64th
/// are dropped; an encoding of more than ten bytes is rejected.
pub open spec fn spec_varint_from(s: Seq<u8>, i: int, k: nat, acc: u64) -> Option<(u64, int)>
    decreases 10 - k,
{
    if k >= 10 || i < 0 || i >= s.len() {
        None
    } else {
        let b = s[i];
        let acc2 = acc | (((b & 0x7f) as u64) << ((7 * k) as u64));
        if b < 0x80 {
            Some((acc2, i + 1))
        } else {
            spec_varint_from(s, i + 1, (k + 1) as nat, acc2)
        }
    }
}

/// Decodes the varint at position `i`.
pub open spec fn spec_varint(s: Seq<u8>, i: int) -> Option<(u64, int)> {
    spec_varint_from(s, i, 0, 0)
}

/// Reads the varint at `pos`, returning its value and the position after it.
pub fn read_varint(s: &Vec<u8>, pos: usize) -> (r: Result<(u64, usize), WireError>)
    ensures
        match r {
            Ok((v, p)) => spec_varint(s@, pos as int) == Some((v, p as int)) && pos < p <= s@.len(),
            Err(e) => spec_varint(s@, pos as int) is None && e == WireError::Truncated,
        },
{
    let mut k: u64 = 0;
    let mut acc: u64 = 0;
    loop
        invariant
            k < 10,
            pos + k <= usize::MAX,
            spec_varint(s@, pos as int) == spec_varint_from(s@, pos + k, k as nat, acc),
        decreases 10 - k,
    {
        let j = pos + (k as usize);
        if j >= s.len() {
            return Err(WireError::Truncated);
        }
        let b = s[j];
        let acc2 = acc | (((b & 0x7f) as u64) << (7 * k));
        if b < 0x80 {
            return Ok((acc2, j + 1));
        }
        proof {
            assert(spec_varint_from(s@, pos + k, k as nat, acc) == spec_varint_from(
                s@,
                pos + k + 1,
                (k + 1) as nat,
                acc2,
            ));
        }
        if k == 9 {
            proof {
                assert(spec_varint_from(s@, pos + 10, 10, acc2) is None);
            }
            return Err(WireError::Truncated);
        }
        k = k + 1;
        acc = acc2;
    }
}

/// Decodes the field whose key starts at position `i`: the key's low three
/// bits are the wire type, the rest the field number, which must be nonzero.
pub open spec fn spec_field(s: Seq<u8>, i: int) -> Option<(SpecField, int)> {
    match spec_varint(s, i) {
        None => None,
        Some((key, p)) => {
            let wt = key & 7;
            let num = key >> 3;
            if num == 0 {
                None
            } else if wt == 0 {
                match spec_varint(s, p) {
                    None => None,
                    Some((v, q)) => Some((SpecField { num, data: SpecFieldData::Varint(v) }, q)),
                }
            } else if wt == 1 {
                if p + 8 <= s.len() {
                    Some((SpecField { num, data: SpecFieldData::Fixed64 }, p + 8))
                } else {
                    None
                }
            } else if wt == 2 {
                match spec_varint(s, p) {
                    None => None,
                    Some((l, q)) => if l <= s.len() - q {
                        Some(
                            (
                                SpecField { num, data: SpecFieldData::Bytes(s.subrange(q, q + l)) },
                                q + l,
                            ),
                        )
                    } else {
                        None
                    },
                }
            } else if wt == 5 {
                if p + 4 <= s.len() {
                    Some((SpecField { num, data: SpecFieldData::Fixed32 }, p + 4))
                } else {
                    None
                }
            } else {
                None
            }
        },
    }
}

/// Copies the byte range `[from, to)` out of `s`.
pub(crate) fn copy_range(s: &Vec<u8>, from: usize, to: usize) -> (r: Vec<u8>)
    requires
        from <= to <= s@.len(),
    ensures
        r@ == s@.subrange(from as int, to as int),
{
    let mut out: Vec<u8> = Vec::new();
    let mut j: usize = from;
    while j < to
        invariant
            from <= j <= to <= s@.len(),
            out@ == s@.subrange(from as int, j as int),
        decreases to - j,
    {
        out.push(s[j]);
        proof {
            assert(out@ =~= s@.subrange(from as int, j + 1));
        }
        j = j + 1;
    }
    out
}

/// Reads the field whose key starts at `pos`.
pub fn read_field(s: &Vec<u8>, pos: usize) -> (r: Result<(Field, usize), WireError>)
    ensures
        match r {
            Ok((f, p)) => spec_field(s@, pos as int) == Some((f@, p as int)) && pos < p <= s@.len(),
            Err(_) => spec_field(s@, pos as int) is None,
        },
{
    let (key, p) = match read_varint(s, pos) {
        Ok(x) => x,
        Err(e) => {
            return Err(e);
        },
    };
    let wt = key & 7;
    let num = key >> 3;
    if num == 0 {
        return Err(WireError::InvalidKey);
    }
    if wt == 0 {
        match read_varint(s, p) {
            Ok((v, q)) => Ok((Field { num, data: FieldData::Varint(v) }, q)),
            Err(e) => Err(e),
        }
    } else if wt == 1 {
        if s.len() - p >= 8 {
            Ok((Field { num, data: FieldData::Fixed64 }, p + 8))
        } else {
            Err(WireError::Truncated)
        }
    } else if wt == 2 {
        match read_varint(s, p) {
            Ok((l, q)) => {
                if l <= (s.len() - q) as u64 {
                    let end = q + (l as usize);
                    let bytes = copy_range(s, q, end);
                    Ok((Field { num, data: FieldData::Bytes(bytes) }, end))
                } else {
                    Err(WireError::Truncated)
                }
            },
            Err(e) => Err(e),
        }
    } else if wt == 5 {
        if s.len() - p >= 4 {
            Ok((Field { num, data: FieldData::Fixed32 }, p + 4))
        } else {
            Err(WireError::Truncated)
        }
    } else {
        Err(WireError::InvalidKey)
    }
}

/// Splits the byte run starting at `i` into its field sequence; the whole
/// run must be consumed exactly.
pub open spec fn spec_fields_from(s: Seq<u8>, i: int) -> Option<Seq<SpecField>>
    decreases s.len() - i,
{
    if i < 0 {
        None
    } else if i >= s.len() {
        Some(Seq::empty())
    } else {
        match spec_field(s, i) {
            None => None,
            Some((f, j)) => if j <= i || j > s.len() {
                None
            } else {
                match spec_fields_from(s, j) {
                    None => None,
                    Some(rest) => Some(seq![f] + rest),
                }
            },
        }
    }
}

/// Splits a whole byte run into its field sequence.
pub open spec fn spec_fields(s: Seq<u8>) -> Option<Seq<SpecField>> {
    spec_fields_from(s, 0)
}

/// Splits `s` into its typed field sequence.
pub fn parse_fields(s: &Vec<u8>) -> (r: Result<Vec<Field>, WireError>)
    ensures
        match r {
            Ok(fs) => spec_fields(s@) == Some(fs.deep_view()),
            Err(_) => spec_fields(s@) is None,
        },
{
    let mut out: Vec<Field> = Vec::new();
    let mut pos: usize = 0;
    loop
        invariant
            pos <= s@.len(),
            spec_fields(s@) is Some <==> spec_fields_from(s@, pos as int) is Some,
            forall|rest: Seq<SpecField>|
                spec_fields_from(s@, pos as int) == Some(rest) ==> spec_fields(s@) == Some(
                    out.deep_view() + rest,
                ),
        decreases s@.len() - pos,
    {
        if pos >= s.len() {
            proof {
                assert(spec_fields_from(s@, pos as int) == Some(Seq::<SpecField>::empty()));
                assert(out.deep_view() + Seq::<SpecField>::empty() =~= out.deep_view());
            }
            return Ok(out);
        }
        match read_field(s, pos) {
            Ok((f, p)) => {
                proof {
                    let rest0 = spec_fields_from(s@, pos as int);
                    let rest1 = spec_fields_from(s@, p as int);
                    assert(rest0 is Some <==> rest1 is Some);
                    if rest1 is Some {
                        assert(rest0.unwrap() =~= seq![f@] + rest1.unwrap());
                    }
                }
                let ghost old_out_seq = out.deep_view();
                out.push(f);
                proof {
                    assert(out.deep_view() =~= old_out_seq + seq![f@]);
                    if spec_fields_from(s@, p as int) is Some {
                        let rest1 = spec_fields_from(s@, p as int).unwrap();
                        assert(old_out_seq + (seq![f@] + rest1) =~= (old_out_seq + seq![f@])
                            + rest1);
                    }
                }
                pos = p;
            },
            Err(e) => {
                return Err(e);
            },
        }
    }
}

/// Decodes a packed array: back-to-back varints filling the run exactly.
pub open spec fn spec_packed_varints_from(s: Seq<u8>, i: int) -> Option<Seq<u64>>
    decreases s.len() - i,
{
    if i < 0 {
        None
    } else if i >= s.len() {
        Some(Seq::empty())
    } else {
        match spec_varint(s, i) {
            None => None,
            Some((v, j)) => if j <= i || j > s.len() {
                None
            } else {
                match spec_packed_varints_from(s, j) {
                    None => None,
                    Some(rest) => Some(seq![v] + rest),
                }
            },
        }
    }
}

/// Decodes a whole packed varint array.
pub open spec fn spec_packed_varints(s: Seq<u8>) -> Option<Seq<u64>> {
    spec_packed_varints_from(s, 0)
}

/// Decodes `s` as a packed varint array.
pub fn parse_packed_varints(s: &Vec<u8>) -> (r: Result<Vec<u64>, WireError>)
    ensures
        match r {
            Ok(vs) => spec_packed_varints(s@) == Some(vs@),
            Err(_) => spec_packed_varints(s@) is None,
        },
{
    let mut out: Vec<u64> = Vec::new();
    let mut pos: usize = 0;
    loop
        invariant
            pos <= s@.len(),
            spec_packed_varints(s@) is Some <==> spec_packed_varints_from(s@, pos as int) is Some,
            forall|rest: Seq<u64>|
                spec_packed_varints_from(s@, pos as int) == Some(rest) ==> spec_packed_varints(s@)
                    == Some(out@ + rest),
        decreases s@.len() - pos,
    {
        if pos >= s.len() {
            proof {
                assert(out@ + Seq::<u64>::empty() =~= out@);
            }
            return Ok(out);
        }
        match read_varint(s, pos) {
            Ok((v, p)) => {
                proof {
                    if spec_packed_varints_from(s@, p as int) is Some {
                        let rest1 = spec_packed_varints_from(s@, p as int).unwrap();
                        assert(spec_packed_varints_from(s@, pos as int).unwrap() =~= seq![v]
                            + rest1);
                        assert(out@ + (seq![v] + rest1) =~= (out@ + seq![v]) + rest1);
                    }
                }
                out.push(v);
                pos = p;
            },
            Err(e) => {
                return Err(e);
            },
        }
    }
}

/// The value of a varint read as a 64-bit unsigned integer, reinterpreted as
/// signed (two's complement).
pub open spec fn spec_int64(v: u64) -> i64 {
    if v >= 0x8000_0000_0000_0000 {
        (v - 0x1_0000_0000_0000_0000) as i64
    } else {
        v as i64
    }
}

/// The value of a varint truncated to 32 bits, reinterpreted as signed.
pub open spec fn spec_int32(v: u64) -> i32 {
    let w = v % 0x1_0000_0000;
    if w >= 0x8000_0000 {
        (w - 0x1_0000_0000) as i32
    } else {
        w as i32
    }
}

/// The value of a varint truncated to 32 bits.
pub open spec fn spec_uint32(v: u64) -> u32 {
    (v % 0x1_0000_0000) as u32
}

/// Zigzag decoding of a 64-bit varint: even values map to non-negative
/// integers, odd values to negative ones.
pub open spec fn spec_sint64(v: u64) -> i64 {
    if v % 2 == 0 {
        (v / 2) as i64
    } else {
        (-((v / 2) as int) - 1) as i64
    }
}

/// Zigzag decoding of a varint truncated to 32 bits.
pub open spec fn spec_sint32(v: u64) -> i32 {
    let w = v % 0x1_0000_0000;
    if w % 2 == 0 {
        (w / 2) as i32
    } else {
        (-((w / 2) as int) - 1) as i32
    }
}

/// The value of a varint read as a boolean.
pub open spec fn spec_bool(v: u64) -> bool {
    v != 0
}

/// Reinterprets a varint value as a signed 64-bit integer.
pub fn decode_int64(v: u64) -> (r: i64)
    ensures
        r == spec_int64(v),
{
    if v >= 0x8000_0000_0000_0000 {
        (((v - 0x8000_0000_0000_0000) as i64) - 0x4000_0000_0000_0000) - 0x4000_0000_0000_0000
    } else {
        v as i64
    }
}

/// Truncates a varint value to 32 bits and reinterprets it as signed.
pub fn decode_int32(v: u64) -> (r: i32)
    ensures
        r == spec_int32(v),
{
    let w = v % 0x1_0000_0000;
    if w >= 0x8000_0000 {
        (((w - 0x8000_0000) as i32) - 0x4000_0000) - 0x4000_0000
    } else {
        w as i32
    }
}

/// Truncates a varint value to 32 bits.
pub fn decode_uint32(v: u64) -> (r: u32)
    ensures
        r == spec_uint32(v),
{
    (v % 0x1_0000_0000) as u32
}

/// Zigzag-decodes a 64-bit varint value.
pub fn decode_sint64(v: u64) -> (r: i64)
    ensures
        r == spec_sint64(v),
{
    let h = v / 2;
    if v % 2 == 0 {
        h as i64
    } else {
        -(h as i64) - 1
    }
}

/// Zigzag-decodes a varint value truncated to 32 bits.
pub fn decode_sint32(v: u64) -> (r: i32)
    ensures
        r == spec_sint32(v),
{
    let w = v % 0x1_0000_0000;
    let h = w / 2;
    if w % 2 == 0 {
        h as i32
    } else {
        -(h as i32) - 1
    }
}

/// Reads a varint value as a boolean.
pub fn decode_bool(v: u64) -> (r: bool)
    ensures
        r == spec_bool(v),
{
    v != 0
}

/// The value of a signed 32-bit integer reinterpreted as unsigned 64-bit,
/// as a sign-extending cast does it.
pub open spec fn spec_i32_as_u64(d: i32) -> u64 {
    if d >= 0 {
        d as u64
    } else {
        (d + 0x1_0000_0000_0000_0000) as u64
    }
}

/// Reinterprets a signed 32-bit integer as unsigned 64-bit, sign-extending.
pub(crate) fn i32_as_u64(d: i32) -> (r: u64)
    ensures
        r == spec_i32_as_u64(d),
{
    if d >= 0 {
        d as u64
    } else {
        let m = (-(d as i64)) as u64;
        u64::MAX - m + 1
    }
}

/// Copies a byte string.
pub(crate) fn clone_bytes(s: &Vec<u8>) -> (r: Vec<u8>)
    ensures
        r@ == s@,
{
    let r = copy_range(s, 0, s.len());
    proof {
        assert(s@.subrange(0, s@.len() as int) =~= s@);
    }
    r
}

/// Relies on `core::str::from_utf8`, which succeeds exactly on valid UTF-8
/// and yields the string those bytes encode.
#[verifier::external_body]
pub(crate) fn utf8_to_str<'a>(b: &'a Vec<u8>) -> (r: Option<&'a str>)
    ensures
        r is Some <==> vstd::utf8::valid_utf8(b@),
        r matches Some(s) ==> s@ == vstd::utf8::decode_utf8(b@),
{
    core::str::from_utf8(b.as_slice()).ok()
}

/// Decodes the four-byte big-endian unsigned integer at the front of `s`.
pub open spec fn spec_be_u32(s: Seq<u8>) -> u32
    recommends
        s.len() >= 4,
{
    (((s[0] as nat) * 0x100_0000 + (s[1] as nat) * 0x1_0000 + (s[2] as nat) * 0x100 + (
    s[3] as nat)) % 0x1_0000_0000) as u32
}

/// Reads the four-byte big-endian unsigned integer at `pos`.
pub fn read_be_u32(s: &Vec<u8>, pos: usize) -> (r: u32)
    requires
        pos + 4 <= s@.len(),
    ensures
        r == spec_be_u32(s@.subrange(pos as int, pos + 4)),
{
    let n = s.len();
    proof {
        assert(pos + 4 <= n);
    }
    let b0 = s[pos] as u32;
    let b1 = s[pos + 1] as u32;
    let b2 = s[pos + 2] as u32;
    let b3 = s[pos + 3] as u32;
    let r = b0 * 0x100_0000 + b1 * 0x1_0000 + b2 * 0x100 + b3;
    proof {
        let sub = s@.subrange(pos as int, pos + 4);
        assert(sub[0] == s@[pos as int] && sub[1] == s@[pos + 1] && sub[2] == s@[pos + 2] && sub[3]
            == s@[pos + 3]);
    }
    r
}

} // verus!
