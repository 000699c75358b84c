use vstd::prelude::*;

verus! {

/// `256` raised to `n`: the bound on a value written in `n` bytes.
pub open spec fn byte_bound(n: nat) -> nat
    decreases n,
{
    if n == 0 {
        1
    } else {
        byte_bound((n - 1) as nat) * 256
    }
}

/// `v` written big-endian in `n` bytes.
pub open spec fn be_bytes(v: nat, n: nat) -> Seq<u8>
    decreases n,
{
    if n == 0 {
        Seq::empty()
    } else {
        be_bytes(v / 256, (n - 1) as nat).push((v % 256) as u8)
    }
}

/// The value of big-endian bytes.
pub open spec fn be_value(s: Seq<u8>) -> nat
    decreases s.len(),
{
    if s.len() == 0 {
        0
    } else {
        be_value(s.drop_last()) * 256 + s.last() as nat
    }
}

/// Big-endian bytes read back give the value written.
pub proof fn lemma_be_round_trip(v: nat, n: nat)
    requires
        v < byte_bound(n),
    ensures
        be_bytes(v, n).len() == n,
        be_value(be_bytes(v, n)) == v,
    decreases n,
{
    if n > 0 {
        let b = byte_bound((n - 1) as nat);
        assert(v / 256 < b) by (nonlinear_arith)
            requires
                v < b * 256,
        ;
        lemma_be_round_trip(v / 256, (n - 1) as nat);
        let s = be_bytes(v, n);
        assert(s.drop_last() =~= be_bytes(v / 256, (n - 1) as nat));
    }
}

/// A CBOR item head in its shortest form: the major type in the top three
/// bits of the first byte, the argument in the low five bits when below
/// 24, else in the next 1, 2, 4 or 8 bytes, big-endian.
pub open spec fn cbor_head(major: nat, v: nat) -> Seq<u8> {
    if v < 24 {
        seq![(major * 32 + v) as u8]
    } else if v < 0x100 {
        seq![(major * 32 + 24) as u8] + be_bytes(v, 1)
    } else if v < 0x1_0000 {
        seq![(major * 32 + 25) as u8] + be_bytes(v, 2)
    } else if v < 0x1_0000_0000 {
        seq![(major * 32 + 26) as u8] + be_bytes(v, 4)
    } else {
        seq![(major * 32 + 27) as u8] + be_bytes(v, 8)
    }
}

/// Number of bytes of the head at the start of `s`.
pub open spec fn head_len(s: Seq<u8>) -> nat {
    let minor = s[0] % 32;
    if minor < 24 {
        1
    } else if minor == 24 {
        2
    } else if minor == 25 {
        3
    } else if minor == 26 {
        5
    } else {
        9
    }
}

/// The argument that the head at the start of `s` carries.
pub open spec fn head_value(s: Seq<u8>) -> nat {
    if s[0] % 32 < 24 {
        (s[0] % 32) as nat
    } else {
        be_value(s.subrange(1, head_len(s) as int))
    }
}

/// A head, whatever follows it, reads back as its major type, length and
/// argument.
pub proof fn lemma_head_round_trip(major: nat, v: nat, rest: Seq<u8>)
    requires
        major < 8,
        v < 0x1_0000_0000_0000_0000,
    ensures
        cbor_head(major, v).len() > 0,
        (cbor_head(major, v) + rest)[0] / 32 == major,
        head_len(cbor_head(major, v) + rest) == cbor_head(major, v).len(),
        head_value(cbor_head(major, v) + rest) == v,
{
    reveal_with_fuel(byte_bound, 9);
    let h = cbor_head(major, v);
    let s = h + rest;
    if v < 24 {
    } else if v < 0x100 {
        lemma_be_round_trip(v, 1);
        assert(s.subrange(1, 2) =~= be_bytes(v, 1));
    } else if v < 0x1_0000 {
        lemma_be_round_trip(v, 2);
        assert(s.subrange(1, 3) =~= be_bytes(v, 2));
    } else if v < 0x1_0000_0000 {
        lemma_be_round_trip(v, 4);
        assert(s.subrange(1, 5) =~= be_bytes(v, 4));
    } else {
        lemma_be_round_trip(v, 8);
        assert(s.subrange(1, 9) =~= be_bytes(v, 8));
    }
}

/// CBOR of an unsigned integer: a head of major type 0.
pub open spec fn cbor_uint(v: nat) -> Seq<u8> {
    cbor_head(0, v)
}

/// CBOR of a signed integer: major type 0 for `v >= 0`, else major type 1
/// with argument `-1 - v`.
pub open spec fn cbor_int(v: int) -> Seq<u8> {
    if v >= 0 {
        cbor_head(0, v as nat)
    } else {
        cbor_head(1, (-1 - v) as nat)
    }
}

/// The CBOR items for each byte, in order, as unsigned integers.
pub open spec fn cbor_byte_items(s: Seq<u8>) -> Seq<u8>
    decreases s.len(),
{
    if s.len() == 0 {
        Seq::empty()
    } else {
        cbor_uint(s[0] as nat) + cbor_byte_items(s.drop_first())
    }
}

/// CBOR of a byte vector as serde presents it: an array head (major type
/// 4) with the length, then each byte as an unsigned integer.
pub open spec fn cbor_bytes(s: Seq<u8>) -> Seq<u8> {
    cbor_head(4, s.len()) + cbor_byte_items(s)
}

/// The `u32` of which `s` is exactly the encoding, if any.
pub open spec fn canonical_u32(s: Seq<u8>) -> Option<u32> {
    if s.len() > 0 && s[0] / 32 == 0 && head_value(s) <= u32::MAX && s == cbor_uint(head_value(s)) {
        Some(head_value(s) as u32)
    } else {
        None
    }
}

/// The `u64` of which `s` is exactly the encoding, if any.
pub open spec fn canonical_u64(s: Seq<u8>) -> Option<u64> {
    if s.len() > 0 && s[0] / 32 == 0 && head_value(s) <= u64::MAX && s == cbor_uint(head_value(s)) {
        Some(head_value(s) as u64)
    } else {
        None
    }
}

/// The `i32` of which `s` is exactly the encoding, if any.
pub open spec fn canonical_i32(s: Seq<u8>) -> Option<i32> {
    if s.len() > 0 && s[0] / 32 == 0 && head_value(s) <= i32::MAX && s == cbor_int(head_value(s) as int) {
        Some(head_value(s) as i32)
    } else if s.len() > 0 && s[0] / 32 == 1 && head_value(s) <= i32::MAX && s == cbor_int(-1 - head_value(s)) {
        Some((-1 - head_value(s)) as i32)
    } else {
        None
    }
}

/// What ciborium decodes from `b` as a `u32`, if it decodes.
pub uninterp spec fn decoded_u32(b: Seq<u8>) -> Option<u32>;

/// What ciborium decodes from `b` as a `u64`, if it decodes.
pub uninterp spec fn decoded_u64(b: Seq<u8>) -> Option<u64>;

/// What ciborium decodes from `b` as an `i32`, if it decodes.
pub uninterp spec fn decoded_i32(b: Seq<u8>) -> Option<i32>;

/// What ciborium decodes from `b` as a byte vector, if it decodes.
pub uninterp spec fn decoded_bytes(b: Seq<u8>) -> Option<Seq<u8>>;

/// Relies on ciborium::ser::into_writer for `u32`: serde hands the value on
/// as a `u64`, written as a shortest-form head of major type 0. Writing to a
/// vector cannot fail.
#[verifier::external_body]
fn cbor_write_u32(v: u32) -> (r: Vec<u8>)
    ensures
        r@ == cbor_uint(v as nat),
{
    let mut buf: Vec<u8> = Vec::new();
    let _ = ciborium::ser::into_writer(&v, &mut buf);
    buf
}

/// Relies on ciborium::ser::into_writer for `u64`: a shortest-form head of
/// major type 0. Writing to a vector cannot fail.
#[verifier::external_body]
fn cbor_write_u64(v: u64) -> (r: Vec<u8>)
    ensures
        r@ == cbor_uint(v as nat),
{
    let mut buf: Vec<u8> = Vec::new();
    let _ = ciborium::ser::into_writer(&v, &mut buf);
    buf
}

/// Relies on ciborium::ser::into_writer for `i32`: serde hands the value on
/// as an `i64`, written as major type 0, or as major type 1 with argument
/// `-1 - v` when negative. Writing to a vector cannot fail.
#[verifier::external_body]
fn cbor_write_i32(v: i32) -> (r: Vec<u8>)
    ensures
        r@ == cbor_int(v as int),
{
    let mut buf: Vec<u8> = Vec::new();
    let _ = ciborium::ser::into_writer(&v, &mut buf);
    buf
}

/// Relies on ciborium::ser::into_writer for `Vec<u8>`: serde presents it as
/// a sequence of known length, written as an array head followed by each
/// byte as an unsigned integer. Writing to a vector cannot fail.
#[verifier::external_body]
fn cbor_write_bytes(v: &Vec<u8>) -> (r: Vec<u8>)
    ensures
        r@ == cbor_bytes(v@),
{
    let mut buf: Vec<u8> = Vec::new();
    let _ = ciborium::ser::into_writer(v, &mut buf);
    buf
}

/// Relies on ciborium::de::from_reader for `u32`. An input that is exactly
/// the shortest encoding of a `u32` decodes to it; an empty input fails.
#[verifier::external_body]
fn cbor_read_u32(b: &Vec<u8>) -> (r: Option<u32>)
    ensures
        r == decoded_u32(b@),
        canonical_u32(b@) matches Some(v) ==> r == Some(v),
        b@.len() == 0 ==> r is None,
{
    ciborium::de::from_reader::<u32, &[u8]>(b.as_slice()).ok()
}

/// Relies on ciborium::de::from_reader for `u64`. An input that is exactly
/// the shortest encoding of a `u64` decodes to it; an empty input fails.
#[verifier::external_body]
fn cbor_read_u64(b: &Vec<u8>) -> (r: Option<u64>)
    ensures
        r == decoded_u64(b@),
        canonical_u64(b@) matches Some(v) ==> r == Some(v),
        b@.len() == 0 ==> r is None,
{
    ciborium::de::from_reader::<u64, &[u8]>(b.as_slice()).ok()
}

/// Relies on ciborium::de::from_reader for `i32`. An input that is exactly
/// the shortest encoding of an `i32` decodes to it; an empty input fails.
#[verifier::external_body]
fn cbor_read_i32(b: &Vec<u8>) -> (r: Option<i32>)
    ensures
        r == decoded_i32(b@),
        canonical_i32(b@) matches Some(v) ==> r == Some(v),
        b@.len() == 0 ==> r is None,
{
    ciborium::de::from_reader::<i32, &[u8]>(b.as_slice()).ok()
}

/// Relies on ciborium::de::from_reader for `Vec<u8>`. The encoding of a
/// byte vector decodes to it; an empty input fails.
#[verifier::external_body]
fn cbor_read_bytes(b: &Vec<u8>) -> (r: Option<Vec<u8>>)
    ensures
        r is Some <==> decoded_bytes(b@) is Some,
        r matches Some(v) ==> decoded_bytes(b@) == Some(v@),
        canonical_bytes(b@) is Some ==> r is Some && r.unwrap()@ == canonical_bytes(b@).unwrap(),
        b@.len() == 0 ==> r is None,
{
    ciborium::de::from_reader::<Vec<u8>, &[u8]>(b.as_slice()).ok()
}

/// The byte vector (of a length a vector can have) of which `s` is
/// exactly the encoding, if any.
pub open spec fn canonical_bytes(s: Seq<u8>) -> Option<Seq<u8>> {
    if exists|v: Seq<u8>| v.len() <= u64::MAX && cbor_bytes(v) == s {
        Some(choose|v: Seq<u8>| v.len() <= u64::MAX && cbor_bytes(v) == s)
    } else {
        None
    }
}

/// A value could not be decoded.
#[derive(Clone, Copy, Debug, PartialEq, Eq, Structural)]
pub enum DeserializationError {
    /// The input is not an encoding of a value of the asked type.
    Malformed,
}

/// Selects CBOR, as ciborium writes it, as the format of values carried
/// inside channels. Generic values are encoded where their serde
/// implementations are at hand; the plain values of the protocol are
/// encoded here.
#[derive(Clone, Copy, Debug, PartialEq, Eq, Structural)]
pub struct Ciborium;

impl Ciborium {
    /// The CBOR encoding of a port number.
    pub fn serialize_u32(v: u32) -> (r: Vec<u8>)
        ensures
            r@ == cbor_uint(v as nat),
    {
        cbor_write_u32(v)
    }

    /// The CBOR encoding of a credit amount.
    pub fn serialize_u64(v: u64) -> (r: Vec<u8>)
        ensures
            r@ == cbor_uint(v as nat),
    {
        cbor_write_u64(v)
    }

    /// The CBOR encoding of a signed integer.
    pub fn serialize_i32(v: i32) -> (r: Vec<u8>)
        ensures
            r@ == cbor_int(v as int),
    {
        cbor_write_i32(v)
    }

    /// The CBOR encoding of a byte payload.
    pub fn serialize_bytes(v: &Vec<u8>) -> (r: Vec<u8>)
        ensures
            r@ == cbor_bytes(v@),
    {
        cbor_write_bytes(v)
    }

    /// Decodes a `u32`; input that does not decode is malformed.
    pub fn deserialize_u32(b: &Vec<u8>) -> (r: Result<u32, DeserializationError>)
        ensures
            match decoded_u32(b@) {
                Some(v) => r == Ok::<u32, DeserializationError>(v),
                None => r == Err::<u32, DeserializationError>(DeserializationError::Malformed),
            },
            canonical_u32(b@) matches Some(v) ==> r == Ok::<u32, DeserializationError>(v),
            b@.len() == 0 ==> r is Err,
    {
        match cbor_read_u32(b) {
            Some(v) => Ok(v),
            None => Err(DeserializationError::Malformed),
        }
    }

    /// Decodes a `u64`; input that does not decode is malformed.
    pub fn deserialize_u64(b: &Vec<u8>) -> (r: Result<u64, DeserializationError>)
        ensures
            match decoded_u64(b@) {
                Some(v) => r == Ok::<u64, DeserializationError>(v),
                None => r == Err::<u64, DeserializationError>(DeserializationError::Malformed),
            },
            canonical_u64(b@) matches Some(v) ==> r == Ok::<u64, DeserializationError>(v),
            b@.len() == 0 ==> r is Err,
    {
        match cbor_read_u64(b) {
            Some(v) => Ok(v),
            None => Err(DeserializationError::Malformed),
        }
    }

    /// Decodes an `i32`; input that does not decode is malformed.
    pub fn deserialize_i32(b: &Vec<u8>) -> (r: Result<i32, DeserializationError>)
        ensures
            match decoded_i32(b@) {
                Some(v) => r == Ok::<i32, DeserializationError>(v),
                None => r == Err::<i32, DeserializationError>(DeserializationError::Malformed),
            },
            canonical_i32(b@) matches Some(v) ==> r == Ok::<i32, DeserializationError>(v),
            b@.len() == 0 ==> r is Err,
    {
        match cbor_read_i32(b) {
            Some(v) => Ok(v),
            None => Err(DeserializationError::Malformed),
        }
    }

    /// Decodes a byte payload; input that does not decode is malformed.
    pub fn deserialize_bytes(b: &Vec<u8>) -> (r: Result<Vec<u8>, DeserializationError>)
        ensures
            (r is Ok) == (decoded_bytes(b@) is Some),
            r matches Ok(v) ==> decoded_bytes(b@) == Some(v@),
            r matches Err(e) ==> e == DeserializationError::Malformed,
            canonical_bytes(b@) matches Some(v) ==> (r matches Ok(w) && w@ == v),
            b@.len() == 0 ==> r is Err,
    {
        match cbor_read_bytes(b) {
            Some(v) => Ok(v),
            None => Err(DeserializationError::Malformed),
        }
    }
}

/// Encoded integers decode back: the encoding of any `u32`, `u64` or `i32`
/// is exactly the encoding of that value and of no other.
pub proof fn lemma_int_round_trip(a: u32, b: u64, c: i32)
    ensures
        canonical_u32(cbor_uint(a as nat)) == Some(a),
        canonical_u64(cbor_uint(b as nat)) == Some(b),
        canonical_i32(cbor_int(c as int)) == Some(c),
{
    let e = Seq::<u8>::empty();
    lemma_head_round_trip(0, a as nat, e);
    assert(cbor_uint(a as nat) + e =~= cbor_uint(a as nat));
    lemma_head_round_trip(0, b as nat, e);
    assert(cbor_uint(b as nat) + e =~= cbor_uint(b as nat));
    if c >= 0 {
        lemma_head_round_trip(0, c as nat, e);
        assert(cbor_int(c as int) + e =~= cbor_int(c as int));
    } else {
        lemma_head_round_trip(1, (-1 - c) as nat, e);
        assert(cbor_int(c as int) + e =~= cbor_int(c as int));
    }
}

/// Reads `n` unsigned-integer items of one byte each from `s`, which must
/// hold nothing more.
pub open spec fn decode_byte_items(s: Seq<u8>, n: nat) -> Option<Seq<u8>>
    decreases n,
{
    if n == 0 {
        if s.len() == 0 {
            Some(Seq::empty())
        } else {
            None
        }
    } else if s.len() > 0 && s[0] < 24 {
        match decode_byte_items(s.drop_first(), (n - 1) as nat) {
            Some(t) => Some(seq![s[0]] + t),
            None => None,
        }
    } else if s.len() > 1 && s[0] == 24 {
        match decode_byte_items(s.skip(2), (n - 1) as nat) {
            Some(t) => Some(seq![s[1]] + t),
            None => None,
        }
    } else {
        None
    }
}

proof fn lemma_byte_items_decode(v: Seq<u8>)
    ensures
        decode_byte_items(cbor_byte_items(v), v.len()) == Some(v),
    decreases v.len(),
{
    reveal_with_fuel(byte_bound, 2);
    if v.len() > 0 {
        lemma_byte_items_decode(v.drop_first());
        let s = cbor_byte_items(v);
        let b = v[0] as nat;
        let rest = cbor_byte_items(v.drop_first());
        assert(s == cbor_uint(b) + rest);
        if b < 24 {
            assert(s.drop_first() =~= rest);
        } else {
            lemma_be_round_trip(b, 1);
            assert(s.skip(2) =~= rest);
            assert(s[1] == v[0]);
        }
        assert(seq![v[0]] + v.drop_first() =~= v);
    }
}

/// Encoded byte vectors decode back: the encoding of `v` is the encoding
/// of `v` alone.
pub proof fn lemma_bytes_round_trip(v: Seq<u8>)
    requires
        v.len() <= u64::MAX,
    ensures
        canonical_bytes(cbor_bytes(v)) == Some(v),
{
    let s = cbor_bytes(v);
    assert(cbor_bytes(v) == s);
    let w = choose|w: Seq<u8>| w.len() <= u64::MAX && cbor_bytes(w) == s;
    assert(w.len() <= u64::MAX && cbor_bytes(w) == s);
    lemma_head_round_trip(4, v.len(), cbor_byte_items(v));
    lemma_head_round_trip(4, w.len(), cbor_byte_items(w));
    assert(w.len() == v.len());
    let hl = cbor_head(4, v.len()).len() as int;
    assert(s.skip(hl) =~= cbor_byte_items(v));
    assert(s.skip(hl) =~= cbor_byte_items(w));
    lemma_byte_items_decode(v);
    lemma_byte_items_decode(w);
}

} // verus!
