//! Address and key normalization: parses and validates externally-supplied
//! address strings and object keys. Pure logic, no I/O, total over arbitrary
//! input.
//!
//! Two address encodings are accepted: the hex-prefixed EVM form
//! (`0x` followed by exactly forty hex digits, case-insensitive) and the
//! chain-native actor-id form (`f0` or `t0` followed by decimal digits that
//! fit a 64-bit id). Everything else is a client fault.

use vstd::prelude::*;
use vstd::string::StringSliceAdditionalSpecFns;

use crate::errors::GatewayError;

verus! {

/// The mathematical value of an address: either twenty EVM account bytes, or
/// a native actor id together with the network flavor its text form carries
/// (`t` for testnet, `f` for mainnet).
pub enum AddressModel {
    Evm { bytes: Seq<u8> },
    Actor { id: u64, testnet: bool },
}

/// A syntactically valid account address.
pub enum Address {
    Evm { bytes: Vec<u8> },
    Actor { id: u64, testnet: bool },
}

impl View for Address {
    type V = AddressModel;

    open spec fn view(&self) -> AddressModel {
        match self {
            Address::Evm { bytes } => AddressModel::Evm { bytes: bytes@ },
            Address::Actor { id, testnet } => AddressModel::Actor {
                id: *id,
                testnet: *testnet,
            },
        }
    }
}

/// Well-formedness of an address value: EVM addresses carry exactly twenty
/// bytes; every actor id is well formed.
pub open spec fn wf_address(m: AddressModel) -> bool {
    match m {
        AddressModel::Evm { bytes } => bytes.len() == 20,
        AddressModel::Actor { .. } => true,
    }
}

/// An ASCII decimal digit, `'0'` (48) through `'9'` (57).
pub open spec fn is_dec_digit(b: u8) -> bool {
    48 <= b && b <= 57
}

/// An ASCII hex digit: decimal, `'a'`..`'f'` (97..102) or `'A'`..`'F'`
/// (65..70).
pub open spec fn is_hex_digit(b: u8) -> bool {
    is_dec_digit(b) || (97 <= b && b <= 102) || (65 <= b && b <= 70)
}

/// The numeric value of a hex digit byte.
pub open spec fn hex_digit_val(b: u8) -> u8 {
    if is_dec_digit(b) {
        (b - 48) as u8
    } else if 97 <= b && b <= 102 {
        (b - 87) as u8
    } else if 65 <= b && b <= 70 {
        (b - 55) as u8
    } else {
        0
    }
}

/// The lowercase hex digit byte for a value below sixteen.
pub open spec fn hex_char_lower(v: u8) -> u8 {
    if v < 10 {
        (48 + v) as u8
    } else {
        (87 + v) as u8
    }
}

/// The text is `0x` followed by exactly forty hex digits.
pub open spec fn valid_evm_literal(s: Seq<u8>) -> bool {
    &&& s.len() == 42
    &&& s[0] == 48  // '0'
    &&& s[1] == 120  // 'x'
    &&& forall|i: int| 2 <= i < 42 ==> is_hex_digit(#[trigger] s[i])
}

/// The bytes written by an even-length run of hex digit text, two digits per
/// byte, high nibble first.
pub open spec fn hex_bytes_of(s: Seq<u8>) -> Seq<u8> {
    Seq::new(
        s.len() / 2,
        |i: int| (16 * hex_digit_val(s[2 * i]) + hex_digit_val(s[2 * i + 1])) as u8,
    )
}

/// The lowercase hex digit text of a run of bytes, two digits per byte.
pub open spec fn hex_text_of(b: Seq<u8>) -> Seq<u8> {
    Seq::new(
        2 * b.len(),
        |i: int|
            if i % 2 == 0 {
                hex_char_lower(b[i / 2] / 16)
            } else {
                hex_char_lower(b[i / 2] % 16)
            },
    )
}

/// Every byte of the text is a decimal digit.
pub open spec fn all_dec_digits(s: Seq<u8>) -> bool {
    forall|i: int| 0 <= i < s.len() ==> is_dec_digit(#[trigger] s[i])
}

/// The number written by a run of decimal digit text, most significant digit
/// first; the empty run writes zero.
pub open spec fn dec_value(s: Seq<u8>) -> int
    decreases s.len(),
{
    if s.len() == 0 {
        0
    } else {
        dec_value(s.drop_last()) * 10 + (s.last() - 48)
    }
}

/// The decimal digit text of a non-negative number, without leading zeros.
pub open spec fn dec_text_of(n: int) -> Seq<u8>
    decreases n,
{
    if n < 10 {
        seq![(48 + n) as u8]
    } else {
        dec_text_of(n / 10).push((48 + n % 10) as u8)
    }
}

/// The text is `f0` or `t0` followed by at least one decimal digit, and the
/// digits write an id that fits sixty-four bits.
pub open spec fn valid_actor_literal(s: Seq<u8>) -> bool {
    &&& s.len() >= 3
    &&& (s[0] == 102 || s[0] == 116)  // 'f' or 't'
    &&& s[1] == 48  // '0'
    &&& all_dec_digits(s.skip(2))
    &&& dec_value(s.skip(2)) <= u64::MAX
}

/// What an address string means: the EVM form, the actor-id form, or nothing.
/// The two forms are disjoint (they start with different bytes).
pub open spec fn spec_parse_address(s: Seq<u8>) -> Option<AddressModel> {
    if valid_evm_literal(s) {
        Some(AddressModel::Evm { bytes: hex_bytes_of(s.subrange(2, 42)) })
    } else if valid_actor_literal(s) {
        Some(
            AddressModel::Actor {
                id: dec_value(s.skip(2)) as u64,
                testnet: s[0] == 116,
            },
        )
    } else {
        None
    }
}

/// Every address an address string can mean is well formed.
pub proof fn lemma_parsed_address_wf(s: Seq<u8>)
    ensures
        spec_parse_address(s) matches Some(m) ==> wf_address(m),
{
    if valid_evm_literal(s) {
        assert(s.subrange(2, 42).len() == 40);
    }
}

/// The numeric value of a hex digit byte, or nothing if the byte is not a
/// hex digit.
fn hex_digit_value(b: u8) -> (r: Option<u8>)
    ensures
        r is Some <==> is_hex_digit(b),
        r matches Some(v) ==> v == hex_digit_val(b) && v < 16,
{
    if 48 <= b && b <= 57 {
        Some(b - 48)
    } else if 97 <= b && b <= 102 {
        Some(b - 87)
    } else if 65 <= b && b <= 70 {
        Some(b - 55)
    } else {
        None
    }
}

/// A digit-text prefix never writes a larger number than the whole text.
proof fn lemma_dec_value_bounds(s: Seq<u8>, i: int)
    requires
        all_dec_digits(s),
        0 <= i <= s.len(),
    ensures
        0 <= dec_value(s.subrange(0, i)),
        dec_value(s.subrange(0, i)) <= dec_value(s),
    decreases s.len() - i,
{
    if i == s.len() {
        assert(s.subrange(0, i) =~= s);
        lemma_dec_value_nonneg(s);
    } else {
        lemma_dec_value_bounds(s, i + 1);
        let p = s.subrange(0, i);
        let q = s.subrange(0, i + 1);
        assert(q.drop_last() =~= p);
        assert(dec_value(q) == dec_value(p) * 10 + (s[i] - 48));
        lemma_dec_value_nonneg(p);
    }
}

/// Digit text never writes a negative number.
proof fn lemma_dec_value_nonneg(s: Seq<u8>)
    requires
        all_dec_digits(s),
    ensures
        dec_value(s) >= 0,
    decreases s.len(),
{
    if s.len() > 0 {
        assert(all_dec_digits(s.drop_last()));
        lemma_dec_value_nonneg(s.drop_last());
    }
}

/// Parse and validate an address given as raw bytes. Succeeds exactly on the
/// two supported encodings, returns the parsed value, and fails with a client
/// fault on everything else. Total: no input panics.
pub fn normalize_address_bytes(raw: &[u8]) -> (r: Result<Address, GatewayError>)
    ensures
        match spec_parse_address(raw@) {
            Some(m) => r matches Ok(a) && a@ == m,
            None => r matches Err(e) && e.is_bad_request(),
        },
        r matches Ok(a) ==> wf_address(a@),
{
    proof {
        lemma_parsed_address_wf(raw@);
    }
    if raw.len() == 42 && raw[0] == 48 && raw[1] == 120 {
        let mut bytes: Vec<u8> = Vec::new();
        let mut i: usize = 0;
        while i < 20
            invariant
                raw@.len() == 42,
                raw@[0] == 48,
                raw@[1] == 120,
                i <= 20,
                bytes@.len() == i,
                forall|j: int| 2 <= j < 2 + 2 * i ==> is_hex_digit(#[trigger] raw@[j]),
                forall|j: int|
                    0 <= j < i ==> bytes@[j] == 16 * hex_digit_val(raw@[2 + 2 * j])
                        + hex_digit_val(raw@[3 + 2 * j]),
            decreases 20 - i,
        {
            let hi = raw[2 + 2 * i];
            let lo = raw[3 + 2 * i];
            match (hex_digit_value(hi), hex_digit_value(lo)) {
                (Some(h), Some(l)) => {
                    bytes.push(16 * h + l);
                },
                _ => {
                    proof {
                        assert(!is_hex_digit(raw@[2 + 2 * i as int]) || !is_hex_digit(
                            raw@[3 + 2 * i as int],
                        ));
                        assert(!valid_evm_literal(raw@));
                        assert(!valid_actor_literal(raw@));
                    }
                    return Err(GatewayError::BadRequest(String::from_str("invalid address")));
                },
            }
            i = i + 1;
        }
        proof {
            assert(valid_evm_literal(raw@));
            assert(bytes@ =~= hex_bytes_of(raw@.subrange(2, 42)));
        }
        Ok(Address::Evm { bytes })
    } else if raw.len() >= 3 && (raw[0] == 102 || raw[0] == 116) && raw[1] == 48 {
        let ghost t = raw@.skip(2);
        let mut id: u64 = 0;
        let mut i: usize = 2;
        while i < raw.len()
            invariant
                raw@.len() >= 3,
                raw@[0] == 102 || raw@[0] == 116,
                raw@[1] == 48,
                t == raw@.skip(2),
                2 <= i <= raw@.len(),
                forall|j: int| 0 <= j < i - 2 ==> is_dec_digit(#[trigger] t[j]),
                id == dec_value(t.subrange(0, i - 2)),
            decreases raw@.len() - i,
        {
            let b = raw[i];
            proof {
                assert(t[i - 2] == raw@[i as int]);
            }
            if !(48 <= b && b <= 57) {
                proof {
                    assert(!is_dec_digit(t[i - 2]));
                    assert(!all_dec_digits(t));
                    assert(!valid_actor_literal(raw@));
                    assert(!valid_evm_literal(raw@));
                }
                return Err(GatewayError::BadRequest(String::from_str("invalid address")));
            }
            let d = (b - 48) as u64;
            let ghost p = t.subrange(0, i - 2);
            let ghost q = t.subrange(0, i - 1);
            proof {
                assert(q.drop_last() =~= p);
                assert(dec_value(q) == dec_value(p) * 10 + (t[i - 2] - 48));
            }
            if id > (u64::MAX - d) / 10 {
                proof {
                    assert(id * 10 + d > u64::MAX) by (nonlinear_arith)
                        requires
                            id > (u64::MAX - d) / 10,
                            d <= 9,
                            u64::MAX - d == ((u64::MAX - d) / 10) * 10 + (u64::MAX - d) % 10,
                            0 <= (u64::MAX - d) % 10 < 10,
                    ;
                    if all_dec_digits(t) && dec_value(t) <= u64::MAX {
                        lemma_dec_value_bounds(t, i - 1);
                        assert(dec_value(q) <= dec_value(t));
                        assert(false);
                    }
                    assert(!valid_actor_literal(raw@));
                    assert(!valid_evm_literal(raw@));
                }
                return Err(GatewayError::BadRequest(String::from_str("invalid address")));
            }
            proof {
                assert(id * 10 + d <= u64::MAX) by (nonlinear_arith)
                    requires
                        id <= (u64::MAX - d) / 10,
                        d <= 9,
                        u64::MAX - d >= ((u64::MAX - d) / 10) * 10,
                ;
            }
            id = id * 10 + d;
            i = i + 1;
        }
        proof {
            assert(t.subrange(0, raw@.len() - 2) =~= t);
            assert(all_dec_digits(t));
            assert(valid_actor_literal(raw@));
            assert(!valid_evm_literal(raw@));
        }
        Ok(Address::Actor { id, testnet: raw[0] == 116 })
    } else {
        proof {
            assert(!valid_evm_literal(raw@));
            assert(!valid_actor_literal(raw@));
        }
        Err(GatewayError::BadRequest(String::from_str("invalid address")))
    }
}

/// The canonical text of an address value: `0x` and lowercase hex for the
/// EVM form, the network letter, `0` and decimal digits for the actor form.
pub open spec fn spec_canonical_text(m: AddressModel) -> Seq<u8> {
    match m {
        AddressModel::Evm { bytes } => seq![48u8, 120u8] + hex_text_of(bytes),
        AddressModel::Actor { id, testnet } => seq![
            if testnet {
                116u8
            } else {
                102u8
            },
            48u8,
        ] + dec_text_of(id as int),
    }
}

/// The lowercase hex digit byte for a nibble.
fn hex_char_of(v: u8) -> (c: u8)
    requires
        v < 16,
    ensures
        c == hex_char_lower(v),
{
    if v < 10 {
        48 + v
    } else {
        87 + v
    }
}

/// Lowercase hex digits are hex digits, and reading one back gives the
/// nibble it was written from.
proof fn lemma_hex_char_roundtrip(v: u8)
    requires
        v < 16,
    ensures
        is_hex_digit(hex_char_lower(v)),
        hex_digit_val(hex_char_lower(v)) == v,
{
}

/// Decimal text is made of digits, is never empty, and reading it back gives
/// the number it was written from.
proof fn lemma_dec_text_roundtrip(n: int)
    requires
        n >= 0,
    ensures
        dec_text_of(n).len() >= 1,
        all_dec_digits(dec_text_of(n)),
        dec_value(dec_text_of(n)) == n,
    decreases n,
{
    if n < 10 {
        let s = dec_text_of(n);
        assert(s.drop_last() =~= Seq::<u8>::empty());
        assert(dec_value(Seq::<u8>::empty()) == 0);
        assert(dec_value(s) == dec_value(s.drop_last()) * 10 + (s.last() - 48));
    } else {
        lemma_dec_text_roundtrip(n / 10);
        let p = dec_text_of(n / 10);
        let s = dec_text_of(n);
        assert(s =~= p.push((48 + n % 10) as u8));
        assert(s.drop_last() =~= p);
        assert(dec_value(s) == dec_value(p) * 10 + (s.last() - 48));
        assert(n == (n / 10) * 10 + n % 10);
    }
}

/// Write the decimal digits of `n` onto the end of `out`.
fn push_decimal(n: u64, out: &mut Vec<u8>)
    ensures
        final(out)@ == old(out)@ + dec_text_of(n as int),
    decreases n,
{
    if n < 10 {
        out.push(48 + (n as u8));
        assert(out@ =~= old(out)@ + dec_text_of(n as int));
    } else {
        push_decimal(n / 10, out);
        out.push(48 + ((n % 10) as u8));
        assert(out@ =~= old(out)@ + dec_text_of(n as int));
    }
}

/// Render the canonical text of an address, as ASCII bytes.
pub fn canonical_text(a: &Address) -> (r: Vec<u8>)
    ensures
        r@ == spec_canonical_text(a@),
{
    match a {
        Address::Evm { bytes } => {
            let mut out: Vec<u8> = Vec::new();
            out.push(48);
            out.push(120);
            let mut i: usize = 0;
            while i < bytes.len()
                invariant
                    i <= bytes@.len(),
                    out@.len() == 2 + 2 * i,
                    out@[0] == 48,
                    out@[1] == 120,
                    forall|j: int|
                        0 <= j < 2 * i ==> out@[2 + j] == #[trigger] hex_text_of(bytes@)[j],
                decreases bytes@.len() - i,
            {
                let b = bytes[i];
                out.push(hex_char_of(b / 16));
                out.push(hex_char_of(b % 16));
                proof {
                    assert(hex_text_of(bytes@)[2 * i as int] == hex_char_lower(bytes@[i as int]
                        / 16));
                    assert(hex_text_of(bytes@)[2 * i as int + 1] == hex_char_lower(bytes@[i as int]
                        % 16));
                }
                i = i + 1;
            }
            proof {
                assert(out@ =~= spec_canonical_text(a@));
            }
            out
        },
        Address::Actor { id, testnet } => {
            let mut out: Vec<u8> = Vec::new();
            if *testnet {
                out.push(116);
            } else {
                out.push(102);
            }
            out.push(48);
            push_decimal(*id, &mut out);
            proof {
                assert(out@ =~= spec_canonical_text(a@));
            }
            out
        },
    }
}

/// Normalization is idempotent: the canonical text of any well-formed
/// address value is itself a valid address string, and parsing it yields
/// exactly the value it was written from. In particular, for every valid
/// address string, normalizing the normalizer's own canonical output is a
/// no-op.
pub proof fn lemma_normalize_canonical_roundtrip(m: AddressModel)
    requires
        wf_address(m),
    ensures
        spec_parse_address(spec_canonical_text(m)) == Some(m),
{
    let s = spec_canonical_text(m);
    match m {
        AddressModel::Evm { bytes } => {
            let h = hex_text_of(bytes);
            assert(s.len() == 42);
            assert forall|i: int| 2 <= i < 42 implies is_hex_digit(#[trigger] s[i]) by {
                assert(s[i] == h[i - 2]);
                let j = i - 2;
                if j % 2 == 0 {
                    lemma_hex_char_roundtrip(bytes[j / 2] / 16);
                } else {
                    lemma_hex_char_roundtrip(bytes[j / 2] % 16);
                }
            }
            assert(valid_evm_literal(s));
            let back = hex_bytes_of(s.subrange(2, 42));
            assert(s.subrange(2, 42) =~= h);
            assert forall|i: int| 0 <= i < 20 implies back[i] == bytes[i] by {
                assert(h[2 * i] == hex_char_lower(bytes[i] / 16));
                assert(h[2 * i + 1] == hex_char_lower(bytes[i] % 16));
                lemma_hex_char_roundtrip(bytes[i] / 16);
                lemma_hex_char_roundtrip(bytes[i] % 16);
                assert(back[i] == 16 * (bytes[i] / 16) + bytes[i] % 16);
            }
            assert(back =~= bytes);
        },
        AddressModel::Actor { id, testnet } => {
            lemma_dec_text_roundtrip(id as int);
            let d = dec_text_of(id as int);
            assert(s.skip(2) =~= d);
            assert(s[0] != 48);
            assert(!valid_evm_literal(s));
            assert(valid_actor_literal(s));
            assert((s[0] == 116) == testnet);
        },
    }
}

/// An ASCII whitespace byte: space, tab, line feed, vertical tab, form feed
/// or carriage return.
pub open spec fn is_ascii_space(b: u8) -> bool {
    b == 32 || b == 9 || b == 10 || b == 11 || b == 12 || b == 13
}

/// A valid object key: non-empty, and not made of whitespace alone.
pub open spec fn valid_key_bytes(s: Seq<u8>) -> bool {
    s.len() > 0 && exists|i: int| 0 <= i < s.len() && !is_ascii_space(#[trigger] s[i])
}

/// Validate an object key given as raw bytes: rejects empty and
/// whitespace-only keys as client faults, and accepts everything else
/// unchanged. Total: no input panics.
pub fn normalize_key_bytes(raw: &[u8]) -> (r: Result<(), GatewayError>)
    ensures
        r is Ok <==> valid_key_bytes(raw@),
        r matches Err(e) ==> e.is_bad_request(),
{
    let mut i: usize = 0;
    while i < raw.len()
        invariant
            i <= raw@.len(),
            forall|j: int| 0 <= j < i ==> is_ascii_space(#[trigger] raw@[j]),
        decreases raw@.len() - i,
    {
        let b = raw[i];
        if !(b == 32 || b == 9 || b == 10 || b == 11 || b == 12 || b == 13) {
            return Ok(());
        }
        i = i + 1;
    }
    Err(GatewayError::BadRequest(String::from_str("invalid key")))
}

/// Validate an object key string: rejects empty and whitespace-only keys as
/// client faults, and returns every other key unchanged.
pub fn normalize_key(raw: &str) -> (r: Result<String, GatewayError>)
    ensures
        r matches Ok(k) ==> k@ == raw@ && valid_key_bytes(raw.spec_bytes()),
        r is Err <==> !valid_key_bytes(raw.spec_bytes()),
        r matches Err(e) ==> e.is_bad_request(),
{
    match normalize_key_bytes(raw.as_bytes()) {
        Ok(_) => Ok(raw.to_owned()),
        Err(e) => Err(e),
    }
}

/// Parse and validate an address string. The byte-level grammar is
/// `normalize_address_bytes`.
pub fn normalize_address(raw: &str) -> (r: Result<Address, GatewayError>)
    ensures
        match spec_parse_address(raw.spec_bytes()) {
            Some(m) => r matches Ok(a) && a@ == m,
            None => r matches Err(e) && e.is_bad_request(),
        },
        r matches Ok(a) ==> wf_address(a@),
{
    normalize_address_bytes(raw.as_bytes())
}

} // verus!
