//! The byte form in which the user store keeps a password: bincode's
//! standard configuration (little-endian, variable-length integers, no
//! limit) applied to the user record, whose one field is the password text.
//! A record is the varint length of the UTF-8 bytes, then those bytes.

use vstd::prelude::*;
use vstd::utf8::*;

verus! {

broadcast use {encode_utf8_valid_utf8, encode_utf8_decode_utf8};

/// `256` raised to `k`.
pub open spec fn pow256(k: nat) -> nat
    decreases k,
{
    if k == 0 { 1 } else { 256 * pow256((k - 1) as nat) }
}

/// The `k` least significant bytes of `n`, least significant first.
pub open spec fn le_bytes(n: nat, k: nat) -> Seq<u8>
    decreases k,
{
    if k == 0 {
        seq![]
    } else {
        seq![(n % 256) as u8] + le_bytes(n / 256, (k - 1) as nat)
    }
}

/// The number that `b` writes, least significant byte first.
pub open spec fn le_value(b: Seq<u8>) -> nat
    decreases b.len(),
{
    if b.len() == 0 {
        0
    } else {
        b[0] as nat + 256 * le_value(b.drop_first())
    }
}

/// bincode's variable-length encoding of an unsigned integer: one byte below
/// 251, else a marker (251, 252, 253) followed by the value as 2, 4 or 8
/// little-endian bytes.
pub open spec fn varint(n: nat) -> Seq<u8> {
    if n <= 250 {
        seq![n as u8]
    } else if n < 0x1_0000 {
        seq![251u8] + le_bytes(n, 2)
    } else if n < 0x1_0000_0000 {
        seq![252u8] + le_bytes(n, 4)
    } else {
        seq![253u8] + le_bytes(n, 8)
    }
}

/// What bincode reads as a variable-length integer at the start of `b`: the
/// value and the number of bytes it took. It accepts any marker width for
/// any value, and refuses the markers 254 and 255 and a short input.
pub open spec fn varint_prefix(b: Seq<u8>) -> Option<(nat, nat)> {
    if b.len() == 0 {
        None
    } else if b[0] <= 250 {
        Some((b[0] as nat, 1))
    } else if b[0] == 251 {
        if b.len() >= 3 { Some((le_value(b.subrange(1, 3)), 3)) } else { None }
    } else if b[0] == 252 {
        if b.len() >= 5 { Some((le_value(b.subrange(1, 5)), 5)) } else { None }
    } else if b[0] == 253 {
        if b.len() >= 9 { Some((le_value(b.subrange(1, 9)), 9)) } else { None }
    } else {
        None
    }
}

/// The record that stores the text `s`.
pub open spec fn text_record(s: Seq<char>) -> Seq<u8> {
    varint(encode_utf8(s).len()) + encode_utf8(s)
}

/// What reading a text back from the record `b` gives: the text and the
/// number of bytes read, or `None` where bincode reports an error. Bytes
/// after the record are left unread.
pub open spec fn text_record_decode(b: Seq<u8>) -> Option<(Seq<char>, nat)> {
    match varint_prefix(b) {
        None => None,
        Some((len, h)) => {
            if h + len <= b.len() && valid_utf8(b.subrange(h as int, (h + len) as int)) {
                Some((decode_utf8(b.subrange(h as int, (h + len) as int)), h + len))
            } else {
                None
            }
        },
    }
}

/// The text that the record `b` holds, if it holds one.
pub open spec fn record_text(b: Seq<u8>) -> Option<Seq<char>> {
    match text_record_decode(b) {
        Some((s, _)) => Some(s),
        None => None,
    }
}

/// True unless the length that `b` announces runs past the end of `b`.
pub open spec fn record_claim_fits(b: Seq<u8>) -> bool {
    match varint_prefix(b) {
        Some((len, h)) => h + len <= b.len(),
        None => true,
    }
}

proof fn lemma_le_bytes_len(n: nat, k: nat)
    ensures
        le_bytes(n, k).len() == k,
    decreases k,
{
    if k > 0 {
        lemma_le_bytes_len(n / 256, (k - 1) as nat);
    }
}

proof fn lemma_le_roundtrip(n: nat, k: nat)
    requires
        n < pow256(k),
    ensures
        le_value(le_bytes(n, k)) == n,
    decreases k,
{
    if k > 0 {
        let m = n / 256;
        assert(m < pow256((k - 1) as nat)) by (nonlinear_arith)
            requires
                n < 256 * pow256((k - 1) as nat),
                m == n / 256,
        ;
        lemma_le_roundtrip(m, (k - 1) as nat);
        let b = le_bytes(n, k);
        assert(b.drop_first() =~= le_bytes(m, (k - 1) as nat));
        assert(n == (n % 256) + 256 * m) by (nonlinear_arith)
            requires
                m == n / 256,
        ;
    }
}

proof fn lemma_pow256_values()
    ensures
        pow256(2) == 0x1_0000,
        pow256(4) == 0x1_0000_0000,
        pow256(8) == 0x1_0000_0000_0000_0000,
{
    reveal_with_fuel(pow256, 9);
}

/// Reading the varint back from the front of any bytes that follow it
/// gives the number and the varint's length.
pub proof fn lemma_varint_prefix(n: nat, rest: Seq<u8>)
    requires
        n <= u64::MAX,
    ensures
        varint_prefix(varint(n) + rest) == Some((n, varint(n).len())),
{
    lemma_pow256_values();
    let b = varint(n) + rest;
    if n <= 250 {
    } else if n < 0x1_0000 {
        lemma_le_bytes_len(n, 2);
        lemma_le_roundtrip(n, 2);
        assert(b.subrange(1, 3) =~= le_bytes(n, 2));
    } else if n < 0x1_0000_0000 {
        lemma_le_bytes_len(n, 4);
        lemma_le_roundtrip(n, 4);
        assert(b.subrange(1, 5) =~= le_bytes(n, 4));
    } else {
        lemma_le_bytes_len(n, 8);
        lemma_le_roundtrip(n, 8);
        assert(b.subrange(1, 9) =~= le_bytes(n, 8));
    }
}

/// A record written for a text reads back as that text, whatever follows
/// it, and reading consumes exactly the record.
pub proof fn lemma_text_record_roundtrip(s: Seq<char>, rest: Seq<u8>)
    requires
        encode_utf8(s).len() <= u64::MAX,
    ensures
        text_record_decode(text_record(s) + rest) == Some((s, text_record(s).len())),
        record_text(text_record(s)) == Some(s),
        record_claim_fits(text_record(s)),
{
    let u = encode_utf8(s);
    let n = u.len();
    lemma_varint_prefix(n, u + rest);
    lemma_varint_prefix(n, u);
    let h = varint(n).len();
    let b = text_record(s) + rest;
    assert(b =~= varint(n) + (u + rest));
    assert(b.subrange(h as int, (h + n) as int) =~= u);
    assert(text_record(s) =~= varint(n) + u);
    assert(text_record(s).subrange(h as int, (h + n) as int) =~= u);
}

proof fn lemma_pow256_mono(a: nat, b: nat)
    requires
        a <= b,
    ensures
        pow256(a) <= pow256(b),
    decreases b,
{
    if a < b {
        lemma_pow256_mono(a, (b - 1) as nat);
    }
}

proof fn lemma_le_value_bound(b: Seq<u8>)
    ensures
        le_value(b) < pow256(b.len()),
    decreases b.len(),
{
    if b.len() > 0 {
        lemma_le_value_bound(b.drop_first());
        let r = le_value(b.drop_first());
        let p = pow256((b.len() - 1) as nat);
        assert(b[0] as nat + 256 * r < 256 * p) by (nonlinear_arith)
            requires
                r < p,
                b[0] < 256,
        ;
    }
}

/// Reads `k` bytes at `start` as a little-endian number.
fn le_read(bytes: &[u8], start: usize, k: usize) -> (v: u64)
    requires
        start + k <= bytes@.len(),
        k <= 8,
    ensures
        v as nat == le_value(bytes@.subrange(start as int, (start + k) as int)),
{
    let mut v: u64 = 0;
    let mut i: usize = k;
    assert(bytes@.len() == bytes.len());
    while i > 0
        invariant
            i <= k,
            k <= 8,
            start + k <= bytes@.len(),
            bytes@.len() == bytes.len(),
            v as nat == le_value(bytes@.subrange((start + i) as int, (start + k) as int)),
        decreases i,
    {
        i = i - 1;
        let ghost tail = bytes@.subrange((start + i + 1) as int, (start + k) as int);
        let ghost whole = bytes@.subrange((start + i) as int, (start + k) as int);
        proof {
            lemma_le_value_bound(tail);
            lemma_pow256_mono(tail.len(), 7);
            lemma_pow256_values();
            reveal_with_fuel(pow256, 8);
            assert(whole.drop_first() =~= tail);
            assert(256 * (v as nat) + 255 < 0x1_0000_0000_0000_0000) by (nonlinear_arith)
                requires
                    (v as nat) < pow256(7),
                    pow256(7) == 0x100_0000_0000_0000,
            ;
        }
        v = (bytes[start + i] as u64) + 256 * v;
    }
    v
}

/// Whether the length that `bytes` announces stays within `bytes`.
pub fn record_claim_fits_in(bytes: &[u8]) -> (fits: bool)
    ensures
        fits == record_claim_fits(bytes@),
{
    let n = bytes.len();
    if n == 0 {
        return true;
    }
    let marker = bytes[0];
    let mut len: u64 = 0;
    let mut h: usize = 0;
    if marker <= 250 {
        len = marker as u64;
        h = 1;
    } else if marker == 251 {
        if n < 3 {
            return true;
        }
        len = le_read(bytes, 1, 2);
        h = 3;
    } else if marker == 252 {
        if n < 5 {
            return true;
        }
        len = le_read(bytes, 1, 4);
        h = 5;
    } else if marker == 253 {
        if n < 9 {
            return true;
        }
        len = le_read(bytes, 1, 8);
        h = 9;
    } else {
        return true;
    }
    len <= ((n - h) as u64)
}

#[verifier::external_type_specification]
#[verifier::external_body]
pub struct ExDecodeError(bincode::error::DecodeError);

#[verifier::external_type_specification]
#[verifier::external_body]
pub struct ExEncodeError(bincode::error::EncodeError);

/// `bincode::encode_to_vec` with `bincode::config::standard()`, on a text.
/// Claimed: it succeeds (its writers never fail) and gives `text_record`,
/// the varint byte length followed by the UTF-8 bytes.
#[verifier::external_body]
fn bincode_encode_text(text: &str) -> (r: Result<Vec<u8>, bincode::error::EncodeError>)
    ensures
        r is Ok,
        r matches Ok(v) ==> v@ == text_record(text@),
{
    bincode::encode_to_vec(text, bincode::config::standard())
}

/// `bincode::decode_from_slice::<String, _>` with `bincode::config::standard()`.
/// Claimed: it succeeds exactly where `text_record_decode` gives a text,
/// and then returns that text and the number of bytes it read. Required: the
/// announced length fits in the input, since bincode allocates that many
/// bytes before it reads them.
#[verifier::external_body]
fn bincode_decode_text(bytes: &[u8]) -> (r: Result<(String, usize), bincode::error::DecodeError>)
    requires
        record_claim_fits(bytes@),
    ensures
        r is Ok <==> text_record_decode(bytes@) is Some,
        r matches Ok((s, n)) ==> text_record_decode(bytes@) == Some((s@, n as nat)),
{
    bincode::decode_from_slice::<String, _>(bytes, bincode::config::standard())
}

/// The record that stores `text`.
pub fn encode_text(text: &str) -> (bytes: Vec<u8>)
    ensures
        bytes@ == text_record(text@),
{
    match bincode_encode_text(text) {
        Ok(bytes) => bytes,
        Err(_) => {
            proof {
                assert(false);
            }
            Vec::new()
        },
    }
}

/// The text that the record `bytes` holds, or the reason it holds none.
pub fn decode_text(bytes: &[u8]) -> (r: Result<String, String>)
    ensures
        r matches Ok(s) ==> record_text(bytes@) == Some(s@),
        r is Err <==> record_text(bytes@) is None,
{
    if !record_claim_fits_in(bytes) {
        return Err(String::from_str("record length runs past its end"));
    }
    match bincode_decode_text(bytes) {
        Ok((text, _read)) => Ok(text),
        Err(e) => Err(e.to_string()),
    }
}

} // verus!
