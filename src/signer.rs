//! The login signature: a hex-encoded HMAC-SHA256 over the decimal timestamp
//! followed by the signed request description, keyed by the secret.

use vstd::prelude::*;
use vstd::string::*;
use vstd::utf8::{encode_utf8, encode_utf8_decode_utf8};

verus! {

/// The character for a digit value below sixteen (lower case for ten and up).
pub open spec fn hex_digit(d: nat) -> char {
    if d == 0 { '0' }
    else if d == 1 { '1' }
    else if d == 2 { '2' }
    else if d == 3 { '3' }
    else if d == 4 { '4' }
    else if d == 5 { '5' }
    else if d == 6 { '6' }
    else if d == 7 { '7' }
    else if d == 8 { '8' }
    else if d == 9 { '9' }
    else if d == 10 { 'a' }
    else if d == 11 { 'b' }
    else if d == 12 { 'c' }
    else if d == 13 { 'd' }
    else if d == 14 { 'e' }
    else { 'f' }
}

/// The decimal digits of a natural number, most significant first, no leading zeros.
pub open spec fn nat_digits(n: nat) -> Seq<char>
    decreases n,
{
    if n < 10 {
        seq![hex_digit(n)]
    } else {
        nat_digits(n / 10).push(hex_digit(n % 10))
    }
}

/// The decimal form of an integer, with a leading `-` when negative.
pub open spec fn decimal_of(n: int) -> Seq<char> {
    if n < 0 {
        seq!['-'] + nat_digits((-n) as nat)
    } else {
        nat_digits(n as nat)
    }
}

/// Two lower-case hex digits per byte, high nibble first.
pub open spec fn hex_of(b: Seq<u8>) -> Seq<char>
    decreases b.len(),
{
    if b.len() == 0 {
        Seq::empty()
    } else {
        hex_of(b.drop_last()) + seq![
            hex_digit((b.last() / 16) as nat),
            hex_digit((b.last() % 16) as nat),
        ]
    }
}

/// The request description that every login signature covers.
pub open spec fn signed_request() -> Seq<char> {
    "GET/users/self"@
}

/// The text that is signed for a given timestamp.
pub open spec fn signing_payload(timestamp: i64) -> Seq<char> {
    decimal_of(timestamp as int) + signed_request()
}

/// The HMAC-SHA256 tag of a message under a key.
pub uninterp spec fn hmac_sha256_of(msg: Seq<u8>, key: Seq<u8>) -> Seq<u8>;

/// The login signature for a timestamp and a secret.
pub open spec fn signature_of(timestamp: i64, secret: Seq<char>) -> Seq<char> {
    hex_of(hmac_sha256_of(encode_utf8(signing_payload(timestamp)), encode_utf8(secret)))
}

proof fn lemma_nat_digits_shape(n: nat)
    ensures
        nat_digits(n).len() >= 1,
        n >= 10 ==> nat_digits(n).len() >= 2,
        nat_digits(n)[0] != '-',
    decreases n,
{
    if n >= 10 {
        lemma_nat_digits_shape(n / 10);
    }
}

proof fn lemma_nat_digits_injective(a: nat, b: nat)
    requires
        nat_digits(a) == nat_digits(b),
    ensures
        a == b,
    decreases a,
{
    lemma_nat_digits_shape(a);
    lemma_nat_digits_shape(b);
    if a >= 10 && b >= 10 {
        let da = nat_digits(a);
        assert(da.drop_last() =~= nat_digits(a / 10));
        assert(nat_digits(b).drop_last() =~= nat_digits(b / 10));
        assert(hex_digit(a % 10) == da.last());
        assert(a % 10 == b % 10);
        lemma_nat_digits_injective(a / 10, b / 10);
    }
}

proof fn lemma_decimal_injective(a: int, b: int)
    requires
        decimal_of(a) == decimal_of(b),
    ensures
        a == b,
{
    if a < 0 && b < 0 {
        assert(decimal_of(a).drop_first() =~= nat_digits((-a) as nat));
        assert(decimal_of(b).drop_first() =~= nat_digits((-b) as nat));
        lemma_nat_digits_injective((-a) as nat, (-b) as nat);
    } else if a >= 0 && b >= 0 {
        lemma_nat_digits_injective(a as nat, b as nat);
    } else if a < 0 {
        lemma_nat_digits_shape(b as nat);
        assert(decimal_of(a)[0] == '-');
    } else {
        lemma_nat_digits_shape(a as nat);
        assert(decimal_of(b)[0] == '-');
    }
}

/// Signing depends on the timestamp and the secret alone: equal inputs give
/// equal signatures.
pub proof fn lemma_signature_deterministic(t1: i64, secret1: Seq<char>, t2: i64, secret2: Seq<char>)
    requires
        t1 == t2,
        secret1 == secret2,
    ensures
        signature_of(t1, secret1) == signature_of(t2, secret2),
{
}

/// Distinct timestamps are signed over distinct texts, and so over distinct
/// bytes.
pub proof fn lemma_signing_payload_injective(t1: i64, t2: i64)
    requires
        t1 != t2,
    ensures
        signing_payload(t1) != signing_payload(t2),
        encode_utf8(signing_payload(t1)) != encode_utf8(signing_payload(t2)),
{
    encode_utf8_decode_utf8(signing_payload(t1));
    encode_utf8_decode_utf8(signing_payload(t2));
    if signing_payload(t1) == signing_payload(t2) {
        let k = signed_request().len();
        let p1 = signing_payload(t1);
        assert(p1.subrange(0, p1.len() - k) =~= decimal_of(t1 as int));
        assert(signing_payload(t2).subrange(0, p1.len() - k) =~= decimal_of(t2 as int));
        lemma_decimal_injective(t1 as int, t2 as int);
    }
}

/// Relies on hmac_sha256::HMAC::mac: the 32-byte tag of `msg` under `key`,
/// a function of the two byte strings alone.
#[verifier::external_body]
fn hmac_sha256(msg: &[u8], key: &[u8]) -> (r: Vec<u8>)
    ensures
        r@ == hmac_sha256_of(msg@, key@),
        r@.len() == 32,
{
    hmac_sha256::HMAC::mac(msg, key).to_vec()
}

/// Relies on hex::encode: each byte becomes two lower-case hex digits, in order.
#[verifier::external_body]
fn hex_encode(b: &[u8]) -> (r: String)
    ensures
        r@ == hex_of(b@),
{
    hex::encode(b)
}

/// The single-character string for a decimal digit.
fn digit_str(d: u64) -> (r: &'static str)
    requires
        d < 10,
    ensures
        r@ == seq![hex_digit(d as nat)],
{
    if d == 0 {
        proof { reveal_strlit("0"); }
        "0"
    } else if d == 1 {
        proof { reveal_strlit("1"); }
        "1"
    } else if d == 2 {
        proof { reveal_strlit("2"); }
        "2"
    } else if d == 3 {
        proof { reveal_strlit("3"); }
        "3"
    } else if d == 4 {
        proof { reveal_strlit("4"); }
        "4"
    } else if d == 5 {
        proof { reveal_strlit("5"); }
        "5"
    } else if d == 6 {
        proof { reveal_strlit("6"); }
        "6"
    } else if d == 7 {
        proof { reveal_strlit("7"); }
        "7"
    } else if d == 8 {
        proof { reveal_strlit("8"); }
        "8"
    } else {
        proof { reveal_strlit("9"); }
        "9"
    }
}

/// Appends the decimal digits of `n` to `out`.
fn push_digits(out: &mut String, n: u64)
    ensures
        final(out)@ == old(out)@ + nat_digits(n as nat),
    decreases n,
{
    if n >= 10 {
        push_digits(out, n / 10);
    }
    out.append(digit_str(n % 10));
    assert(nat_digits(n as nat) =~= if n < 10 {
        seq![hex_digit(n as nat)]
    } else {
        nat_digits((n / 10) as nat).push(hex_digit((n % 10) as nat))
    });
}

/// The decimal form of an integer, as `format!("{}", n)` writes it.
pub fn decimal_string(n: i64) -> (r: String)
    ensures
        r@ == decimal_of(n as int),
{
    let mut s = String::new();
    if n < 0 {
        proof { reveal_strlit("-"); }
        s.append("-");
        let magnitude: u64 = (0i128 - n as i128) as u64;
        push_digits(&mut s, magnitude);
    } else {
        push_digits(&mut s, n as u64);
    }
    assert(s@ =~= decimal_of(n as int));
    s
}

/// The text signed for `timestamp`: its decimal form, then the request description.
pub fn signing_payload_string(timestamp: i64) -> (r: String)
    ensures
        r@ == signing_payload(timestamp),
{
    let mut s = decimal_string(timestamp);
    s.append("GET/users/self");
    s
}

/// Signs a login: the hex-encoded HMAC-SHA256, keyed by `secret`, of the
/// timestamp's decimal form followed by the request description.
pub fn sign(timestamp: i64, secret: &str) -> (r: String)
    ensures
        r@ == signature_of(timestamp, secret@),
{
    let payload = signing_payload_string(timestamp);
    let tag = hmac_sha256(payload.as_str().as_bytes(), secret.as_bytes());
    hex_encode(tag.as_slice())
}

} // verus!
