//! The base-58 text of a byte string (Bitcoin alphabet), as peer ids are
//! written, and the shape of the text of an Ed25519 node's peer id.

use vstd::prelude::*;
use vstd::arithmetic::div_mod::{lemma_div_denominator, lemma_fundamental_div_mod_converse};

verus! {

/// The base-58 digit for a value below 58:
/// `123456789ABCDEFGHJKLMNPQRSTUVWXYZabcdefghijkmnopqrstuvwxyz`.
pub open spec fn base58_digit(d: nat) -> char {
    if d < 9 {
        (49 + d) as char
    } else if d < 17 {
        (56 + d) as char
    } else if d < 22 {
        (57 + d) as char
    } else if d < 33 {
        (58 + d) as char
    } else if d < 44 {
        (64 + d) as char
    } else {
        (65 + d) as char
    }
}

/// The bytes read as a big-endian number.
pub open spec fn big_endian_value(b: Seq<u8>) -> nat
    decreases b.len(),
{
    if b.len() == 0 {
        0
    } else {
        (big_endian_value(b.drop_last()) * 256 + b.last()) as nat
    }
}

/// The base-58 digits of a number, most significant first; none for zero.
pub open spec fn base58_digits(n: nat) -> Seq<char>
    decreases n,
{
    if n == 0 {
        Seq::empty()
    } else {
        base58_digits(n / 58).push(base58_digit(n % 58))
    }
}

/// How many zero bytes a byte string starts with.
pub open spec fn leading_zero_bytes(b: Seq<u8>) -> nat
    decreases b.len(),
{
    if b.len() > 0 && b[0] == 0 {
        1 + leading_zero_bytes(b.drop_first())
    } else {
        0
    }
}

/// The base-58 text of a byte string: a `1` for each leading zero byte, then
/// the digits of the bytes read as a number.
pub open spec fn base58(b: Seq<u8>) -> Seq<char> {
    Seq::new(leading_zero_bytes(b), |i: int| '1') + base58_digits(big_endian_value(b))
}

/// `base` to the power `e`.
pub open spec fn power(base: nat, e: nat) -> nat
    decreases e,
{
    if e == 0 {
        1
    } else {
        base * power(base, (e - 1) as nat)
    }
}

proof fn lemma_power_positive(base: nat, e: nat)
    requires
        base > 0,
    ensures
        power(base, e) > 0,
    decreases e,
{
    if e > 0 {
        lemma_power_positive(base, (e - 1) as nat);
        assert(base * power(base, (e - 1) as nat) > 0) by (nonlinear_arith)
            requires
                base > 0,
                power(base, (e - 1) as nat) > 0,
        ;
    }
}

/// The value of two byte strings one after the other.
proof fn lemma_value_concat(a: Seq<u8>, b: Seq<u8>)
    ensures
        big_endian_value(a + b) == big_endian_value(a) * power(256, b.len()) + big_endian_value(b),
        big_endian_value(b) < power(256, b.len()),
    decreases b.len(),
{
    if b.len() == 0 {
        assert(a + b =~= a);
    } else {
        let b1 = b.drop_last();
        lemma_value_concat(a, b1);
        assert((a + b).drop_last() =~= a + b1);
        assert((a + b).last() == b.last());
        let va = big_endian_value(a);
        let v1 = big_endian_value(b1);
        let p1 = power(256, b1.len());
        let l = b.last() as int;
        assert(power(256, b.len()) == 256 * p1);
        assert((va * p1 + v1) * 256 + l == va * (256 * p1) + (v1 * 256 + l)) by (nonlinear_arith);
        assert(v1 * 256 + l < 256 * p1) by (nonlinear_arith)
            requires
                v1 < p1,
                0 <= l < 256,
        ;
    }
}

/// Splitting off the last `k` base-58 digits of a number that has more
/// than `k` of them.
proof fn lemma_digits_split(n: nat, k: nat)
    requires
        n / power(58, k) > 0,
    ensures
        exists|t: Seq<char>| #![trigger t.len()]
            t.len() == k && base58_digits(n) == base58_digits(n / power(58, k)) + t,
    decreases k,
{
    lemma_power_positive(58, k);
    if k == 0 {
        assert(base58_digits(n) =~= base58_digits(n / 1) + Seq::<char>::empty());
    } else {
        let k1 = (k - 1) as nat;
        lemma_power_positive(58, k1);
        let m = n / 58;
        lemma_div_denominator(n as int, 58, power(58, k1) as int);
        assert(power(58, k) == 58 * power(58, k1));
        assert(m / power(58, k1) == n / power(58, k));
        assert(n > 0);
        lemma_digits_split(m, k1);
        let t1 = choose|t: Seq<char>| #![trigger t.len()]
            t.len() == k1 && base58_digits(m) == base58_digits(m / power(58, k1)) + t;
        let t = t1.push(base58_digit(n % 58));
        assert(base58_digits(n) == base58_digits(m).push(base58_digit(n % 58)));
        assert(base58_digits(n) =~= base58_digits(n / power(58, k)) + t);
        assert(t.len() == k);
    }
}

/// The bytes that come before the public key in the peer id of an Ed25519
/// key: the identity multihash code and length (`0x00`, `0x24`), then the
/// protobuf tag for the key type Ed25519 (`0x08 0x01`) and the tag and
/// length of the 32 key bytes (`0x12 0x20`).
pub open spec fn ed25519_peer_id_prefix() -> Seq<u8> {
    seq![0x00u8, 0x24u8, 0x08u8, 0x01u8, 0x12u8, 0x20u8]
}

/// The base-58 text of the peer id of any Ed25519 key has 52 characters and
/// starts with `12D3KooW`.
pub proof fn lemma_ed25519_peer_id_text(key: Seq<u8>)
    requires
        key.len() == 32,
    ensures
        base58(ed25519_peer_id_prefix() + key).len() == 52,
        base58(ed25519_peer_id_prefix() + key).take(8) == seq!['1', '2', 'D', '3', 'K', 'o', 'o', 'W'],
{
    let p = ed25519_peer_id_prefix();
    let b = p + key;
    // One leading zero byte.
    assert(b[0] == 0u8 && b[1] == 0x24u8);
    assert(b.drop_first()[0] == 0x24u8);
    assert(leading_zero_bytes(b.drop_first()) == 0);
    assert(leading_zero_bytes(b) == 1);
    // The value lies between the prefix's value times 2^256 and the next.
    lemma_value_concat(p, key);
    reveal_with_fuel(big_endian_value, 7);
    assert(p.drop_last().drop_last().drop_last().drop_last().drop_last().drop_last() =~= Seq::<u8>::empty());
    assert(big_endian_value(p) == 0x2408011220);
    reveal_with_fuel(power, 45);
    let x: nat = 0x10000000000000000000000000000000000000000000000000000000000000000nat;
    assert(power(256, 32) == x);
    let v = big_endian_value(b);
    let m: nat = 389790918707373377135528568990913592653094657612049369038476873218241589149696nat;
    assert(power(58, 44) == m);
    let c: nat = 45971276209;
    assert(c * m <= 0x2408011220 * x);
    assert((0x2408011220 + 1) * x <= (c + 1) * m);
    assert(0x2408011220 * x <= v < (0x2408011220 + 1) * x);
    lemma_fundamental_div_mod_converse(v as int, m as int, c as int, v - c * m);
    assert(v / power(58, 44) == c);
    // The top seven digits.
    lemma_digits_split(v, 44);
    let t = choose|t: Seq<char>| #![trigger t.len()]
        t.len() == 44 && base58_digits(v) == base58_digits(v / power(58, 44)) + t;
    reveal_with_fuel(base58_digits, 9);
    assert(base58_digits(c) =~= seq!['2', 'D', '3', 'K', 'o', 'o', 'W']);
    let ones = Seq::new(leading_zero_bytes(b), |i: int| '1');
    assert(ones =~= seq!['1']);
    assert(base58(b) =~= seq!['1'] + seq!['2', 'D', '3', 'K', 'o', 'o', 'W'] + t);
}

} // verus!
