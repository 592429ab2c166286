//! JSON emission for the payloads the bridge accepts as text.
//!
//! The simulator receives coin lists (and the query router returns response
//! envelopes) as JSON.  The encoders here produce, byte for byte, the
//! encoding serde-style serializers emit for the same values: object fields
//! in declaration order, amounts as decimal strings, and the standard JSON
//! string escapes (`\"`, `\\`, `\b`, `\t`, `\n`, `\f`, `\r`, and `\u00XX`
//! with lower-case hex for the remaining control bytes); bytes above 0x7F
//! pass through, so the output carries the input's UTF-8 as is.

use vstd::prelude::*;
use vstd::slice::slice_index_get;
use vstd::string::StringSliceAdditionalSpecFns;
use crate::coin::{Coin, spec_denom_bytes};
use crate::protowire::coin_views;

verus! {

/// The decimal digits of `n` in ASCII, no sign and no leading zeroes.
pub open spec fn dec_digits(n: nat) -> Seq<u8>
    decreases n,
{
    if n < 10 {
        seq![(48 + n) as u8]
    } else {
        dec_digits(n / 10).push((48 + n % 10) as u8)
    }
}

/// Lower-case hexadecimal digit for a value below 16.
pub open spec fn hex_digit(n: u8) -> u8 {
    if n < 10 {
        (48 + n) as u8
    } else {
        (87 + n) as u8
    }
}

/// How a single byte of a JSON string body is emitted.
pub open spec fn json_escape_byte(b: u8) -> Seq<u8> {
    if b == 0x22 {
        seq![0x5cu8, 0x22u8]
    } else if b == 0x5c {
        seq![0x5cu8, 0x5cu8]
    } else if b == 0x08 {
        seq![0x5cu8, 0x62u8]
    } else if b == 0x09 {
        seq![0x5cu8, 0x74u8]
    } else if b == 0x0a {
        seq![0x5cu8, 0x6eu8]
    } else if b == 0x0c {
        seq![0x5cu8, 0x66u8]
    } else if b == 0x0d {
        seq![0x5cu8, 0x72u8]
    } else if b < 0x20 {
        seq![0x5cu8, 0x75u8, 0x30u8, 0x30u8, hex_digit(b / 16), hex_digit(b % 16)]
    } else {
        seq![b]
    }
}

/// The body of a JSON string: every byte escaped as JSON asks.
pub open spec fn json_escaped(s: Seq<u8>) -> Seq<u8>
    decreases s.len(),
{
    if s.len() == 0 {
        Seq::empty()
    } else {
        json_escape_byte(s[0]) + json_escaped(s.drop_first())
    }
}

/// A complete JSON string: quote, escaped body, quote.
pub open spec fn json_string(s: Seq<u8>) -> Seq<u8> {
    seq![0x22u8] + json_escaped(s) + seq![0x22u8]
}

/// One coin as JSON: `{"denom":<string>,"amount":"<digits>"}`.
pub open spec fn json_coin(c: Coin) -> Seq<u8> {
    seq![0x7bu8, 0x22u8, 0x64u8, 0x65u8, 0x6eu8, 0x6fu8, 0x6du8, 0x22u8, 0x3au8]
        + json_string(spec_denom_bytes(c))
        + seq![
        0x2cu8,
        0x22u8,
        0x61u8,
        0x6du8,
        0x6fu8,
        0x75u8,
        0x6eu8,
        0x74u8,
        0x22u8,
        0x3au8,
        0x22u8,
    ] + dec_digits(c.amount as nat) + seq![0x22u8, 0x7du8]
}

/// The comma-separated bodies of a JSON coin array.
pub open spec fn json_coins_inner(s: Seq<Coin>) -> Seq<u8>
    decreases s.len(),
{
    if s.len() == 0 {
        Seq::empty()
    } else if s.len() == 1 {
        json_coin(s[0])
    } else {
        json_coin(s[0]) + seq![0x2cu8] + json_coins_inner(s.drop_first())
    }
}

/// A coin list as a JSON array.
pub open spec fn json_coins(s: Seq<Coin>) -> Seq<u8> {
    seq![0x5bu8] + json_coins_inner(s) + seq![0x5du8]
}

/// Whether every byte is an ASCII decimal digit.
pub open spec fn all_digits(s: Seq<u8>) -> bool {
    forall|i: int| 0 <= i < s.len() ==> 48 <= #[trigger] s[i] <= 57
}

/// A coin whose amount is carried as text:
/// `{"denom":<string>,"amount":<string>}`.
pub open spec fn json_coin_str(denom: Seq<u8>, amount: Seq<u8>) -> Seq<u8> {
    seq![0x7bu8, 0x22u8, 0x64u8, 0x65u8, 0x6eu8, 0x6fu8, 0x6du8, 0x22u8, 0x3au8] + json_string(
        denom,
    ) + seq![0x2cu8, 0x22u8, 0x61u8, 0x6du8, 0x6fu8, 0x75u8, 0x6eu8, 0x74u8, 0x22u8, 0x3au8]
        + json_string(amount) + seq![0x7du8]
}

/// The comma-separated bodies of an array of text-amount coins.
pub open spec fn json_coin_strs_inner(cs: Seq<(Seq<u8>, Seq<u8>)>) -> Seq<u8>
    decreases cs.len(),
{
    if cs.len() == 0 {
        Seq::empty()
    } else if cs.len() == 1 {
        json_coin_str(cs[0].0, cs[0].1)
    } else {
        json_coin_str(cs[0].0, cs[0].1) + seq![0x2cu8] + json_coin_strs_inner(cs.drop_first())
    }
}

/// An array of text-amount coins as JSON.
pub open spec fn json_coin_strs(cs: Seq<(Seq<u8>, Seq<u8>)>) -> Seq<u8> {
    seq![0x5bu8] + json_coin_strs_inner(cs) + seq![0x5du8]
}

/// A single-coin response envelope: `{"amount":<coin>}`.
pub open spec fn json_amount_object(denom: Seq<u8>, amount: Seq<u8>) -> Seq<u8> {
    seq![0x7bu8, 0x22u8, 0x61u8, 0x6du8, 0x6fu8, 0x75u8, 0x6eu8, 0x74u8, 0x22u8, 0x3au8]
        + json_coin_str(denom, amount) + seq![0x7du8]
}

/// Whether every byte of `s` is an ASCII decimal digit.
pub fn check_all_digits(s: &str) -> (r: bool)
    ensures
        r == (all_digits(s.spec_bytes()) && s.spec_bytes().len() > 0),
{
    let bytes = s.as_bytes();
    if bytes.len() == 0 {
        return false;
    }
    let mut i: usize = 0;
    while i < bytes.len()
        invariant
            i <= bytes@.len(),
            bytes@ == s.spec_bytes(),
            forall|j: int| 0 <= j < i ==> 48 <= #[trigger] bytes@[j] <= 57,
        decreases bytes@.len() - i,
    {
        let b = *slice_index_get(bytes, i);
        if b < 48 || b > 57 {
            proof {
                assert(!(48 <= s.spec_bytes()[i as int] <= 57));
            }
            return false;
        }
        i = i + 1;
    }
    true
}

/// Encodes a single-coin response envelope.
pub fn amount_object_json(denom: &str, amount: &str) -> (r: Vec<u8>)
    ensures
        r@ == json_amount_object(denom.spec_bytes(), amount.spec_bytes()),
{
    let mut out: Vec<u8> = Vec::new();
    out.push(0x7b);
    out.push(0x22);
    out.push(0x61);
    out.push(0x6d);
    out.push(0x6f);
    out.push(0x75);
    out.push(0x6e);
    out.push(0x74);
    out.push(0x22);
    out.push(0x3a);
    out.push(0x7b);
    out.push(0x22);
    out.push(0x64);
    out.push(0x65);
    out.push(0x6e);
    out.push(0x6f);
    out.push(0x6d);
    out.push(0x22);
    out.push(0x3a);
    push_json_string(&mut out, denom);
    out.push(0x2c);
    out.push(0x22);
    out.push(0x61);
    out.push(0x6d);
    out.push(0x6f);
    out.push(0x75);
    out.push(0x6e);
    out.push(0x74);
    out.push(0x22);
    out.push(0x3a);
    push_json_string(&mut out, amount);
    out.push(0x7d);
    out.push(0x7d);
    proof {
        assert(out@ =~= json_amount_object(denom.spec_bytes(), amount.spec_bytes()));
    }
    out
}

proof fn lemma_json_escaped_push(s: Seq<u8>, b: u8)
    ensures
        json_escaped(s.push(b)) =~= json_escaped(s) + json_escape_byte(b),
    decreases s.len(),
{
    if s.len() == 0 {
        assert(s.push(b)[0] == b);
        assert(s.push(b).drop_first() =~= Seq::<u8>::empty());
        assert(json_escaped(s) =~= Seq::<u8>::empty());
        assert(json_escaped(s.push(b)) =~= json_escape_byte(b) + json_escaped(
            Seq::<u8>::empty(),
        ));
    } else {
        assert(s.push(b)[0] == s[0]);
        assert(s.push(b).drop_first() =~= s.drop_first().push(b));
        lemma_json_escaped_push(s.drop_first(), b);
        assert(json_escaped(s.push(b)) =~= json_escape_byte(s[0]) + (json_escaped(s.drop_first())
            + json_escape_byte(b)));
    }
}

proof fn lemma_json_coins_inner_push(s: Seq<Coin>, c: Coin)
    ensures
        s.len() == 0 ==> json_coins_inner(s.push(c)) =~= json_coin(c),
        s.len() > 0 ==> json_coins_inner(s.push(c)) =~= json_coins_inner(s) + seq![0x2cu8]
            + json_coin(c),
    decreases s.len(),
{
    if s.len() == 0 {
    } else {
        assert(s.push(c).drop_first() =~= s.drop_first().push(c));
        lemma_json_coins_inner_push(s.drop_first(), c);
    }
}

/// Appends the decimal digits of `n`.
pub fn push_dec(out: &mut Vec<u8>, n: u128)
    ensures
        final(out)@ == old(out)@ + dec_digits(n as nat),
{
    if n == 0 {
        out.push(48);
        proof {
            assert(old(out)@ + dec_digits(0) =~= out@);
        }
        return ;
    }
    let mut rev: Vec<u8> = Vec::new();
    let mut m = n;
    while m > 0
        invariant
            m > 0 ==> dec_digits(n as nat) =~= dec_digits(m as nat) + rev@.reverse(),
            m == 0 ==> dec_digits(n as nat) =~= rev@.reverse() && rev@.len() > 0,
        decreases m,
    {
        let d: u8 = (m % 10) as u8;
        let ghost old_rev = rev@;
        rev.push(48 + d);
        proof {
            assert(rev@.reverse() =~= seq![(48 + m % 10) as u8] + old_rev.reverse());
            if m >= 10 {
                assert(dec_digits(m as nat) =~= dec_digits((m / 10) as nat).push(
                    (48 + m % 10) as u8,
                ));
                assert(dec_digits((m / 10) as nat) + rev@.reverse() =~= dec_digits(m as nat)
                    + old_rev.reverse());
            } else {
                assert(dec_digits(m as nat) =~= seq![(48 + m % 10) as u8]);
                assert(rev@.reverse() =~= dec_digits(m as nat) + old_rev.reverse());
            }
        }
        m = m / 10;
    }
    let ghost pre = out@;
    proof {
        assert(pre == old(out)@);
    }
    let mut i: usize = rev.len();
    while i > 0
        invariant
            i <= rev@.len(),
            out@ =~= pre + rev@.reverse().take(rev@.len() - i),
        decreases i,
    {
        i = i - 1;
        let b = rev[i];
        out.push(b);
        proof {
            assert(rev@.reverse().take(rev@.len() - i) =~= rev@.reverse().take(
                rev@.len() - (i + 1),
            ).push(rev@[i as int]));
        }
    }
    proof {
        assert(rev@.reverse().take(rev@.len() as int) =~= rev@.reverse());
    }
}

/// Appends `b` escaped as a JSON string body byte.
fn push_escape_byte(out: &mut Vec<u8>, b: u8)
    ensures
        final(out)@ == old(out)@ + json_escape_byte(b),
{
    if b == 0x22 {
        out.push(0x5c);
        out.push(0x22);
    } else if b == 0x5c {
        out.push(0x5c);
        out.push(0x5c);
    } else if b == 0x08 {
        out.push(0x5c);
        out.push(0x62);
    } else if b == 0x09 {
        out.push(0x5c);
        out.push(0x74);
    } else if b == 0x0a {
        out.push(0x5c);
        out.push(0x6e);
    } else if b == 0x0c {
        out.push(0x5c);
        out.push(0x66);
    } else if b == 0x0d {
        out.push(0x5c);
        out.push(0x72);
    } else if b < 0x20 {
        out.push(0x5c);
        out.push(0x75);
        out.push(0x30);
        out.push(0x30);
        let hi = b / 16;
        let lo = b % 16;
        out.push(if hi < 10 { 48 + hi } else { 87 + hi });
        out.push(if lo < 10 { 48 + lo } else { 87 + lo });
    } else {
        out.push(b);
    }
    proof {
        assert(out@ =~= old(out)@ + json_escape_byte(b));
    }
}

/// Appends a complete JSON string holding the bytes of `s`.
pub fn push_json_string(out: &mut Vec<u8>, s: &str)
    ensures
        final(out)@ == old(out)@ + json_string(s.spec_bytes()),
{
    push_json_string_bytes(out, s.as_bytes());
}

/// Appends a complete JSON string holding these raw bytes.
pub fn push_json_string_bytes(out: &mut Vec<u8>, bytes: &[u8])
    ensures
        final(out)@ == old(out)@ + json_string(bytes@),
{
    out.push(0x22);
    let ghost pre = out@;
    let mut i: usize = 0;
    while i < bytes.len()
        invariant
            i <= bytes@.len(),
            out@ =~= pre + json_escaped(bytes@.take(i as int)),
        decreases bytes@.len() - i,
    {
        let b = *slice_index_get(bytes, i);
        push_escape_byte(out, b);
        proof {
            assert(bytes@.take(i + 1) =~= bytes@.take(i as int).push(bytes@[i as int]));
            lemma_json_escaped_push(bytes@.take(i as int), bytes@[i as int]);
        }
        i = i + 1;
    }
    proof {
        assert(bytes@.take(bytes@.len() as int) =~= bytes@);
    }
    out.push(0x22);
    proof {
        assert(out@ =~= old(out)@ + json_string(bytes@));
    }
}

proof fn lemma_json_coin_strs_inner_push(cs: Seq<(Seq<u8>, Seq<u8>)>, c: (Seq<u8>, Seq<u8>))
    ensures
        cs.len() == 0 ==> json_coin_strs_inner(cs.push(c)) =~= json_coin_str(c.0, c.1),
        cs.len() > 0 ==> json_coin_strs_inner(cs.push(c)) =~= json_coin_strs_inner(cs) + seq![
            0x2cu8,
        ] + json_coin_str(c.0, c.1),
    decreases cs.len(),
{
    if cs.len() == 0 {
    } else {
        assert(cs.push(c).drop_first() =~= cs.drop_first().push(c));
        lemma_json_coin_strs_inner_push(cs.drop_first(), c);
    }
}

/// Appends one text-amount coin as a JSON object.
fn push_coin_str(out: &mut Vec<u8>, denom: &[u8], amount: &[u8])
    ensures
        final(out)@ == old(out)@ + json_coin_str(denom@, amount@),
{
    out.push(0x7b);
    out.push(0x22);
    out.push(0x64);
    out.push(0x65);
    out.push(0x6e);
    out.push(0x6f);
    out.push(0x6d);
    out.push(0x22);
    out.push(0x3a);
    push_json_string_bytes(out, denom);
    out.push(0x2c);
    out.push(0x22);
    out.push(0x61);
    out.push(0x6d);
    out.push(0x6f);
    out.push(0x75);
    out.push(0x6e);
    out.push(0x74);
    out.push(0x22);
    out.push(0x3a);
    push_json_string_bytes(out, amount);
    out.push(0x7d);
    proof {
        assert(out@ =~= old(out)@ + json_coin_str(denom@, amount@));
    }
}

/// Appends an array of text-amount coins as JSON.
pub fn push_coin_strs(out: &mut Vec<u8>, cs: &Vec<(Vec<u8>, Vec<u8>)>)
    ensures
        final(out)@ == old(out)@ + json_coin_strs(coin_views(cs@)),
{
    out.push(0x5b);
    let ghost pre = out@;
    let mut i: usize = 0;
    while i < cs.len()
        invariant
            i <= cs@.len(),
            pre =~= old(out)@ + seq![0x5bu8],
            out@ =~= pre + json_coin_strs_inner(coin_views(cs@).take(i as int)),
        decreases cs@.len() - i,
    {
        if i > 0 {
            out.push(0x2c);
        }
        push_coin_str(out, cs[i].0.as_slice(), cs[i].1.as_slice());
        proof {
            assert(coin_views(cs@).take(i + 1) =~= coin_views(cs@).take(i as int).push(
                coin_views(cs@)[i as int],
            ));
            lemma_json_coin_strs_inner_push(coin_views(cs@).take(i as int), coin_views(cs@)[i as int]);
            assert(coin_views(cs@)[i as int] == (cs@[i as int].0@, cs@[i as int].1@));
        }
        i = i + 1;
    }
    proof {
        assert(coin_views(cs@).take(coin_views(cs@).len() as int) =~= coin_views(cs@));
    }
    out.push(0x5d);
    proof {
        assert(out@ =~= old(out)@ + json_coin_strs(coin_views(cs@)));
    }
}

/// Appends one coin as a JSON object.
fn push_json_coin(out: &mut Vec<u8>, c: &Coin)
    ensures
        final(out)@ == old(out)@ + json_coin(*c),
{
    out.push(0x7b);
    out.push(0x22);
    out.push(0x64);
    out.push(0x65);
    out.push(0x6e);
    out.push(0x6f);
    out.push(0x6d);
    out.push(0x22);
    out.push(0x3a);
    push_json_string(out, c.denom.as_str());
    out.push(0x2c);
    out.push(0x22);
    out.push(0x61);
    out.push(0x6d);
    out.push(0x6f);
    out.push(0x75);
    out.push(0x6e);
    out.push(0x74);
    out.push(0x22);
    out.push(0x3a);
    out.push(0x22);
    push_dec(out, c.amount);
    out.push(0x22);
    out.push(0x7d);
    proof {
        assert(out@ =~= old(out)@ + json_coin(*c));
    }
}

/// Encodes a coin list as the JSON array the simulator's account
/// initialisation accepts.
pub fn coins_to_json(coins: &Vec<Coin>) -> (r: Vec<u8>)
    ensures
        r@ == json_coins(coins@),
{
    let mut out: Vec<u8> = Vec::new();
    out.push(0x5b);
    let ghost pre = out@;
    let mut i: usize = 0;
    while i < coins.len()
        invariant
            i <= coins@.len(),
            pre =~= seq![0x5bu8],
            out@ =~= pre + json_coins_inner(coins@.take(i as int)),
        decreases coins@.len() - i,
    {
        if i > 0 {
            out.push(0x2c);
        }
        push_json_coin(&mut out, &coins[i]);
        proof {
            assert(coins@.take(i + 1) =~= coins@.take(i as int).push(coins@[i as int]));
            lemma_json_coins_inner_push(coins@.take(i as int), coins@[i as int]);
        }
        i = i + 1;
    }
    proof {
        assert(coins@.take(coins@.len() as int) =~= coins@);
    }
    out.push(0x5d);
    proof {
        assert(out@ =~= json_coins(coins@));
    }
    out
}

} // verus!
