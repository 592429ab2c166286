//! Coins: a denomination paired with an amount.
//!
//! The simulator rejects coin lists whose denominations are not sorted, so
//! the harness normalises every list before transmission.  The order is the
//! byte-wise lexicographic order of the denomination strings, the same order
//! `str::cmp` uses.

use vstd::prelude::*;
use vstd::slice::slice_index_get;
use vstd::seq_lib::lemma_multiset_commutative;
use vstd::multiset::Multiset;

verus! {

/// A single-denomination amount, the unit every balance and fee is stated in.
#[derive(Debug, PartialEq, Eq)]
pub struct Coin {
    pub denom: String,
    pub amount: u128,
}

/// The UTF-8 bytes of a coin's denomination; the sort key of a coin list.
pub open spec fn spec_denom_bytes(c: Coin) -> Seq<u8> {
    vstd::utf8::encode_utf8(c.denom@)
}

/// Byte-wise lexicographic order, the order `str::cmp` induces on strings.
pub open spec fn lex_le(a: Seq<u8>, b: Seq<u8>) -> bool
    decreases a.len(),
{
    if a.len() == 0 {
        true
    } else if b.len() == 0 {
        false
    } else if a[0] < b[0] {
        true
    } else if a[0] > b[0] {
        false
    } else {
        lex_le(a.drop_first(), b.drop_first())
    }
}

/// Coins ordered by denomination.
pub open spec fn coin_le(a: Coin, b: Coin) -> bool {
    lex_le(spec_denom_bytes(a), spec_denom_bytes(b))
}

/// A coin list in the order the simulator accepts.
pub open spec fn coins_sorted(s: Seq<Coin>) -> bool {
    forall|i: int, j: int| 0 <= i < j < s.len() ==> coin_le(#[trigger] s[i], #[trigger] s[j])
}

pub proof fn lemma_lex_le_total(a: Seq<u8>, b: Seq<u8>)
    ensures
        lex_le(a, b) || lex_le(b, a),
    decreases a.len(),
{
    if a.len() != 0 && b.len() != 0 && a[0] == b[0] {
        lemma_lex_le_total(a.drop_first(), b.drop_first());
    }
}

pub proof fn lemma_lex_le_trans(a: Seq<u8>, b: Seq<u8>, c: Seq<u8>)
    requires
        lex_le(a, b),
        lex_le(b, c),
    ensures
        lex_le(a, c),
    decreases a.len(),
{
    if a.len() != 0 && b.len() != 0 && c.len() != 0 && a[0] == b[0] && b[0] == c[0] {
        lemma_lex_le_trans(a.drop_first(), b.drop_first(), c.drop_first());
    }
}

impl Coin {
    pub fn new(amount: u128, denom: String) -> (r: Coin)
        ensures
            r.denom == denom,
            r.amount == amount,
    {
        Coin { denom, amount }
    }

    pub fn clone(&self) -> (r: Coin)
        ensures
            r == *self,
    {
        Coin { denom: self.denom.clone(), amount: self.amount }
    }
}

/// `true` when `a`'s bytes are lexicographically at most `b`'s bytes.
pub fn bytes_le(a: &[u8], b: &[u8]) -> (r: bool)
    ensures
        r == lex_le(a@, b@),
{
    let a_len: usize = a.len();
    let b_len: usize = b.len();
    let mut i: usize = 0;
    proof {
        assert(a@.skip(0) =~= a@);
        assert(b@.skip(0) =~= b@);
    }
    loop
        invariant
            i <= a_len,
            i <= b_len,
            a_len == a@.len(),
            b_len == b@.len(),
            lex_le(a@, b@) == lex_le(a@.skip(i as int), b@.skip(i as int)),
        decreases a_len - i,
    {
        proof {
            assert(a@.skip(i as int).len() == a_len - i);
            assert(b@.skip(i as int).len() == b_len - i);
        }
        if i == a_len {
            return true;
        }
        if i == b_len {
            return false;
        }
        let x = *slice_index_get(a, i);
        let y = *slice_index_get(b, i);
        proof {
            assert(a@.skip(i as int)[0] == a@[i as int]);
            assert(b@.skip(i as int)[0] == b@[i as int]);
            assert(a@.skip(i as int).drop_first() =~= a@.skip(i + 1));
            assert(b@.skip(i as int).drop_first() =~= b@.skip(i + 1));
        }
        if x < y {
            return true;
        }
        if x > y {
            return false;
        }
        i = i + 1;
    }
}

/// Compares two coins by denomination, the order the simulator expects.
pub fn coin_le_exec(a: &Coin, b: &Coin) -> (r: bool)
    ensures
        r == coin_le(*a, *b),
{
    bytes_le(a.denom.as_str().as_bytes(), b.denom.as_str().as_bytes())
}

/// The position at which `c` belongs in the sorted list `out`.
fn insertion_point(out: &Vec<Coin>, c: &Coin) -> (k: usize)
    requires
        coins_sorted(out@),
    ensures
        k <= out@.len(),
        forall|j: int| k <= j < out@.len() ==> coin_le(*c, #[trigger] out@[j]),
        forall|j: int| 0 <= j < k ==> coin_le(#[trigger] out@[j], *c),
{
    let mut k: usize = out.len();
    loop
        invariant
            k <= out@.len(),
            coins_sorted(out@),
            forall|j: int| k <= j < out@.len() ==> coin_le(*c, #[trigger] out@[j]),
        decreases k,
    {
        if k == 0 {
            return 0;
        }
        if coin_le_exec(&out[k - 1], c) {
            proof {
                assert forall|j: int| 0 <= j < k implies coin_le(#[trigger] out@[j], *c) by {
                    if j < k - 1 {
                        lemma_lex_le_trans(
                            spec_denom_bytes(out@[j]),
                            spec_denom_bytes(out@[k - 1]),
                            spec_denom_bytes(*c),
                        );
                    }
                }
            }
            return k;
        }
        proof {
            lemma_lex_le_total(spec_denom_bytes(out@[k - 1]), spec_denom_bytes(*c));
        }
        k = k - 1;
    }
}

proof fn lemma_insert_to_multiset<A>(s: Seq<A>, k: int, c: A)
    requires
        0 <= k <= s.len(),
    ensures
        s.insert(k, c).to_multiset() =~= s.to_multiset().insert(c),
{
    broadcast use vstd::seq_lib::group_to_multiset_ensures;

    let s1 = s.subrange(0, k);
    let s2 = s.subrange(k, s.len() as int);
    assert(s =~= s1 + s2);
    assert(s.insert(k, c) =~= s1 + (seq![c] + s2));
    lemma_multiset_commutative(s1, s2);
    lemma_multiset_commutative(s1, seq![c] + s2);
    lemma_multiset_commutative(seq![c], s2);
    assert(seq![c] =~= Seq::<A>::empty().push(c));
    assert(seq![c].to_multiset() =~= Multiset::<A>::empty().insert(c));
}

/// Sorts a coin list by denomination.
///
/// An unsorted list is normalised, never rejected: the result holds exactly
/// the coins given, in the accepted order.
pub fn sort_coins(coins: Vec<Coin>) -> (r: Vec<Coin>)
    ensures
        coins_sorted(r@),
        r@.to_multiset() == coins@.to_multiset(),
        r@.len() == coins@.len(),
{
    broadcast use vstd::seq_lib::group_to_multiset_ensures;
    broadcast use vstd::multiset::group_multiset_axioms;

    let mut rest = coins;
    let mut out: Vec<Coin> = Vec::new();
    let ghost orig = rest@;
    loop
        invariant
            orig == coins@,
            coins_sorted(out@),
            out@.to_multiset().add(rest@.to_multiset()) =~= orig.to_multiset(),
            out@.len() + rest@.len() == orig.len(),
        decreases rest@.len(),
    {
        if rest.len() == 0 {
            proof {
                broadcast use vstd::seq_lib::group_to_multiset_ensures;
                broadcast use vstd::multiset::group_multiset_axioms;

                assert(rest@.to_multiset().len() == 0);
                assert(out@.to_multiset() =~= orig.to_multiset());
            }
            return out;
        }
        let ghost old_rest = rest@;
        let c = rest.remove(0);
        let k = insertion_point(&out, &c);
        let ghost old_out = out@;
        proof {
            lemma_insert_to_multiset(old_out, k as int, c);
        }
        out.insert(k, c);
        proof {
            broadcast use vstd::seq_lib::group_to_multiset_ensures;
            broadcast use vstd::multiset::group_multiset_axioms;

            assert(out@ =~= old_out.insert(k as int, c));
            assert forall|i: int, j: int| 0 <= i < j < out@.len() implies coin_le(
                #[trigger] out@[i],
                #[trigger] out@[j],
            ) by {
                if j < k {
                    assert(out@[i] == old_out[i] && out@[j] == old_out[j]);
                } else if i > k {
                    assert(out@[i] == old_out[i - 1] && out@[j] == old_out[j - 1]);
                } else if i < k && j == k {
                    assert(out@[i] == old_out[i] && out@[j] == c);
                } else if i == k && j > k {
                    assert(out@[i] == c && out@[j] == old_out[j - 1]);
                } else if i < k && j > k {
                    assert(out@[i] == old_out[i] && out@[j] == old_out[j - 1]);
                    lemma_lex_le_trans(
                        spec_denom_bytes(old_out[i]),
                        spec_denom_bytes(c),
                        spec_denom_bytes(old_out[j - 1]),
                    );
                }
            }
            assert(rest@ =~= old_rest.remove(0));
            assert(rest@.to_multiset() =~= old_rest.to_multiset().remove(c)) by {
                assert(old_rest.remove(0).to_multiset() =~= old_rest.to_multiset().remove(
                    old_rest[0],
                ));
            }
            assert(old_rest.contains(c));
            assert(old_rest.to_multiset().count(c) > 0);
            assert(old_rest.to_multiset() =~= rest@.to_multiset().insert(c));
            assert(out@.to_multiset().add(rest@.to_multiset()) =~= orig.to_multiset());
        }
    }
}

} // verus!
