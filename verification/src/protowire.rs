//! A verified reader for the protobuf wire format, for the few response
//! schemas whose generated bindings live outside every crate this library
//! can call.  The reader walks a message's fields — varint keys and
//! lengths, length-delimited payloads kept, other wire types skipped —
//! exactly as the spec-level parser below defines, and the message
//! decoders built on it are stated over that parser.

use vstd::prelude::*;
use vstd::slice::slice_index_get;

verus! {

/// Reads a base-128 varint at `i`: at most `fuel` bytes, and the value
/// must fit a machine word.  Yields the value and the position after it.
pub open spec fn dec_varint(b: Seq<u8>, i: int, fuel: nat) -> Option<(u64, int)>
    decreases fuel,
{
    if fuel == 0 || !(0 <= i < b.len()) {
        None
    } else if b[i] < 0x80 {
        Some((b[i] as u64, i + 1))
    } else {
        match dec_varint(b, i + 1, (fuel - 1) as nat) {
            None => None,
            Some((hi, j)) => {
                let low = (b[i] - 0x80) as u64;
                if hi > (u64::MAX - low) / 0x80 {
                    None
                } else {
                    Some(((hi * 0x80 + low) as u64, j))
                }
            },
        }
    }
}

/// A read varint ends after where it began, within the buffer.
pub proof fn lemma_dec_varint_bounds(b: Seq<u8>, i: int, fuel: nat)
    ensures
        dec_varint(b, i, fuel) matches Some(p) ==> i < p.1 <= b.len(),
    decreases fuel,
{
    if fuel > 0 && 0 <= i < b.len() && b[i] >= 0x80 {
        lemma_dec_varint_bounds(b, i + 1, (fuel - 1) as nat);
    }
}

/// Walks a message's fields from `i` to the end of the buffer: yields the
/// length-delimited fields in order as (field number, payload bytes);
/// varint and fixed-width fields are skipped; anything else — a zero
/// field number, an unknown wire type, a truncated field — rejects the
/// whole message.
pub open spec fn dec_fields(b: Seq<u8>, i: int) -> Option<Seq<(u64, Seq<u8>)>>
    decreases b.len() - i,
{
    if !(0 <= i <= b.len()) {
        None
    } else if i == b.len() {
        Some(Seq::empty())
    } else {
        match dec_varint(b, i, 10) {
            None => None,
            Some((key, j)) => {
                if !(i < j <= b.len()) {
                    None
                } else {
                    let field = key / 8;
                    let wire = key % 8;
                    if field == 0 {
                        None
                    } else if wire == 2 {
                        match dec_varint(b, j, 10) {
                            None => None,
                            Some((len, k)) => {
                                if !(j < k <= b.len()) || k + len > b.len() {
                                    None
                                } else {
                                    match dec_fields(b, k + len) {
                                        None => None,
                                        Some(rest) => Some(
                                            seq![(field, b.subrange(k, k + len))] + rest,
                                        ),
                                    }
                                }
                            },
                        }
                    } else if wire == 0 {
                        match dec_varint(b, j, 10) {
                            None => None,
                            Some((v, k)) => {
                                if !(j < k <= b.len()) {
                                    None
                                } else {
                                    dec_fields(b, k)
                                }
                            },
                        }
                    } else if wire == 5 {
                        if j + 4 <= b.len() {
                            dec_fields(b, j + 4)
                        } else {
                            None
                        }
                    } else if wire == 1 {
                        if j + 8 <= b.len() {
                            dec_fields(b, j + 8)
                        } else {
                            None
                        }
                    } else {
                        None
                    }
                }
            },
        }
    }
}

/// Reads a varint; mirrors `dec_varint` step for step.
fn read_varint(b: &[u8], i: usize, fuel: u64) -> (r: Option<(u64, usize)>)
    requires
        i <= b@.len(),
    ensures
        r is Some <==> dec_varint(b@, i as int, fuel as nat) is Some,
        r matches Some(p) ==> dec_varint(b@, i as int, fuel as nat) == Some((p.0, p.1 as int))
            && i < p.1 <= b@.len(),
    decreases fuel,
{
    if fuel == 0 || i >= b.len() {
        return None;
    }
    let byte = *slice_index_get(b, i);
    if byte < 0x80 {
        return Some((byte as u64, i + 1));
    }
    match read_varint(b, i + 1, fuel - 1) {
        None => None,
        Some((hi, j)) => {
            let low = (byte - 0x80) as u64;
            if hi > (u64::MAX - low) / 0x80 {
                None
            } else {
                proof {
                    assert(hi * 0x80 + low <= u64::MAX) by (nonlinear_arith)
                        requires
                            hi <= (u64::MAX - low) / 0x80,
                            low < 0x80,
                    ;
                }
                Some((hi * 0x80 + low, j))
            }
        },
    }
}

/// An element-for-element copy of `b[start..end]`.
fn copy_range(b: &[u8], start: usize, end: usize) -> (r: Vec<u8>)
    requires
        start <= end <= b@.len(),
    ensures
        r@ == b@.subrange(start as int, end as int),
{
    let mut out: Vec<u8> = Vec::new();
    let mut i = start;
    while i < end
        invariant
            start <= i <= end <= b@.len(),
            out@ =~= b@.subrange(start as int, i as int),
        decreases end - i,
    {
        out.push(*slice_index_get(b, i));
        proof {
            assert(b@.subrange(start as int, i + 1) =~= b@.subrange(start as int, i as int).push(
                b@[i as int],
            ));
        }
        i = i + 1;
    }
    out
}

/// The mathematical content of a read field list.
pub open spec fn field_views(v: Seq<(u64, Vec<u8>)>) -> Seq<(u64, Seq<u8>)> {
    v.map_values(|p: (u64, Vec<u8>)| (p.0, p.1@))
}

/// Walks a message's fields; mirrors `dec_fields` case for case.
fn read_fields(b: &[u8], i: usize) -> (r: Option<Vec<(u64, Vec<u8>)>>)
    requires
        i <= b@.len(),
    ensures
        r is Some <==> dec_fields(b@, i as int) is Some,
        r matches Some(v) ==> dec_fields(b@, i as int) == Some(field_views(v@)),
    decreases b@.len() - i,
{
    if i == b.len() {
        let out: Vec<(u64, Vec<u8>)> = Vec::new();
        proof {
            assert(field_views(out@) =~= Seq::<(u64, Seq<u8>)>::empty());
        }
        return Some(out);
    }
    let (key, j) = match read_varint(b, i, 10) {
        None => {
            return None;
        },
        Some(p) => p,
    };
    let field = key / 8;
    let wire = key % 8;
    if field == 0 {
        None
    } else if wire == 2 {
        let (len, k) = match read_varint(b, j, 10) {
            None => {
                return None;
            },
            Some(p) => p,
        };
        if len > (b.len() - k) as u64 {
            return None;
        }
        let end = k + (len as usize);
        let payload = copy_range(b, k, end);
        match read_fields(b, end) {
            None => None,
            Some(rest) => {
                let ghost rest_view = rest@;
                let mut out = rest;
                out.insert(0, (field, payload));
                proof {
                    assert(out@ =~= rest_view.insert(0, (field, payload)));
                    assert(field_views(out@) =~= seq![
                        (field, b@.subrange(k as int, k + len)),
                    ] + field_views(rest_view));
                }
                Some(out)
            },
        }
    } else if wire == 0 {
        let (_v, k) = match read_varint(b, j, 10) {
            None => {
                return None;
            },
            Some(p) => p,
        };
        read_fields(b, k)
    } else if wire == 5 {
        if b.len() - j >= 4 {
            read_fields(b, j + 4)
        } else {
            None
        }
    } else if wire == 1 {
        if b.len() - j >= 8 {
            read_fields(b, j + 8)
        } else {
            None
        }
    } else {
        None
    }
}


/// The payload of the last occurrence of field `f`, if any — protobuf's
/// last-one-wins rule for singular fields.
pub open spec fn last_bytes(fs: Seq<(u64, Seq<u8>)>, f: u64) -> Option<Seq<u8>>
    decreases fs.len(),
{
    if fs.len() == 0 {
        None
    } else {
        match last_bytes(fs.drop_first(), f) {
            Some(v) => Some(v),
            None => if fs[0].0 == f {
                Some(fs[0].1)
            } else {
                None
            },
        }
    }
}

/// A singular field's value, or empty when absent — protobuf's default.
pub open spec fn or_empty(o: Option<Seq<u8>>) -> Seq<u8> {
    match o {
        Some(v) => v,
        None => Seq::empty(),
    }
}

fn last_bytes_from(fs: &Vec<(u64, Vec<u8>)>, f: u64, i: usize) -> (r: Option<Vec<u8>>)
    requires
        i <= fs@.len(),
    ensures
        r is Some <==> last_bytes(field_views(fs@).skip(i as int), f) is Some,
        r matches Some(v) ==> last_bytes(field_views(fs@).skip(i as int), f) == Some(v@),
    decreases fs@.len() - i,
{
    if i == fs.len() {
        proof {
            assert(field_views(fs@).skip(i as int) =~= Seq::<(u64, Seq<u8>)>::empty());
        }
        return None;
    }
    let rest = last_bytes_from(fs, f, i + 1);
    proof {
        assert(field_views(fs@).skip(i as int).drop_first() =~= field_views(fs@).skip(i + 1));
        assert(field_views(fs@).skip(i as int)[0] == field_views(fs@)[i as int]);
    }
    match rest {
        Some(v) => Some(v),
        None => {
            if fs[i].0 == f {
                Some(crate::strutil::clone_bytes(&fs[i].1))
            } else {
                None
            }
        },
    }
}

/// A `cosmos.base.v1beta1.Coin` message: `string denom = 1;
/// string amount = 2`, both defaulting to empty.
pub open spec fn dec_wire_coin(b: Seq<u8>) -> Option<(Seq<u8>, Seq<u8>)> {
    match dec_fields(b, 0) {
        None => None,
        Some(fs) => Some((or_empty(last_bytes(fs, 1)), or_empty(last_bytes(fs, 2)))),
    }
}

/// Decodes a coin message; string fields are carried as their raw bytes.
pub fn read_wire_coin(b: &[u8]) -> (r: Option<(Vec<u8>, Vec<u8>)>)
    ensures
        r is Some <==> dec_wire_coin(b@) is Some,
        r matches Some(c) ==> dec_wire_coin(b@) == Some((c.0@, c.1@)),
{
    match read_fields(b, 0) {
        None => None,
        Some(fs) => {
            proof {
                assert(field_views(fs@).skip(0) =~= field_views(fs@));
            }
            let denom = match last_bytes_from(&fs, 1, 0) {
                Some(v) => v,
                None => Vec::new(),
            };
            let amount = match last_bytes_from(&fs, 2, 0) {
                Some(v) => v,
                None => Vec::new(),
            };
            Some((denom, amount))
        },
    }
}

/// The mathematical content of a decoded coin list.
pub open spec fn coin_views(v: Seq<(Vec<u8>, Vec<u8>)>) -> Seq<(Seq<u8>, Seq<u8>)> {
    v.map_values(|c: (Vec<u8>, Vec<u8>)| (c.0@, c.1@))
}

/// All occurrences of the repeated coin field `f`, each payload decoded
/// as a coin message, in order; one undecodable payload rejects the list.
pub open spec fn coins_from_fields(fs: Seq<(u64, Seq<u8>)>, f: u64) -> Option<
    Seq<(Seq<u8>, Seq<u8>)>,
>
    decreases fs.len(),
{
    if fs.len() == 0 {
        Some(Seq::empty())
    } else {
        let rest = coins_from_fields(fs.drop_first(), f);
        if fs[0].0 == f {
            match dec_wire_coin(fs[0].1) {
                None => None,
                Some(c) => match rest {
                    None => None,
                    Some(r) => Some(seq![c] + r),
                },
            }
        } else {
            rest
        }
    }
}

fn coins_from(fs: &Vec<(u64, Vec<u8>)>, f: u64, i: usize) -> (r: Option<Vec<(Vec<u8>, Vec<u8>)>>)
    requires
        i <= fs@.len(),
    ensures
        r is Some <==> coins_from_fields(field_views(fs@).skip(i as int), f) is Some,
        r matches Some(v) ==> coins_from_fields(field_views(fs@).skip(i as int), f) == Some(
            coin_views(v@),
        ),
    decreases fs@.len() - i,
{
    if i == fs.len() {
        let out: Vec<(Vec<u8>, Vec<u8>)> = Vec::new();
        proof {
            assert(field_views(fs@).skip(i as int) =~= Seq::<(u64, Seq<u8>)>::empty());
            assert(coin_views(out@) =~= Seq::<(Seq<u8>, Seq<u8>)>::empty());
        }
        return Some(out);
    }
    let rest = coins_from(fs, f, i + 1);
    proof {
        assert(field_views(fs@).skip(i as int).drop_first() =~= field_views(fs@).skip(i + 1));
        assert(field_views(fs@).skip(i as int)[0] == field_views(fs@)[i as int]);
    }
    if fs[i].0 == f {
        let coin = match read_wire_coin(fs[i].1.as_slice()) {
            None => {
                return None;
            },
            Some(c) => c,
        };
        match rest {
            None => None,
            Some(tail) => {
                let ghost tail_view = tail@;
                let mut out = tail;
                out.insert(0, coin);
                proof {
                    assert(out@ =~= tail_view.insert(0, coin));
                    assert(coin_views(out@) =~= seq![(coin.0@, coin.1@)] + coin_views(tail_view));
                }
                Some(out)
            },
        }
    } else {
        rest
    }
}

/// `osmosis.gamm.v1beta1.QueryCalcJoinPoolSharesResponse`:
/// `string share_out_amount = 1; repeated Coin tokens_out = 2`.
pub open spec fn dec_gamm_shares(b: Seq<u8>) -> Option<(Seq<u8>, Seq<(Seq<u8>, Seq<u8>)>)> {
    match dec_fields(b, 0) {
        None => None,
        Some(fs) => match coins_from_fields(fs, 2) {
            None => None,
            Some(cs) => Some((or_empty(last_bytes(fs, 1)), cs)),
        },
    }
}

/// Decodes a join-pool shares response.
pub fn read_gamm_shares(b: &[u8]) -> (r: Option<(Vec<u8>, Vec<(Vec<u8>, Vec<u8>)>)>)
    ensures
        r is Some <==> dec_gamm_shares(b@) is Some,
        r matches Some(v) ==> dec_gamm_shares(b@) == Some((v.0@, coin_views(v.1@))),
{
    match read_fields(b, 0) {
        None => None,
        Some(fs) => {
            proof {
                assert(field_views(fs@).skip(0) =~= field_views(fs@));
            }
            let coins = match coins_from(&fs, 2, 0) {
                None => {
                    return None;
                },
                Some(cs) => cs,
            };
            let share = match last_bytes_from(&fs, 1, 0) {
                Some(v) => v,
                None => Vec::new(),
            };
            Some((share, coins))
        },
    }
}

/// `osmosis.gamm.v1beta1.QueryCalcJoinPoolNoSwapSharesResponse`:
/// `repeated Coin tokens_out = 1; string shares_out = 2`.
pub open spec fn dec_gamm_no_swap(b: Seq<u8>) -> Option<(Seq<(Seq<u8>, Seq<u8>)>, Seq<u8>)> {
    match dec_fields(b, 0) {
        None => None,
        Some(fs) => match coins_from_fields(fs, 1) {
            None => None,
            Some(cs) => Some((cs, or_empty(last_bytes(fs, 2)))),
        },
    }
}

/// Decodes a join-pool no-swap shares response.
pub fn read_gamm_no_swap(b: &[u8]) -> (r: Option<(Vec<(Vec<u8>, Vec<u8>)>, Vec<u8>)>)
    ensures
        r is Some <==> dec_gamm_no_swap(b@) is Some,
        r matches Some(v) ==> dec_gamm_no_swap(b@) == Some((coin_views(v.0@), v.1@)),
{
    match read_fields(b, 0) {
        None => None,
        Some(fs) => {
            proof {
                assert(field_views(fs@).skip(0) =~= field_views(fs@));
            }
            let coins = match coins_from(&fs, 1, 0) {
                None => {
                    return None;
                },
                Some(cs) => cs,
            };
            let shares = match last_bytes_from(&fs, 2, 0) {
                Some(v) => v,
                None => Vec::new(),
            };
            Some((coins, shares))
        },
    }
}

} // verus!
