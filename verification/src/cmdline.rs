//! Building argument lists for command-line tools (docker, kubectl, helm):
//! single arguments, flags followed by a value, and flags repeated once per
//! value.

use vstd::prelude::*;
use crate::keyed::text_entries;
use crate::text::{push_str, seq_views, to_owned_string};

verus! {

/// `flag v` for each value `v`, in order.
pub open spec fn flag_pairs(flag: Seq<char>, values: Seq<Seq<char>>) -> Seq<Seq<char>>
    decreases values.len(),
{
    if values.len() == 0 {
        seq![]
    } else {
        flag_pairs(flag, values.drop_last()) + seq![flag, values.last()]
    }
}

/// Appends one argument.
pub fn push_arg(args: &mut Vec<String>, a: &str)
    ensures
        seq_views(final(args)@) == seq_views(old(args)@).push(a@),
{
    let ghost before = seq_views(args@);
    args.push(to_owned_string(a));
    assert(seq_views(args@) =~= before.push(a@));
}

/// Appends a flag and its value.
pub fn push_flag(args: &mut Vec<String>, flag: &str, value: &str)
    ensures
        seq_views(final(args)@) == seq_views(old(args)@) + seq![flag@, value@],
{
    let ghost before = seq_views(args@);
    push_arg(args, flag);
    push_arg(args, value);
    assert(seq_views(args@) =~= before + seq![flag@, value@]);
}

/// Appends every value, in order.
pub fn push_all(args: &mut Vec<String>, values: &Vec<String>)
    ensures
        seq_views(final(args)@) == seq_views(old(args)@) + seq_views(values@),
{
    let ghost before = seq_views(args@);
    let mut i: usize = 0;
    while i < values.len()
        invariant
            i <= values@.len(),
            seq_views(args@) == before + seq_views(values@).subrange(0, i as int),
        decreases values.len() - i,
    {
        push_arg(args, values[i].as_str());
        assert(seq_views(values@).subrange(0, i + 1) =~= seq_views(values@).subrange(0, i as int).push(values@[i as int]@));
        i = i + 1;
    }
    assert(seq_views(values@).subrange(0, values@.len() as int) =~= seq_views(values@));
}

/// Appends `flag v` for every value `v`, in order.
pub fn push_flag_values(args: &mut Vec<String>, flag: &str, values: &Vec<String>)
    ensures
        seq_views(final(args)@) == seq_views(old(args)@) + flag_pairs(flag@, seq_views(values@)),
{
    let ghost before = seq_views(args@);
    let mut i: usize = 0;
    while i < values.len()
        invariant
            i <= values@.len(),
            seq_views(args@) == before + flag_pairs(flag@, seq_views(values@).subrange(0, i as int)),
        decreases values.len() - i,
    {
        let ghost prev = seq_views(args@);
        push_flag(args, flag, values[i].as_str());
        proof {
            let next = seq_views(values@).subrange(0, i + 1);
            assert(next.drop_last() =~= seq_views(values@).subrange(0, i as int));
            assert(next.last() == values@[i as int]@);
            assert(seq_views(args@) =~= before + flag_pairs(flag@, next));
        }
        i = i + 1;
    }
    assert(seq_views(values@).subrange(0, values@.len() as int) =~= seq_views(values@));
}

/// `flag name=value` for each pair, in order.
pub open spec fn pair_flags(flag: Seq<char>, pairs: Seq<(Seq<char>, Seq<char>)>) -> Seq<Seq<char>>
    decreases pairs.len(),
{
    if pairs.len() == 0 {
        seq![]
    } else {
        pair_flags(flag, pairs.drop_last()) + seq![flag, pairs.last().0 + "="@ + pairs.last().1]
    }
}

/// Appends `flag name=value` for every pair, in order.
pub fn push_pair_flags(args: &mut Vec<String>, flag: &str, pairs: &Vec<(String, String)>)
    ensures
        seq_views(final(args)@) == seq_views(old(args)@) + pair_flags(flag@, text_entries(pairs@)),
{
    let ghost before = seq_views(args@);
    let mut i: usize = 0;
    while i < pairs.len()
        invariant
            i <= pairs@.len(),
            seq_views(args@) == before + pair_flags(flag@, text_entries(pairs@).subrange(0, i as int)),
        decreases pairs.len() - i,
    {
        let mut kv = pairs[i].0.clone();
        push_str(&mut kv, "=");
        push_str(&mut kv, pairs[i].1.as_str());
        push_flag(args, flag, kv.as_str());
        proof {
            let next = text_entries(pairs@).subrange(0, i + 1);
            assert(next.drop_last() =~= text_entries(pairs@).subrange(0, i as int));
            assert(next.last() == (pairs@[i as int].0@, pairs@[i as int].1@));
            assert(seq_views(args@) =~= before + pair_flags(flag@, next));
        }
        i = i + 1;
    }
    assert(text_entries(pairs@).subrange(0, pairs@.len() as int) =~= text_entries(pairs@));
}

/// Appends `flag value` when there is a value.
pub fn push_opt_flag(args: &mut Vec<String>, flag: &str, value: &Option<String>)
    ensures
        seq_views(final(args)@) == seq_views(old(args)@) + match *value {
            Some(v) => seq![flag@, v@],
            None => seq![],
        },
{
    match value {
        Some(v) => push_flag(args, flag, v.as_str()),
        None => {
            assert(seq_views(args@) =~= seq_views(args@) + Seq::<Seq<char>>::empty());
        },
    }
}

/// Appends the flag when `on`.
pub fn push_switch(args: &mut Vec<String>, flag: &str, on: bool)
    ensures
        seq_views(final(args)@) == seq_views(old(args)@) + (if on { seq![flag@] } else { seq![] }),
{
    if on {
        push_arg(args, flag);
        assert(seq_views(old(args)@).push(flag@) =~= seq_views(old(args)@) + seq![flag@]);
    } else {
        assert(seq_views(args@) =~= seq_views(args@) + Seq::<Seq<char>>::empty());
    }
}

} // verus!
