//! Small string routines the workflows need: decimal rendering of ids and
//! splitting of comma-separated lists.

use vstd::prelude::*;

verus! {

/// The character of a decimal digit `d < 10`.
pub open spec fn digit_char(d: nat) -> char {
    seq!['0', '1', '2', '3', '4', '5', '6', '7', '8', '9'][d as int]
}

/// The decimal rendering of `n`, without sign or leading zeros.
pub open spec fn decimal(n: nat) -> Seq<char>
    decreases n,
{
    if n < 10 {
        seq![digit_char(n)]
    } else {
        decimal(n / 10).push(digit_char(n % 10))
    }
}

/// The pieces of `s` between commas, read left to right: each comma closes
/// the current piece and opens a new, empty one.
pub open spec fn comma_split(s: Seq<char>) -> Seq<Seq<char>>
    decreases s.len(),
{
    if s.len() == 0 {
        seq![Seq::empty()]
    } else {
        let rest = comma_split(s.drop_last());
        if s.last() == ',' {
            rest.push(Seq::empty())
        } else {
            rest.update(rest.len() - 1, rest.last().push(s.last()))
        }
    }
}

proof fn lemma_comma_split_nonempty(s: Seq<char>)
    ensures
        comma_split(s).len() >= 1,
    decreases s.len(),
{
    if s.len() > 0 {
        lemma_comma_split_nonempty(s.drop_last());
    }
}

pub open spec fn views(v: Seq<String>) -> Seq<Seq<char>> {
    v.map_values(|p: String| p@)
}

fn digit_str(d: u32) -> (r: &'static str)
    requires
        d < 10,
    ensures
        r@ == seq![digit_char(d as nat)],
{
    proof {
        reveal_strlit("0");
        reveal_strlit("1");
        reveal_strlit("2");
        reveal_strlit("3");
        reveal_strlit("4");
        reveal_strlit("5");
        reveal_strlit("6");
        reveal_strlit("7");
        reveal_strlit("8");
        reveal_strlit("9");
    }
    match d {
        0 => "0",
        1 => "1",
        2 => "2",
        3 => "3",
        4 => "4",
        5 => "5",
        6 => "6",
        7 => "7",
        8 => "8",
        _ => "9",
    }
}

/// Renders `n` in decimal.
pub fn u32_to_decimal(n: u32) -> (r: String)
    ensures
        r@ == decimal(n as nat),
    decreases n,
{
    if n < 10 {
        String::from_str(digit_str(n))
    } else {
        let mut s = u32_to_decimal(n / 10);
        s.append(digit_str(n % 10));
        s
    }
}

/// Splits `s` at every comma, as `str::split(",")` does: `k` commas give
/// `k + 1` pieces, empty ones included.
pub fn split_commas(s: &str) -> (r: Vec<String>)
    ensures
        views(r@) == comma_split(s@),
{
    let len = s.unicode_len();
    let mut parts: Vec<String> = Vec::new();
    let mut start: usize = 0;
    let mut i: usize = 0;
    assert(s@.subrange(0, 0) == Seq::<char>::empty());
    assert(views(parts@).push(s@.subrange(0, 0)) == seq![Seq::<char>::empty()]);
    while i < len
        invariant
            start <= i <= len,
            len == s@.len(),
            comma_split(s@.subrange(0, i as int)) == views(parts@).push(
                s@.subrange(start as int, i as int),
            ),
        decreases len - i,
    {
        let ghost pre = s@.subrange(0, i as int + 1);
        assert(pre.drop_last() == s@.subrange(0, i as int));
        proof {
            lemma_comma_split_nonempty(s@.subrange(0, i as int));
        }
        let ghost old_views = views(parts@);
        let ghost old_start = start;
        assert(pre.last() == s@[i as int]);
        if s.get_char(i) == ',' {
            let piece = String::from_str(s.substring_char(start, i));
            parts.push(piece);
            start = i + 1;
            assert(views(parts@) == old_views.push(s@.subrange(old_start as int, i as int)));
            assert(s@.subrange(start as int, i as int + 1) == Seq::<char>::empty());
            assert(views(parts@).push(s@.subrange(start as int, i as int + 1)) == comma_split(
                pre,
            ));
        } else {
            assert(s@.subrange(start as int, i as int + 1) == s@.subrange(
                start as int,
                i as int,
            ).push(s@[i as int]));
            assert(views(parts@).push(s@.subrange(start as int, i as int + 1)) == comma_split(
                pre,
            ));
        }
        i = i + 1;
    }
    let piece = String::from_str(s.substring_char(start, len));
    parts.push(piece);
    assert(s@.subrange(0, len as int) == s@);
    assert(views(parts@) == comma_split(s@));
    parts
}

} // verus!
