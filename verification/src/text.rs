//! String helpers shared by the pipeline: decimal rendering of integers,
//! joining message fragments, and splitting an HTTP cookie header into its
//! individual cookie strings.

use vstd::prelude::*;

verus! {

/// The character for a single decimal digit.
pub open spec fn dec_digit(d: nat) -> char {
    if d == 0 {
        '0'
    } else if d == 1 {
        '1'
    } else if d == 2 {
        '2'
    } else if d == 3 {
        '3'
    } else if d == 4 {
        '4'
    } else if d == 5 {
        '5'
    } else if d == 6 {
        '6'
    } else if d == 7 {
        '7'
    } else if d == 8 {
        '8'
    } else {
        '9'
    }
}

/// The usual decimal rendering of a natural number, most significant digit
/// first and without leading zeros (except for zero itself).
pub open spec fn dec_spec(n: nat) -> Seq<char>
    decreases n,
{
    if n < 10 {
        seq![dec_digit(n)]
    } else {
        dec_spec(n / 10).push(dec_digit(n % 10))
    }
}

fn digit_str(d: u64) -> (s: &'static str)
    requires
        d < 10,
    ensures
        s@ == seq![dec_digit(d as nat)],
{
    let s: &'static str = match d {
        0 => "0",
        1 => "1",
        2 => "2",
        3 => "3",
        4 => "4",
        5 => "5",
        6 => "6",
        7 => "7",
        8 => "8",
        _ => "9",
    };
    proof {
        reveal_strlit("0");
        reveal_strlit("1");
        reveal_strlit("2");
        reveal_strlit("3");
        reveal_strlit("4");
        reveal_strlit("5");
        reveal_strlit("6");
        reveal_strlit("7");
        reveal_strlit("8");
        reveal_strlit("9");
        assert(s@ =~= seq![dec_digit(d as nat)]);
    }
    s
}

/// Renders an unsigned integer in decimal.
pub fn u64_to_string(n: u64) -> (s: String)
    ensures
        s@ == dec_spec(n as nat),
    decreases n,
{
    if n < 10 {
        digit_str(n).to_owned()
    } else {
        let mut s = u64_to_string(n / 10);
        s.append(digit_str(n % 10));
        proof {
            assert(s@ =~= dec_spec(n as nat));
        }
        s
    }
}

/// The position of the first `"; "` separator at or after index `i`, if any.
pub open spec fn find_sep(s: Seq<char>, i: nat) -> Option<int>
    decreases s.len() - i,
    when i <= s.len()
{
    if i + 2 > s.len() {
        None
    } else if s[i as int] == ';' && s[i as int + 1] == ' ' {
        Some(i as int)
    } else {
        find_sep(s, i + 1)
    }
}

pub proof fn lemma_find_sep_bounds(s: Seq<char>, i: nat)
    requires
        i <= s.len(),
    ensures
        find_sep(s, i) matches Some(j) ==> i <= j && j + 2 <= s.len(),
    decreases s.len() - i,
{
    if i + 2 <= s.len() && !(s[i as int] == ';' && s[i as int + 1] == ' ') {
        lemma_find_sep_bounds(s, i + 1);
    }
}

/// The cookie strings of a `cookie` header value: the fragments separated by
/// `"; "`. A header without the separator is a single fragment.
pub open spec fn split_cookies(s: Seq<char>) -> Seq<Seq<char>>
    decreases s.len(),
{
    match find_sep(s, 0) {
        Some(j) => if 0 <= j && j + 2 <= s.len() {
            seq![s.subrange(0, j)] + split_cookies(s.subrange(j + 2, s.len() as int))
        } else {
            seq![s]
        },
        None => seq![s],
    }
}

fn find_separator(s: &str) -> (r: Option<usize>)
    ensures
        r matches Some(j) ==> find_sep(s@, 0) == Some(j as int),
        r is None ==> find_sep(s@, 0) is None,
{
    let n = s.unicode_len();
    let mut i: usize = 0;
    while n >= 2 && i <= n - 2
        invariant
            i <= n,
            n == s@.len(),
            find_sep(s@, 0) == find_sep(s@, i as nat),
        decreases n - i,
    {
        if s.get_char(i) == ';' && s.get_char(i + 1) == ' ' {
            return Some(i);
        }
        proof {
            assert(find_sep(s@, i as nat) == find_sep(s@, (i + 1) as nat));
        }
        i = i + 1;
    }
    None
}

/// Splits a `cookie` header value into its `"; "`-separated cookie strings.
pub fn split_cookie_header(s: &str) -> (parts: Vec<String>)
    ensures
        parts.deep_view() == split_cookies(s@),
    decreases s@.len(),
{
    match find_separator(s) {
        Some(j) => {
            proof {
                lemma_find_sep_bounds(s@, 0);
            }
            let head = s.substring_char(0, j).to_owned();
            let n = s.unicode_len();
            let tail = s.substring_char(j + 2, n);
            let mut parts = split_cookie_header(tail);
            parts.insert(0, head);
            proof {
                assert(parts.deep_view() =~~= split_cookies(s@));
            }
            parts
        },
        None => {
            let mut parts: Vec<String> = Vec::new();
            parts.push(s.to_owned());
            proof {
                assert(parts.deep_view() =~~= split_cookies(s@));
            }
            parts
        },
    }
}

/// The fragments joined with a comma between each adjacent pair.
pub open spec fn join_comma(parts: Seq<Seq<char>>) -> Seq<char>
    decreases parts.len(),
{
    if parts.len() == 0 {
        Seq::empty()
    } else if parts.len() == 1 {
        parts[0]
    } else {
        join_comma(parts.drop_last()) + ","@ + parts.last()
    }
}

/// Joins the fragments with a comma between each adjacent pair.
pub fn join_with_comma(parts: &Vec<String>) -> (s: String)
    ensures
        s@ == join_comma(parts.deep_view()),
{
    let ghost all = parts.deep_view();
    let mut s = String::new();
    let mut i: usize = 0;
    while i < parts.len()
        invariant
            i <= parts.len(),
            all == parts.deep_view(),
            s@ == join_comma(all.take(i as int)),
        decreases parts.len() - i,
    {
        if i > 0 {
            s.append(",");
        }
        s.append(parts[i].as_str());
        proof {
            assert(all.take(i + 1).drop_last() =~~= all.take(i as int));
            assert(all.take(i + 1).last() == all[i as int]);
            assert(all[i as int] == parts@[i as int]@);
            if i == 0 {
                assert(s@ =~= join_comma(all.take(i + 1)));
            } else {
                assert(s@ =~= join_comma(all.take(i + 1)));
            }
        }
        i = i + 1;
    }
    proof {
        assert(all.take(parts.len() as int) =~~= all);
    }
    s
}

} // verus!
