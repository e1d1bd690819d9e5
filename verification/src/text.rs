//! Small verified helpers over strings.

use vstd::prelude::*;
use vstd::string::*;

verus! {

/// Character-wise equality of two string slices.
pub fn str_eq(a: &str, b: &str) -> (r: bool)
    ensures
        r == (a@ == b@),
{
    let na = a.unicode_len();
    let nb = b.unicode_len();
    if na != nb {
        return false;
    }
    let mut i: usize = 0;
    while i < na
        invariant
            i <= na,
            na == a@.len(),
            na == b@.len(),
            forall|j: int| 0 <= j < i ==> a@[j] == b@[j],
        decreases na - i,
    {
        if a.get_char(i) != b.get_char(i) {
            return false;
        }
        i = i + 1;
    }
    proof {
        assert(a@ =~= b@);
    }
    true
}

/// The characters of each string in a sequence of strings.
pub open spec fn string_views(v: Seq<String>) -> Seq<Seq<char>> {
    v.map_values(|s: String| s@)
}

/// The characters of each pair in a sequence of string pairs.
pub open spec fn pair_string_views(v: Seq<(String, String)>) -> Seq<(Seq<char>, Seq<char>)> {
    v.map_values(|p: (String, String)| (p.0@, p.1@))
}

/// True iff `needle` stands in `hay` at position `i`.
pub open spec fn match_at(hay: Seq<char>, needle: Seq<char>, i: int) -> bool {
    &&& 0 <= i
    &&& i + needle.len() <= hay.len()
    &&& forall|k: int| 0 <= k < needle.len() ==> hay[i + k] == needle[k]
}

/// True iff `needle` stands somewhere in `hay`.
pub open spec fn spec_contains(hay: Seq<char>, needle: Seq<char>) -> bool {
    exists|i: int| match_at(hay, needle, i)
}

/// Character-wise substring search.
pub fn str_contains(hay: &str, needle: &str) -> (r: bool)
    ensures
        r == spec_contains(hay@, needle@),
{
    let n = hay.unicode_len();
    let m = needle.unicode_len();
    if m > n {
        return false;
    }
    let mut i: usize = 0;
    while i <= n - m
        invariant
            m <= n,
            i <= n - m + 1,
            n == hay@.len(),
            m == needle@.len(),
            forall|j: int| 0 <= j < i ==> !match_at(hay@, needle@, j),
        decreases n + 1 - i,
    {
        let mut k: usize = 0;
        let mut hit = true;
        while k < m
            invariant
                i + m <= n,
                k <= m,
                n == hay@.len(),
                m == needle@.len(),
                hit == (forall|t: int| 0 <= t < k ==> hay@[i + t] == needle@[t]),
            decreases m - k,
        {
            if hay.get_char(i + k) != needle.get_char(k) {
                hit = false;
            }
            k = k + 1;
        }
        if hit {
            assert(match_at(hay@, needle@, i as int));
            return true;
        }
        assert(!match_at(hay@, needle@, i as int));
        i = i + 1;
    }
    assert forall|j: int| !match_at(hay@, needle@, j) by {
        if j >= i {
            assert(j + needle@.len() > hay@.len());
        }
    }
    false
}

/// True iff some string in `v` spells `s`.
pub fn contains_string(v: &Vec<String>, s: &str) -> (r: bool)
    ensures
        r == string_views(v@).contains(s@),
{
    let mut i: usize = 0;
    while i < v.len()
        invariant
            i <= v@.len(),
            forall|j: int| 0 <= j < i ==> string_views(v@)[j] != s@,
        decreases v@.len() - i,
    {
        if str_eq(v[i].as_str(), s) {
            assert(string_views(v@)[i as int] == s@);
            return true;
        }
        i = i + 1;
    }
    proof {
        if string_views(v@).contains(s@) {
            let w = choose|w: int|
                0 <= w < string_views(v@).len() && string_views(v@)[w] == s@;
        }
    }
    false
}

/// Pieces joined with a comma between each neighbouring pair.
pub open spec fn join_commas(ps: Seq<Seq<char>>) -> Seq<char>
    decreases ps.len(),
{
    if ps.len() == 0 {
        Seq::empty()
    } else if ps.len() == 1 {
        ps[0]
    } else {
        join_commas(ps.drop_last()) + ","@ + ps.last()
    }
}

/// Joins strings with commas.
pub fn join_with_commas(ps: &Vec<String>) -> (r: String)
    ensures
        r@ == join_commas(string_views(ps@)),
{
    let ghost views = string_views(ps@);
    let mut out = String::new();
    let mut i: usize = 0;
    proof {
        assert(out@ =~= join_commas(views.take(0)));
    }
    while i < ps.len()
        invariant
            i <= ps.len(),
            views == string_views(ps@),
            views.len() == ps@.len(),
            out@ == join_commas(views.take(i as int)),
        decreases ps.len() - i,
    {
        if i > 0 {
            out.append(",");
        }
        out.append(ps[i].as_str());
        proof {
            assert(views.take(i + 1).drop_last() =~= views.take(i as int));
            assert(views.take(i + 1).last() == views[i as int]);
            if i == 0 {
                assert(views.take(1) =~= seq![views[0]]);
                assert(out@ =~= join_commas(views.take(1)));
            }
        }
        i = i + 1;
    }
    proof {
        assert(views.take(ps@.len() as int) =~= views);
    }
    out
}

/// The character that a decimal digit value writes as.
pub open spec fn digit_char(d: int) -> char {
    if d == 0 {
        '0'
    } else if d == 1 {
        '1'
    } else if d == 2 {
        '2'
    } else if d == 3 {
        '3'
    } else if d == 4 {
        '4'
    } else if d == 5 {
        '5'
    } else if d == 6 {
        '6'
    } else if d == 7 {
        '7'
    } else if d == 8 {
        '8'
    } else {
        '9'
    }
}

/// The decimal writing of a non-negative number.
pub open spec fn dec_rep(n: int) -> Seq<char>
    decreases n,
{
    if n <= 9 {
        seq![digit_char(n)]
    } else {
        dec_rep(n / 10).push(digit_char(n % 10))
    }
}

fn digit_str(d: u64) -> (r: &'static str)
    requires
        d <= 9,
    ensures
        r@ =~= seq![digit_char(d as int)],
{
    proof {
        broadcast use vstd::string::group_string_axioms;

        reveal_strlit("0");
        reveal_strlit("1");
        reveal_strlit("2");
        reveal_strlit("3");
        reveal_strlit("4");
        reveal_strlit("5");
        reveal_strlit("6");
        reveal_strlit("7");
        reveal_strlit("8");
        reveal_strlit("9");
    }
    match d {
        0 => "0",
        1 => "1",
        2 => "2",
        3 => "3",
        4 => "4",
        5 => "5",
        6 => "6",
        7 => "7",
        8 => "8",
        _ => "9",
    }
}

/// Writes a number in decimal.
pub fn u64_to_string(n: u64) -> (r: String)
    ensures
        r@ == dec_rep(n as int),
    decreases n,
{
    let d = n % 10;
    if n <= 9 {
        String::from_str(digit_str(n))
    } else {
        let mut s = u64_to_string(n / 10);
        s.append(digit_str(d));
        proof {
            assert(s@ =~= dec_rep((n / 10) as int).push(digit_char(d as int)));
        }
        s
    }
}

/// A `key=value` pair split at its single equals sign; a string without
/// exactly one equals sign does not split.
pub open spec fn split2_eq(s: Seq<char>) -> Option<(Seq<char>, Seq<char>)> {
    if exists|i: int|
        0 <= i < s.len() && s[i] == '=' && (forall|j: int|
            0 <= j < s.len() && j != i ==> s[j] != '=') {
        let i = choose|i: int|
            0 <= i < s.len() && s[i] == '=' && (forall|j: int|
                0 <= j < s.len() && j != i ==> s[j] != '=');
        Some((s.take(i), s.skip(i + 1)))
    } else {
        None
    }
}

/// Splits a `key=value` argument at its single equals sign; refused when
/// the sign is absent or occurs more than once.
pub fn split_eq_arg(s: &str) -> (r: Option<(String, String)>)
    ensures
        match r {
            Some(kv) => split2_eq(s@) == Some((kv.0@, kv.1@)),
            None => split2_eq(s@) is None,
        },
{
    let n = s.unicode_len();
    let mut pos: usize = 0;
    let mut count: usize = 0;
    let mut i: usize = 0;
    while i < n
        invariant
            i <= n,
            n == s@.len(),
            count <= i,
            count == 0 ==> (forall|j: int| 0 <= j < i ==> s@[j] != '='),
            count == 1 ==> (pos < i && s@[pos as int] == '=' && (forall|j: int|
                0 <= j < i && j != pos ==> s@[j] != '=')),
            count >= 2 ==> (exists|a: int, b: int|
                0 <= a < b < i && s@[a] == '=' && s@[b] == '='),
        decreases n - i,
    {
        if s.get_char(i) == '=' {
            if count == 0 {
                pos = i;
            }
            count = count + 1;
        }
        i = i + 1;
    }
    if count != 1 {
        proof {
            if count >= 2 {
                let (a, b) = choose|a: int, b: int|
                    0 <= a < b < n && s@[a] == '=' && s@[b] == '=';
                assert forall|w: int|
                    0 <= w < s@.len() && s@[w] == '=' implies !(forall|j: int|
                    0 <= j < s@.len() && j != w ==> s@[j] != '=') by {
                    if w != a {
                        assert(s@[a] == '=');
                    } else {
                        assert(s@[b] == '=');
                    }
                }
            }
        }
        return None;
    }
    let key = s.substring_char(0, pos);
    let value = s.substring_char(pos + 1, n);
    proof {
        let w = choose|i: int|
            0 <= i < s@.len() && s@[i] == '=' && (forall|j: int|
                0 <= j < s@.len() && j != i ==> s@[j] != '=');
        assert(w == pos as int);
        assert(key@ =~= s@.take(pos as int));
        assert(value@ =~= s@.skip(pos as int + 1));
    }
    Some((String::from_str(key), String::from_str(value)))
}

} // verus!
