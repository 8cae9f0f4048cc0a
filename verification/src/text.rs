//! Character-level text helpers shared by the reply parsers: turning strings
//! into character vectors, locating delimiters, cutting out the region
//! between the outermost structural delimiters, and dropping whitespace.

use vstd::prelude::*;

verus! {

/// The whitespace characters the parsers tolerate between tokens.
pub open spec fn is_json_ws(c: char) -> bool {
    c == ' ' || c == '\n' || c == '\t' || c == '\r'
}

/// `s` with every whitespace character removed.
pub open spec fn squeeze(s: Seq<char>) -> Seq<char>
    decreases s.len(),
{
    if s.len() == 0 {
        Seq::empty()
    } else {
        let rest = squeeze(s.drop_last());
        if is_json_ws(s.last()) {
            rest
        } else {
            rest.push(s.last())
        }
    }
}

/// Index of the first occurrence of `c` in `s` at or after `i`, or -1.
pub open spec fn find_char_from(s: Seq<char>, i: int, c: char) -> int
    decreases s.len() - i,
{
    if i < 0 || i >= s.len() {
        -1
    } else if s[i] == c {
        i
    } else {
        find_char_from(s, i + 1, c)
    }
}

/// Index of the last occurrence of `c` in `s` at or before `i`, or -1.
pub open spec fn rfind_char_from(s: Seq<char>, i: int, c: char) -> int
    decreases i + 1,
{
    if i < 0 || i >= s.len() {
        -1
    } else if s[i] == c {
        i
    } else {
        rfind_char_from(s, i - 1, c)
    }
}

/// The slice of `s` from the first `open` through the last `close`, if the
/// first `open` comes strictly before the last `close`.
pub open spec fn extract_region(s: Seq<char>, open: char, close: char) -> Option<Seq<char>> {
    let i = find_char_from(s, 0, open);
    let j = rfind_char_from(s, s.len() - 1, close);
    if 0 <= i && i < j {
        Some(s.subrange(i, j + 1))
    } else {
        None
    }
}

/// The characters of `s`, in order.
pub fn string_chars(s: &str) -> (r: Vec<char>)
    ensures
        r@ == s@,
{
    let n = s.unicode_len();
    let mut r: Vec<char> = Vec::new();
    let mut i: usize = 0;
    while i < n
        invariant
            n == s@.len(),
            i <= n,
            r@ == s@.take(i as int),
        decreases n - i,
    {
        r.push(s.get_char(i));
        proof {
            assert(r@ =~= s@.take(i + 1));
        }
        i = i + 1;
    }
    proof {
        assert(s@.take(n as int) =~= s@);
    }
    r
}

/// Relies on `String::from_iter` over `char`: the resulting string holds
/// exactly the given characters, in order.
#[verifier::external_body]
pub fn chars_to_string(v: &Vec<char>) -> (r: String)
    ensures
        r@ == v@,
{
    v.iter().collect()
}

/// `v` with every whitespace character removed.
pub fn remove_ws(v: &Vec<char>) -> (r: Vec<char>)
    ensures
        r@ == squeeze(v@),
{
    let n = v.len();
    let mut r: Vec<char> = Vec::new();
    let mut i: usize = 0;
    while i < n
        invariant
            n == v@.len(),
            i <= n,
            r@ == squeeze(v@.take(i as int)),
        decreases n - i,
    {
        let c = v[i];
        proof {
            assert(v@.take(i + 1).drop_last() =~= v@.take(i as int));
            assert(v@.take(i + 1).last() == v@[i as int]);
        }
        if !(c == ' ' || c == '\n' || c == '\t' || c == '\r') {
            r.push(c);
        }
        i = i + 1;
    }
    proof {
        assert(v@.take(n as int) =~= v@);
    }
    r
}

/// First occurrence of `c` in `v` at or after `start`.
pub fn find_char(v: &Vec<char>, start: usize, c: char) -> (r: Option<usize>)
    ensures
        match r {
            Some(j) => find_char_from(v@, start as int, c) == j as int && j < v@.len(),
            None => find_char_from(v@, start as int, c) == -1,
        },
{
    let n = v.len();
    let mut i: usize = start;
    while i < n
        invariant
            n == v@.len(),
            find_char_from(v@, start as int, c) == find_char_from(v@, i as int, c),
        decreases n - i,
    {
        if v[i] == c {
            return Some(i);
        }
        i = i + 1;
    }
    None
}

/// Last occurrence of `c` in `v`.
pub fn rfind_char(v: &Vec<char>, c: char) -> (r: Option<usize>)
    ensures
        match r {
            Some(j) => rfind_char_from(v@, v@.len() - 1, c) == j as int && j < v@.len(),
            None => rfind_char_from(v@, v@.len() - 1, c) == -1,
        },
{
    let n = v.len();
    let mut i: usize = n;
    while i > 0
        invariant
            n == v@.len(),
            i <= n,
            rfind_char_from(v@, n - 1, c) == rfind_char_from(v@, i - 1, c),
        decreases i,
    {
        i = i - 1;
        if v[i] == c {
            return Some(i);
        }
    }
    None
}

/// A copy of `v[from..to]`.
pub fn subrange_chars(v: &Vec<char>, from: usize, to: usize) -> (r: Vec<char>)
    requires
        from <= to <= v@.len(),
    ensures
        r@ == v@.subrange(from as int, to as int),
{
    let mut r: Vec<char> = Vec::new();
    let mut i: usize = from;
    while i < to
        invariant
            from <= i <= to <= v@.len(),
            r@ == v@.subrange(from as int, i as int),
        decreases to - i,
    {
        r.push(v[i]);
        proof {
            assert(r@ =~= v@.subrange(from as int, i + 1));
        }
        i = i + 1;
    }
    r
}

/// The region of `v` between its first `open` and its last `close`.
pub fn extract_region_exec(v: &Vec<char>, open: char, close: char) -> (r: Option<Vec<char>>)
    ensures
        match r {
            Some(reg) => extract_region(v@, open, close) == Some(reg@),
            None => extract_region(v@, open, close) is None,
        },
{
    let n = v.len();
    let first = find_char(v, 0, open);
    let last = rfind_char(v, close);
    match (first, last) {
        (Some(i), Some(j)) => {
            proof {
                assert(j < n);
            }
            if i < j {
                Some(subrange_chars(v, i, j + 1))
            } else {
                None
            }
        },
        _ => None,
    }
}

/// Append the characters of `s` to `dst`.
pub fn push_str_chars(dst: &mut Vec<char>, s: &str)
    ensures
        final(dst)@ == old(dst)@ + s@,
{
    let n = s.unicode_len();
    let mut i: usize = 0;
    while i < n
        invariant
            n == s@.len(),
            i <= n,
            dst@ == old(dst)@ + s@.take(i as int),
        decreases n - i,
    {
        dst.push(s.get_char(i));
        proof {
            assert(old(dst)@ + s@.take(i as int) + seq![s@[i as int]] =~= old(dst)@ + s@.take(
                i + 1,
            ));
        }
        i = i + 1;
    }
    proof {
        assert(old(dst)@ + s@.take(n as int) =~= old(dst)@ + s@);
    }
}

/// Whether two character vectors hold the same characters.
pub fn vec_chars_eq(a: &Vec<char>, b: &Vec<char>) -> (r: bool)
    ensures
        r == (a@ == b@),
{
    if a.len() != b.len() {
        proof {
            assert(a@ != b@);
        }
        return false;
    }
    let n = a.len();
    let mut i: usize = 0;
    while i < n
        invariant
            n == a@.len() && n == b@.len(),
            i <= n,
            forall|k: int| 0 <= k < i ==> a@[k] == b@[k],
        decreases n - i,
    {
        if a[i] != b[i] {
            return false;
        }
        i = i + 1;
    }
    proof {
        assert(a@ =~= b@);
    }
    true
}

} // verus!
