//! Parsing a free-text model reply into an ordered list of URL strings.
//!
//! The accepted language: after cutting the region between the outermost
//! brackets out of the raw reply and dropping all whitespace, the text must
//! be a bracketed, comma-separated list of double-quoted items; an item is
//! any run of characters without a double quote. The grammar is stated as a
//! recursive specification and the parser is proved to compute exactly it.

use vstd::prelude::*;

use crate::text::{
    chars_to_string, extract_region, extract_region_exec, find_char, find_char_from, remove_ws,
    squeeze, string_chars, subrange_chars,
};

verus! {

/// The items denoted by `s[i..]`, read as `"item" ("," more | "]")` where
/// the closing bracket must be the last character of `s`; `None` where `s`
/// does not have that form.
pub open spec fn parse_items_from(s: Seq<char>, i: int) -> Option<Seq<Seq<char>>>
    decreases s.len() - i,
{
    if i < 0 || i >= s.len() || s[i] != '"' {
        None
    } else {
        let j = find_char_from(s, i + 1, '"');
        if j < i + 1 {
            None
        } else {
            let item = s.subrange(i + 1, j);
            if j + 1 < s.len() && s[j + 1] == ',' {
                match parse_items_from(s, j + 2) {
                    Some(rest) => Some(seq![item] + rest),
                    None => None,
                }
            } else if j + 1 == s.len() - 1 && s[j + 1] == ']' {
                Some(seq![item])
            } else {
                None
            }
        }
    }
}

/// The items denoted by a whole whitespace-free list text.
pub open spec fn urls_denoted(s: Seq<char>) -> Option<Seq<Seq<char>>> {
    if s.len() == 2 && s[0] == '[' && s[1] == ']' {
        Some(Seq::empty())
    } else if s.len() >= 2 && s[0] == '[' {
        parse_items_from(s, 1)
    } else {
        None
    }
}

/// The items denoted by a raw model reply: the whitespace-free inside of its
/// outermost bracket pair must be a well-formed list.
pub open spec fn urls_denoted_by(raw: Seq<char>) -> Option<Seq<Seq<char>>> {
    match extract_region(raw, '[', ']') {
        Some(region) => urls_denoted(squeeze(region)),
        None => None,
    }
}

fn parse_items_exec(v: &Vec<char>, i: usize) -> (r: Option<Vec<String>>)
    ensures
        match r {
            Some(items) => parse_items_from(v@, i as int) matches Some(m) && items@.len()
                == m.len() && (forall|k: int| 0 <= k < m.len() ==> #[trigger] items@[k]@ == m[k]),
            None => parse_items_from(v@, i as int) is None,
        },
    decreases v@.len() - i,
{
    if i >= v.len() || v[i] != '"' {
        return None;
    }
    match find_char(v, i + 1, '"') {
        None => None,
        Some(j) => {
            if j < i + 1 {
                return None;
            }
            let item_chars = subrange_chars(v, i + 1, j);
            let item = chars_to_string(&item_chars);
            let n = v.len();
            if j + 1 < n {
                if v[j + 1] == ',' {
                    match parse_items_exec(v, j + 2) {
                        Some(mut rest) => {
                            rest.insert(0, item);
                            proof {
                                let m = parse_items_from(v@, i as int)->Some_0;
                                assert(rest@.len() == m.len());
                                assert forall|k: int| 0 <= k < m.len() implies #[trigger] rest@[k]@
                                    == m[k] by {
                                    if k == 0 {
                                        assert(rest@[0]@ == v@.subrange(i + 1, j as int));
                                    }
                                }
                            }
                            Some(rest)
                        },
                        None => None,
                    }
                } else if j + 1 == n - 1 && v[j + 1] == ']' {
                    let mut items: Vec<String> = Vec::new();
                    items.push(item);
                    Some(items)
                } else {
                    None
                }
            } else {
                None
            }
        },
    }
}

/// Parse a raw model reply into the list of URL strings it denotes.
/// Succeeds exactly on the replies that denote a list; tolerates prose and
/// code fences around the outermost brackets and whitespace between tokens.
pub fn parse_urls_text(raw: &str) -> (r: Option<Vec<String>>)
    ensures
        match r {
            Some(items) => urls_denoted_by(raw@) matches Some(m) && items@.len() == m.len() && (
            forall|k: int| 0 <= k < m.len() ==> #[trigger] items@[k]@ == m[k]),
            None => urls_denoted_by(raw@) is None,
        },
{
    let chars = string_chars(raw);
    match extract_region_exec(&chars, '[', ']') {
        None => None,
        Some(reg) => {
            let norm = remove_ws(&reg);
            if norm.len() == 2 && norm[0] == '[' && norm[1] == ']' {
                Some(Vec::new())
            } else if norm.len() >= 2 && norm[0] == '[' {
                parse_items_exec(&norm, 1)
            } else {
                None
            }
        },
    }
}

} // verus!
