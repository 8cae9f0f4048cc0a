//! Parsing a free-text model reply into a `ProjectScope`.
//!
//! The accepted language is defined declaratively: after cutting the region
//! between the outermost braces out of the raw reply and dropping all
//! whitespace, the text must be exactly the object rendering of a scope —
//! the three known fields, each once, in any order, each bound to `true` or
//! `false`. The parser is proved sound and complete against that definition.

use vstd::prelude::*;

use crate::factsheet::ProjectScope;
use crate::text::{
    extract_region, extract_region_exec, push_str_chars, remove_ws, squeeze, string_chars,
    vec_chars_eq,
};

verus! {

/// The characters of a boolean literal.
pub open spec fn bool_chars(v: bool) -> Seq<char> {
    if v {
        "true"@
    } else {
        "false"@
    }
}

/// The characters of one rendered field: `"name":value`.
pub open spec fn render_field(name: Seq<char>, v: bool) -> Seq<char> {
    seq!['"'] + name + seq!['"', ':'] + bool_chars(v)
}

/// The characters of a whole rendered object with three fields in the given
/// order: `{"n1":v1,"n2":v2,"n3":v3}`.
pub open spec fn render_scope3(
    n1: Seq<char>,
    v1: bool,
    n2: Seq<char>,
    v2: bool,
    n3: Seq<char>,
    v3: bool,
) -> Seq<char> {
    seq!['{'] + render_field(n1, v1) + seq![','] + render_field(n2, v2) + seq![','] + render_field(
        n3,
        v3,
    ) + seq!['}']
}

pub open spec fn crud_name() -> Seq<char> {
    "is_crud_required"@
}

pub open spec fn login_name() -> Seq<char> {
    "is_user_login_and_logout"@
}

pub open spec fn urls_name() -> Seq<char> {
    "is_external_urls_required"@
}

/// Whether the whitespace-free text `s` is exactly the rendering of `ps`,
/// with the three fields in some order.
pub open spec fn denotes_scope(s: Seq<char>, ps: ProjectScope) -> bool {
    let c = ps.is_crud_required;
    let l = ps.is_user_login_and_logout;
    let u = ps.is_external_urls_required;
    ||| s == render_scope3(crud_name(), c, login_name(), l, urls_name(), u)
    ||| s == render_scope3(crud_name(), c, urls_name(), u, login_name(), l)
    ||| s == render_scope3(login_name(), l, crud_name(), c, urls_name(), u)
    ||| s == render_scope3(login_name(), l, urls_name(), u, crud_name(), c)
    ||| s == render_scope3(urls_name(), u, crud_name(), c, login_name(), l)
    ||| s == render_scope3(urls_name(), u, login_name(), l, crud_name(), c)
}

/// Whether the raw reply `raw` denotes the scope `ps`: it holds an outermost
/// brace pair whose whitespace-free inside renders `ps`.
pub open spec fn scope_denoted_by(raw: Seq<char>, ps: ProjectScope) -> bool {
    match extract_region(raw, '{', '}') {
        Some(region) => denotes_scope(squeeze(region), ps),
        None => false,
    }
}

/// Append the rendering of one field to `dst`.
fn push_field(dst: &mut Vec<char>, name: &str, v: bool)
    ensures
        final(dst)@ == old(dst)@ + render_field(name@, v),
{
    dst.push('"');
    push_str_chars(dst, name);
    dst.push('"');
    dst.push(':');
    if v {
        push_str_chars(dst, "true");
    } else {
        push_str_chars(dst, "false");
    }
    proof {
        assert(dst@ =~= old(dst)@ + render_field(name@, v));
    }
}

/// Build the rendering of a whole object with the given field order and
/// values.
fn build_candidate(n1: &str, v1: bool, n2: &str, v2: bool, n3: &str, v3: bool) -> (r: Vec<char>)
    ensures
        r@ == render_scope3(n1@, v1, n2@, v2, n3@, v3),
{
    let mut r: Vec<char> = Vec::new();
    r.push('{');
    push_field(&mut r, n1, v1);
    r.push(',');
    push_field(&mut r, n2, v2);
    r.push(',');
    push_field(&mut r, n3, v3);
    r.push('}');
    proof {
        assert(r@ =~= render_scope3(n1@, v1, n2@, v2, n3@, v3));
    }
    r
}

/// Match `norm` against the eight value assignments of one field order.
fn match_order(norm: &Vec<char>, n1: &str, n2: &str, n3: &str) -> (r: Option<(bool, bool, bool)>)
    ensures
        match r {
            Some(t) => norm@ == render_scope3(n1@, t.0, n2@, t.1, n3@, t.2),
            None => forall|v1: bool, v2: bool, v3: bool|
                norm@ != render_scope3(n1@, v1, n2@, v2, n3@, v3),
        },
{
    let c0 = build_candidate(n1, false, n2, false, n3, false);
    if vec_chars_eq(norm, &c0) {
        return Some((false, false, false));
    }
    let c1 = build_candidate(n1, false, n2, false, n3, true);
    if vec_chars_eq(norm, &c1) {
        return Some((false, false, true));
    }
    let c2 = build_candidate(n1, false, n2, true, n3, false);
    if vec_chars_eq(norm, &c2) {
        return Some((false, true, false));
    }
    let c3 = build_candidate(n1, false, n2, true, n3, true);
    if vec_chars_eq(norm, &c3) {
        return Some((false, true, true));
    }
    let c4 = build_candidate(n1, true, n2, false, n3, false);
    if vec_chars_eq(norm, &c4) {
        return Some((true, false, false));
    }
    let c5 = build_candidate(n1, true, n2, false, n3, true);
    if vec_chars_eq(norm, &c5) {
        return Some((true, false, true));
    }
    let c6 = build_candidate(n1, true, n2, true, n3, false);
    if vec_chars_eq(norm, &c6) {
        return Some((true, true, false));
    }
    let c7 = build_candidate(n1, true, n2, true, n3, true);
    if vec_chars_eq(norm, &c7) {
        return Some((true, true, true));
    }
    proof {
        assert forall|v1: bool, v2: bool, v3: bool|
            norm@ != render_scope3(n1@, v1, n2@, v2, n3@, v3) by {
            if v1 {
                if v2 {
                    if v3 {
                        assert(norm@ != c7@);
                    } else {
                        assert(norm@ != c6@);
                    }
                } else {
                    if v3 {
                        assert(norm@ != c5@);
                    } else {
                        assert(norm@ != c4@);
                    }
                }
            } else {
                if v2 {
                    if v3 {
                        assert(norm@ != c3@);
                    } else {
                        assert(norm@ != c2@);
                    }
                } else {
                    if v3 {
                        assert(norm@ != c1@);
                    } else {
                        assert(norm@ != c0@);
                    }
                }
            }
        }
    }
    None
}

/// Parse a raw model reply into a `ProjectScope`. Succeeds exactly on the
/// replies that denote a scope; tolerates prose and code fences around the
/// outermost braces and whitespace between tokens.
pub fn parse_scope_text(raw: &str) -> (r: Option<ProjectScope>)
    ensures
        match r {
            Some(ps) => scope_denoted_by(raw@, ps),
            None => forall|ps: ProjectScope| !scope_denoted_by(raw@, ps),
        },
{
    let chars = string_chars(raw);
    let region = extract_region_exec(&chars, '{', '}');
    match region {
        None => None,
        Some(reg) => {
            let norm = remove_ws(&reg);
            if let Some(t) = match_order(
                &norm,
                "is_crud_required",
                "is_user_login_and_logout",
                "is_external_urls_required",
            ) {
                return Some(
                    ProjectScope {
                        is_crud_required: t.0,
                        is_user_login_and_logout: t.1,
                        is_external_urls_required: t.2,
                    },
                );
            }
            if let Some(t) = match_order(
                &norm,
                "is_crud_required",
                "is_external_urls_required",
                "is_user_login_and_logout",
            ) {
                return Some(
                    ProjectScope {
                        is_crud_required: t.0,
                        is_user_login_and_logout: t.2,
                        is_external_urls_required: t.1,
                    },
                );
            }
            if let Some(t) = match_order(
                &norm,
                "is_user_login_and_logout",
                "is_crud_required",
                "is_external_urls_required",
            ) {
                return Some(
                    ProjectScope {
                        is_crud_required: t.1,
                        is_user_login_and_logout: t.0,
                        is_external_urls_required: t.2,
                    },
                );
            }
            if let Some(t) = match_order(
                &norm,
                "is_user_login_and_logout",
                "is_external_urls_required",
                "is_crud_required",
            ) {
                return Some(
                    ProjectScope {
                        is_crud_required: t.2,
                        is_user_login_and_logout: t.0,
                        is_external_urls_required: t.1,
                    },
                );
            }
            if let Some(t) = match_order(
                &norm,
                "is_external_urls_required",
                "is_crud_required",
                "is_user_login_and_logout",
            ) {
                return Some(
                    ProjectScope {
                        is_crud_required: t.1,
                        is_user_login_and_logout: t.2,
                        is_external_urls_required: t.0,
                    },
                );
            }
            if let Some(t) = match_order(
                &norm,
                "is_external_urls_required",
                "is_user_login_and_logout",
                "is_crud_required",
            ) {
                return Some(
                    ProjectScope {
                        is_crud_required: t.2,
                        is_user_login_and_logout: t.1,
                        is_external_urls_required: t.0,
                    },
                );
            }
            None
        },
    }
}

} // verus!
