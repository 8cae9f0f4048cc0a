//! The URL validation stage: probe every produced URL for liveness, in list
//! order, and drop exactly those that answered with an explicit non-200
//! status. A transport-level probe failure (timeout, DNS, connection
//! refused) is deliberately asymmetric: it is reported but the URL stays.

use vstd::prelude::*;

verus! {

/// How many seconds a single liveness probe may take.
pub const PROBE_TIMEOUT_SECS: u64 = 5;

/// A transport-level failure of a liveness probe.
#[derive(Clone, Copy, Debug, PartialEq, Eq, Structural)]
pub enum ProbeError {
    Timeout,
    Dns,
    ConnectionRefused,
}

/// The liveness probe collaborator: one bounded status check of one URL.
/// The transport is the implementer's business; nothing is assumed of the
/// outcome.
pub trait UrlProbe {
    fn probe_url(&mut self, url: &String, timeout_secs: u64) -> Result<u16, ProbeError>;
}

/// Whether one probe outcome excludes its URL: only an explicit non-200
/// status does; a transport error leaves the URL untouched.
pub fn should_exclude(outcome: &Result<u16, ProbeError>) -> (r: bool)
    ensures
        r == ((*outcome) matches Ok(s) && s != 200),
{
    match outcome {
        Result::Ok(s) => *s != 200,
        Result::Err(_) => false,
    }
}

/// The views of a list of strings.
pub open spec fn views_of(urls: Seq<String>) -> Seq<Seq<char>> {
    urls.map_values(|u: String| u@)
}

/// The elements of `urls` whose verdict is `true`, in order.
pub open spec fn kept_seq(urls: Seq<Seq<char>>, keep: Seq<bool>) -> Seq<Seq<char>>
    decreases urls.len(),
{
    if urls.len() == 0 || urls.len() != keep.len() {
        Seq::empty()
    } else {
        let rest = kept_seq(urls.drop_last(), keep.drop_last());
        if keep.last() {
            rest.push(urls.last())
        } else {
            rest
        }
    }
}

/// Keep exactly the URLs whose verdict is `true`, preserving order.
pub fn filter_by_verdicts(urls: &Vec<String>, keep: &Vec<bool>) -> (r: Vec<String>)
    requires
        urls@.len() == keep@.len(),
    ensures
        views_of(r@) == kept_seq(views_of(urls@), keep@),
{
    let n = urls.len();
    let mut r: Vec<String> = Vec::new();
    let mut i: usize = 0;
    while i < n
        invariant
            n == urls@.len() && n == keep@.len(),
            i <= n,
            views_of(r@) == kept_seq(views_of(urls@.take(i as int)), keep@.take(i as int)),
        decreases n - i,
    {
        proof {
            assert(views_of(urls@.take(i + 1)).drop_last() =~= views_of(urls@.take(i as int)));
            assert(keep@.take(i + 1).drop_last() =~= keep@.take(i as int));
            assert(views_of(urls@.take(i + 1)).last() == urls@[i as int]@);
        }
        if keep[i] {
            r.push(urls[i].clone());
            proof {
                assert(views_of(r@) =~= kept_seq(
                    views_of(urls@.take(i as int)),
                    keep@.take(i as int),
                ).push(urls@[i as int]@));
            }
        }
        i = i + 1;
    }
    proof {
        assert(views_of(urls@.take(n as int)) =~= views_of(urls@));
        assert(keep@.take(n as int) =~= keep@);
    }
    r
}

/// Probe every URL in order and record, per URL, whether it is kept.
pub fn probe_verdicts<P: UrlProbe>(probe: &mut P, urls: &Vec<String>) -> (r: Vec<bool>)
    ensures
        r@.len() == urls@.len(),
{
    let n = urls.len();
    let mut r: Vec<bool> = Vec::new();
    let mut i: usize = 0;
    while i < n
        invariant
            n == urls@.len(),
            i <= n,
            r@.len() == i,
        decreases n - i,
    {
        let outcome = probe.probe_url(&urls[i], PROBE_TIMEOUT_SECS);
        r.push(!should_exclude(&outcome));
        i = i + 1;
    }
    r
}

/// Run the whole stage: probe every URL of the list sequentially, in list
/// order, and return the list with exactly the explicitly-dead URLs
/// removed, in the original relative order.
pub fn run_validation_stage<P: UrlProbe>(probe: &mut P, urls: &Vec<String>) -> (r: Vec<String>)
    ensures
        exists|keep: Seq<bool>|
            keep.len() == urls@.len() && views_of(r@) == kept_seq(views_of(urls@), keep),
{
    let keep = probe_verdicts(probe, urls);
    let r = filter_by_verdicts(urls, &keep);
    proof {
        let k = keep@;
        assert(k.len() == urls@.len() && views_of(r@) == kept_seq(views_of(urls@), k));
    }
    r
}

/// Every element the stage keeps passed its verdict.
proof fn lemma_kept_seq_sat(urls: Seq<Seq<char>>, keep: Seq<bool>, p: spec_fn(Seq<char>) -> bool)
    requires
        keep.len() == urls.len(),
        forall|i: int| 0 <= i < urls.len() ==> keep[i] == p(#[trigger] urls[i]),
    ensures
        forall|j: int|
            0 <= j < kept_seq(urls, keep).len() ==> p(#[trigger] kept_seq(urls, keep)[j]),
    decreases urls.len(),
{
    if urls.len() > 0 {
        assert(forall|i: int|
            0 <= i < urls.len() - 1 ==> keep.drop_last()[i] == p(#[trigger] urls.drop_last()[i]));
        lemma_kept_seq_sat(urls.drop_last(), keep.drop_last(), p);
        let rest = kept_seq(urls.drop_last(), keep.drop_last());
        assert forall|j: int|
            0 <= j < kept_seq(urls, keep).len() implies p(#[trigger] kept_seq(urls, keep)[j]) by {
            if keep.last() {
                assert(kept_seq(urls, keep) == rest.push(urls.last()));
                if j < rest.len() {
                    assert(p(rest[j]));
                } else {
                    assert(keep[urls.len() - 1] == p(urls[urls.len() - 1]));
                }
            } else {
                assert(kept_seq(urls, keep) == rest);
                assert(p(rest[j]));
            }
        }
    }
}

/// Filtering with verdicts that are all `true` keeps the list unchanged.
proof fn lemma_kept_seq_all_true(urls: Seq<Seq<char>>, keep: Seq<bool>)
    requires
        keep.len() == urls.len(),
        forall|i: int| 0 <= i < keep.len() ==> #[trigger] keep[i],
    ensures
        kept_seq(urls, keep) == urls,
    decreases urls.len(),
{
    if urls.len() > 0 {
        lemma_kept_seq_all_true(urls.drop_last(), keep.drop_last());
        assert(kept_seq(urls, keep) =~= urls);
    } else {
        assert(kept_seq(urls, keep) =~= urls);
    }
}

/// Filtering is idempotent when the verdicts are a function of the URL
/// alone: running the stage a second time over its own output, with the
/// same per-URL rule, changes nothing.
pub proof fn lemma_filter_idempotent(
    urls: Seq<Seq<char>>,
    keep: Seq<bool>,
    keep2: Seq<bool>,
    p: spec_fn(Seq<char>) -> bool,
)
    requires
        keep.len() == urls.len(),
        forall|i: int| 0 <= i < urls.len() ==> keep[i] == p(#[trigger] urls[i]),
        keep2.len() == kept_seq(urls, keep).len(),
        forall|i: int|
            0 <= i < keep2.len() ==> keep2[i] == p(#[trigger] kept_seq(urls, keep)[i]),
    ensures
        kept_seq(kept_seq(urls, keep), keep2) == kept_seq(urls, keep),
{
    lemma_kept_seq_sat(urls, keep, p);
    assert forall|i: int| 0 <= i < keep2.len() implies #[trigger] keep2[i] by {
        assert(keep2[i] == p(kept_seq(urls, keep)[i]));
        assert(p(kept_seq(urls, keep)[i]));
    }
    lemma_kept_seq_all_true(kept_seq(urls, keep), keep2);
}

} // verus!
