//! The structured-response decoder: send one prompt to the model
//! collaborator, parse the free-text reply into a typed value, and retry a
//! bounded number of times on a malformed reply.
//!
//! Every attempt appends two messages to the invoking agent's transcript:
//! the outbound request and the raw reply. A transport failure of the
//! collaborator is treated as immediately fatal: it is propagated unchanged,
//! consumes no retry, and appends nothing for the failed exchange.

use vstd::prelude::*;

use crate::basic_agent::{BasicAgent, Message, Role};
use crate::factsheet::ProjectScope;
use crate::parse_scope::{parse_scope_text, scope_denoted_by};
use crate::parse_urls::{parse_urls_text, urls_denoted_by};
use vstd::string::StringExecFns;

verus! {

/// How many additional attempts the decoder makes after a malformed reply.
pub const RETRY_BOUND: usize = 2;

/// A transport-level failure of the model collaborator.
#[derive(Clone, Copy, Debug, PartialEq, Eq, Structural)]
pub enum ModelError {
    Network,
    Auth,
    Status(u16),
}

/// Why a decode call failed: every reply was malformed (carrying the last
/// raw text for diagnostics), or the transport itself failed.
#[derive(Clone, Debug)]
pub enum DecodeError {
    Malformed(String),
    Model(ModelError),
}

/// The model collaborator: one round-trip text completion call. Transport,
/// authentication and endpoint selection are the implementer's business and
/// are injected here; nothing is assumed of the reply text.
pub trait ModelCollaborator {
    fn invoke_model(&mut self, prompt: &String) -> Result<String, ModelError>;
}

/// The one prompt a decode call sends: the agent's role frames the
/// instruction, then the schema description, the formatting instruction,
/// and the task context.
pub open spec fn decode_prompt(role: Seq<char>, schema: Seq<char>, context: Seq<char>) -> Seq<
    char,
> {
    "You are "@ + role + ". "@ + schema
        + " Respond with a single parseable data object and nothing else. "@ + context
}

/// Build the prompt of `decode_prompt`.
pub fn build_decode_prompt(role: &str, schema: &str, context: &str) -> (r: String)
    ensures
        r@ == decode_prompt(role@, schema@, context@),
{
    let mut r = String::new();
    r.append("You are ");
    r.append(role);
    r.append(". ");
    r.append(schema);
    r.append(" Respond with a single parseable data object and nothing else. ");
    r.append(context);
    proof {
        assert(r@ =~= decode_prompt(role@, schema@, context@));
    }
    r
}

/// What a decode call appended to the transcript.
pub open spec fn appended(oldm: Seq<Message>, newm: Seq<Message>) -> Seq<Message> {
    newm.skip(oldm.len() as int)
}

/// A well-formed decode transcript: request/reply pairs, every request the
/// same prompt.
pub open spec fn transcript_wf(t: Seq<Message>, prompt: Seq<char>) -> bool {
    &&& t.len() % 2 == 0
    &&& forall|i: int|
        0 <= i < t.len() && i % 2 == 0 ==> (#[trigger] t[i]).role == Role::User && t[i].content@
            == prompt
    &&& forall|i: int| 0 <= i < t.len() && i % 2 == 1 ==> (#[trigger] t[i]).role == Role::Assistant
}

/// The raw text of the `k`-th reply of a decode transcript.
pub open spec fn reply_at(t: Seq<Message>, k: int) -> Seq<char> {
    t[2 * k + 1].content@
}

/// The agent's identity is never touched by a decode call.
pub open spec fn identity_kept(olda: BasicAgent, newa: BasicAgent) -> bool {
    &&& newa.objective == olda.objective
    &&& newa.position == olda.position
}

/// Everything a scope decode promises of the agent and the result: the
/// transcript grew by one request/reply pair per attempt, within the retry
/// budget; on success the last reply denotes the returned scope and every
/// earlier reply denotes none; on exhaustion every reply denotes none and
/// the diagnostic carries the last raw text; on a transport failure the
/// completed attempts all had undecodable replies.
pub open spec fn scope_decode_post(
    olda: BasicAgent,
    newa: BasicAgent,
    prompt: Seq<char>,
    r: Result<ProjectScope, DecodeError>,
) -> bool {
    let t = appended(olda.memory@, newa.memory@);
    &&& identity_kept(olda, newa)
    &&& olda.memory@.is_prefix_of(newa.memory@)
    &&& transcript_wf(t, prompt)
    &&& t.len() <= 2 * (1 + RETRY_BOUND as int)
    &&& match r {
        Result::Ok(ps) => {
            &&& t.len() >= 2
            &&& scope_denoted_by(reply_at(t, t.len() / 2 - 1), ps)
            &&& forall|k: int, ps2: ProjectScope|
                0 <= k < t.len() / 2 - 1 ==> !scope_denoted_by(reply_at(t, k), ps2)
        },
        Result::Err(DecodeError::Malformed(raw)) => {
            &&& t.len() == 2 * (1 + RETRY_BOUND as int)
            &&& raw@ == reply_at(t, RETRY_BOUND as int)
            &&& forall|k: int, ps2: ProjectScope|
                0 <= k <= RETRY_BOUND as int ==> !scope_denoted_by(reply_at(t, k), ps2)
        },
        Result::Err(DecodeError::Model(_)) => {
            &&& t.len() <= 2 * (RETRY_BOUND as int)
            &&& forall|k: int, ps2: ProjectScope|
                0 <= k < t.len() / 2 ==> !scope_denoted_by(reply_at(t, k), ps2)
        },
    }
}

/// The same, for a URL-list decode: on success the last reply denotes a
/// list and the returned strings are exactly its items, in order.
pub open spec fn urls_decode_post(
    olda: BasicAgent,
    newa: BasicAgent,
    prompt: Seq<char>,
    r: Result<Vec<String>, DecodeError>,
) -> bool {
    let t = appended(olda.memory@, newa.memory@);
    &&& identity_kept(olda, newa)
    &&& olda.memory@.is_prefix_of(newa.memory@)
    &&& transcript_wf(t, prompt)
    &&& t.len() <= 2 * (1 + RETRY_BOUND as int)
    &&& match r {
        Result::Ok(urls) => {
            &&& t.len() >= 2
            &&& urls_denoted_by(reply_at(t, t.len() / 2 - 1)) matches Some(m) && urls@.len()
                == m.len() && (forall|k: int| 0 <= k < m.len() ==> #[trigger] urls@[k]@ == m[k])
            &&& forall|k: int| 0 <= k < t.len() / 2 - 1 ==> urls_denoted_by(reply_at(t, k)) is None
        },
        Result::Err(DecodeError::Malformed(raw)) => {
            &&& t.len() == 2 * (1 + RETRY_BOUND as int)
            &&& raw@ == reply_at(t, RETRY_BOUND as int)
            &&& forall|k: int|
                0 <= k <= RETRY_BOUND as int ==> urls_denoted_by(reply_at(t, k)) is None
        },
        Result::Err(DecodeError::Model(_)) => {
            &&& t.len() <= 2 * (RETRY_BOUND as int)
            &&& forall|k: int| 0 <= k < t.len() / 2 ==> urls_denoted_by(reply_at(t, k)) is None
        },
    }
}

/// Obtain a `ProjectScope` from the model collaborator: build one prompt
/// from the agent's role, the schema description and the context, send it,
/// parse the reply, and retry the same prompt up to `RETRY_BOUND` more
/// times on a malformed reply.
pub fn decode_project_scope<M: ModelCollaborator>(
    model: &mut M,
    agent: &mut BasicAgent,
    context: &str,
    schema_description: &str,
) -> (r: Result<ProjectScope, DecodeError>)
    ensures
        final(agent).state == old(agent).state,
        scope_decode_post(
            *old(agent),
            *final(agent),
            decode_prompt(old(agent).position@, schema_description@, context@),
            r,
        ),
{
    let prompt = build_decode_prompt(agent.position.as_str(), schema_description, context);
    let mut attempt: usize = 0;
    loop
        invariant
            attempt <= RETRY_BOUND,
            prompt@ == decode_prompt(old(agent).position@, schema_description@, context@),
            identity_kept(*old(agent), *agent),
            agent.state == old(agent).state,
            old(agent).memory@.is_prefix_of(agent.memory@),
            transcript_wf(appended(old(agent).memory@, agent.memory@), prompt@),
            appended(old(agent).memory@, agent.memory@).len() == 2 * attempt,
            forall|k: int, ps2: ProjectScope|
                0 <= k < attempt ==> !scope_denoted_by(
                    reply_at(appended(old(agent).memory@, agent.memory@), k),
                    ps2,
                ),
        decreases RETRY_BOUND - attempt,
    {
        let raw = match model.invoke_model(&prompt) {
            Result::Ok(raw) => raw,
            Result::Err(e) => {
                return Result::Err(DecodeError::Model(e));
            },
        };
        let ghost t0 = appended(old(agent).memory@, agent.memory@);
        agent.memory.push(Message { role: Role::User, content: prompt.clone() });
        agent.memory.push(Message { role: Role::Assistant, content: raw.clone() });
        let ghost t = appended(old(agent).memory@, agent.memory@);
        proof {
            assert(t =~= t0.push(Message { role: Role::User, content: prompt })
                .push(Message { role: Role::Assistant, content: raw }));
            assert(forall|k: int| 0 <= k < attempt ==> reply_at(t, k) == reply_at(t0, k));
            assert(reply_at(t, attempt as int) == raw@);
        }
        match parse_scope_text(raw.as_str()) {
            Some(ps) => {
                return Result::Ok(ps);
            },
            None => {
                if attempt == RETRY_BOUND {
                    return Result::Err(DecodeError::Malformed(raw));
                }
                attempt = attempt + 1;
            },
        }
    }
}

/// Obtain an ordered list of URL strings from the model collaborator, with
/// the same prompt construction and retry policy as the scope decode.
pub fn decode_url_list<M: ModelCollaborator>(
    model: &mut M,
    agent: &mut BasicAgent,
    context: &str,
    schema_description: &str,
) -> (r: Result<Vec<String>, DecodeError>)
    ensures
        final(agent).state == old(agent).state,
        urls_decode_post(
            *old(agent),
            *final(agent),
            decode_prompt(old(agent).position@, schema_description@, context@),
            r,
        ),
{
    let prompt = build_decode_prompt(agent.position.as_str(), schema_description, context);
    let mut attempt: usize = 0;
    loop
        invariant
            attempt <= RETRY_BOUND,
            prompt@ == decode_prompt(old(agent).position@, schema_description@, context@),
            identity_kept(*old(agent), *agent),
            agent.state == old(agent).state,
            old(agent).memory@.is_prefix_of(agent.memory@),
            transcript_wf(appended(old(agent).memory@, agent.memory@), prompt@),
            appended(old(agent).memory@, agent.memory@).len() == 2 * attempt,
            forall|k: int|
                0 <= k < attempt ==> urls_denoted_by(
                    reply_at(appended(old(agent).memory@, agent.memory@), k),
                ) is None,
        decreases RETRY_BOUND - attempt,
    {
        let raw = match model.invoke_model(&prompt) {
            Result::Ok(raw) => raw,
            Result::Err(e) => {
                return Result::Err(DecodeError::Model(e));
            },
        };
        let ghost t0 = appended(old(agent).memory@, agent.memory@);
        agent.memory.push(Message { role: Role::User, content: prompt.clone() });
        agent.memory.push(Message { role: Role::Assistant, content: raw.clone() });
        let ghost t = appended(old(agent).memory@, agent.memory@);
        proof {
            assert(t =~= t0.push(Message { role: Role::User, content: prompt })
                .push(Message { role: Role::Assistant, content: raw }));
            assert(forall|k: int| 0 <= k < attempt ==> reply_at(t, k) == reply_at(t0, k));
            assert(reply_at(t, attempt as int) == raw@);
        }
        match parse_urls_text(raw.as_str()) {
            Some(urls) => {
                return Result::Ok(urls);
            },
            None => {
                if attempt == RETRY_BOUND {
                    return Result::Err(DecodeError::Malformed(raw));
                }
                attempt = attempt + 1;
            },
        }
    }
}

} // verus!
