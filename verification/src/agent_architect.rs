//! The solutions-architect agent: a state machine that, starting in
//! Discovery, decodes a `ProjectScope` from the project description, writes
//! it into the shared `FactSheet`, optionally decodes and then validates a
//! list of external URLs, and ends in Finished.

use vstd::prelude::*;

use crate::basic_agent::{AgentState, BasicAgent};
use crate::decoder::{
    decode_project_scope, decode_prompt, decode_url_list, identity_kept, scope_decode_post,
    urls_decode_post, DecodeError, ModelCollaborator,
};
use crate::factsheet::{FactSheet, ProjectScope};
use crate::validation::{filter_by_verdicts, kept_seq, probe_verdicts, views_of, UrlProbe};

verus! {

/// The schema description handed to the model for a `ProjectScope` reply.
pub open spec fn scope_schema_text() -> Seq<char> {
    "Output a data object with exactly these boolean fields: is_crud_required, is_user_login_and_logout, is_external_urls_required."@
}

/// Executable twin of `scope_schema_text`.
pub fn scope_schema() -> (r: &'static str)
    ensures
        r@ == scope_schema_text(),
{
    "Output a data object with exactly these boolean fields: is_crud_required, is_user_login_and_logout, is_external_urls_required."
}

/// The schema description handed to the model for a URL-list reply.
pub open spec fn urls_schema_text() -> Seq<char> {
    "Output a bracketed list of double-quoted site URLs relevant to the project."@
}

/// Executable twin of `urls_schema_text`.
pub fn urls_schema() -> (r: &'static str)
    ensures
        r@ == urls_schema_text(),
{
    "Output a bracketed list of double-quoted site URLs relevant to the project."
}

/// The prompt the Discovery stage sends to decode the project scope.
pub open spec fn discovery_scope_prompt(olda: BasicAgent, oldf: FactSheet) -> Seq<char> {
    decode_prompt(olda.position@, scope_schema_text(), oldf.project_description@)
}

/// The prompt the Discovery stage sends to decode the external URLs.
pub open spec fn discovery_urls_prompt(olda: BasicAgent, oldf: FactSheet) -> Seq<char> {
    decode_prompt(olda.position@, urls_schema_text(), oldf.project_description@)
}

/// How far a lifecycle state still is from Finished.
pub open spec fn state_rank(s: AgentState) -> int {
    match s {
        AgentState::Discovery => 3,
        AgentState::Working => 2,
        AgentState::UnitTesting => 1,
        AgentState::Finished => 0,
    }
}

/// The solutions-architect agent.
#[derive(Debug)]
pub struct AgentSolutionArchitect {
    pub attributes: BasicAgent,
}

impl AgentSolutionArchitect {
    /// A fresh agent: in Discovery, with an empty transcript.
    pub fn new() -> (r: Self)
        ensures
            r.attributes.state == AgentState::Discovery,
            r.attributes.memory@.len() == 0,
            r.attributes.objective@
                == "Gathers information and design solutions for website development"@,
            r.attributes.position@ == "Solution Architect"@,
    {
        let attributes = BasicAgent {
            objective: "Gathers information and design solutions for website development"
                .to_owned(),
            position: "Solution Architect".to_owned(),
            state: AgentState::Discovery,
            memory: Vec::new(),
        };
        Self { attributes }
    }

    /// The agent's identity and lifecycle state.
    pub fn get_attributes_from_agent(&self) -> (r: &BasicAgent)
        ensures
            *r == self.attributes,
    {
        &self.attributes
    }

    /// Decode a `ProjectScope` from the project description and commit it to
    /// the fact sheet; the agent moves to Finished on success. On failure
    /// nothing of the fact sheet changes.
    pub fn call_project_scope<M: ModelCollaborator>(
        &mut self,
        model: &mut M,
        factsheet: &mut FactSheet,
    ) -> (r: Result<ProjectScope, DecodeError>)
        ensures
            scope_decode_post(
                old(self).attributes,
                final(self).attributes,
                decode_prompt(
                    old(self).attributes.position@,
                    scope_schema_text(),
                    old(factsheet).project_description@,
                ),
                r,
            ),
            final(factsheet).project_description == old(factsheet).project_description,
            final(factsheet).external_urls == old(factsheet).external_urls,
            final(factsheet).backend_code == old(factsheet).backend_code,
            final(factsheet).api_endpoint_schema == old(factsheet).api_endpoint_schema,
            r matches Ok(ps) ==> final(factsheet).project_scope == Some(ps) && final(self).attributes.state == AgentState::Finished,
            r is Err ==> final(factsheet).project_scope == old(factsheet).project_scope && final(self).attributes.state == old(self).attributes.state,
    {
        let context = factsheet.project_description.clone();
        let r = decode_project_scope(model, &mut self.attributes, context.as_str(), scope_schema());
        match r {
            Result::Ok(scope) => {
                factsheet.project_scope = Some(scope);
                self.attributes.update_state(AgentState::Finished);
                Result::Ok(scope)
            },
            Result::Err(e) => Result::Err(e),
        }
    }

    /// Decode the candidate external URLs for the given context and commit
    /// exactly the decoded list to the fact sheet, replacing any previous
    /// value wholesale; the agent moves to UnitTesting on success. On
    /// failure nothing of the fact sheet changes.
    pub fn call_determine_external_urls<M: ModelCollaborator>(
        &mut self,
        model: &mut M,
        factsheet: &mut FactSheet,
        msg_context: String,
    ) -> (r: Result<(), DecodeError>)
        ensures
            final(factsheet).project_description == old(factsheet).project_description,
            final(factsheet).project_scope == old(factsheet).project_scope,
            final(factsheet).backend_code == old(factsheet).backend_code,
            final(factsheet).api_endpoint_schema == old(factsheet).api_endpoint_schema,
            r is Ok ==> (final(self).attributes.state == AgentState::UnitTesting && (final(factsheet).external_urls matches Some(urls) && urls_decode_post(
                old(self).attributes,
                final(self).attributes,
                decode_prompt(old(self).attributes.position@, urls_schema_text(), msg_context@),
                Result::Ok(urls),
            ))),
            r matches Err(e) ==> final(factsheet).external_urls == old(factsheet).external_urls
                && final(self).attributes.state == old(self).attributes.state && urls_decode_post(
                old(self).attributes,
                final(self).attributes,
                decode_prompt(old(self).attributes.position@, urls_schema_text(), msg_context@),
                Result::Err(e),
            ),
    {
        let r = decode_url_list(model, &mut self.attributes, msg_context.as_str(), urls_schema());
        match r {
            Result::Ok(urls) => {
                factsheet.external_urls = Some(urls);
                self.attributes.update_state(AgentState::UnitTesting);
                Result::Ok(())
            },
            Result::Err(e) => Result::Err(e),
        }
    }

    /// Drive the state machine until Finished: Discovery decodes and commits
    /// the scope (and, if the scope asks for external URLs, decodes the
    /// candidates and passes through UnitTesting, which probes each URL and
    /// drops exactly those with an explicit non-200 status); a Finished
    /// start is a no-op and any other state collapses to Finished touching
    /// nothing. A decode failure aborts the run; every field committed
    /// earlier in the same call stays committed (no rollback), and the
    /// appended transcript pins which decode failed and how.
    pub fn execute<M: ModelCollaborator, P: UrlProbe>(
        &mut self,
        model: &mut M,
        probe: &mut P,
        factsheet: &mut FactSheet,
    ) -> (r: Result<(), DecodeError>)
        requires
            old(self).attributes.state == AgentState::UnitTesting ==> old(factsheet).external_urls is Some,
        ensures
            final(factsheet).project_description == old(factsheet).project_description,
            final(factsheet).backend_code == old(factsheet).backend_code,
            final(factsheet).api_endpoint_schema == old(factsheet).api_endpoint_schema,
            identity_kept(old(self).attributes, final(self).attributes),
            old(self).attributes.memory@.is_prefix_of(final(self).attributes.memory@),
            r is Ok ==> final(self).attributes.state == AgentState::Finished,
            old(self).attributes.state != AgentState::Discovery ==> (r is Ok && final(factsheet).project_scope == old(factsheet).project_scope && final(self).attributes.memory@
                == old(self).attributes.memory@),
            old(self).attributes.state == AgentState::Finished ==> (final(self).attributes == old(self).attributes && *final(factsheet) == *old(factsheet)),
            old(self).attributes.state == AgentState::Working ==> final(factsheet).external_urls
                == old(factsheet).external_urls,
            old(self).attributes.state == AgentState::UnitTesting ==> (old(factsheet).external_urls matches Some(u1) && (final(factsheet).external_urls matches Some(u2)
                && (exists|keep: Seq<bool>|
                keep.len() == u1@.len() && views_of(u2@) == #[trigger] kept_seq(
                    views_of(u1@),
                    keep,
                )))),
            r is Ok && old(self).attributes.state == AgentState::Discovery ==> (final(factsheet).project_scope matches Some(ps) && (exists|a1: BasicAgent|
                {
                    &&& #[trigger] scope_decode_post(
                        old(self).attributes,
                        a1,
                        discovery_scope_prompt(old(self).attributes, *old(factsheet)),
                        Result::Ok(ps),
                    )
                    &&& a1.memory@.is_prefix_of(final(self).attributes.memory@)
                    &&& if ps.is_external_urls_required {
                        exists|urls: Vec<String>|
                            #[trigger] urls_decode_post(
                                a1,
                                final(self).attributes,
                                discovery_urls_prompt(old(self).attributes, *old(factsheet)),
                                Result::Ok(urls),
                            ) && (final(factsheet).external_urls matches Some(u2) && (exists|
                                keep: Seq<bool>,
                            |
                                keep.len() == urls@.len() && views_of(u2@) == #[trigger] kept_seq(
                                    views_of(urls@),
                                    keep,
                                )))
                    } else {
                        final(self).attributes.memory@ == a1.memory@ && final(factsheet).external_urls == old(factsheet).external_urls
                    }
                })),
            r matches Err(e) ==> (old(self).attributes.state == AgentState::Discovery && final(factsheet).external_urls == old(factsheet).external_urls && ((final(factsheet).project_scope
                == old(factsheet).project_scope && scope_decode_post(
                old(self).attributes,
                final(self).attributes,
                discovery_scope_prompt(old(self).attributes, *old(factsheet)),
                Result::Err(e),
            )) || (final(factsheet).project_scope matches Some(ps) && (
            ps.is_external_urls_required && (exists|a1: BasicAgent|
                #[trigger] scope_decode_post(
                    old(self).attributes,
                    a1,
                    discovery_scope_prompt(old(self).attributes, *old(factsheet)),
                    Result::Ok(ps),
                ) && urls_decode_post(
                    a1,
                    final(self).attributes,
                    discovery_urls_prompt(old(self).attributes, *old(factsheet)),
                    Result::Err(e),
                )))))),
    {
        let ghost mut ga1: BasicAgent = old(self).attributes;
        let ghost mut gurls: Vec<String> = vstd::pervasive::arbitrary();
        while self.attributes.state != AgentState::Finished
            invariant
                old(self).attributes.state == AgentState::UnitTesting ==> old(factsheet).external_urls is Some,
                self.attributes.state == AgentState::UnitTesting ==> factsheet.external_urls
                    is Some,
                factsheet.project_description == old(factsheet).project_description,
                factsheet.backend_code == old(factsheet).backend_code,
                factsheet.api_endpoint_schema == old(factsheet).api_endpoint_schema,
                identity_kept(old(self).attributes, self.attributes),
                old(self).attributes.memory@.is_prefix_of(self.attributes.memory@),
                old(self).attributes.state != AgentState::Discovery ==> self.attributes.state
                    == old(self).attributes.state || self.attributes.state == AgentState::Finished,
                old(self).attributes.state == AgentState::Discovery ==> self.attributes.state
                    != AgentState::Working,
                old(self).attributes.state != AgentState::Discovery ==> factsheet.project_scope
                    == old(factsheet).project_scope && self.attributes.memory@ == old(self).attributes.memory@,
                old(self).attributes.state == AgentState::Finished ==> self.attributes == old(self).attributes && *factsheet == *old(factsheet),
                old(self).attributes.state == AgentState::Working ==> factsheet.external_urls
                    == old(factsheet).external_urls,
                old(self).attributes.state == AgentState::UnitTesting && self.attributes.state
                    == AgentState::UnitTesting ==> factsheet.external_urls == old(factsheet).external_urls,
                old(self).attributes.state == AgentState::UnitTesting && self.attributes.state
                    == AgentState::Finished ==> (old(factsheet).external_urls matches Some(u1) && (
                factsheet.external_urls matches Some(u2) && (exists|keep: Seq<bool>|
                    keep.len() == u1@.len() && views_of(u2@) == #[trigger] kept_seq(
                        views_of(u1@),
                        keep,
                    )))),
                old(self).attributes.state == AgentState::Discovery && self.attributes.state
                    == AgentState::Discovery ==> self.attributes == old(self).attributes
                    && factsheet.project_scope == old(factsheet).project_scope
                    && factsheet.external_urls == old(factsheet).external_urls
                    && factsheet.project_description == old(factsheet).project_description,
                old(self).attributes.state == AgentState::Discovery && self.attributes.state
                    != AgentState::Discovery ==> (factsheet.project_scope matches Some(ps) && (
                scope_decode_post(
                    old(self).attributes,
                    ga1,
                    discovery_scope_prompt(old(self).attributes, *old(factsheet)),
                    Result::Ok(ps),
                ) && ga1.memory@.is_prefix_of(self.attributes.memory@))),
                old(self).attributes.state == AgentState::Discovery && self.attributes.state
                    == AgentState::UnitTesting ==> (
                factsheet.project_scope->Some_0.is_external_urls_required && (
                factsheet.external_urls matches Some(urls) && urls_decode_post(
                    ga1,
                    self.attributes,
                    discovery_urls_prompt(old(self).attributes, *old(factsheet)),
                    Result::Ok(urls),
                ))),
                old(self).attributes.state == AgentState::Discovery && self.attributes.state
                    == AgentState::Finished
                    && factsheet.project_scope->Some_0.is_external_urls_required ==> (
                urls_decode_post(
                    ga1,
                    self.attributes,
                    discovery_urls_prompt(old(self).attributes, *old(factsheet)),
                    Result::Ok(gurls),
                ) && (factsheet.external_urls matches Some(u2) && (exists|keep: Seq<bool>|
                    keep.len() == gurls@.len() && views_of(u2@) == #[trigger] kept_seq(
                        views_of(gurls@),
                        keep,
                    )))),
                old(self).attributes.state == AgentState::Discovery && self.attributes.state
                    == AgentState::Finished
                    && !factsheet.project_scope->Some_0.is_external_urls_required
                    ==> self.attributes.memory@ == ga1.memory@ && factsheet.external_urls == old(factsheet).external_urls,
            decreases state_rank(self.attributes.state),
        {
            match self.attributes.state {
                AgentState::Discovery => {
                    proof {
                        assert(self.attributes == old(self).attributes);
                    }
                    let scope = match self.call_project_scope(model, factsheet) {
                        Result::Ok(scope) => scope,
                        Result::Err(e) => {
                            proof {
                                assert(scope_decode_post(
                                    old(self).attributes,
                                    self.attributes,
                                    discovery_scope_prompt(old(self).attributes, *old(factsheet)),
                                    Result::<ProjectScope, DecodeError>::Err(e),
                                ));
                            }
                            return Result::Err(e);
                        },
                    };
                    proof {
                        ga1 = self.attributes;
                        assert(scope_decode_post(
                            old(self).attributes,
                            ga1,
                            discovery_scope_prompt(old(self).attributes, *old(factsheet)),
                            Result::<ProjectScope, DecodeError>::Ok(scope),
                        ));
                    }
                    if scope.is_external_urls_required {
                        let ctx = factsheet.project_description.clone();
                        let ghost gctx = ctx@;
                        match self.call_determine_external_urls(model, factsheet, ctx) {
                            Result::Ok(()) => {
                                proof {
                                    assert(gctx == old(factsheet).project_description@);
                                }
                            },
                            Result::Err(e) => {
                                proof {
                                    assert(urls_decode_post(
                                        ga1,
                                        self.attributes,
                                        discovery_urls_prompt(
                                            old(self).attributes,
                                            *old(factsheet),
                                        ),
                                        Result::<Vec<String>, DecodeError>::Err(e),
                                    ));
                                }
                                return Result::Err(e);
                            },
                        }
                    }
                },
                AgentState::UnitTesting => {
                    match &factsheet.external_urls {
                        Some(u1) => {
                            proof {
                                gurls = *u1;
                            }
                            let keep = probe_verdicts(probe, u1);
                            let filtered = filter_by_verdicts(u1, &keep);
                            proof {
                                let k = keep@;
                                assert(k.len() == views_of(gurls@).len() && views_of(filtered@)
                                    == kept_seq(views_of(gurls@), k));
                            }
                            factsheet.external_urls = Some(filtered);
                        },
                        None => {
                            proof {
                                assert(false);
                            }
                        },
                    }
                    self.attributes.update_state(AgentState::Finished);
                },
                _ => {
                    self.attributes.update_state(AgentState::Finished);
                },
            }
        }
        Result::Ok(())
    }
}

} // verus!
