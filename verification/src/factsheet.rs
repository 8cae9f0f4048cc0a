//! The shared task context: a single record handed by mutable reference to
//! one agent at a time. Later agents read fields earlier agents populated;
//! a field already set may be replaced wholesale, never merged.

use vstd::prelude::*;

verus! {

/// The shape a scoping agent decodes from a model reply: exactly these three
/// boolean fields; a reply missing one, or carrying any other field, is
/// malformed.
#[derive(Clone, Copy, Debug, PartialEq, Eq, Structural)]
pub struct ProjectScope {
    pub is_crud_required: bool,
    pub is_user_login_and_logout: bool,
    pub is_external_urls_required: bool,
}

/// The single shared context of a task run.
#[derive(Clone, Debug)]
pub struct FactSheet {
    pub project_description: String,
    pub project_scope: Option<ProjectScope>,
    pub external_urls: Option<Vec<String>>,
    pub backend_code: Option<String>,
    pub api_endpoint_schema: Option<String>,
}

} // verus!
