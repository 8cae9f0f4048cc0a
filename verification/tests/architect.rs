use auto_gippity::agent_architect::AgentSolutionArchitect;
use auto_gippity::basic_agent::AgentState;
use auto_gippity::decoder::{ModelCollaborator, ModelError};
use auto_gippity::factsheet::FactSheet;
use auto_gippity::validation::{ProbeError, UrlProbe};

struct ScriptedModel {
    replies: Vec<String>,
    calls: usize,
}

impl ModelCollaborator for ScriptedModel {
    fn invoke_model(&mut self, _prompt: &String) -> Result<String, ModelError> {
        let r = if self.calls < self.replies.len() {
            self.replies[self.calls].clone()
        } else {
            self.replies[self.replies.len() - 1].clone()
        };
        self.calls += 1;
        Ok(r)
    }
}

struct AllLiveProbe {
    calls: usize,
}

impl UrlProbe for AllLiveProbe {
    fn probe_url(&mut self, _url: &String, _timeout_secs: u64) -> Result<u16, ProbeError> {
        self.calls += 1;
        Ok(200)
    }
}

struct FlakyProbe {
    calls: usize,
}

impl UrlProbe for FlakyProbe {
    fn probe_url(&mut self, url: &String, _timeout_secs: u64) -> Result<u16, ProbeError> {
        self.calls += 1;
        match url.as_str() {
            "https://dead.example" => Ok(404),
            "https://slow.example" => Err(ProbeError::Timeout),
            _ => Ok(200),
        }
    }
}

fn fresh_factsheet(description: &str) -> FactSheet {
    FactSheet {
        project_description: description.to_string(),
        project_scope: None,
        external_urls: None,
        backend_code: None,
        api_endpoint_schema: None,
    }
}

const SCOPE_NO_URLS: &str = "{\"is_crud_required\": true, \"is_user_login_and_logout\": true, \"is_external_urls_required\": false}";
const SCOPE_WITH_URLS: &str = "{\"is_crud_required\": true, \"is_user_login_and_logout\": true, \"is_external_urls_required\": true}";

#[test]
fn discovery_without_urls_finishes_after_one_decode() {
    let mut model = ScriptedModel { replies: vec![SCOPE_NO_URLS.to_string()], calls: 0 };
    let mut probe = AllLiveProbe { calls: 0 };
    let mut agent = AgentSolutionArchitect::new();
    let mut factsheet = fresh_factsheet("an internal tool");
    agent.execute(&mut model, &mut probe, &mut factsheet).expect("run must succeed");
    assert_eq!(model.calls, 1);
    assert_eq!(probe.calls, 0);
    assert!(matches!(agent.get_attributes_from_agent().state, AgentState::Finished));
    assert!(factsheet.project_scope.is_some());
    assert!(factsheet.external_urls.is_none());
}

#[test]
fn discovery_with_urls_passes_through_unit_testing() {
    let mut model = ScriptedModel {
        replies: vec![
            SCOPE_WITH_URLS.to_string(),
            "[\"https://live.example\", \"https://dead.example\", \"https://slow.example\"]"
                .to_string(),
        ],
        calls: 0,
    };
    let mut probe = FlakyProbe { calls: 0 };
    let mut agent = AgentSolutionArchitect::new();
    let mut factsheet = fresh_factsheet("a site aggregating forex rates");
    agent.execute(&mut model, &mut probe, &mut factsheet).expect("run must succeed");
    assert_eq!(model.calls, 2);
    assert_eq!(probe.calls, 3);
    assert!(matches!(agent.get_attributes_from_agent().state, AgentState::Finished));
    let scope = factsheet.project_scope.expect("scope committed");
    assert!(scope.is_external_urls_required);
    // the explicitly dead URL is dropped; the transport failure stays
    assert_eq!(
        factsheet.external_urls,
        Some(vec!["https://live.example".to_string(), "https://slow.example".to_string()])
    );
}

#[test]
fn decode_failure_aborts_and_leaves_factsheet_untouched() {
    let mut model = ScriptedModel { replies: vec!["no object here".to_string()], calls: 0 };
    let mut probe = AllLiveProbe { calls: 0 };
    let mut agent = AgentSolutionArchitect::new();
    let mut factsheet = fresh_factsheet("anything");
    let r = agent.execute(&mut model, &mut probe, &mut factsheet);
    assert!(r.is_err());
    assert!(factsheet.project_scope.is_none());
    assert!(factsheet.external_urls.is_none());
}

#[test]
fn second_decode_failure_keeps_committed_scope() {
    let mut model = ScriptedModel {
        replies: vec![
            SCOPE_WITH_URLS.to_string(),
            "not a list".to_string(),
            "still not a list".to_string(),
            "never a list".to_string(),
        ],
        calls: 0,
    };
    let mut probe = AllLiveProbe { calls: 0 };
    let mut agent = AgentSolutionArchitect::new();
    let mut factsheet = fresh_factsheet("anything");
    let r = agent.execute(&mut model, &mut probe, &mut factsheet);
    assert!(r.is_err());
    // the scope committed earlier in the same call stays
    assert!(factsheet.project_scope.is_some());
    assert!(factsheet.external_urls.is_none());
}

#[test]
fn tests_solution_architect() {
    let mut model = ScriptedModel {
        replies: vec![
            SCOPE_WITH_URLS.to_string(),
            "[\"https://rates.example\", \"https://news.example\"]".to_string(),
        ],
        calls: 0,
    };
    let mut probe = AllLiveProbe { calls: 0 };
    let mut agent = AgentSolutionArchitect::new();
    let mut factsheet = fresh_factsheet(
        "Build a full stack website with user login and logout that shows latest Forex prices",
    );
    agent
        .execute(&mut model, &mut probe, &mut factsheet)
        .expect("Unable to execute Solutions Architect Agent");
    assert!(factsheet.project_scope != None);
    assert!(factsheet.external_urls.is_some());
}
