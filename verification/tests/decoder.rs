use auto_gippity::basic_agent::{AgentState, BasicAgent, Role};
use auto_gippity::decoder::{
    decode_project_scope, DecodeError, ModelCollaborator, ModelError, RETRY_BOUND,
};
use auto_gippity::factsheet::ProjectScope;

struct ScriptedModel {
    replies: Vec<Result<String, ModelError>>,
    calls: usize,
}

impl ModelCollaborator for ScriptedModel {
    fn invoke_model(&mut self, _prompt: &String) -> Result<String, ModelError> {
        let r = if self.calls < self.replies.len() {
            self.replies[self.calls].clone()
        } else {
            self.replies[self.replies.len() - 1].clone()
        };
        self.calls += 1;
        r
    }
}

fn fresh_agent() -> BasicAgent {
    BasicAgent {
        objective: "scoping".to_string(),
        position: "Solution Architect".to_string(),
        state: AgentState::Discovery,
        memory: vec![],
    }
}

const GOOD_SCOPE: &str = "{\"is_crud_required\": true, \"is_user_login_and_logout\": false, \"is_external_urls_required\": true}";

#[test]
fn decode_success_first_attempt() {
    let mut model = ScriptedModel { replies: vec![Ok(GOOD_SCOPE.to_string())], calls: 0 };
    let mut agent = fresh_agent();
    let r = decode_project_scope(&mut model, &mut agent, "a forex site", "the scope schema");
    let ps = r.expect("well-formed first reply must decode");
    assert_eq!(
        ps,
        ProjectScope {
            is_crud_required: true,
            is_user_login_and_logout: false,
            is_external_urls_required: true,
        }
    );
    assert_eq!(model.calls, 1);
    assert_eq!(agent.memory.len(), 2);
    assert!(matches!(agent.memory[0].role, Role::User));
    assert_eq!(
        agent.memory[0].content,
        format!(
            "You are {}. {} Respond with a single parseable data object and nothing else. {}",
            "Solution Architect", "the scope schema", "a forex site"
        )
    );
    assert!(matches!(agent.memory[1].role, Role::Assistant));
    assert_eq!(agent.memory[1].content, GOOD_SCOPE);
}

#[test]
fn decode_retry_once_then_succeed() {
    let mut model = ScriptedModel {
        replies: vec![Ok("sorry, no idea".to_string()), Ok(GOOD_SCOPE.to_string())],
        calls: 0,
    };
    let mut agent = fresh_agent();
    let r = decode_project_scope(&mut model, &mut agent, "ctx", "schema");
    assert!(r.is_ok());
    assert_eq!(model.calls, 2);
    assert_eq!(agent.memory.len(), 4);
    assert!(matches!(agent.memory[0].role, Role::User));
    assert!(matches!(agent.memory[1].role, Role::Assistant));
    assert!(matches!(agent.memory[2].role, Role::User));
    assert!(matches!(agent.memory[3].role, Role::Assistant));
    assert_eq!(agent.memory[0].content, agent.memory[2].content);
}

#[test]
fn decode_exhaustion_is_malformed() {
    let mut model =
        ScriptedModel { replies: vec![Ok("still not a data object".to_string())], calls: 0 };
    let mut agent = fresh_agent();
    let r = decode_project_scope(&mut model, &mut agent, "ctx", "schema");
    match r {
        Err(DecodeError::Malformed(raw)) => assert_eq!(raw, "still not a data object"),
        _ => panic!("exhaustion must report the last malformed reply"),
    }
    assert_eq!(model.calls, 1 + RETRY_BOUND);
    assert_eq!(agent.memory.len(), 2 * (1 + RETRY_BOUND));
}

#[test]
fn decode_transport_failure_is_fatal() {
    let mut model = ScriptedModel { replies: vec![Err(ModelError::Auth)], calls: 0 };
    let mut agent = fresh_agent();
    let r = decode_project_scope(&mut model, &mut agent, "ctx", "schema");
    assert!(matches!(r, Err(DecodeError::Model(ModelError::Auth))));
    assert_eq!(model.calls, 1);
    assert_eq!(agent.memory.len(), 0);
}
