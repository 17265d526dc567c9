use humanlayer_wui::daemon_client::client::{Call, ClientStep, DaemonClient, FIRST_REQUEST_ID};
use humanlayer_wui::daemon_client::connection::{ConnectAttempt, Connection};
use humanlayer_wui::daemon_client::error::Error;
use humanlayer_wui::daemon_client::subscriptions::SubscriptionManager;
use humanlayer_wui::daemon_client::types::{
    ApprovalType, ArchiveSessionRequest, BulkArchiveSessionsRequest, ContinueSessionRequest,
    Decision, GetSessionLeavesRequest, InterruptSessionResponse, JsonRpcError, JsonRpcResponse,
    LaunchSessionRequest, SendDecisionResponse, UpdateSessionTitleResponse,
};
use serde_json::Value;

fn client() -> DaemonClient {
    match DaemonClient::connect_with_retries("/tmp/d.sock", 0, 0, ConnectAttempt::Connected) {
        ClientStep::Connected(client) => client,
        other => panic!("{:?}", other),
    }
}

fn envelope(result: Option<Value>, error: Option<JsonRpcError>) -> JsonRpcResponse {
    JsonRpcResponse { jsonrpc: "2.0".to_string(), result, error, id: Some(Value::from(1u64)) }
}

fn text(value: &str) -> Value {
    Value::String(value.to_string())
}

#[test]
fn a_connected_client_knows_its_socket() {
    assert_eq!(client().connection().socket_path(), "/tmp/d.sock");
    let connection = Connection::connect_to_socket("/x", ConnectAttempt::Connected).unwrap();
    assert_eq!(DaemonClient::new(connection).connection().socket_path(), "/x");
}

#[test]
fn connecting_a_client_follows_the_retry_budget() {
    let step = DaemonClient::connect_with_retries("/tmp/d.sock", 0, 2, ConnectAttempt::Missing);
    assert!(matches!(step, ClientStep::RetryAfter(500)));
    let step = DaemonClient::connect_with_retries("/tmp/d.sock", 2, 2, ConnectAttempt::Missing);
    match step {
        ClientStep::GiveUp(Error::Connection(why)) => assert!(why.contains("/tmp/d.sock")),
        other => panic!("{:?}", other),
    }
    let step = DaemonClient::connect_with_retries("/tmp/d.sock", 2, 2, ConnectAttempt::TimedOut);
    assert!(matches!(step, ClientStep::GiveUp(Error::Timeout)));
}

#[test]
fn request_ids_start_at_one_and_go_up() {
    assert_eq!(FIRST_REQUEST_ID, 1);
    let mut client = client();
    assert_eq!(client.next_request_id(), Some(1));
    assert_eq!(client.next_request_id(), Some(2));
    assert_eq!(client.next_request_id(), Some(3));
}

#[test]
fn no_request_id_is_used_twice() {
    let mut client = client();
    let mut seen = std::collections::HashSet::new();
    let mut last = 0u64;
    for _ in 0..1000 {
        let id = client.next_request_id().unwrap();
        assert!(seen.insert(id));
        assert!(id > last);
        last = id;
    }
    for _ in 0..100 {
        let request = client.send_rpc_request("health", None).unwrap();
        assert!(seen.insert(request.id));
        assert!(request.id > last);
        last = request.id;
    }
    let mut manager: SubscriptionManager<u8> = SubscriptionManager::new();
    let (id, request) = client.subscribe(&mut manager, 0, Ok(Value::Null)).unwrap();
    assert_eq!(id, request.id);
    assert!(id > last);
    assert!(client.next_request_id().unwrap() > id);
}

#[test]
fn envelopes_carry_version_method_parameters_and_id() {
    let mut client = client();
    let request = client.send_rpc_request("health", None).unwrap();
    assert_eq!(request.jsonrpc, "2.0");
    assert_eq!(request.method, "health");
    assert_eq!(request.params, None);
    assert_eq!(request.id, 1);
    let request = client.send_rpc_request("getSessionState", Some(text("p"))).unwrap();
    assert_eq!(request.jsonrpc, "2.0");
    assert_eq!(request.method, "getSessionState");
    assert_eq!(request.params, Some(text("p")));
    assert_eq!(request.id, 2);
}

#[test]
fn an_answer_with_a_result_is_the_result() {
    let outcome = DaemonClient::interpret_response(Ok(envelope(Some(text("fine")), None)));
    assert_eq!(outcome.unwrap(), text("fine"));
    let outcome = DaemonClient::interpret_response(Ok(envelope(Some(Value::Null), None)));
    assert_eq!(outcome.unwrap(), Value::Null);
}

#[test]
fn an_answer_with_an_error_is_the_error() {
    let error = JsonRpcError { code: -32601, message: "Method not found".to_string(), data: None };
    let outcome = DaemonClient::interpret_response(Ok(envelope(None, Some(error))));
    match outcome {
        Err(Error::Rpc { code, message }) => {
            assert_eq!(code, -32601);
            assert_eq!(message, "Method not found");
        },
        other => panic!("{:?}", other),
    }
}

#[test]
fn an_error_goes_before_a_result() {
    let error = JsonRpcError { code: 7, message: "no".to_string(), data: Some(text("d")) };
    let outcome = DaemonClient::interpret_response(Ok(envelope(Some(text("fine")), Some(error))));
    assert!(matches!(outcome, Err(Error::Rpc { code: 7, .. })));
}

#[test]
fn an_answer_with_neither_breaks_the_protocol() {
    let outcome = DaemonClient::interpret_response(Ok(envelope(None, None)));
    match outcome {
        Err(Error::Protocol(why)) => assert_eq!(why, "No result in response"),
        other => panic!("{:?}", other),
    }
    let outcome = DaemonClient::interpret_response(Ok(envelope(None, None)));
    assert_eq!(outcome.unwrap_err().message(), "Protocol error: No result in response");
}

#[test]
fn an_answer_that_is_no_envelope_breaks_the_protocol_too() {
    let outcome = DaemonClient::interpret_response(Err("expected value at line 1".to_string()));
    match outcome {
        Err(Error::Protocol(why)) => assert_eq!(why, "Malformed response: expected value at line 1"),
        other => panic!("{:?}", other),
    }
}

#[test]
fn a_result_of_another_shape_is_a_decode_error() {
    let outcome = DaemonClient::decode_result::<u32>(Ok(5));
    assert_eq!(outcome.unwrap(), 5);
    let outcome = DaemonClient::decode_result::<u32>(Err("missing field `status`".to_string()));
    match outcome {
        Err(Error::InvalidResponse(why)) => {
            assert_eq!(why, "Failed to parse result: missing field `status`")
        },
        other => panic!("{:?}", other),
    }
}

#[test]
fn calls_without_parameters_name_their_method() {
    let client = client();
    assert_eq!(client.health(), Call { method: "health".to_string(), params: None });
    assert_eq!(client.list_sessions(), Call { method: "listSessions".to_string(), params: None });
}

#[test]
fn calls_pass_their_request_on() {
    let client = client();
    let launch = LaunchSessionRequest {
        query: "q".to_string(),
        model: None,
        mcp_config: Some(Value::Bool(true)),
        permission_prompt_tool: None,
        working_dir: Some("/w".to_string()),
        max_turns: Some(3),
        system_prompt: None,
        append_system_prompt: None,
        allowed_tools: Some(vec!["a".to_string()]),
        disallowed_tools: None,
        custom_instructions: None,
        verbose: Some(false),
    };
    let call = client.launch_session(launch.clone());
    assert_eq!(call.method, "launchSession");
    assert_eq!(call.params, Some(launch));

    let leaves = GetSessionLeavesRequest { include_archived: Some(true), archived_only: None };
    let call = client.get_session_leaves(Some(leaves.clone()));
    assert_eq!(call.method, "getSessionLeaves");
    assert_eq!(call.params, Some(leaves));
    let call = client.get_session_leaves(None);
    assert_eq!(call.method, "getSessionLeaves");
    assert_eq!(call.params, None);

    let proceed = ContinueSessionRequest {
        session_id: "s".to_string(),
        query: "q".to_string(),
        system_prompt: None,
        append_system_prompt: None,
        mcp_config: None,
        permission_prompt_tool: None,
        allowed_tools: None,
        disallowed_tools: None,
        custom_instructions: None,
        max_turns: None,
    };
    let call = client.continue_session(proceed.clone());
    assert_eq!(call.method, "continueSession");
    assert_eq!(call.params, Some(proceed));

    let archive = ArchiveSessionRequest { session_id: "s".to_string(), archived: true };
    let call = client.archive_session(archive.clone());
    assert_eq!(call.method, "archiveSession");
    assert_eq!(call.params, Some(archive));

    let bulk = BulkArchiveSessionsRequest { session_ids: vec!["a".to_string()], archived: false };
    let call = client.bulk_archive_sessions(bulk.clone());
    assert_eq!(call.method, "bulkArchiveSessions");
    assert_eq!(call.params, Some(bulk));
}

#[test]
fn calls_about_a_session_carry_its_id() {
    let client = client();
    let call = client.get_session_state("s-1");
    assert_eq!(call.method, "getSessionState");
    assert_eq!(call.params.unwrap().session_id, "s-1");
    let call = client.interrupt_session("s-2");
    assert_eq!(call.method, "interruptSession");
    assert_eq!(call.params.unwrap().session_id, "s-2");
    let call = client.get_session_snapshots("s-3");
    assert_eq!(call.method, "getSessionSnapshots");
    assert_eq!(call.params.unwrap().session_id, "s-3");
    let call = client.update_session_settings("s-4", Some(true));
    assert_eq!(call.method, "updateSessionSettings");
    let params = call.params.unwrap();
    assert_eq!(params.session_id, "s-4");
    assert_eq!(params.auto_accept_edits, Some(true));
    let call = client.update_session_title("s-5", "a title");
    assert_eq!(call.method, "updateSessionTitle");
    let params = call.params.unwrap();
    assert_eq!(params.session_id, "s-5");
    assert_eq!(params.title, "a title");
}

#[test]
fn recent_paths_and_approvals_carry_their_filters() {
    let client = client();
    let call = client.get_recent_paths(Some(10));
    assert_eq!(call.method, "getRecentPaths");
    assert_eq!(call.params.unwrap().limit, Some(10));
    assert_eq!(client.get_recent_paths(None).params.unwrap().limit, None);
    let call = client.fetch_approvals(Some("s"));
    assert_eq!(call.method, "fetchApprovals");
    assert_eq!(call.params.unwrap().session_id, Some("s".to_string()));
    assert_eq!(client.fetch_approvals(None).params.unwrap().session_id, None);
}

#[test]
fn a_conversation_needs_one_of_its_two_ids() {
    let client = client();
    match client.get_conversation(None, None) {
        Err(Error::Validation(why)) => {
            assert_eq!(why, "Either session_id or claude_session_id is required")
        },
        other => panic!("{:?}", other),
    }
    let call = client.get_conversation(Some("s"), None).unwrap();
    assert_eq!(call.method, "getConversation");
    let params = call.params.unwrap();
    assert_eq!(params.session_id, Some("s".to_string()));
    assert_eq!(params.claude_session_id, None);
    let params = client.get_conversation(None, Some("c")).unwrap().params.unwrap();
    assert_eq!(params.session_id, None);
    assert_eq!(params.claude_session_id, Some("c".to_string()));
    let params = client.get_conversation(Some("s"), Some("c")).unwrap().params.unwrap();
    assert_eq!(params.session_id, Some("s".to_string()));
    assert_eq!(params.claude_session_id, Some("c".to_string()));
}

#[test]
fn decisions_have_their_wire_names() {
    assert_eq!(Decision::Approve.as_str(), "approve");
    assert_eq!(Decision::Deny.as_str(), "deny");
    assert_eq!(Decision::Respond.as_str(), "respond");
    assert_eq!(ApprovalType::FunctionCall.as_str(), "function_call");
    assert_eq!(ApprovalType::HumanContact.as_str(), "human_contact");
}

#[test]
fn function_calls_are_approved_or_denied() {
    let client = client();
    for decision in [Decision::Approve, Decision::Deny] {
        let call = client
            .send_decision("a-1", ApprovalType::FunctionCall, decision, Some("because"))
            .unwrap();
        assert_eq!(call.method, "sendDecision");
        let params = call.params.unwrap();
        assert_eq!(params.approval_id, "a-1");
        assert_eq!(params.decision, decision.as_str());
        assert_eq!(params.comment, Some("because".to_string()));
    }
}

#[test]
fn human_contacts_are_responded_to() {
    let client = client();
    let call = client.send_decision("a-2", ApprovalType::HumanContact, Decision::Respond, None).unwrap();
    let params = call.params.unwrap();
    assert_eq!(params.approval_id, "a-2");
    assert_eq!(params.decision, "respond");
    assert_eq!(params.comment, None);
}

#[test]
fn every_other_pairing_is_refused_before_anything_is_sent() {
    let client = client();
    let refused = [
        (ApprovalType::FunctionCall, Decision::Respond, "Invalid decision 'respond' for approval type 'function_call'"),
        (ApprovalType::HumanContact, Decision::Approve, "Invalid decision 'approve' for approval type 'human_contact'"),
        (ApprovalType::HumanContact, Decision::Deny, "Invalid decision 'deny' for approval type 'human_contact'"),
    ];
    for (approval_type, decision, words) in refused {
        match client.send_decision("a-3", approval_type, decision, None) {
            Err(Error::Validation(why)) => assert_eq!(why, words),
            other => panic!("{:?}", other),
        }
    }
}

#[test]
fn approving_and_denying_are_decisions_on_a_function_call() {
    let client = client();
    let call = client.approve_function_call("a-4", Some("ok"));
    assert_eq!(call.method, "sendDecision");
    let params = call.params.unwrap();
    assert_eq!(params.approval_id, "a-4");
    assert_eq!(params.decision, "approve");
    assert_eq!(params.comment, Some("ok".to_string()));
    assert_eq!(client.approve_function_call("a-4", None).params.unwrap().comment, None);
    let call = client.deny_function_call("a-5", "too risky");
    assert_eq!(call.method, "sendDecision");
    let params = call.params.unwrap();
    assert_eq!(params.approval_id, "a-5");
    assert_eq!(params.decision, "deny");
    assert_eq!(params.comment, Some("too risky".to_string()));
}

#[test]
fn a_decision_that_the_daemon_rejects_is_an_error() {
    let response = SendDecisionResponse { success: true, error: Some("ignored".to_string()) };
    assert!(DaemonClient::decision_outcome(response).is_ok());
    let response = SendDecisionResponse { success: false, error: Some("already decided".to_string()) };
    match DaemonClient::decision_outcome(response) {
        Err(Error::Approval(why)) => assert_eq!(why, "already decided"),
        other => panic!("{:?}", other),
    }
    let response = SendDecisionResponse { success: false, error: None };
    match DaemonClient::decision_outcome(response) {
        Err(Error::Approval(why)) => assert_eq!(why, "Unknown error"),
        other => panic!("{:?}", other),
    }
}

#[test]
fn an_interruption_that_fails_names_the_session() {
    let done = InterruptSessionResponse {
        success: true,
        session_id: "s-1".to_string(),
        status: "interrupted".to_string(),
    };
    assert!(DaemonClient::interrupt_outcome("s-1", &done).is_ok());
    let failed = InterruptSessionResponse { success: false, ..done };
    match DaemonClient::interrupt_outcome("s-1", &failed) {
        Err(Error::Session(why)) => assert_eq!(why, "Failed to interrupt session s-1"),
        other => panic!("{:?}", other),
    }
}

#[test]
fn a_title_that_is_not_taken_names_the_session() {
    assert!(DaemonClient::title_outcome("s-1", &UpdateSessionTitleResponse { success: true }).is_ok());
    match DaemonClient::title_outcome("s-1", &UpdateSessionTitleResponse { success: false }) {
        Err(Error::Session(why)) => assert_eq!(why, "Failed to update title for session s-1"),
        other => panic!("{:?}", other),
    }
}

#[test]
fn subscribing_takes_an_id_and_registers_the_handle() {
    let mut client = client();
    let mut manager: SubscriptionManager<&'static str> = SubscriptionManager::new();
    client.next_request_id();
    let (id, request) = client.subscribe(&mut manager, "first", Ok(text("params"))).unwrap();
    assert_eq!(id, 2);
    assert_eq!(request.jsonrpc, "2.0");
    assert_eq!(request.method, "Subscribe");
    assert_eq!(request.params, Some(text("params")));
    assert_eq!(request.id, 2);
    assert!(manager.is_active(2));
    assert_eq!(manager.len(), 1);
    let (id, _) = client.subscribe(&mut manager, "second", Ok(Value::Null)).unwrap();
    assert_eq!(id, 3);
    assert_eq!(manager.len(), 2);
    assert_eq!(client.next_request_id(), Some(4));
}

#[test]
fn a_subscription_without_a_request_is_not_registered() {
    let mut client = client();
    let mut manager: SubscriptionManager<&'static str> = SubscriptionManager::new();
    let failed = client.subscribe(&mut manager, "handle", Err("key must be a string".to_string()));
    match failed {
        Err(Error::Serialization(why)) => assert_eq!(why, "key must be a string"),
        other => panic!("{:?}", other),
    }
    assert_eq!(manager.len(), 0);
    assert_eq!(client.next_request_id(), Some(2));
}

#[test]
fn unsubscribing_hands_the_handle_back_once() {
    let mut client = client();
    let mut manager: SubscriptionManager<&'static str> = SubscriptionManager::new();
    let (id, _) = client.subscribe(&mut manager, "handle", Ok(Value::Null)).unwrap();
    assert_eq!(client.unsubscribe(&mut manager, id), Some("handle"));
    assert!(!manager.is_active(id));
    assert_eq!(client.unsubscribe(&mut manager, id), None);
    assert_eq!(client.unsubscribe(&mut manager, 999), None);
    assert_eq!(manager.len(), 0);
}

#[test]
fn a_copied_envelope_holds_the_same_values() {
    let mut client = client();
    let params = serde_json::from_str::<Value>("{\"a\":[1,2,{\"b\":null}],\"c\":\"d\"}").unwrap();
    let request = client.send_rpc_request("launchSession", Some(params.clone())).unwrap();
    let copy = request.clone();
    assert_eq!(copy, request);
    assert_eq!(copy.params, Some(params));
}
