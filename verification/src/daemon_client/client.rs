//! Typed calls on top of a connection: how a request is built and numbered,
//! what is checked before it is sent, and what its answer comes to.

use crate::daemon_client::connection::{ConnectAttempt, Connection, RetryStep, RETRY_DELAY_MS};
use crate::daemon_client::error::Error;
use crate::daemon_client::subscriptions::SubscriptionManager;
use crate::daemon_client::types::{
    ApprovalType, ArchiveSessionRequest, BulkArchiveSessionsRequest, ContinueSessionRequest,
    Decision, FetchApprovalsRequest, GetConversationRequest, GetRecentPathsRequest,
    GetSessionLeavesRequest, GetSessionSnapshotsRequest, GetSessionStateRequest,
    InterruptSessionRequest, InterruptSessionResponse, JsonRpcRequest, JsonRpcResponse,
    LaunchSessionRequest, SendDecisionRequest, SendDecisionResponse, UpdateSessionSettingsRequest,
    UpdateSessionTitleRequest, UpdateSessionTitleResponse, JSONRPC_VERSION,
};
use crate::text::{concat2, concat3};
use serde_json::Value;
use vstd::prelude::*;

verus! {

/// The id of a client's first request.
pub const FIRST_REQUEST_ID: u64 = 1;

/// A call that is ready to be sent: the method, and its parameters if it
/// takes any.
#[derive(Debug, Clone, PartialEq)]
pub struct Call<P> {
    pub method: String,
    pub params: Option<P>,
}

/// What follows an attempt to connect a client, when attempts may be
/// repeated.
#[derive(Debug)]
pub enum ClientStep {
    /// The client is connected.
    Connected(DaemonClient),
    /// Pause for this many milliseconds, then try again.
    RetryAfter(u64),
    /// Give up with the error of this attempt, which was the last.
    GiveUp(Error),
}

/// The id that follows `id`: the next number, and none after the largest
/// one, so that no id ever comes a second time.
pub open spec fn following_id(id: u64) -> Option<u64> {
    if id == u64::MAX {
        None
    } else {
        Some((id + 1) as u64)
    }
}

/// The id of the request that a client makes after `count` others, when the
/// first of them got the id `first`; none once the ids are used up.
pub open spec fn nth_id(first: u64, count: nat) -> Option<u64>
    decreases count,
{
    if count == 0 {
        Some(first)
    } else {
        match nth_id(first, (count - 1) as nat) {
            Some(id) => following_id(id),
            None => None,
        }
    }
}

/// The counter after an id was asked for: past the id that was handed out,
/// and used up where none was left.
pub open spec fn counter_after(next_id: Option<u64>) -> Option<u64> {
    match next_id {
        Some(id) => following_id(id),
        None => None,
    }
}

/// Whether a decision is a legal one for an approval of a kind: leave to
/// call a function is approved or denied, and a human is asked for a
/// response.
pub open spec fn decision_is_legal(approval_type: ApprovalType, decision: Decision) -> bool {
    match approval_type {
        ApprovalType::FunctionCall => decision is Approve || decision is Deny,
        ApprovalType::HumanContact => decision is Respond,
    }
}

/// Why a decision is refused for an approval of a kind.
pub open spec fn illegal_decision(approval_type: ApprovalType, decision: Decision) -> Seq<char> {
    "Invalid decision '"@ + decision.wire_name() + "' for approval type '"@
        + approval_type.wire_name() + "'"@
}

/// `text` where there is one.
pub open spec fn text_of(text: Option<&str>) -> Option<Seq<char>> {
    match text {
        Some(text) => Some(text@),
        None => None,
    }
}

fn owned(text: Option<&str>) -> (out: Option<String>)
    ensures
        out.deep_view() == text_of(text),
{
    match text {
        Some(text) => Some(text.to_string()),
        None => None,
    }
}

/// The client of one daemon: its connection, and the counter from which its
/// requests take their ids.
#[derive(Debug)]
pub struct DaemonClient {
    connection: Connection,
    request_id: Option<u64>,
}

/// A `DaemonClient` as plain values: the path of its socket, and the id that
/// its next request takes, if one is left.
pub struct DaemonClientView {
    pub socket_path: Seq<char>,
    pub next_id: Option<u64>,
}

impl View for DaemonClient {
    type V = DaemonClientView;

    closed spec fn view(&self) -> DaemonClientView {
        DaemonClientView { socket_path: self.connection@, next_id: self.request_id }
    }
}

impl DaemonClient {
    /// A client on `connection` that has made no request yet.
    pub fn new(connection: Connection) -> (client: Self)
        ensures
            client@ == (DaemonClientView {
                socket_path: connection@,
                next_id: Some(FIRST_REQUEST_ID),
            }),
    {
        DaemonClient { connection, request_id: Some(FIRST_REQUEST_ID) }
    }

    /// What follows the attempt number `attempt` to connect a client.
    pub open spec fn client_step(
        path: Seq<char>,
        attempt: u32,
        max_retries: u32,
        outcome: ConnectAttempt,
        step: ClientStep,
    ) -> bool {
        match outcome {
            ConnectAttempt::Connected => step matches ClientStep::Connected(client) && client@ == (
            DaemonClientView { socket_path: path, next_id: Some(FIRST_REQUEST_ID) }),
            _ => if attempt < max_retries {
                step == ClientStep::RetryAfter(RETRY_DELAY_MS)
            } else {
                step matches ClientStep::GiveUp(why) && Connection::connect_result(
                    path,
                    outcome,
                    Err(why),
                )
            },
        }
    }

    /// One step of connecting a client with retries: the connection's own
    /// steps, with a fresh client on the connection once it is made.
    pub fn connect_with_retries(
        path: &str,
        attempt: u32,
        max_retries: u32,
        outcome: ConnectAttempt,
    ) -> (step: ClientStep)
        ensures
            Self::client_step(path@, attempt, max_retries, outcome, step),
    {
        match Connection::connect_with_retries(path, attempt, max_retries, outcome) {
            RetryStep::Connected(connection) => ClientStep::Connected(Self::new(connection)),
            RetryStep::RetryAfter(pause) => ClientStep::RetryAfter(pause),
            RetryStep::GiveUp(why) => ClientStep::GiveUp(why),
        }
    }

    /// The connection of this client.
    pub fn connection(&self) -> (connection: &Connection)
        ensures
            connection@ == self@.socket_path,
    {
        &self.connection
    }

    /// Takes the next id off the counter. Every id is larger than the one
    /// before it, and once the largest has been handed out none is left.
    pub fn next_request_id(&mut self) -> (id: Option<u64>)
        ensures
            id == old(self)@.next_id,
            final(self)@ == (DaemonClientView {
                next_id: counter_after(old(self)@.next_id),
                ..old(self)@
            }),
    {
        match self.request_id {
            Some(id) => {
                self.request_id = if id == u64::MAX {
                    None
                } else {
                    Some(id + 1)
                };
                Some(id)
            },
            None => None,
        }
    }

    /// What `send_rpc_request` answers when the counter stands at `next_id`.
    pub open spec fn enveloped(
        next_id: Option<u64>,
        method: Seq<char>,
        params: Option<Value>,
        request: Result<JsonRpcRequest, Error>,
    ) -> bool {
        match next_id {
            Some(id) => {
                &&& request matches Ok(envelope)
                &&& envelope.jsonrpc@ == JSONRPC_VERSION@
                &&& envelope.method@ == method
                &&& envelope.params == params
                &&& envelope.id == id
            },
            None => request matches Err(Error::Validation(why)) && why@
                == "No request id is left"@,
        }
    }

    /// Puts a call into its envelope: the version tag, the method, the
    /// parameters as JSON, and the next id off the counter, which is larger
    /// than the id of every earlier request of this client. Once the ids are
    /// used up the call is refused, and nothing is to be sent.
    pub fn send_rpc_request(&mut self, method: &str, params: Option<Value>) -> (request: Result<
        JsonRpcRequest,
        Error,
    >)
        ensures
            Self::enveloped(old(self)@.next_id, method@, params, request),
            final(self)@ == (DaemonClientView {
                next_id: counter_after(old(self)@.next_id),
                ..old(self)@
            }),
    {
        match self.next_request_id() {
            Some(id) => Ok(
                JsonRpcRequest {
                    jsonrpc: JSONRPC_VERSION.to_string(),
                    method: method.to_string(),
                    params,
                    id,
                },
            ),
            None => Err(Error::Validation("No request id is left".to_string())),
        }
    }

    /// What the answer to a call comes to, before its result is read as the
    /// type that the caller expects.
    pub open spec fn answer(
        reply: Result<JsonRpcResponse, String>,
        outcome: Result<Value, Error>,
    ) -> bool {
        match reply {
            Err(why) => outcome matches Err(Error::Protocol(text)) && text@
                == "Malformed response: "@ + why@,
            Ok(envelope) => match envelope.error {
                Some(error) => outcome == Err::<Value, Error>(
                    Error::Rpc { code: error.code, message: error.message },
                ),
                None => match envelope.result {
                    Some(result) => outcome == Ok::<Value, Error>(result),
                    None => outcome matches Err(Error::Protocol(why)) && why@
                        == "No result in response"@,
                },
            },
        }
    }

    /// What the answer to a call comes to. An answer that does not read as
    /// an envelope breaks the protocol. An envelope with an error is that
    /// error, with its code and message, whatever else it carries; one with a
    /// result and no error is the result; one with neither breaks the
    /// protocol too.
    pub fn interpret_response(reply: Result<JsonRpcResponse, String>) -> (outcome: Result<
        Value,
        Error,
    >)
        ensures
            Self::answer(reply, outcome),
    {
        let envelope = match reply {
            Ok(envelope) => envelope,
            Err(why) => return Err(
                Error::Protocol(concat2("Malformed response: ", why.as_str())),
            ),
        };
        if let Some(error) = envelope.error {
            return Err(Error::Rpc { code: error.code, message: error.message });
        }
        match envelope.result {
            Some(result) => Ok(result),
            None => Err(Error::Protocol("No result in response".to_string())),
        }
    }

    /// What reading the result as the expected type comes to.
    pub open spec fn decoded<R>(read: Result<R, String>, outcome: Result<R, Error>) -> bool {
        match read {
            Ok(value) => outcome == Ok::<R, Error>(value),
            Err(why) => outcome matches Err(Error::InvalidResponse(text)) && text@
                == "Failed to parse result: "@ + why@,
        }
    }

    /// What reading the result as the expected type comes to: the value, or
    /// the error that says that the result has another shape.
    pub fn decode_result<R>(read: Result<R, String>) -> (outcome: Result<R, Error>)
        ensures
            Self::decoded(read, outcome),
    {
        match read {
            Ok(value) => Ok(value),
            Err(why) => Err(
                Error::InvalidResponse(concat2("Failed to parse result: ", why.as_str())),
            ),
        }
    }

    // -----------------------------------------------------------------------
    // The calls
    // -----------------------------------------------------------------------

    fn call<P>(method: &str, params: Option<P>) -> (call: Call<P>)
        ensures
            call.method@ == method@,
            call.params == params,
    {
        Call { method: method.to_string(), params }
    }

    /// Asks whether the daemon is well.
    pub fn health(&self) -> (call: Call<()>)
        ensures
            call.method@ == "health"@,
            call.params is None,
    {
        Self::call("health", None)
    }

    /// Launches a session.
    pub fn launch_session(&self, req: LaunchSessionRequest) -> (call: Call<LaunchSessionRequest>)
        ensures
            call.method@ == "launchSession"@,
            call.params == Some(req),
    {
        Self::call("launchSession", Some(req))
    }

    /// Lists the sessions.
    pub fn list_sessions(&self) -> (call: Call<()>)
        ensures
            call.method@ == "listSessions"@,
            call.params is None,
    {
        Self::call("listSessions", None)
    }

    /// Lists the sessions that no other session continues.
    pub fn get_session_leaves(&self, req: Option<GetSessionLeavesRequest>) -> (call: Call<
        GetSessionLeavesRequest,
    >)
        ensures
            call.method@ == "getSessionLeaves"@,
            call.params == req,
    {
        Self::call("getSessionLeaves", req)
    }

    /// Continues a session.
    pub fn continue_session(&self, req: ContinueSessionRequest) -> (call: Call<
        ContinueSessionRequest,
    >)
        ensures
            call.method@ == "continueSession"@,
            call.params == Some(req),
    {
        Self::call("continueSession", Some(req))
    }

    /// Asks for the state of a session.
    pub fn get_session_state(&self, session_id: &str) -> (call: Call<GetSessionStateRequest>)
        ensures
            call.method@ == "getSessionState"@,
            call.params matches Some(req) && req.session_id@ == session_id@,
    {
        Self::call(
            "getSessionState",
            Some(GetSessionStateRequest { session_id: session_id.to_string() }),
        )
    }

    /// What `get_conversation` answers.
    pub open spec fn conversation_call(
        session_id: Option<Seq<char>>,
        claude_session_id: Option<Seq<char>>,
        call: Result<Call<GetConversationRequest>, Error>,
    ) -> bool {
        if session_id is None && claude_session_id is None {
            call matches Err(Error::Validation(why)) && why@
                == "Either session_id or claude_session_id is required"@
        } else {
            &&& call matches Ok(call)
            &&& call.method@ == "getConversation"@
            &&& call.params matches Some(req)
            &&& req.session_id.deep_view() == session_id
            &&& req.claude_session_id.deep_view() == claude_session_id
        }
    }

    /// Asks for a conversation, by either of the two ids that a session goes
    /// by. One of the two has to be there: without either the call is
    /// refused here, and nothing is sent.
    pub fn get_conversation(
        &self,
        session_id: Option<&str>,
        claude_session_id: Option<&str>,
    ) -> (call: Result<Call<GetConversationRequest>, Error>)
        ensures
            Self::conversation_call(text_of(session_id), text_of(claude_session_id), call),
    {
        if session_id.is_none() && claude_session_id.is_none() {
            return Err(
                Error::Validation(
                    "Either session_id or claude_session_id is required".to_string(),
                ),
            );
        }
        Ok(
            Self::call(
                "getConversation",
                Some(
                    GetConversationRequest {
                        session_id: owned(session_id),
                        claude_session_id: owned(claude_session_id),
                    },
                ),
            ),
        )
    }

    /// Asks for the approvals that are pending, of one session or of all.
    pub fn fetch_approvals(&self, session_id: Option<&str>) -> (call: Call<FetchApprovalsRequest>)
        ensures
            call.method@ == "fetchApprovals"@,
            call.params matches Some(req) && req.session_id.deep_view() == text_of(session_id),
    {
        Self::call("fetchApprovals", Some(FetchApprovalsRequest { session_id: owned(session_id) }))
    }

    /// What `send_decision` answers.
    pub open spec fn decision_call(
        approval_id: Seq<char>,
        approval_type: ApprovalType,
        decision: Decision,
        comment: Option<Seq<char>>,
        call: Result<Call<SendDecisionRequest>, Error>,
    ) -> bool {
        if decision_is_legal(approval_type, decision) {
            &&& call matches Ok(call)
            &&& call.method@ == "sendDecision"@
            &&& call.params matches Some(req)
            &&& req.approval_id@ == approval_id
            &&& req.decision@ == decision.wire_name()
            &&& req.comment.deep_view() == comment
        } else {
            call matches Err(Error::Validation(why)) && why@ == illegal_decision(
                approval_type,
                decision,
            )
        }
    }

    /// Decides on an approval. The decision has to be a legal one for the
    /// kind of approval: a call of a function is approved or denied, a human
    /// contact is responded to. Any other pairing is refused here, and
    /// nothing is sent.
    pub fn send_decision(
        &self,
        approval_id: &str,
        approval_type: ApprovalType,
        decision: Decision,
        comment: Option<&str>,
    ) -> (call: Result<Call<SendDecisionRequest>, Error>)
        ensures
            Self::decision_call(approval_id@, approval_type, decision, text_of(comment), call),
    {
        let legal = match approval_type {
            ApprovalType::FunctionCall => match decision {
                Decision::Approve => true,
                Decision::Deny => true,
                Decision::Respond => false,
            },
            ApprovalType::HumanContact => match decision {
                Decision::Respond => true,
                _ => false,
            },
        };
        if !legal {
            let mut why = concat3(
                "Invalid decision '",
                decision.as_str(),
                "' for approval type '",
            );
            why.append(approval_type.as_str());
            why.append("'");
            return Err(Error::Validation(why));
        }
        Ok(Self::decision(approval_id, decision, comment))
    }

    fn decision(approval_id: &str, decision: Decision, comment: Option<&str>) -> (call: Call<
        SendDecisionRequest,
    >)
        ensures
            call.method@ == "sendDecision"@,
            call.params matches Some(req) && req.approval_id@ == approval_id@ && req.decision@
                == decision.wire_name() && req.comment.deep_view() == text_of(comment),
    {
        Self::call(
            "sendDecision",
            Some(
                SendDecisionRequest {
                    approval_id: approval_id.to_string(),
                    decision: decision.as_str().to_string(),
                    comment: owned(comment),
                },
            ),
        )
    }

    /// Approves the call of a function.
    pub fn approve_function_call(&self, approval_id: &str, comment: Option<&str>) -> (call: Call<
        SendDecisionRequest,
    >)
        ensures
            Self::decision_call(
                approval_id@,
                ApprovalType::FunctionCall,
                Decision::Approve,
                text_of(comment),
                Ok(call),
            ),
    {
        Self::decision(approval_id, Decision::Approve, comment)
    }

    /// Denies the call of a function, for the reason given.
    pub fn deny_function_call(&self, approval_id: &str, reason: &str) -> (call: Call<
        SendDecisionRequest,
    >)
        ensures
            Self::decision_call(
                approval_id@,
                ApprovalType::FunctionCall,
                Decision::Deny,
                Some(reason@),
                Ok(call),
            ),
    {
        Self::decision(approval_id, Decision::Deny, Some(reason))
    }

    /// What the daemon's answer to a decision comes to.
    pub open spec fn decision_verdict(
        response: SendDecisionResponse,
        outcome: Result<(), Error>,
    ) -> bool {
        if response.success {
            outcome is Ok
        } else {
            outcome matches Err(Error::Approval(why)) && why@ == (match response.error {
                Some(text) => text@,
                None => "Unknown error"@,
            })
        }
    }

    /// What the daemon's answer to an approval or a denial comes to: an
    /// answer that does not report success is an error, with the daemon's
    /// own words where it gave any.
    pub fn decision_outcome(response: SendDecisionResponse) -> (outcome: Result<(), Error>)
        ensures
            Self::decision_verdict(response, outcome),
    {
        if response.success {
            Ok(())
        } else {
            match response.error {
                Some(why) => Err(Error::Approval(why)),
                None => Err(Error::Approval("Unknown error".to_string())),
            }
        }
    }

    /// What `subscribe` answers and does to the registry when the counter
    /// stands at `next_id`.
    pub open spec fn subscribed<H>(
        next_id: Option<u64>,
        before: Map<u64, H>,
        cancel: H,
        params: Result<Value, String>,
        opened: Result<(u64, JsonRpcRequest), Error>,
        after: Map<u64, H>,
    ) -> bool {
        match next_id {
            None => {
                &&& after == before
                &&& opened matches Err(Error::Validation(why))
                &&& why@ == "No request id is left"@
            },
            Some(id) => {
                &&& after == SubscriptionManager::<H>::registered(before, id, cancel, params)
                &&& match params {
                    Ok(_) => opened matches Ok(pair) && pair.0 == id
                        && SubscriptionManager::<H>::subscribe_request(id, params, Ok(pair.1)),
                    Err(why) => opened == Err::<(u64, JsonRpcRequest), Error>(
                        Error::Serialization(why),
                    ),
                }
            },
        }
    }

    /// Opens a subscription: it gets the next id, `cancel` is registered
    /// under that id in `manager`, and the answer is the id with the request
    /// to send on the subscription's own connection. Where there is no
    /// request to send, because no id is left or the parameters could not be
    /// written, nothing is registered.
    pub fn subscribe<H>(
        &mut self,
        manager: &mut SubscriptionManager<H>,
        cancel: H,
        params: Result<Value, String>,
    ) -> (opened: Result<(u64, JsonRpcRequest), Error>)
        ensures
            final(self)@ == (DaemonClientView {
                next_id: counter_after(old(self)@.next_id),
                ..old(self)@
            }),
            Self::subscribed(
                old(self)@.next_id,
                old(manager)@,
                cancel,
                params,
                opened,
                final(manager)@,
            ),
    {
        let id = match self.next_request_id() {
            Some(id) => id,
            None => return Err(Error::Validation("No request id is left".to_string())),
        };
        match manager.create_subscription(id, cancel, params) {
            Ok(request) => Ok((id, request)),
            Err(why) => Err(why),
        }
    }

    /// Closes the subscription `subscription_id`: it leaves the registry, and
    /// the answer is its handle, to be signalled. This cannot fail, and an id
    /// that is not registered changes nothing.
    pub fn unsubscribe<H>(&self, manager: &mut SubscriptionManager<H>, subscription_id: u64) -> (cancel:
        Option<H>)
        ensures
            final(manager)@ == old(manager)@.remove(subscription_id),
            cancel == (if old(manager)@.contains_key(subscription_id) {
                Some(old(manager)@[subscription_id])
            } else {
                None
            }),
    {
        manager.cancel_subscription(subscription_id)
    }

    /// Interrupts a session.
    pub fn interrupt_session(&self, session_id: &str) -> (call: Call<InterruptSessionRequest>)
        ensures
            call.method@ == "interruptSession"@,
            call.params matches Some(req) && req.session_id@ == session_id@,
    {
        Self::call(
            "interruptSession",
            Some(InterruptSessionRequest { session_id: session_id.to_string() }),
        )
    }

    /// What an answer that reports success or failure of something that was
    /// asked of a session comes to, where `failure` begins the words for the
    /// failure.
    pub open spec fn session_verdict(
        success: bool,
        failure: Seq<char>,
        session_id: Seq<char>,
        outcome: Result<(), Error>,
    ) -> bool {
        if success {
            outcome is Ok
        } else {
            outcome matches Err(Error::Session(why)) && why@ == failure + session_id
        }
    }

    /// What the daemon's answer to an interruption comes to: an answer that
    /// does not report success is an error that names the session.
    pub fn interrupt_outcome(session_id: &str, response: &InterruptSessionResponse) -> (outcome:
        Result<(), Error>)
        ensures
            Self::session_verdict(
                response.success,
                "Failed to interrupt session "@,
                session_id@,
                outcome,
            ),
    {
        if response.success {
            Ok(())
        } else {
            Err(Error::Session(concat2("Failed to interrupt session ", session_id)))
        }
    }

    /// Changes the settings of a session.
    pub fn update_session_settings(&self, session_id: &str, auto_accept_edits: Option<bool>) -> (call:
        Call<UpdateSessionSettingsRequest>)
        ensures
            call.method@ == "updateSessionSettings"@,
            call.params matches Some(req) && req.session_id@ == session_id@
                && req.auto_accept_edits == auto_accept_edits,
    {
        Self::call(
            "updateSessionSettings",
            Some(
                UpdateSessionSettingsRequest {
                    session_id: session_id.to_string(),
                    auto_accept_edits,
                },
            ),
        )
    }

    /// Asks for the paths that were used of late.
    pub fn get_recent_paths(&self, limit: Option<i32>) -> (call: Call<GetRecentPathsRequest>)
        ensures
            call.method@ == "getRecentPaths"@,
            call.params matches Some(req) && req.limit == limit,
    {
        Self::call("getRecentPaths", Some(GetRecentPathsRequest { limit }))
    }

    /// Archives a session, or takes it out of the archive.
    pub fn archive_session(&self, req: ArchiveSessionRequest) -> (call: Call<ArchiveSessionRequest>)
        ensures
            call.method@ == "archiveSession"@,
            call.params == Some(req),
    {
        Self::call("archiveSession", Some(req))
    }

    /// Archives several sessions, or takes them out of the archive.
    pub fn bulk_archive_sessions(&self, req: BulkArchiveSessionsRequest) -> (call: Call<
        BulkArchiveSessionsRequest,
    >)
        ensures
            call.method@ == "bulkArchiveSessions"@,
            call.params == Some(req),
    {
        Self::call("bulkArchiveSessions", Some(req))
    }

    /// Asks for the file snapshots of a session.
    pub fn get_session_snapshots(&self, session_id: &str) -> (call: Call<
        GetSessionSnapshotsRequest,
    >)
        ensures
            call.method@ == "getSessionSnapshots"@,
            call.params matches Some(req) && req.session_id@ == session_id@,
    {
        Self::call(
            "getSessionSnapshots",
            Some(GetSessionSnapshotsRequest { session_id: session_id.to_string() }),
        )
    }

    /// Gives a session a title.
    pub fn update_session_title(&self, session_id: &str, title: &str) -> (call: Call<
        UpdateSessionTitleRequest,
    >)
        ensures
            call.method@ == "updateSessionTitle"@,
            call.params matches Some(req) && req.session_id@ == session_id@ && req.title@
                == title@,
    {
        Self::call(
            "updateSessionTitle",
            Some(
                UpdateSessionTitleRequest {
                    session_id: session_id.to_string(),
                    title: title.to_string(),
                },
            ),
        )
    }

    /// What the daemon's answer to a new title comes to: an answer that does
    /// not report success is an error that names the session.
    pub fn title_outcome(session_id: &str, response: &UpdateSessionTitleResponse) -> (outcome:
        Result<(), Error>)
        ensures
            Self::session_verdict(
                response.success,
                "Failed to update title for session "@,
                session_id@,
                outcome,
            ),
    {
        if response.success {
            Ok(())
        } else {
            Err(Error::Session(concat2("Failed to update title for session ", session_id)))
        }
    }
}

// ---------------------------------------------------------------------------
// What holds of every client
// ---------------------------------------------------------------------------

/// A decision and a kind of approval go together in exactly three ways:
/// approve and deny with the call of a function, respond with a human
/// contact. Every other pairing is refused before anything is sent, and the
/// three are never refused.
pub proof fn lemma_decision_validation(
    approval_id: Seq<char>,
    approval_type: ApprovalType,
    decision: Decision,
    comment: Option<Seq<char>>,
    call: Result<Call<SendDecisionRequest>, Error>,
)
    requires
        DaemonClient::decision_call(approval_id, approval_type, decision, comment, call),
    ensures
        decision_is_legal(approval_type, decision) <==> (approval_type, decision) == (
            ApprovalType::FunctionCall,
            Decision::Approve,
        ) || (approval_type, decision) == (ApprovalType::FunctionCall, Decision::Deny) || (
            approval_type,
            decision,
        ) == (ApprovalType::HumanContact, Decision::Respond),
        call is Ok <==> decision_is_legal(approval_type, decision),
        call is Err ==> call->Err_0 is Validation,
{
}

/// No answer is dropped: whatever comes back for a request is a result, an
/// error that the daemon reported with its code and message, or a protocol
/// error, for an answer that is no envelope and for an envelope that holds
/// neither. Which one it is depends on the answer alone, and an error in the
/// envelope goes before a result.
pub proof fn lemma_every_answer_is_accounted_for(
    reply: Result<JsonRpcResponse, String>,
    outcome: Result<Value, Error>,
)
    requires
        DaemonClient::answer(reply, outcome),
    ensures
        outcome is Ok || outcome->Err_0 is Rpc || outcome->Err_0 is Protocol,
        outcome is Ok <==> reply is Ok && reply->Ok_0.error is None && reply->Ok_0.result
            is Some,
        outcome is Ok ==> outcome->Ok_0 == reply->Ok_0.result->0,
        outcome is Err && outcome->Err_0 is Rpc <==> reply is Ok && reply->Ok_0.error is Some,
        outcome is Err && outcome->Err_0 is Protocol <==> reply is Err || (
        reply->Ok_0.error is None && reply->Ok_0.result is None),
{
}

/// Reading a result as the expected type gives the value or the error for a
/// result of another shape, which is neither a protocol error nor an error
/// that the daemon reported.
pub proof fn lemma_decode_error_is_its_own_kind<R>(
    read: Result<R, String>,
    outcome: Result<R, Error>,
)
    requires
        DaemonClient::decoded(read, outcome),
    ensures
        outcome is Ok <==> read is Ok,
        outcome is Ok ==> outcome->Ok_0 == read->Ok_0,
        outcome is Err ==> outcome->Err_0 is InvalidResponse,
{
}

/// Ids go up from request to request, so no two requests of a client ever
/// share one: whatever id a later request gets is larger than the id of
/// every earlier one, and after the largest id none is handed out.
pub proof fn lemma_request_ids_are_fresh(first: u64, earlier: nat, later: nat)
    requires
        earlier < later,
    ensures
        nth_id(first, later) matches Some(late) ==> (nth_id(first, earlier) matches Some(early)
            && early < late),
        nth_id(first, earlier) is None ==> nth_id(first, later) is None,
        nth_id(first, earlier) == Some(u64::MAX) ==> nth_id(first, later) is None,
{
    lemma_nth_id_counts_up(first, earlier);
    lemma_nth_id_counts_up(first, later);
}

/// The id after `count` others is `count` past the first, for as long as
/// there is such an id.
pub proof fn lemma_nth_id_counts_up(first: u64, count: nat)
    ensures
        nth_id(first, count) == (if first + count <= u64::MAX {
            Some((first + count) as u64)
        } else {
            None
        }),
    decreases count,
{
    if count > 0 {
        lemma_nth_id_counts_up(first, (count - 1) as nat);
    }
}

/// One request after another: the id of the second is larger than the id of
/// the first, whatever the counter stood at.
pub proof fn lemma_next_id_is_larger(next_id: Option<u64>)
    ensures
        counter_after(next_id) matches Some(second) ==> (next_id matches Some(first) && first
            < second),
        next_id is None ==> counter_after(next_id) is None,
{
}

} // verus!
