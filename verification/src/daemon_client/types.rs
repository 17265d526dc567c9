//! The messages that go over the wire, as plain records.

use serde_json::Value;
use vstd::prelude::*;

verus! {

/// A point in time: the whole seconds since the start of 1970 in UTC, and
/// the nanoseconds into that second.
#[derive(Debug, Clone, Copy, PartialEq, Eq, Structural)]
pub struct Timestamp {
    pub seconds: i64,
    pub nanoseconds: u32,
}

/// The version tag that every envelope carries.
pub const JSONRPC_VERSION: &'static str = "2.0";

// JSON-RPC envelopes

#[derive(Debug, Clone, PartialEq)]
pub struct JsonRpcRequest {
    pub jsonrpc: String,
    pub method: String,
    pub params: Option<Value>,
    pub id: u64,
}

#[derive(Debug, Clone, PartialEq)]
pub struct JsonRpcResponse {
    pub jsonrpc: String,
    pub result: Option<Value>,
    pub error: Option<JsonRpcError>,
    pub id: Option<Value>,
}

#[derive(Debug, Clone, PartialEq)]
pub struct JsonRpcError {
    pub code: i32,
    pub message: String,
    pub data: Option<Value>,
}

// Health check

#[derive(Debug, Clone, PartialEq)]
pub struct HealthCheckRequest {}

#[derive(Debug, Clone, PartialEq)]
pub struct HealthCheckResponse {
    pub status: String,
    pub version: String,
}

// Sessions

#[derive(Debug, Clone, PartialEq)]
pub struct LaunchSessionRequest {
    pub query: String,
    pub model: Option<String>,
    pub mcp_config: Option<Value>,
    pub permission_prompt_tool: Option<String>,
    pub working_dir: Option<String>,
    pub max_turns: Option<i32>,
    pub system_prompt: Option<String>,
    pub append_system_prompt: Option<String>,
    pub allowed_tools: Option<Vec<String>>,
    pub disallowed_tools: Option<Vec<String>>,
    pub custom_instructions: Option<String>,
    pub verbose: Option<bool>,
}

#[derive(Debug, Clone, PartialEq)]
pub struct LaunchSessionResponse {
    pub session_id: String,
    pub run_id: String,
}

#[derive(Debug, Clone, PartialEq)]
pub struct InterruptSessionRequest {
    pub session_id: String,
}

#[derive(Debug, Clone, PartialEq)]
pub struct InterruptSessionResponse {
    pub success: bool,
    pub session_id: String,
    pub status: String,
}

#[derive(Debug, Clone, PartialEq)]
pub struct ListSessionsRequest {}

#[derive(Debug, Clone, PartialEq)]
pub struct ListSessionsResponse {
    pub sessions: Vec<SessionInfo>,
}

#[derive(Debug, Clone, PartialEq)]
pub struct GetSessionLeavesRequest {
    pub include_archived: Option<bool>,
    pub archived_only: Option<bool>,
}

#[derive(Debug, Clone, PartialEq)]
pub struct GetSessionLeavesResponse {
    pub sessions: Vec<SessionInfo>,
}

#[derive(Debug, Clone, PartialEq)]
pub struct SessionInfo {
    pub id: String,
    pub run_id: String,
    pub claude_session_id: Option<String>,
    pub parent_session_id: Option<String>,
    pub status: SessionStatus,
    pub start_time: Timestamp,
    pub end_time: Option<Timestamp>,
    pub last_activity_at: Timestamp,
    pub error: Option<String>,
    pub query: String,
    pub summary: String,
    pub model: Option<String>,
    pub working_dir: Option<String>,
    pub result: Option<Value>,
    pub archived: Option<bool>,
}

#[derive(Debug, Clone, Copy, PartialEq, Eq, Structural)]
pub enum SessionStatus {
    Starting,
    Running,
    Completed,
    Failed,
    WaitingInput,
}

#[derive(Debug, Clone, PartialEq)]
pub struct GetSessionStateRequest {
    pub session_id: String,
}

#[derive(Debug, Clone, PartialEq)]
pub struct GetSessionStateResponse {
    pub session: SessionState,
}

#[derive(Debug, Clone, PartialEq)]
pub struct SessionState {
    pub id: String,
    pub run_id: String,
    pub claude_session_id: Option<String>,
    pub parent_session_id: Option<String>,
    pub status: String,
    pub query: String,
    pub summary: String,
    pub model: Option<String>,
    pub working_dir: Option<String>,
    pub created_at: String,
    pub last_activity_at: String,
    pub completed_at: Option<String>,
    pub error_message: Option<String>,
    /// The cost in dollars, as the bits of the binary64 number that the
    /// wire carries.
    pub cost_usd: Option<u64>,
    pub total_tokens: Option<i32>,
    pub duration_ms: Option<i32>,
    pub auto_accept_edits: Option<bool>,
    pub archived: Option<bool>,
}

#[derive(Debug, Clone, PartialEq)]
pub struct ContinueSessionRequest {
    pub session_id: String,
    pub query: String,
    pub system_prompt: Option<String>,
    pub append_system_prompt: Option<String>,
    pub mcp_config: Option<String>,
    pub permission_prompt_tool: Option<String>,
    pub allowed_tools: Option<Vec<String>>,
    pub disallowed_tools: Option<Vec<String>>,
    pub custom_instructions: Option<String>,
    pub max_turns: Option<i32>,
}

#[derive(Debug, Clone, PartialEq)]
pub struct ContinueSessionResponse {
    pub session_id: String,
    pub run_id: String,
    pub claude_session_id: String,
    pub parent_session_id: String,
}

// Conversations

#[derive(Debug, Clone, PartialEq)]
pub struct GetConversationRequest {
    pub session_id: Option<String>,
    pub claude_session_id: Option<String>,
}

#[derive(Debug, Clone, PartialEq)]
pub struct GetConversationResponse {
    pub events: Vec<ConversationEvent>,
}

#[derive(Debug, Clone, PartialEq)]
pub struct ConversationEvent {
    pub id: i64,
    pub session_id: String,
    pub claude_session_id: String,
    pub sequence: i32,
    pub event_type: String,
    pub created_at: String,
    pub role: Option<String>,
    pub content: Option<String>,
    pub tool_id: Option<String>,
    pub tool_name: Option<String>,
    pub tool_input_json: Option<String>,
    pub tool_result_for_id: Option<String>,
    pub tool_result_content: Option<String>,
    pub is_completed: bool,
    pub approval_status: Option<String>,
    pub approval_id: Option<String>,
    pub parent_tool_use_id: Option<String>,
}

// Approvals

#[derive(Debug, Clone, PartialEq)]
pub struct FetchApprovalsRequest {
    pub session_id: Option<String>,
}

#[derive(Debug, Clone, PartialEq)]
pub struct FetchApprovalsResponse {
    pub approvals: Vec<Approval>,
}

/// An approval as the daemon stores it.
#[derive(Debug, Clone, PartialEq)]
pub struct Approval {
    pub id: String,
    pub run_id: String,
    pub session_id: String,
    pub status: String,
    pub created_at: String,
    pub responded_at: Option<String>,
    pub tool_name: String,
    pub tool_input: Value,
    pub comment: Option<String>,
}

#[derive(Debug, Clone, PartialEq)]
pub struct SendDecisionRequest {
    pub approval_id: String,
    pub decision: String,
    pub comment: Option<String>,
}

#[derive(Debug, Clone, PartialEq)]
pub struct SendDecisionResponse {
    pub success: bool,
    pub error: Option<String>,
}

// Subscriptions

#[derive(Debug, Clone, PartialEq)]
pub struct SubscribeRequest {
    pub event_types: Option<Vec<String>>,
    pub session_id: Option<String>,
    pub run_id: Option<String>,
}

#[derive(Debug, Clone, PartialEq)]
pub struct SubscribeResponse {
    pub subscription_id: String,
    pub message: String,
}

#[derive(Debug, Clone, PartialEq)]
pub struct EventNotification {
    pub event: Event,
}

#[derive(Debug, Clone, PartialEq)]
pub struct Event {
    pub event_type: String,
    pub timestamp: Timestamp,
    pub data: Value,
}

#[derive(Debug, Clone, PartialEq)]
pub struct Heartbeat {
    pub msg_type: String,
    pub message: String,
}

// Decisions

/// What kind of thing an approval asks for.
#[derive(Debug, Clone, Copy, PartialEq, Eq, Structural)]
pub enum ApprovalType {
    /// Leave to call a function.
    FunctionCall,
    /// An answer from a human.
    HumanContact,
}

/// What is decided on an approval.
#[derive(Debug, Clone, Copy, PartialEq, Eq, Structural)]
pub enum Decision {
    Approve,
    Deny,
    Respond,
}

impl Decision {
    /// The decision as the wire names it.
    pub open spec fn wire_name(self) -> Seq<char> {
        match self {
            Decision::Approve => "approve"@,
            Decision::Deny => "deny"@,
            Decision::Respond => "respond"@,
        }
    }

    /// The decision as the wire names it.
    pub fn as_str(&self) -> (name: &'static str)
        ensures
            name@ == self.wire_name(),
    {
        match self {
            Decision::Approve => "approve",
            Decision::Deny => "deny",
            Decision::Respond => "respond",
        }
    }
}

impl ApprovalType {
    /// The kind as it is named in messages.
    pub open spec fn wire_name(self) -> Seq<char> {
        match self {
            ApprovalType::FunctionCall => "function_call"@,
            ApprovalType::HumanContact => "human_contact"@,
        }
    }

    /// The kind as it is named in messages.
    pub fn as_str(&self) -> (name: &'static str)
        ensures
            name@ == self.wire_name(),
    {
        match self {
            ApprovalType::FunctionCall => "function_call",
            ApprovalType::HumanContact => "human_contact",
        }
    }
}

// Session settings

#[derive(Debug, Clone, PartialEq)]
pub struct UpdateSessionSettingsRequest {
    pub session_id: String,
    pub auto_accept_edits: Option<bool>,
}

#[derive(Debug, Clone, PartialEq)]
pub struct UpdateSessionSettingsResponse {
    pub success: bool,
}

#[derive(Debug, Clone, PartialEq)]
pub struct UpdateSessionTitleRequest {
    pub session_id: String,
    pub title: String,
}

#[derive(Debug, Clone, PartialEq)]
pub struct UpdateSessionTitleResponse {
    pub success: bool,
}

// Recent paths

#[derive(Debug, Clone, PartialEq)]
pub struct GetRecentPathsRequest {
    pub limit: Option<i32>,
}

#[derive(Debug, Clone, PartialEq)]
pub struct GetRecentPathsResponse {
    pub paths: Vec<RecentPath>,
}

#[derive(Debug, Clone, PartialEq)]
pub struct RecentPath {
    pub path: String,
    pub last_used: String,
    pub usage_count: i32,
}

// Archiving

#[derive(Debug, Clone, PartialEq)]
pub struct ArchiveSessionRequest {
    pub session_id: String,
    pub archived: bool,
}

#[derive(Debug, Clone, PartialEq)]
pub struct ArchiveSessionResponse {
    pub success: bool,
}

#[derive(Debug, Clone, PartialEq)]
pub struct BulkArchiveSessionsRequest {
    pub session_ids: Vec<String>,
    pub archived: bool,
}

#[derive(Debug, Clone, PartialEq)]
pub struct BulkArchiveSessionsResponse {
    pub success: bool,
    pub failed_sessions: Option<Vec<String>>,
}

// Snapshots

#[derive(Debug, Clone, PartialEq)]
pub struct GetSessionSnapshotsRequest {
    pub session_id: String,
}

#[derive(Debug, Clone, PartialEq)]
pub struct GetSessionSnapshotsResponse {
    pub snapshots: Vec<FileSnapshotInfo>,
}

#[derive(Debug, Clone, PartialEq)]
pub struct FileSnapshotInfo {
    pub tool_id: String,
    pub file_path: String,
    pub content: String,
    /// In the format of ISO 8601.
    pub created_at: String,
}

} // verus!
