//! Plain data: configuration, tasks, message payloads, registry entries and rows.

use vstd::prelude::*;

verus! {

/// A single-precision number, kept as its bit pattern. It is carried, never computed with.
#[derive(Debug, Clone, Copy, PartialEq, Eq, Structural)]
pub struct Single {
    pub bits: u32,
}

/// A double-precision number, kept as its bit pattern. It is carried, never computed with.
#[derive(Debug, Clone, Copy, PartialEq, Eq, Structural)]
pub struct Double {
    pub bits: u64,
}

/// Download settings that hold where a task says nothing else.
#[derive(Debug, PartialEq)]
pub struct SpdeDefaults {
    pub save_path: String,
    pub max_concurrent: u32,
    pub connections_per_file: u32,
    pub retry_times: u32,
    pub timeout: u64,
    pub dry_run: bool,
    pub skip_tls_verify: bool,
    pub resume: bool,
    pub http_proxy: Option<String>,
    pub https_proxy: Option<String>,
}

/// The configuration of `pk`.
#[derive(Debug, PartialEq)]
pub struct PkConfig {
    /// The address that the server listens on, such as `0.0.0.0:5566`.
    pub listen: String,
    /// The shared token; blank in development mode.
    pub token: String,
    pub runtime_url: Option<String>,
    pub register_timeout_secs: u64,
    pub region: Option<String>,
    pub spde_defaults: SpdeDefaults,
}

/// What a task sets in place of the defaults.
#[derive(Debug, PartialEq)]
pub struct TaskOverrides {
    pub max_concurrent: Option<u32>,
    pub connections_per_file: Option<u32>,
    pub retry_times: Option<u32>,
    pub timeout: Option<u64>,
    pub skip_tls_verify: Option<bool>,
    pub dry_run: Option<bool>,
    pub save_path: Option<String>,
}

/// A download task.
#[derive(Debug, PartialEq)]
pub struct Task {
    pub url: String,
    pub filename: String,
    pub overrides: TaskOverrides,
}

/// A task that was dispatched to a node.
#[derive(Debug, PartialEq)]
pub struct NodeTask {
    pub dispatch_id: u128,
    pub task: Task,
}

/// One task as a node receives it.
#[derive(Debug, PartialEq)]
pub struct TaskItem {
    pub url: String,
    pub filename: String,
    pub save_path: String,
    pub max_concurrent: u32,
    pub connections_per_file: u32,
    pub retry_times: u32,
    pub timeout: u64,
    pub dry_run: bool,
    pub skip_tls_verify: bool,
    pub resume: bool,
    pub http_proxy: Option<String>,
    pub https_proxy: Option<String>,
}

/// The configuration that a node receives with a claimed task.
#[derive(Debug, PartialEq)]
pub struct NodeConfig {
    pub dispatch_id: u128,
    pub master: String,
    pub token: Option<String>,
    pub tasks: Vec<TaskItem>,
}

/// Payload of `node.status`.
#[derive(Debug, Clone, PartialEq)]
pub struct StatusPayload {
    pub active_tasks: u32,
    pub bytes_downloaded: u64,
    pub busy: bool,
    pub total_speed_bps: u64,
    pub last_error: Option<String>,
}

impl StatusPayload {
    /// The payload that stands for a missing or unreadable one.
    pub open spec fn blank() -> StatusPayload {
        StatusPayload {
            active_tasks: 0,
            bytes_downloaded: 0,
            busy: false,
            total_speed_bps: 0,
            last_error: None,
        }
    }
}

impl Default for StatusPayload {
    fn default() -> (r: Self)
        ensures
            r == StatusPayload::blank(),
    {
        StatusPayload {
            active_tasks: 0,
            bytes_downloaded: 0,
            busy: false,
            total_speed_bps: 0,
            last_error: None,
        }
    }
}

/// Payload of `task.started`.
#[derive(Debug, Clone, PartialEq)]
pub struct TaskStartedPayload {
    pub dispatch_id: u128,
}

/// Payload of `task.progress`.
#[derive(Debug, Clone, PartialEq)]
pub struct TaskProgressMsg {
    pub dispatch_id: u128,
    pub task_name: String,
    pub percent: Double,
    pub downloaded_bytes: u64,
    pub total_size: u64,
    pub speed_bps: u64,
    pub active_connections: u32,
    pub elapsed_secs: Double,
}

/// Payload of `task.completed` and `task.failed`.
#[derive(Debug, Clone, PartialEq)]
pub struct TaskReportMsg {
    pub dispatch_id: Option<u128>,
    pub task_id: Option<u128>,
    pub task_name: String,
    pub url: String,
    pub filename: String,
    pub file_size: u64,
    pub downloaded_bytes: u64,
    pub elapsed_secs: Double,
    pub avg_speed_mbps: Double,
    pub status: String,
    pub success_chunks: u64,
    pub failed_chunks: u64,
    pub error_msg: Option<String>,
}

/// A finished or failed task as the scheduler takes it in.
#[derive(Debug, PartialEq)]
pub struct AgentReportReq {
    pub node_id: u128,
    pub dispatch_id: Option<u128>,
    pub task_id: Option<u128>,
    pub task_name: String,
    pub url: String,
    pub filename: String,
    pub file_size: u64,
    pub downloaded_bytes: u64,
    pub elapsed_secs: Double,
    pub avg_speed_mbps: Double,
    pub status: String,
    pub success_chunks: u64,
    pub failed_chunks: u64,
    pub error_msg: Option<String>,
}

/// Payload of `component.registered` on a node's socket.
#[derive(Debug, Clone, PartialEq)]
pub struct RegisterPayload {
    pub node_id: u128,
    pub hostname: String,
    pub platform: String,
    pub arch: String,
    pub version: String,
}

/// Payload of `node.heartbeat`.
#[derive(Debug, Clone, PartialEq)]
pub struct HeartbeatPayload {
    pub node_id: u128,
    pub active_tasks: u32,
    pub bytes_downloaded: u64,
}

/// Payload of `discovery.started`.
#[derive(Debug, Clone, PartialEq, Default)]
pub struct DiscoveryStartedMsg {
    pub task_id: String,
    pub infohash: String,
}

/// Payload of `discovery.result`.
#[derive(Debug, Clone, PartialEq, Default)]
pub struct DiscoveryResultMsg {
    pub task_id: String,
    pub infohash: String,
    pub peers_count: u32,
    pub success: bool,
}

/// A change in the service registry, as it is announced to the nodes.
#[derive(Debug, PartialEq)]
pub struct ServiceChangedEvent {
    pub agent_id: String,
    pub change_type: String,
    pub host: String,
    pub port: u16,
    pub health: String,
    pub agent_type: String,
    pub capabilities: Vec<String>,
    pub region: Option<String>,
    pub load: Single,
}

/// An agent as the service registry holds it.
#[derive(Debug, PartialEq)]
pub struct ServiceAgentInfo {
    pub agent_id: u128,
    pub name: String,
    pub agent_type: String,
    pub host: String,
    pub port: u16,
    pub capabilities: Vec<String>,
    pub health: String,
    /// The load in quarters of a full one.
    pub load_quarters: u8,
    pub region: Option<String>,
    pub version: String,
    pub last_heartbeat: Option<String>,
}

/// A change of an agent's health in the service registry.
#[derive(Debug, PartialEq)]
pub struct HealthUpdate {
    pub agent_id: u128,
    pub health: String,
    /// The load in quarters of a full one.
    pub load_quarters: u8,
}

/// The live progress of one task.
#[derive(Debug, PartialEq)]
pub struct TaskProgressState {
    pub dispatch_id: u128,
    pub task_name: String,
    pub percent: Double,
    pub downloaded_bytes: u64,
    pub total_size: u64,
    pub speed_bps: u64,
    pub active_connections: u32,
    pub elapsed_secs: Double,
    pub updated_at: String,
}

impl Clone for TaskProgressState {
    fn clone(&self) -> (r: Self)
        ensures
            r == *self,
    {
        TaskProgressState {
            dispatch_id: self.dispatch_id,
            task_name: self.task_name.clone(),
            percent: self.percent,
            downloaded_bytes: self.downloaded_bytes,
            total_size: self.total_size,
            speed_bps: self.speed_bps,
            active_connections: self.active_connections,
            elapsed_secs: self.elapsed_secs,
            updated_at: self.updated_at.clone(),
        }
    }
}

/// A copy of a list of progress entries.
pub fn clone_tasks(tasks: &Vec<TaskProgressState>) -> (r: Vec<TaskProgressState>)
    ensures
        r@ == tasks@,
{
    let r = tasks.clone();
    assert forall|i: int| 0 <= i < tasks@.len() implies r@[i] == tasks@[i] by {
        assert(cloned::<TaskProgressState>(tasks@[i], r@[i]));
    }
    assert(r@ =~= tasks@);
    r
}

/// What `NodeRealtime` holds.
#[verifier::ext_equal]
pub struct NodeRealtimeView {
    pub total_speed_bps: u64,
    pub active_tasks: Seq<TaskProgressState>,
    pub updated_at: Seq<char>,
}

impl NodeRealtimeView {
    /// The state of a node of which nothing is known yet.
    pub open spec fn blank() -> NodeRealtimeView {
        NodeRealtimeView { total_speed_bps: 0, active_tasks: seq![], updated_at: seq![] }
    }
}

/// The live state of a node. It is kept in memory only.
#[derive(Debug, PartialEq)]
pub struct NodeRealtime {
    pub total_speed_bps: u64,
    pub active_tasks: Vec<TaskProgressState>,
    pub updated_at: String,
}

impl View for NodeRealtime {
    type V = NodeRealtimeView;

    open spec fn view(&self) -> NodeRealtimeView {
        NodeRealtimeView {
            total_speed_bps: self.total_speed_bps,
            active_tasks: self.active_tasks@,
            updated_at: self.updated_at@,
        }
    }
}

impl Clone for NodeRealtime {
    fn clone(&self) -> (r: Self)
        ensures
            r@ == self@,
    {
        NodeRealtime {
            total_speed_bps: self.total_speed_bps,
            active_tasks: clone_tasks(&self.active_tasks),
            updated_at: self.updated_at.clone(),
        }
    }
}

impl Default for NodeRealtime {
    fn default() -> (r: Self)
        ensures
            r@ == NodeRealtimeView::blank(),
    {
        NodeRealtime { total_speed_bps: 0, active_tasks: Vec::new(), updated_at: String::new() }
    }
}

/// A node as the database describes it.
#[derive(Debug, PartialEq)]
pub struct NodeInfo {
    pub id: String,
    pub hostname: String,
    pub platform: String,
    pub arch: String,
    pub version: String,
    pub status: String,
    pub last_seen: String,
}

impl Clone for NodeInfo {
    fn clone(&self) -> (r: Self)
        ensures
            r == *self,
    {
        NodeInfo {
            id: self.id.clone(),
            hostname: self.hostname.clone(),
            platform: self.platform.clone(),
            arch: self.arch.clone(),
            version: self.version.clone(),
            status: self.status.clone(),
            last_seen: self.last_seen.clone(),
        }
    }
}

} // verus!
