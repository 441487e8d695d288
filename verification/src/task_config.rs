//! The configuration that a node receives once it has claimed a task.

use vstd::prelude::*;

use crate::models::{NodeConfig, NodeTask, PkConfig, SpdeDefaults, Task, TaskItem};
use crate::text::last_segment;

verus! {

/// What an override sets, or else the default.
pub open spec fn effective<V>(set: Option<V>, default: V) -> V {
    match set {
        Some(v) => v,
        None => default,
    }
}

/// The task item for `task`: its overrides where it has them, the defaults elsewhere. Whether a
/// download resumes and through which proxies it goes cannot be overridden.
pub open spec fn task_item(defaults: SpdeDefaults, task: Task) -> TaskItem {
    TaskItem {
        url: task.url,
        filename: task.filename,
        save_path: effective(task.overrides.save_path, defaults.save_path),
        max_concurrent: effective(task.overrides.max_concurrent, defaults.max_concurrent),
        connections_per_file: effective(
            task.overrides.connections_per_file,
            defaults.connections_per_file,
        ),
        retry_times: effective(task.overrides.retry_times, defaults.retry_times),
        timeout: effective(task.overrides.timeout, defaults.timeout),
        dry_run: effective(task.overrides.dry_run, defaults.dry_run),
        skip_tls_verify: effective(task.overrides.skip_tls_verify, defaults.skip_tls_verify),
        resume: defaults.resume,
        http_proxy: defaults.http_proxy,
        https_proxy: defaults.https_proxy,
    }
}

/// The address under which nodes on this host reach `pk`.
pub open spec fn master_of(listen: Seq<char>) -> Seq<char> {
    "http://127.0.0.1:"@ + crate::text::last_segment_of(listen)
}

fn clone_text(text: &Option<String>) -> (r: Option<String>)
    ensures
        r == *text,
{
    match text {
        Some(t) => Some(t.clone()),
        None => None,
    }
}

/// The configuration for a dispatched task: one task item, the master's address on this host with
/// the port that `pk` listens on, and the token unless it is empty.
pub fn build_node_task_config(cfg: &PkConfig, node_task: &NodeTask) -> (r: NodeConfig)
    ensures
        r.dispatch_id == node_task.dispatch_id,
        r.master@ == master_of(cfg.listen@),
        r.token == (if cfg.token@.len() == 0 {
            None
        } else {
            Some(cfg.token)
        }),
        r.tasks@ == seq![task_item(cfg.spde_defaults, node_task.task)],
{
    let defaults = &cfg.spde_defaults;
    let t = &node_task.task;
    let mut item = TaskItem {
        url: t.url.clone(),
        filename: t.filename.clone(),
        save_path: defaults.save_path.clone(),
        max_concurrent: defaults.max_concurrent,
        connections_per_file: defaults.connections_per_file,
        retry_times: defaults.retry_times,
        timeout: defaults.timeout,
        dry_run: defaults.dry_run,
        skip_tls_verify: defaults.skip_tls_verify,
        resume: defaults.resume,
        http_proxy: clone_text(&defaults.http_proxy),
        https_proxy: clone_text(&defaults.https_proxy),
    };
    let o = &t.overrides;
    if let Some(v) = o.max_concurrent {
        item.max_concurrent = v;
    }
    if let Some(v) = o.connections_per_file {
        item.connections_per_file = v;
    }
    if let Some(v) = o.retry_times {
        item.retry_times = v;
    }
    if let Some(v) = o.timeout {
        item.timeout = v;
    }
    if let Some(v) = o.skip_tls_verify {
        item.skip_tls_verify = v;
    }
    if let Some(v) = o.dry_run {
        item.dry_run = v;
    }
    if let Some(v) = &o.save_path {
        item.save_path = v.clone();
    }
    let mut tasks: Vec<TaskItem> = Vec::new();
    tasks.push(item);
    assert(tasks@ =~= seq![task_item(cfg.spde_defaults, node_task.task)]);
    NodeConfig {
        dispatch_id: node_task.dispatch_id,
        master: "http://127.0.0.1:".to_string().concat(last_segment(cfg.listen.as_str())),
        token: if cfg.token.as_str().is_empty() {
            None
        } else {
            Some(cfg.token.clone())
        },
        tasks,
    }
}

} // verus!
