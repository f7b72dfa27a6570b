//! The task registry: guarantees at most one in-flight run per task
//! identity. The surrounding binary spawns a worker only when the registry
//! reports a fresh registration, so duplicate triggers of the same
//! long-running stream are silent no-ops.

use vstd::prelude::*;

verus! {

/// The identity of a concurrently schedulable task: the registry key.
#[derive(Clone, Copy, Debug, Eq, Hash, PartialEq, Structural)]
pub enum WidgetTaskId {
    CheckConnectivity,
    GetLoginLogs,
    GetLogs,
    GetPods,
}

/// One liveness flag per task identity.
#[derive(Clone, Copy, Debug, PartialEq, Eq, Structural)]
pub struct ThreadManager {
    pub connectivity_running: bool,
    pub login_logs_running: bool,
    pub logs_running: bool,
    pub pods_running: bool,
}

impl ThreadManager {
    /// Whether a run is live for `id`.
    pub open spec fn running(self, id: WidgetTaskId) -> bool {
        match id {
            WidgetTaskId::CheckConnectivity => self.connectivity_running,
            WidgetTaskId::GetLoginLogs => self.login_logs_running,
            WidgetTaskId::GetLogs => self.logs_running,
            WidgetTaskId::GetPods => self.pods_running,
        }
    }

    /// This registry with `id`'s liveness flag replaced.
    pub open spec fn with_running(self, id: WidgetTaskId, val: bool) -> ThreadManager {
        match id {
            WidgetTaskId::CheckConnectivity => ThreadManager {
                connectivity_running: val,
                ..self
            },
            WidgetTaskId::GetLoginLogs => ThreadManager { login_logs_running: val, ..self },
            WidgetTaskId::GetLogs => ThreadManager { logs_running: val, ..self },
            WidgetTaskId::GetPods => ThreadManager { pods_running: val, ..self },
        }
    }

    /// A fresh registry: nothing is running.
    pub fn new() -> (r: Self)
        ensures
            forall|id: WidgetTaskId| !r.running(id),
    {
        ThreadManager {
            connectivity_running: false,
            login_logs_running: false,
            logs_running: false,
            pods_running: false,
        }
    }

    /// Registers a run for `id` unless one is already live. Returns whether
    /// a fresh run was registered: a second call for the same identity is a
    /// silent no-op, so at most one run is ever live per identity.
    pub fn start_if_absent(&mut self, id: WidgetTaskId) -> (fresh: bool)
        ensures
            fresh == !old(self).running(id),
            *final(self) == old(self).with_running(id, true),
    {
        let fresh = !self.is_running(id);
        match id {
            WidgetTaskId::CheckConnectivity => self.connectivity_running = true,
            WidgetTaskId::GetLoginLogs => self.login_logs_running = true,
            WidgetTaskId::GetLogs => self.logs_running = true,
            WidgetTaskId::GetPods => self.pods_running = true,
        }
        fresh
    }

    /// Whether a run is live for `id`.
    pub fn is_running(&self, id: WidgetTaskId) -> (r: bool)
        ensures
            r == self.running(id),
    {
        match id {
            WidgetTaskId::CheckConnectivity => self.connectivity_running,
            WidgetTaskId::GetLoginLogs => self.login_logs_running,
            WidgetTaskId::GetLogs => self.logs_running,
            WidgetTaskId::GetPods => self.pods_running,
        }
    }

    /// Releases `id`'s entry so a subsequent start registers a fresh run.
    pub fn stop(&mut self, id: WidgetTaskId)
        ensures
            *final(self) == old(self).with_running(id, false),
    {
        match id {
            WidgetTaskId::CheckConnectivity => self.connectivity_running = false,
            WidgetTaskId::GetLoginLogs => self.login_logs_running = false,
            WidgetTaskId::GetLogs => self.logs_running = false,
            WidgetTaskId::GetPods => self.pods_running = false,
        }
    }

    /// Releases every entry: used when switching environments, so the
    /// long-lived streams restart against the new cluster.
    pub fn stop_threads(&mut self)
        ensures
            forall|id: WidgetTaskId| !final(self).running(id),
    {
        self.connectivity_running = false;
        self.login_logs_running = false;
        self.logs_running = false;
        self.pods_running = false;
    }
}

/// Starting a task twice in a row registers exactly one run: the second
/// start finds the identity live, changes nothing, and reports no fresh
/// registration.
pub proof fn lemma_start_if_absent_idempotent(m: ThreadManager, id: WidgetTaskId)
    ensures
        m.with_running(id, true).with_running(id, true) == m.with_running(id, true),
        m.with_running(id, true).running(id),
{
}

/// Once an entry is released, the next start registers a fresh run.
pub proof fn lemma_stop_then_start_fresh(m: ThreadManager, id: WidgetTaskId)
    ensures
        !m.with_running(id, false).running(id),
{
}

/// Starting or stopping one identity never touches another's entry.
pub proof fn lemma_registry_isolation(m: ThreadManager, id: WidgetTaskId, other: WidgetTaskId, val: bool)
    requires
        id != other,
    ensures
        m.with_running(id, val).running(other) == m.running(other),
{
}

} // verus!
