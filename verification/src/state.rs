use vstd::prelude::*;

use crate::channel::AbortSender;
use crate::channel::HttpQueryHandle;
use crate::data::DataSchema;
use crate::error::ErrorCode;
use crate::progress::ProgressValues;

verus! {

/// A statement submitted for execution.
#[derive(Debug)]
pub struct HttpQueryRequest {
    pub sql: String,
}

/// The observable name of the execution state, derived from the
/// lifecycle variant: `Succeeded` and `Failed` come from the recorded
/// terminal outcome, `Running` otherwise.
#[derive(Debug, Copy, Clone, PartialEq, Eq, Structural)]
pub enum ExecuteStateName {
    Running,
    Failed,
    Succeeded,
}

/// The session that owns the execution, identified here by the value
/// the lifecycle logic reads. Its force-kill capability is an outside
/// action; the state machine only decides when it must be invoked.
#[derive(Debug, Clone, Copy, PartialEq, Eq, Structural)]
pub struct Session {
    pub id: u64,
}

/// The execution context created for one statement: the attached query
/// text and the live progress counters the pipeline advances.
#[derive(Debug)]
pub struct QueryContext {
    pub query: String,
    pub progress: ProgressValues,
}

impl QueryContext {
    /// Snapshot of the current counters; a plain value copy.
    pub fn get_progress_value(&self) -> (r: ProgressValues)
        ensures
            r == self.progress,
    {
        self.progress
    }
}

/// The live half of the lifecycle: the owning session (used only to
/// force-kill the underlying execution) and the shared context (used
/// only to read live progress).
#[derive(Debug)]
pub struct ExecuteRunning {
    pub session: Session,
    pub context: QueryContext,
}

/// The terminal half of the lifecycle: the progress frozen at the
/// moment of stopping and the recorded outcome, `Ok` only on clean
/// end-of-stream.
#[derive(Debug)]
pub struct ExecuteStopped {
    pub progress: Option<ProgressValues>,
    pub reason: Result<(), ErrorCode>,
}

/// The lifecycle of one execution: it transitions `Running` to
/// `Stopped` exactly once and never back.
#[derive(Debug)]
pub enum ExecuteState {
    Running(ExecuteRunning),
    Stopped(ExecuteStopped),
}

/// The guarded state machine external callers observe. The surrounding
/// program serializes access to it; every operation here is either a
/// pure read or the one permitted one-way write.
#[derive(Debug)]
pub struct ExecuteStateWrapper {
    pub state: ExecuteState,
}

impl ExecuteStateWrapper {
    pub open spec fn is_running(self) -> bool {
        self.state is Running
    }

    pub open spec fn is_stopped(self) -> bool {
        self.state is Stopped
    }

    /// The live counters, meaningful only while running.
    pub open spec fn live_progress(self) -> ProgressValues
        recommends
            self.is_running(),
    {
        self.state->Running_0.context.progress
    }

    pub open spec fn running_session(self) -> Session
        recommends
            self.is_running(),
    {
        self.state->Running_0.session
    }

    pub open spec fn running_query(self) -> Seq<char>
        recommends
            self.is_running(),
    {
        self.state->Running_0.context.query@
    }

    pub open spec fn stopped_reason(self) -> Result<(), ErrorCode>
        recommends
            self.is_stopped(),
    {
        self.state->Stopped_0.reason
    }

    pub open spec fn stopped_progress(self) -> Option<ProgressValues>
        recommends
            self.is_stopped(),
    {
        self.state->Stopped_0.progress
    }

    /// What a status poll returns, as a function of the state alone:
    /// polling mutates nothing, so repeated polls of a stopped
    /// execution always see the same payload.
    pub open spec fn extract_spec(self) -> (ExecuteStateName, Option<ErrorCode>) {
        match self.state {
            ExecuteState::Running(_) => (ExecuteStateName::Running, None),
            ExecuteState::Stopped(s) => match s.reason {
                Ok(_) => (ExecuteStateName::Succeeded, None),
                Err(e) => (ExecuteStateName::Failed, Some(e)),
            },
        }
    }

    /// What a progress poll returns: the live counters while running,
    /// the frozen snapshot after stopping.
    pub open spec fn get_progress_spec(self) -> Option<ProgressValues> {
        match self.state {
            ExecuteState::Running(r) => Some(r.context.progress),
            ExecuteState::Stopped(s) => s.progress,
        }
    }

    /// The one-way transition as a function on states: a stop request
    /// against an already stopped execution is a silent no-op and never
    /// kills; against a running one it freezes the current progress,
    /// records the reason, and reports whether the session's force-kill
    /// capability must be invoked.
    pub open spec fn stop_spec(self, reason: Result<(), ErrorCode>, kill: bool) -> (
        ExecuteStateWrapper,
        bool,
    ) {
        match self.state {
            ExecuteState::Stopped(_) => (self, false),
            ExecuteState::Running(r) => (
                ExecuteStateWrapper {
                    state: ExecuteState::Stopped(
                        ExecuteStopped { progress: Some(r.context.progress), reason },
                    ),
                },
                kill,
            ),
        }
    }

    /// Recording completed work as a function on states: only the live
    /// counters advance, everything else is untouched.
    pub open spec fn record_spec(self, rows: u64, bytes: u64) -> ExecuteStateWrapper
        recommends
            self.is_running(),
    {
        let r = self.state->Running_0;
        ExecuteStateWrapper {
            state: ExecuteState::Running(
                ExecuteRunning {
                    session: r.session,
                    context: QueryContext {
                        query: r.context.query,
                        progress: ProgressValues {
                            read_rows: (r.context.progress.read_rows + rows) as u64,
                            read_bytes: (r.context.progress.read_bytes + bytes) as u64,
                        },
                    },
                },
            ),
        }
    }

    /// Non-blocking status read; a pure projection of the state.
    pub fn extract(&self) -> (r: (ExecuteStateName, Option<ErrorCode>))
        ensures
            r == self.extract_spec(),
    {
        match &self.state {
            ExecuteState::Running(_) => (ExecuteStateName::Running, None),
            ExecuteState::Stopped(v) => match &v.reason {
                Ok(_) => (ExecuteStateName::Succeeded, None),
                Err(e) => (ExecuteStateName::Failed, Some(e.clone())),
            },
        }
    }

    /// Progress read: live counters while running, frozen snapshot
    /// afterwards.
    pub fn get_progress(&self) -> (r: Option<ProgressValues>)
        ensures
            r == self.get_progress_spec(),
    {
        match &self.state {
            ExecuteState::Running(r) => Some(r.context.get_progress_value()),
            ExecuteState::Stopped(f) => f.progress,
        }
    }

    /// Record work the pipeline completed while producing the block in
    /// hand. Progress may run ahead of what was delivered; it reflects
    /// work completed, not work handed to the consumer.
    pub fn record_progress(&mut self, rows: u64, bytes: u64)
        requires
            old(self).is_running(),
            old(self).live_progress().read_rows + rows <= u64::MAX,
            old(self).live_progress().read_bytes + bytes <= u64::MAX,
        ensures
            *final(self) == old(self).record_spec(rows, bytes),
            final(self).is_running(),
            final(self).running_session() == old(self).running_session(),
            final(self).running_query() == old(self).running_query(),
            final(self).live_progress().read_rows == old(self).live_progress().read_rows + rows,
            final(self).live_progress().read_bytes == old(self).live_progress().read_bytes + bytes,
    {
        match &mut self.state {
            ExecuteState::Running(r) => {
                r.context.progress.incr(rows, bytes);
            },
            ExecuteState::Stopped(_) => {},
        }
    }

    /// The only write the lifecycle permits. Idempotent: whichever of
    /// the three completion sources stops first wins; every later
    /// request is dropped silently. Returns whether the caller must
    /// invoke the session's force-kill capability, which is never owed
    /// twice for one execution.
    pub fn stop(&mut self, reason: Result<(), ErrorCode>, kill: bool) -> (killed: bool)
        ensures
            (*final(self), killed) == old(self).stop_spec(reason, kill),
    {
        let progress_opt = match &self.state {
            ExecuteState::Running(r) => Some(r.context.get_progress_value()),
            ExecuteState::Stopped(_) => None,
        };
        match progress_opt {
            Some(p) => {
                self.state = ExecuteState::Stopped(
                    ExecuteStopped { progress: Some(p), reason },
                );
                kill
            },
            None => false,
        }
    }
}

impl ExecuteState {
    /// Build the lifecycle for one submitted statement. Planning is an
    /// outside collaborator; its outcome arrives here as a value, and a
    /// planning failure is surfaced synchronously — execution never
    /// starts and no state is created. On success the state machine
    /// begins `Running` with zeroed counters, the query text attached,
    /// and a fresh abort handle whose channel holds no signal yet.
    pub fn try_create(request: &HttpQueryRequest, session: Session, plan: Result<
        DataSchema,
        ErrorCode,
    >) -> (r: Result<(ExecuteStateWrapper, HttpQueryHandle, DataSchema), ErrorCode>)
        ensures
            plan matches Err(e) ==> (r matches Err(e2) && e2 == e),
            plan matches Ok(schema) ==> (r matches Ok(t) && {
                &&& t.0.is_running()
                &&& t.0.running_session() == session
                &&& t.0.running_query() == request.sql@
                &&& t.0.live_progress() == (ProgressValues { read_rows: 0, read_bytes: 0 })
                &&& t.1.abort_sender.queued == 0
                &&& t.2 == schema
            }),
    {
        let schema = match plan {
            Ok(schema) => schema,
            Err(e) => {
                return Err(e);
            },
        };
        let context = QueryContext { query: request.sql.clone(), progress: ProgressValues::zero() };
        let running_state = ExecuteRunning { session, context };
        let wrapper = ExecuteStateWrapper { state: ExecuteState::Running(running_state) };
        let handle = HttpQueryHandle { abort_sender: AbortSender::new() };
        Ok((wrapper, handle, schema))
    }
}

} // verus!
