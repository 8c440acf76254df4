//! Task dispatch: the executor's lifecycle and the rule that every accepted
//! task is reported by exactly one result message.
//!
//! The dispatcher decides; the caller runs handlers on its threads or runtime
//! and sends the messages that the dispatcher hands out, in order.
use crate::binary_protocol::{
    stamped, BytesData, DataPayload, DataType, StringData, TaskEventMessage, TaskStatus,
    PROTOCOL_MAGIC, PROTOCOL_VERSION,
};
use vstd::prelude::*;
use vstd::utf8::encode_utf8;

verus! {

/// Identifier of a submitted task; 0 marks a refused submission and the
/// shutdown message.
pub type TaskId = u64;

/// A native port of the managed runtime.
pub type DartPort = i64;

/// A submitted unit of work. The buffers are borrowed from the caller, by
/// address, for the duration of handling only.
#[derive(Debug, Clone, Copy, PartialEq, Eq, Structural)]
pub struct TaskCommand {
    pub task_id: TaskId,
    pub command_type: u8,
    pub data_ptr: usize,
    pub data_len: usize,
    pub params_ptr: usize,
    pub params_count: usize,
}

/// What a handler produces for a command.
#[derive(Debug, Clone, PartialEq)]
pub enum CommandResult {
    NoData,
    Bool(bool),
    U64(u64),
    /// A buffer (address, length) whose ownership passes to the recipient,
    /// who releases it through the memory manager.
    WithData(usize, usize),
    Error(String),
}

/// Interprets a command's type byte and buffers and produces a result. A
/// handler reports failure as `CommandResult::Error` and keeps no address
/// past its return.
pub trait CommandHandler {
    fn handle_command(&self, command: &TaskCommand) -> CommandResult;
}

/// Byte length of a text in UTF-8.
pub open spec fn utf8_len(s: Seq<char>) -> nat {
    encode_utf8(s).len()
}

/// The message that reports `result` for a task; an error's text is
/// referenced at `text_ptr`.
pub open spec fn result_message(task_id: TaskId, result: CommandResult, text_ptr: usize) -> TaskEventMessage {
    match result {
        CommandResult::NoData => stamped(task_id, TaskStatus::Success, DataPayload::Empty),
        CommandResult::Bool(b) => stamped(task_id, TaskStatus::SuccessWithData, DataPayload::Bool(b)),
        CommandResult::U64(v) => stamped(task_id, TaskStatus::SuccessWithData, DataPayload::U64(v)),
        CommandResult::WithData(p, l) => stamped(
            task_id,
            TaskStatus::SuccessWithData,
            DataPayload::Bytes(BytesData { ptr: p, len: l }),
        ),
        CommandResult::Error(s) => stamped(
            task_id,
            TaskStatus::UnknownError,
            DataPayload::String(StringData { ptr: text_ptr, len: utf8_len(s@) as usize }),
        ),
    }
}

/// Builds the message that reports `result`; for an error, `text_ptr` is
/// where the caller keeps the error's UTF-8 bytes.
pub fn message_for_result(task_id: TaskId, result: &CommandResult, text_ptr: usize) -> (r: TaskEventMessage)
    ensures
        r == result_message(task_id, *result, text_ptr),
{
    match result {
        CommandResult::NoData => TaskEventMessage::no_data(task_id),
        CommandResult::Bool(b) => TaskEventMessage::bool_data(task_id, *b),
        CommandResult::U64(v) => TaskEventMessage::u64_data(task_id, *v),
        CommandResult::WithData(p, l) => TaskEventMessage::bytes_data(task_id, *p, *l),
        CommandResult::Error(s) => TaskEventMessage::error_message(
            task_id,
            TaskStatus::UnknownError,
            text_ptr,
            s.as_str().len(),
        ),
    }
}

/// The executor's lifecycle.
#[derive(Debug, Clone, Copy, PartialEq, Eq, Structural)]
pub enum ExecutorState {
    /// No runtime installed yet.
    Created,
    /// Runtime installed; tasks are scheduled.
    Running,
    /// Shutdown requested; no new work starts, work in flight may report.
    ShuttingDown,
    /// The shutdown message went out; nothing more is emitted.
    Stopped,
}

/// What the caller does with a submission.
#[derive(Debug, Clone, Copy, PartialEq, Eq, Structural)]
pub enum SubmitAction {
    /// Run the command's handler and report through `complete`.
    Schedule(TaskCommand),
    /// Send this message now; the task is over.
    Emit(TaskEventMessage),
    /// Refused: the executor is shutting down or out of task ids.
    Reject,
}

/// The answer to a submission: the task id (0 when refused) and the action.
#[derive(Debug, Clone, Copy, PartialEq, Eq, Structural)]
pub struct Submission {
    pub task_id: TaskId,
    pub action: SubmitAction,
}

/// What a worker thread takes off its queue: a task, or the shutdown
/// sentinel, which never reaches a handler.
#[derive(Debug, Clone, Copy, PartialEq, Eq, Structural)]
pub enum WorkerMessage {
    Task(TaskCommand),
    Shutdown,
}

/// A dispatcher, as plain values.
pub struct DispatcherState {
    pub state: ExecutorState,
    pub next_task_id: u64,
    pub notice: StringData,
    pub in_flight: Seq<TaskId>,
    /// Every message handed out, in order.
    pub log: Seq<TaskEventMessage>,
}

/// Whether `s` holds `id`.
pub open spec fn holds(s: Seq<TaskId>, id: TaskId) -> bool {
    exists|i: int| 0 <= i < s.len() && s[i] == id
}

/// Whether some message in `log` reports task `id`.
pub open spec fn reported(log: Seq<TaskEventMessage>, id: TaskId) -> bool {
    exists|i: int| 0 <= i < log.len() && (#[trigger] log[i]).header.task_id == id
}

impl DispatcherState {
    /// A submission: refused with id 0 while shutting down or stopped or
    /// with no id left; otherwise it takes the next id and, before the
    /// runtime exists, is answered by one error message citing the notice,
    /// and once running is scheduled as a command in flight.
    pub open spec fn submit_step(
        self,
        command_type: u8,
        data_ptr: usize,
        data_len: usize,
        params_ptr: usize,
        params_count: usize,
    ) -> (DispatcherState, Submission) {
        let id = self.next_task_id;
        if self.state is ShuttingDown || self.state is Stopped || id == u64::MAX {
            (self, Submission { task_id: 0, action: SubmitAction::Reject })
        } else if self.state is Created {
            let m = stamped(id, TaskStatus::UnknownError, DataPayload::String(self.notice));
            (
                DispatcherState { next_task_id: (id + 1) as u64, log: self.log.push(m), ..self },
                Submission { task_id: id, action: SubmitAction::Emit(m) },
            )
        } else {
            (
                DispatcherState {
                    next_task_id: (id + 1) as u64,
                    in_flight: self.in_flight.push(id),
                    ..self
                },
                Submission {
                    task_id: id,
                    action: SubmitAction::Schedule(
                        TaskCommand {
                            task_id: id,
                            command_type,
                            data_ptr,
                            data_len,
                            params_ptr,
                            params_count,
                        },
                    ),
                },
            )
        }
    }

    /// The invariant. Ids in flight are issued, distinct and unreported;
    /// reported task ids are issued and appear once; a shutdown message
    /// appears exactly when the dispatcher is stopped, as the last message.
    pub open spec fn wf(self) -> bool {
        &&& self.next_task_id >= 1
        &&& forall|i: int|
            0 <= i < self.in_flight.len() ==> 1 <= #[trigger] self.in_flight[i]
                < self.next_task_id && !reported(self.log, self.in_flight[i])
        &&& forall|i: int, j: int|
            #![trigger self.in_flight[i], self.in_flight[j]]
            0 <= i < j < self.in_flight.len() ==> self.in_flight[i] != self.in_flight[j]
        &&& forall|i: int|
            0 <= i < self.log.len() ==> (#[trigger] self.log[i]).header.task_id
                < self.next_task_id
        &&& forall|i: int, j: int|
            0 <= i < j < self.log.len() && self.log[i].header.task_id != 0 ==> (
            #[trigger] self.log[i]).header.task_id != (#[trigger] self.log[j]).header.task_id
        &&& forall|i: int|
            0 <= i < self.log.len() ==> ((#[trigger] self.log[i]).header.status is WorkerShutdown
                <==> (self.state is Stopped && i == self.log.len() - 1))
        &&& forall|i: int|
            0 <= i < self.log.len() ==> (#[trigger] self.log[i]).header.task_id == 0
                ==> self.log[i].header.status is WorkerShutdown
        &&& self.state is Stopped ==> self.log.len() > 0 && self.log.last() == stamped(
            0,
            TaskStatus::WorkerShutdown,
            DataPayload::Empty,
        )
        &&& self.state is Stopped ==> self.in_flight.len() == 0
    }
}

/// Decides, for one executor, which submissions run, which message reports
/// each task, and when the executor stops.
pub struct TaskDispatcher {
    state: ExecutorState,
    next_task_id: u64,
    notice: StringData,
    in_flight: Vec<TaskId>,
    log: Ghost<Seq<TaskEventMessage>>,
}

impl View for TaskDispatcher {
    type V = DispatcherState;

    closed spec fn view(&self) -> DispatcherState {
        DispatcherState {
            state: self.state,
            next_task_id: self.next_task_id,
            notice: self.notice,
            in_flight: self.in_flight@,
            log: self.log@,
        }
    }
}

impl TaskDispatcher {
    /// A dispatcher with no runtime installed. `notice` locates the text of
    /// the error that reports a submission made before the runtime exists.
    pub fn new(notice: StringData) -> (r: TaskDispatcher)
        ensures
            r@.wf(),
            r@ == (DispatcherState {
                state: ExecutorState::Created,
                next_task_id: 1,
                notice,
                in_flight: Seq::empty(),
                log: Seq::empty(),
            }),
    {
        let r = TaskDispatcher {
            state: ExecutorState::Created,
            next_task_id: 1,
            notice,
            in_flight: Vec::new(),
            log: Ghost(Seq::empty()),
        };
        proof {
            assert(r@.in_flight =~= Seq::<TaskId>::empty());
        }
        r
    }

    /// The lifecycle state.
    pub fn state(&self) -> (r: ExecutorState)
        ensures
            r == self@.state,
    {
        self.state
    }

    /// Whether a runtime is installed and no shutdown was requested.
    pub fn is_running(&self) -> (r: bool)
        ensures
            r == (self@.state is Running),
    {
        matches!(self.state, ExecutorState::Running)
    }

    /// Installs the runtime, once: from `Created` the dispatcher starts
    /// running and the result is true; any later attempt changes nothing.
    pub fn install_runtime(&mut self) -> (r: bool)
        requires
            old(self)@.wf(),
        ensures
            final(self)@.wf(),
            r == (old(self)@.state is Created),
            r ==> final(self)@ == (DispatcherState { state: ExecutorState::Running, ..old(self)@ }),
            !r ==> final(self)@ == old(self)@,
    {
        if matches!(self.state, ExecutorState::Created) {
            self.state = ExecutorState::Running;
            true
        } else {
            false
        }
    }

    /// Removes `id` from the ids in flight; false if it is not there.
    fn take_in_flight(&mut self, id: TaskId) -> (r: bool)
        requires
            forall|i: int, j: int|
                #![trigger old(self).in_flight@[i], old(self).in_flight@[j]]
                0 <= i < j < old(self).in_flight@.len() ==> old(self).in_flight@[i]
                    != old(self).in_flight@[j],
        ensures
            r == holds(old(self).in_flight@, id),
            !r ==> final(self).in_flight@ == old(self).in_flight@,
            final(self).state == old(self).state,
            final(self).next_task_id == old(self).next_task_id,
            final(self).notice == old(self).notice,
            final(self).log == old(self).log,
            forall|x: TaskId|
                holds(final(self).in_flight@, x) == (holds(old(self).in_flight@, x) && x != id),
            final(self).in_flight@.len() <= old(self).in_flight@.len(),
            forall|i: int, j: int|
                0 <= i < j < final(self).in_flight@.len() ==> final(self).in_flight@[i]
                    != final(self).in_flight@[j],
            forall|i: int|
                0 <= i < final(self).in_flight@.len() ==> holds(
                    old(self).in_flight@,
                    #[trigger] final(self).in_flight@[i],
                ),
    {
        let mut i: usize = 0;
        while i < self.in_flight.len()
            invariant
                i <= self.in_flight@.len(),
                self.in_flight@ == old(self).in_flight@,
                self.state == old(self).state,
                self.next_task_id == old(self).next_task_id,
                self.notice == old(self).notice,
                self.log == old(self).log,
                forall|k: int| 0 <= k < i ==> self.in_flight@[k] != id,
                forall|a: int, c: int|
                    0 <= a < c < self.in_flight@.len() ==> self.in_flight@[a] != self.in_flight@[c],
            decreases self.in_flight@.len() - i,
        {
            if self.in_flight[i] == id {
                let ghost before = self.in_flight@;
                self.in_flight.remove(i);
                proof {
                    let after = self.in_flight@;
                    assert(after == before.remove(i as int));
                    assert(before[i as int] == id);
                    assert forall|k: int| 0 <= k < after.len() implies #[trigger] after[k] == if k < i {
                        before[k]
                    } else {
                        before[k + 1]
                    } by {}
                    assert forall|x: TaskId| holds(after, x) == (holds(before, x) && x != id) by {
                        if holds(after, x) {
                            let k = choose|k: int| 0 <= k < after.len() && after[k] == x;
                            if k < i {
                                assert(before[k] == x);
                                assert(before[k] != before[i as int]);
                            } else {
                                assert(before[k + 1] == x);
                                assert(before[k + 1] != before[i as int]);
                            }
                        }
                        if holds(before, x) && x != id {
                            let k = choose|k: int| 0 <= k < before.len() && before[k] == x;
                            if k < i {
                                assert(after[k] == x);
                            } else {
                                assert(k != i);
                                assert(after[k - 1] == x);
                            }
                        }
                    }
                    assert forall|a: int| 0 <= a < after.len() implies holds(before, #[trigger] after[a]) by {
                        if a < i {
                            assert(before[a] == after[a]);
                        } else {
                            assert(before[a + 1] == after[a]);
                        }
                    }
                    assert forall|a: int, c: int| 0 <= a < c < after.len() implies after[a] != after[c] by {
                        let a2 = if a < i { a } else { a + 1 };
                        let c2 = if c < i { c } else { c + 1 };
                        assert(after[a] == before[a2]);
                        assert(after[c] == before[c2]);
                    }
                }
                return true;
            }
            i = i + 1;
        }
        false
    }


    /// Appends a message to the record of what was handed out.
    proof fn lemma_push_reported(log: Seq<TaskEventMessage>, m: TaskEventMessage)
        ensures
            forall|x: TaskId| reported(log.push(m), x) == (reported(log, x) || m.header.task_id == x),
            forall|i: int| 0 <= i < log.len() ==> log.push(m)[i] == log[i],
    {
        assert forall|x: TaskId| reported(log.push(m), x) == (reported(log, x) || m.header.task_id == x) by {
            if reported(log, x) {
                let i = choose|i: int| 0 <= i < log.len() && (#[trigger] log[i]).header.task_id == x;
                assert(log.push(m)[i] == log[i]);
            }
            if m.header.task_id == x {
                assert(log.push(m)[log.len() as int] == m);
            }
            if reported(log.push(m), x) {
                let i = choose|i: int| 0 <= i < log.len() + 1 && (#[trigger] log.push(m)[i]).header.task_id == x;
                if i < log.len() {
                    assert(log[i] == log.push(m)[i]);
                }
            }
        }
    }

    /// Reports the result of a task in flight: the task leaves the flight and
    /// the message that reports `result` is handed out (an error's text is
    /// referenced at `text_ptr`). A task not in flight, or any task once the
    /// dispatcher is stopped, gets nothing.
    pub fn complete(&mut self, task_id: TaskId, result: &CommandResult, text_ptr: usize) -> (r: Option<TaskEventMessage>)
        requires
            old(self)@.wf(),
        ensures
            final(self)@.wf(),
            old(self)@.state is Stopped || !holds(old(self)@.in_flight, task_id) ==> r is None
                && final(self)@ == old(self)@,
            !(old(self)@.state is Stopped) && holds(old(self)@.in_flight, task_id) ==> {
                let m = result_message(task_id, *result, text_ptr);
                &&& r == Some(m)
                &&& final(self)@.log == old(self)@.log.push(m)
                &&& final(self)@.state == old(self)@.state
                &&& final(self)@.next_task_id == old(self)@.next_task_id
                &&& final(self)@.notice == old(self)@.notice
                &&& forall|x: TaskId|
                    holds(final(self)@.in_flight, x) == (holds(old(self)@.in_flight, x) && x
                        != task_id)
            },
    {
        if matches!(self.state, ExecutorState::Stopped) {
            return None;
        }
        let ghost before = self@;
        proof {
            assert(before.wf());
            assert(before.in_flight == self.in_flight@);
        }
        if !self.take_in_flight(task_id) {
            return None;
        }
        let m = message_for_result(task_id, result, text_ptr);
        proof {
            Self::lemma_push_reported(self.log@, m);
            let k = choose|k: int| 0 <= k < before.in_flight.len() && before.in_flight[k] == task_id;
            assert(1 <= before.in_flight[k] < before.next_task_id);
        }
        self.log = Ghost(self.log@.push(m));
        Some(m)
    }


    /// Takes a task id for an asynchronous runtime initialisation, whose
    /// outcome is reported through `finish_runtime_init`. None while shutting
    /// down or stopped, or with no task id left.
    pub fn begin_runtime_init(&mut self) -> (r: Option<TaskId>)
        requires
            old(self)@.wf(),
        ensures
            final(self)@.wf(),
            old(self)@.state is ShuttingDown || old(self)@.state is Stopped
                || old(self)@.next_task_id == u64::MAX ==> r is None && final(self)@ == old(self)@,
            !(old(self)@.state is ShuttingDown || old(self)@.state is Stopped
                || old(self)@.next_task_id == u64::MAX) ==> r == Some(old(self)@.next_task_id)
                && final(self)@ == (DispatcherState {
                next_task_id: (old(self)@.next_task_id + 1) as u64,
                in_flight: old(self)@.in_flight.push(old(self)@.next_task_id),
                ..old(self)@
            }),
    {
        if matches!(self.state, ExecutorState::ShuttingDown) || matches!(
            self.state,
            ExecutorState::Stopped,
        ) || self.next_task_id == u64::MAX {
            return None;
        }
        let task_id = self.next_task_id;
        self.next_task_id = task_id + 1;
        let ghost old_flight = self.in_flight@;
        self.in_flight.push(task_id);
        proof {
            assert(forall|i: int| 0 <= i < old_flight.len() ==> self.in_flight@[i] == old_flight[i]);
        }
        Some(task_id)
    }

    /// Reports an asynchronous runtime initialisation. A runtime that was
    /// built is installed if none is yet, and the dispatcher starts running;
    /// the message carries whether this call installed it. An id not in
    /// flight, or any id once stopped, gets nothing.
    pub fn finish_runtime_init(&mut self, task_id: TaskId, built: bool) -> (r: Option<TaskEventMessage>)
        requires
            old(self)@.wf(),
        ensures
            final(self)@.wf(),
            old(self)@.state is Stopped || !holds(old(self)@.in_flight, task_id) ==> r is None
                && final(self)@ == old(self)@,
            !(old(self)@.state is Stopped) && holds(old(self)@.in_flight, task_id) ==> {
                let installed = built && old(self)@.state is Created;
                let m = stamped(task_id, TaskStatus::SuccessWithData, DataPayload::Bool(installed));
                &&& r == Some(m)
                &&& final(self)@.log == old(self)@.log.push(m)
                &&& final(self)@.state == if installed {
                    ExecutorState::Running
                } else {
                    old(self)@.state
                }
                &&& final(self)@.next_task_id == old(self)@.next_task_id
                &&& final(self)@.notice == old(self)@.notice
                &&& forall|x: TaskId|
                    holds(final(self)@.in_flight, x) == (holds(old(self)@.in_flight, x) && x
                        != task_id)
            },
    {
        if matches!(self.state, ExecutorState::Stopped) {
            return None;
        }
        let ghost before = self@;
        proof {
            assert(before.wf());
            assert(before.in_flight == self.in_flight@);
        }
        if !self.take_in_flight(task_id) {
            return None;
        }
        let installed = built && matches!(self.state, ExecutorState::Created);
        if installed {
            self.state = ExecutorState::Running;
        }
        let m = TaskEventMessage::bool_data(task_id, installed);
        proof {
            Self::lemma_push_reported(self.log@, m);
            let k = choose|k: int| 0 <= k < before.in_flight.len() && before.in_flight[k] == task_id;
            assert(1 <= before.in_flight[k] < before.next_task_id);
        }
        self.log = Ghost(self.log@.push(m));
        Some(m)
    }

    /// Requests shutdown: from `Created` or `Running` the dispatcher stops
    /// taking work and the result is true; otherwise nothing changes.
    pub fn request_shutdown(&mut self) -> (r: bool)
        requires
            old(self)@.wf(),
        ensures
            final(self)@.wf(),
            r == (old(self)@.state is Created || old(self)@.state is Running),
            r ==> final(self)@ == (DispatcherState {
                state: ExecutorState::ShuttingDown,
                ..old(self)@
            }),
            !r ==> final(self)@ == old(self)@,
    {
        if matches!(self.state, ExecutorState::Created) || matches!(self.state, ExecutorState::Running) {
            self.state = ExecutorState::ShuttingDown;
            true
        } else {
            false
        }
    }

    /// Ends a requested shutdown once every accepted task is reported: the
    /// dispatcher stops and hands out the shutdown message, its last. While
    /// tasks are still in flight, or outside `ShuttingDown`, nothing happens;
    /// the caller tries again after each report.
    pub fn finish_shutdown(&mut self) -> (r: Option<TaskEventMessage>)
        requires
            old(self)@.wf(),
        ensures
            final(self)@.wf(),
            old(self)@.state is ShuttingDown && old(self)@.in_flight.len() == 0 ==> {
                let m = stamped(0, TaskStatus::WorkerShutdown, DataPayload::Empty);
                &&& r == Some(m)
                &&& final(self)@ == (DispatcherState {
                    state: ExecutorState::Stopped,
                    log: old(self)@.log.push(m),
                    ..old(self)@
                })
            },
            !(old(self)@.state is ShuttingDown && old(self)@.in_flight.len() == 0) ==> r is None
                && final(self)@ == old(self)@,
    {
        if !matches!(self.state, ExecutorState::ShuttingDown) || self.in_flight.len() != 0 {
            return None;
        }
        let m = TaskEventMessage::shutdown_message();
        proof {
            Self::lemma_push_reported(self.log@, m);
        }
        self.state = ExecutorState::Stopped;
        self.log = Ghost(self.log@.push(m));
        Some(m)
    }

    /// Submits a command. While shutting down or stopped, or with no task id
    /// left, the submission is refused with task id 0. Otherwise it takes the
    /// next task id; before the runtime is installed it is answered at once
    /// by one error message, and once running it is scheduled.
    pub fn submit_task(
        &mut self,
        command_type: u8,
        data_ptr: usize,
        data_len: usize,
        params_ptr: usize,
        params_count: usize,
    ) -> (r: Submission)
        requires
            old(self)@.wf(),
        ensures
            final(self)@.wf(),
            (final(self)@, r) == old(self)@.submit_step(
                command_type,
                data_ptr,
                data_len,
                params_ptr,
                params_count,
            ),
    {
        if matches!(self.state, ExecutorState::ShuttingDown) || matches!(
            self.state,
            ExecutorState::Stopped,
        ) || self.next_task_id == u64::MAX {
            return Submission { task_id: 0, action: SubmitAction::Reject };
        }
        proof {
            lemma_submit_step_wf(self@, command_type, data_ptr, data_len, params_ptr, params_count);
        }
        let task_id = self.next_task_id;
        self.next_task_id = task_id + 1;
        if matches!(self.state, ExecutorState::Created) {
            let m = TaskEventMessage::error_message(
                task_id,
                TaskStatus::UnknownError,
                self.notice.ptr,
                self.notice.len,
            );
            let ghost old_log = self.log@;
            self.log = Ghost(self.log@.push(m));
            proof {
                assert(forall|i: int| 0 <= i < old_log.len() ==> self.log@[i] == old_log[i]);
                assert(forall|x: TaskId| reported(self.log@, x) ==> reported(old_log, x) || x == task_id);
            }
            Submission { task_id, action: SubmitAction::Emit(m) }
        } else {
            let ghost old_flight = self.in_flight@;
            self.in_flight.push(task_id);
            proof {
                assert(forall|i: int| 0 <= i < old_flight.len() ==> self.in_flight@[i] == old_flight[i]);
            }
            Submission {
                task_id,
                action: SubmitAction::Schedule(
                    TaskCommand { task_id, command_type, data_ptr, data_len, params_ptr, params_count },
                ),
            }
        }
    }
}

/// A submission keeps the dispatcher well formed.
pub proof fn lemma_submit_step_wf(
    d: DispatcherState,
    command_type: u8,
    data_ptr: usize,
    data_len: usize,
    params_ptr: usize,
    params_count: usize,
)
    requires
        d.wf(),
    ensures
        d.submit_step(command_type, data_ptr, data_len, params_ptr, params_count).0.wf(),
{
    let id = d.next_task_id;
    let n = d.submit_step(command_type, data_ptr, data_len, params_ptr, params_count).0;
    if d.state is ShuttingDown || d.state is Stopped || id == u64::MAX {
        return;
    }
    if d.state is Created {
        let m = stamped(id, TaskStatus::UnknownError, DataPayload::String(d.notice));
        TaskDispatcher::lemma_push_reported(d.log, m);
        assert(n.log == d.log.push(m));
        assert forall|i: int|
            0 <= i < n.in_flight.len() implies 1 <= #[trigger] n.in_flight[i] < n.next_task_id
            && !reported(n.log, n.in_flight[i]) by {
            assert(d.in_flight[i] < id);
        }
        assert forall|i: int, j: int|
            0 <= i < j < n.log.len() && n.log[i].header.task_id != 0 implies (
            #[trigger] n.log[i]).header.task_id != (#[trigger] n.log[j]).header.task_id by {
            assert(n.log[i] == d.log[i]);
            if j < d.log.len() {
                assert(n.log[j] == d.log[j]);
            } else {
                assert(d.log[i].header.task_id < id);
            }
        }
        assert forall|i: int|
            0 <= i < n.log.len() implies ((#[trigger] n.log[i]).header.status is WorkerShutdown
            <==> (n.state is Stopped && i == n.log.len() - 1)) by {
            if i < d.log.len() {
                assert(n.log[i] == d.log[i]);
            }
        }
        assert forall|i: int|
            0 <= i < n.log.len() implies (#[trigger] n.log[i]).header.task_id < n.next_task_id by {
            if i < d.log.len() {
                assert(n.log[i] == d.log[i]);
            }
        }
        assert forall|i: int|
            0 <= i < n.log.len() && (#[trigger] n.log[i]).header.task_id == 0 implies n.log[i].header.status is WorkerShutdown by {
            if i < d.log.len() {
                assert(n.log[i] == d.log[i]);
            }
        }
    } else {
        assert(n.in_flight == d.in_flight.push(id));
        assert(!reported(d.log, id)) by {
            if reported(d.log, id) {
                let i = choose|i: int| 0 <= i < d.log.len() && (#[trigger] d.log[i]).header.task_id == id;
            }
        }
        assert forall|i: int|
            0 <= i < n.in_flight.len() implies 1 <= #[trigger] n.in_flight[i] < n.next_task_id
            && !reported(n.log, n.in_flight[i]) by {
            if i < d.in_flight.len() {
                assert(n.in_flight[i] == d.in_flight[i]);
            }
        }
        assert forall|i: int, j: int|
            #![trigger n.in_flight[i], n.in_flight[j]]
            0 <= i < j < n.in_flight.len() implies n.in_flight[i] != n.in_flight[j] by {
            assert(n.in_flight[i] == d.in_flight[i]);
            if j < d.in_flight.len() {
                assert(n.in_flight[j] == d.in_flight[j]);
            }
        }
    }
}

/// Once a message reports a task, that message is the only one that reports
/// it and the task is no longer in flight, so no later step reports it
/// again. In particular a task submitted before the runtime exists is
/// answered by exactly the one error message that its submission hands out.
pub proof fn lemma_reported_once(d: DispatcherState, id: TaskId, i: int)
    requires
        d.wf(),
        id != 0,
        0 <= i < d.log.len(),
        d.log[i].header.task_id == id,
    ensures
        !holds(d.in_flight, id),
        1 <= id < d.next_task_id,
        forall|j: int| 0 <= j < d.log.len() && #[trigger] d.log[j].header.task_id == id ==> j == i,
{
    assert(reported(d.log, id));
    if holds(d.in_flight, id) {
        let k = choose|k: int| 0 <= k < d.in_flight.len() && d.in_flight[k] == id;
        assert(!reported(d.log, d.in_flight[k]));
    }
    assert forall|j: int| 0 <= j < d.log.len() && #[trigger] d.log[j].header.task_id == id implies j == i by {
        if j < i {
            assert(d.log[j].header.task_id != d.log[i].header.task_id);
        } else if i < j {
            assert(d.log[i].header.task_id != d.log[j].header.task_id);
        }
    }
}

/// A submission made before the runtime is installed is answered at once by
/// exactly one message: an error for its fresh task id that carries the
/// notice text. The command is not scheduled, so no handler runs for it, and
/// the message is the only one in the record that names the id; since the
/// id is not in flight, no later step can report it again.
pub proof fn lemma_early_submission_answered_once(
    d: DispatcherState,
    command_type: u8,
    data_ptr: usize,
    data_len: usize,
    params_ptr: usize,
    params_count: usize,
)
    requires
        d.wf(),
        d.state is Created,
        d.next_task_id < u64::MAX,
    ensures
        ({
            let (n, sub) = d.submit_step(command_type, data_ptr, data_len, params_ptr, params_count);
            let m = stamped(sub.task_id, TaskStatus::UnknownError, DataPayload::String(d.notice));
            &&& sub.task_id == d.next_task_id && sub.task_id != 0
            &&& sub.action == SubmitAction::Emit(m)
            &&& m.error() && m.header.data_type is String && m.header.task_id == sub.task_id
            &&& n.wf()
            &&& n.log == d.log.push(m)
            &&& !holds(n.in_flight, sub.task_id)
            &&& forall|j: int|
                0 <= j < n.log.len() && #[trigger] n.log[j].header.task_id == sub.task_id ==> j
                    == n.log.len() - 1
        }),
{
    lemma_submit_step_wf(d, command_type, data_ptr, data_len, params_ptr, params_count);
    let n = d.submit_step(command_type, data_ptr, data_len, params_ptr, params_count).0;
    let id = d.next_task_id;
    assert(n.log[n.log.len() - 1].header.task_id == id);
    lemma_reported_once(n, id, n.log.len() - 1);
}

/// A command submitted to a running executor is scheduled under a fresh
/// task id that is in flight and not yet reported; when its handler answers
/// `Bool(true)`, the message that reports it is a valid success with a
/// boolean payload of true and that task id. `complete` hands that message
/// out once, and afterwards the id is no longer in flight.
pub proof fn lemma_running_submission_reported_once(
    d: DispatcherState,
    command_type: u8,
    data_ptr: usize,
    data_len: usize,
    params_ptr: usize,
    params_count: usize,
    text_ptr: usize,
)
    requires
        d.wf(),
        d.state is Running,
        d.next_task_id < u64::MAX,
    ensures
        ({
            let (n, sub) = d.submit_step(command_type, data_ptr, data_len, params_ptr, params_count);
            let m = result_message(sub.task_id, CommandResult::Bool(true), text_ptr);
            &&& sub.task_id == d.next_task_id && sub.task_id != 0
            &&& sub.action matches SubmitAction::Schedule(c) && c.task_id == sub.task_id
                && c.command_type == command_type
            &&& n.wf()
            &&& holds(n.in_flight, sub.task_id)
            &&& !reported(n.log, sub.task_id)
            &&& m.header.task_id == sub.task_id
            &&& m.header.status == TaskStatus::SuccessWithData
            &&& m.header.data_type == DataType::Bool
            &&& m.payload == DataPayload::Bool(true)
            &&& m.header.magic == PROTOCOL_MAGIC && m.header.version == PROTOCOL_VERSION
        }),
{
    lemma_submit_step_wf(d, command_type, data_ptr, data_len, params_ptr, params_count);
    let n = d.submit_step(command_type, data_ptr, data_len, params_ptr, params_count).0;
    let id = d.next_task_id;
    assert(n.in_flight[n.in_flight.len() - 1] == id);
    assert(!reported(n.log, id)) by {
        if reported(n.log, id) {
            let i = choose|i: int| 0 <= i < n.log.len() && (#[trigger] n.log[i]).header.task_id == id;
        }
    }
}

/// A stopped dispatcher has handed out exactly one shutdown message, and it
/// was the last message; no accepted task was left unreported before it;
/// every step leaves a stopped dispatcher's messages as they are.
pub proof fn lemma_shutdown_message_last(d: DispatcherState)
    requires
        d.wf(),
        d.state is Stopped,
    ensures
        d.log.len() > 0,
        d.log.last() == stamped(0, TaskStatus::WorkerShutdown, DataPayload::Empty),
        forall|i: int| 0 <= i < d.log.len() - 1 ==> !((#[trigger] d.log[i]).header.status is WorkerShutdown),
        d.in_flight.len() == 0,
{
}

/// The decimal digit character of `d`.
pub open spec fn digit_char(d: nat) -> char {
    if d == 0 {
        '0'
    } else if d == 1 {
        '1'
    } else if d == 2 {
        '2'
    } else if d == 3 {
        '3'
    } else if d == 4 {
        '4'
    } else if d == 5 {
        '5'
    } else if d == 6 {
        '6'
    } else if d == 7 {
        '7'
    } else if d == 8 {
        '8'
    } else {
        '9'
    }
}

/// Decimal text of `n`, without leading zeros.
pub open spec fn decimal(n: nat) -> Seq<char>
    decreases n,
{
    if n < 10 {
        seq![digit_char(n)]
    } else {
        decimal(n / 10).push(digit_char(n % 10))
    }
}

fn digit_text(d: u8) -> (r: &'static str)
    requires
        d < 10,
    ensures
        r@ == seq![digit_char(d as nat)],
{
    proof {
        reveal_strlit("0");
        reveal_strlit("1");
        reveal_strlit("2");
        reveal_strlit("3");
        reveal_strlit("4");
        reveal_strlit("5");
        reveal_strlit("6");
        reveal_strlit("7");
        reveal_strlit("8");
        reveal_strlit("9");
    }
    match d {
        0 => "0",
        1 => "1",
        2 => "2",
        3 => "3",
        4 => "4",
        5 => "5",
        6 => "6",
        7 => "7",
        8 => "8",
        _ => "9",
    }
}

/// Appends the decimal text of `n`.
fn append_decimal(s: &mut String, n: u8)
    ensures
        final(s)@ == old(s)@ + decimal(n as nat),
{
    if n >= 100 {
        s.append(digit_text(n / 100));
    }
    if n >= 10 {
        s.append(digit_text((n / 10) % 10));
    }
    s.append(digit_text(n % 10));
    proof {
        let k = n as nat;
        if k >= 100 {
            assert(decimal(k / 100) == seq![digit_char(k / 100)]);
            assert(decimal(k / 10) == decimal(k / 100).push(digit_char((k / 10) % 10)));
        } else if k >= 10 {
            assert(decimal(k / 10) == seq![digit_char(k / 10)]);
        }
        assert(final(s)@ =~= old(s)@ + decimal(k));
    }
}

/// A handler for trying the executor out: type 1 answers `true`, type 2
/// answers 42, type 3 answers without data, and any other type is an error
/// naming it.
#[derive(Debug, Clone)]
pub struct DefaultCommandHandler;

impl DefaultCommandHandler {
    /// The result for a command type.
    pub fn respond(command_type: u8) -> (r: CommandResult)
        ensures
            command_type == 1 ==> r == CommandResult::Bool(true),
            command_type == 2 ==> r == CommandResult::U64(42),
            command_type == 3 ==> r == CommandResult::NoData,
            command_type == 0 || command_type > 3 ==> (r matches CommandResult::Error(s) && s@
                == "Unknown command type: "@ + decimal(command_type as nat)),
    {
        match command_type {
            1 => CommandResult::Bool(true),
            2 => CommandResult::U64(42),
            3 => CommandResult::NoData,
            _ => {
                proof {
                    reveal_strlit("Unknown command type: ");
                }
                let mut text = String::from_str("Unknown command type: ");
                append_decimal(&mut text, command_type);
                CommandResult::Error(text)
            },
        }
    }
}

impl CommandHandler for DefaultCommandHandler {
    fn handle_command(&self, command: &TaskCommand) -> CommandResult {
        DefaultCommandHandler::respond(command.command_type)
    }
}

} // verus!
