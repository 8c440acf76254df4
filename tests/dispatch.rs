use dart_quic_ffi::binary_protocol::{DataPayload, DataType, StringData, TaskEventMessage, TaskStatus};
use dart_quic_ffi::dispatch::{
    message_for_result, CommandHandler, CommandResult, DefaultCommandHandler, ExecutorState,
    SubmitAction, TaskCommand, TaskDispatcher,
};
use dart_quic_ffi::quic_command_handler::{QuicCommandHandler, QuicCommandType, QuicReply};

fn notice() -> StringData {
    StringData { ptr: 0x7000, len: 23 }
}

fn running() -> TaskDispatcher {
    let mut d = TaskDispatcher::new(notice());
    assert!(d.install_runtime());
    d
}

#[test]
fn submission_before_runtime_is_answered_once() {
    let mut d = TaskDispatcher::new(notice());
    let s = d.submit_task(1, 0, 0, 0, 0);
    assert_eq!(s.task_id, 1);
    match s.action {
        SubmitAction::Emit(m) => {
            assert!(m.is_error());
            assert_eq!(m.header.task_id, 1);
            assert_eq!(m.header.status, TaskStatus::UnknownError);
            assert_eq!(m.payload, DataPayload::String(notice()));
        }
        other => panic!("expected an immediate message, got {:?}", other),
    }
    // Nothing is in flight for it, so no second message can follow.
    assert_eq!(d.complete(1, &CommandResult::NoData, 0), None);
}

#[test]
fn ping_reports_true_with_its_task_id() {
    let mut d = running();
    let handler = DefaultCommandHandler;
    let s = d.submit_task(1, 0, 0, 0, 0);
    let command = match s.action {
        SubmitAction::Schedule(c) => c,
        other => panic!("expected scheduling, got {:?}", other),
    };
    assert_eq!(command.task_id, s.task_id);
    let result = handler.handle_command(&command);
    assert_eq!(result, CommandResult::Bool(true));
    let m = d.complete(command.task_id, &result, 0).unwrap();
    assert_eq!(m.header.status, TaskStatus::SuccessWithData);
    assert_eq!(m.header.data_type, DataType::Bool);
    assert_eq!(m.payload.bool_val(), Some(true));
    assert_eq!(m.header.task_id, s.task_id);
}

#[test]
fn each_task_is_reported_once() {
    let mut d = running();
    let a = d.submit_task(2, 0, 0, 0, 0);
    let b = d.submit_task(3, 0, 0, 0, 0);
    assert_eq!((a.task_id, b.task_id), (1, 2));
    assert!(d.complete(b.task_id, &CommandResult::NoData, 0).is_some());
    assert_eq!(d.complete(b.task_id, &CommandResult::NoData, 0), None);
    assert_eq!(d.complete(99, &CommandResult::NoData, 0), None);
    let m = d.complete(a.task_id, &CommandResult::U64(42), 0).unwrap();
    assert_eq!(m.payload.u64_val(), Some(42));
}

#[test]
fn shutdown_without_tasks_emits_one_final_message() {
    let mut d = TaskDispatcher::new(notice());
    assert!(d.request_shutdown());
    assert!(!d.request_shutdown());
    let m = d.finish_shutdown().unwrap();
    assert_eq!(m, TaskEventMessage::shutdown_message());
    assert_eq!(m.header.task_id, 0);
    assert_eq!(d.finish_shutdown(), None);
    assert_eq!(d.state(), ExecutorState::Stopped);
    let s = d.submit_task(1, 0, 0, 0, 0);
    assert_eq!(s.task_id, 0);
    assert_eq!(s.action, SubmitAction::Reject);
}

#[test]
fn work_in_flight_reports_until_stopped() {
    let mut d = running();
    let a = d.submit_task(1, 0, 0, 0, 0);
    let b = d.submit_task(1, 0, 0, 0, 0);
    assert!(d.request_shutdown());
    assert!(!d.is_running());
    assert_eq!(d.submit_task(1, 0, 0, 0, 0).action, SubmitAction::Reject);
    assert!(d.complete(a.task_id, &CommandResult::NoData, 0).is_some());
    // Task b is still in flight: the shutdown waits for its report.
    assert_eq!(d.finish_shutdown(), None);
    assert_eq!(d.state(), ExecutorState::ShuttingDown);
    assert!(d.complete(b.task_id, &CommandResult::NoData, 0).is_some());
    assert_eq!(d.finish_shutdown(), Some(TaskEventMessage::shutdown_message()));
    assert_eq!(d.complete(b.task_id, &CommandResult::NoData, 0), None);
}

#[test]
fn runtime_installs_once() {
    let mut d = TaskDispatcher::new(notice());
    let first = d.begin_runtime_init().unwrap();
    let second = d.begin_runtime_init().unwrap();
    assert_eq!((first, second), (1, 2));
    let m = d.finish_runtime_init(first, true).unwrap();
    assert_eq!(m.payload.bool_val(), Some(true));
    assert!(d.is_running());
    let m = d.finish_runtime_init(second, true).unwrap();
    assert_eq!(m.payload.bool_val(), Some(false));
    assert!(d.is_running());
    assert_eq!(d.finish_runtime_init(second, true), None);
    assert!(!d.install_runtime());
    assert_eq!(d.submit_task(1, 0, 0, 0, 0).task_id, 3);
}

#[test]
fn failed_runtime_build_leaves_executor_created() {
    let mut d = TaskDispatcher::new(notice());
    let id = d.begin_runtime_init().unwrap();
    let m = d.finish_runtime_init(id, false).unwrap();
    assert_eq!(m.payload.bool_val(), Some(false));
    assert_eq!(d.state(), ExecutorState::Created);
}

#[test]
fn result_messages() {
    assert_eq!(message_for_result(5, &CommandResult::NoData, 0), TaskEventMessage::no_data(5));
    assert_eq!(
        message_for_result(5, &CommandResult::WithData(0x40, 8), 0),
        TaskEventMessage::bytes_data(5, 0x40, 8)
    );
    let m = message_for_result(6, &CommandResult::Error("héllo".to_string()), 0x900);
    assert_eq!(m.header.status, TaskStatus::UnknownError);
    assert_eq!(m.payload.string(), Some(StringData { ptr: 0x900, len: 6 }));
}

#[test]
fn default_handler_answers() {
    assert_eq!(DefaultCommandHandler::respond(2), CommandResult::U64(42));
    assert_eq!(DefaultCommandHandler::respond(3), CommandResult::NoData);
    assert_eq!(
        DefaultCommandHandler::respond(7),
        CommandResult::Error("Unknown command type: 7".to_string())
    );
    assert_eq!(
        DefaultCommandHandler::respond(0),
        CommandResult::Error("Unknown command type: 0".to_string())
    );
    assert_eq!(
        DefaultCommandHandler::respond(255),
        CommandResult::Error("Unknown command type: 255".to_string())
    );
    assert_eq!(
        DefaultCommandHandler::respond(40),
        CommandResult::Error("Unknown command type: 40".to_string())
    );
}

fn command(command_type: u8, data_ptr: usize, data_len: usize) -> TaskCommand {
    TaskCommand { task_id: 1, command_type, data_ptr, data_len, params_ptr: 0, params_count: 0 }
}

#[test]
fn quic_handler_plans() {
    let h = QuicCommandHandler::new();
    assert_eq!(h.plan(&command(0x01, 0, 0)), QuicReply::Done(CommandResult::Bool(true)));
    assert_eq!(h.plan(&command(0x77, 0, 0)), QuicReply::Done(CommandResult::Bool(true)));
    assert_eq!(h.plan(&command(0x02, 0x100, 4)), QuicReply::CopyEcho { src: 0x100, len: 4 });
    assert_eq!(h.plan(&command(0x02, 0, 4)), QuicReply::Done(CommandResult::NoData));
    assert_eq!(h.plan(&command(0x10, 0x100, 9)), QuicReply::Done(CommandResult::U64(9)));
    assert_eq!(QuicCommandType::from(0x10), QuicCommandType::SendData);
    assert_eq!(QuicCommandType::Echo.code(), 0x02);
    assert_eq!(QuicCommandHandler::echo_result(4, 0x800), CommandResult::WithData(0x800, 4));
    assert_eq!(
        QuicCommandHandler::echo_result(4, 0),
        CommandResult::Error("Echo allocate failed".to_string())
    );
}
