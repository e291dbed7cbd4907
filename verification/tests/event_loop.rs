use cef_unity::event_loop::{
    schedule_pump, DrainCount, DrainStep, PumpSchedule, Received, ServerState, TimerGuard,
};
use cef_unity::protocol::{Command, CommandEnvelope};
use cef_unity::server::CefServer;
use cef_unity::socket_client::{connect_step, ClientBrowserInstance, ConnectStep};
use cef_unity::socket_server::{Accepted, Polled, SocketServerState};

fn envelope(command: Command, expects_response: bool) -> Received {
    Received::Envelope { envelope: CommandEnvelope { command, expects_response } }
}

fn state() -> ServerState {
    ServerState::new(CefServer::new(1, None, true))
}

#[test]
fn engine_decides_how_long_the_loop_sleeps() {
    let mut schedule = PumpSchedule::new();
    assert_eq!(schedule.wait_milliseconds(), 4);
    schedule_pump(&mut schedule, 0);
    assert_eq!(schedule.wait_milliseconds(), 1);
    schedule_pump(&mut schedule, -7);
    assert_eq!(schedule.delay_milliseconds, 0);
    schedule_pump(&mut schedule, 16);
    assert_eq!(schedule.wait_milliseconds(), 16);
}

#[test]
fn commands_are_counted() {
    let mut state = state();
    let mut count = DrainCount::new();
    let frame = Command::SendExternalBeginFrame { browser_id: 1, unity_frame: 2 };
    let step = state.drain_command(&mut count, envelope(frame, false));
    assert!(matches!(step, DrainStep::Handle { answer: false, shutdown: false, .. }));
    assert!(state.command_handled(false, false, false));
    let step = state.drain_command(&mut count, envelope(Command::GetLogs, true));
    assert!(matches!(step, DrainStep::Handle { answer: true, shutdown: false, .. }));
    assert!(state.command_handled(true, true, false));
    assert!(matches!(state.drain_command(&mut count, Received::Empty), DrainStep::Done));
    assert_eq!(count, DrainCount { commands: 2, begin_frames: 1 });
    assert!(state.running);
    state.pumped();
    assert_eq!(state.pump_count, 1);
}

#[test]
fn nothing_is_taken_after_shutdown() {
    let mut state = state();
    let mut count = DrainCount::new();
    let step = state.drain_command(&mut count, envelope(Command::Shutdown, false));
    assert!(matches!(step, DrainStep::Handle { shutdown: true, .. }));
    assert!(!state.command_handled(false, false, true));
    assert!(!state.running);
}

#[test]
fn loop_ends_when_the_client_is_gone() {
    let mut state = state();
    assert!(!state.command_handled(true, false, false));
    assert!(!state.running);
    let mut state = self::state();
    let mut count = DrainCount::new();
    assert!(matches!(state.drain_command(&mut count, Received::Disconnected), DrainStep::Done));
    assert!(!state.running);
    let mut state = self::state();
    state.tick_failed();
    assert!(!state.running);
}

#[test]
fn turns_do_not_nest() {
    let mut guard = TimerGuard::new();
    assert!(guard.enter());
    assert!(!guard.enter());
    assert!(!guard.leave(false));
    assert!(guard.may_tick(true));
    assert!(!guard.may_tick(false));
    assert!(guard.enter());
    assert!(guard.leave(true));
    assert!(!guard.may_tick(true));
}

#[test]
fn socket_server_serves_one_client_at_a_time() {
    let mut state = SocketServerState::new();
    assert!(state.wants_client());
    state.accepted(Accepted::NobodyWaits);
    state.accepted(Accepted::Failed);
    state.accepted(Accepted::SetupFailed);
    assert!(state.wants_client());
    state.accepted(Accepted::Connected);
    assert!(!state.wants_client());
    assert!(state.polled(Polled::Command { shutdown: false, sent: true }));
    assert!(!state.polled(Polled::Nothing));
    assert!(!state.polled(Polled::Command { shutdown: false, sent: false }));
    assert!(state.wants_client());
    assert!(state.running);
    state.accepted(Accepted::Connected);
    assert!(!state.polled(Polled::Command { shutdown: true, sent: true }));
    assert!(!state.running);
    assert!(state.connected);
}

#[test]
fn lost_client_ends_the_socket_server() {
    let mut state = SocketServerState::new();
    state.accepted(Accepted::Connected);
    state.pumped();
    assert!(!state.polled(Polled::Lost));
    assert_eq!(state, SocketServerState { connected: false, running: false, pump_count: 1 });
    let mut state = SocketServerState::new();
    state.accepted(Accepted::Connected);
    assert!(!state.polled(Polled::Command { shutdown: true, sent: false }));
    assert!(state.running);
}

#[test]
fn client_tries_a_hundred_times() {
    assert_eq!(connect_step(0, true), ConnectStep::Connected);
    assert_eq!(connect_step(0, false), ConnectStep::TryAgain { attempt: 1 });
    assert_eq!(connect_step(98, false), ConnectStep::TryAgain { attempt: 99 });
    assert_eq!(connect_step(99, false), ConnectStep::GiveUp { code: -5 });
    assert_eq!(connect_step(u32::MAX, false), ConnectStep::GiveUp { code: -5 });
}

#[test]
fn front_frame_stays_until_the_next_one() {
    let mut memory = vec![0u8; cef_unity::ipc::SHM_TOTAL_SIZE];
    let writer = cef_unity::ipc::ShmWriter::new("/front", &mut memory);
    let mut instance = ClientBrowserInstance::open(4, "/front");
    assert!(!instance.get_buffer(&memory));
    writer.write_frame(&mut memory, &[6u8; 4], 1, 1);
    assert!(instance.get_buffer(&memory));
    assert!(!instance.get_buffer(&memory));
    assert_eq!(instance.front, vec![6u8; 4]);
    assert_eq!((instance.front_width, instance.front_height), (1, 1));
    assert_eq!(instance.browser_id, 4);
}
