use cef_unity::accelerated_paint::Platform;
use cef_unity::client::{
    blocking_simple, browser_created, check_launch, connect_wait, copy_url, current_url,
    fence_openers, finish_composing_text, given_text, mouse_click, native_audio_start, with_answer,
    without_answer, ClientBrowser, ClientState, ConnectEvent, ConnectStep, CreatedBrowser,
    LogCache, Reply, VoiceStep,
};
use cef_unity::protocol::{Command, Response};
use cef_unity::shared_memory::{SharedMemoryWriter, SHARED_MEMORY_TOTAL_SIZE};

fn answer(response: Response) -> Reply {
    Reply::Answer { response }
}

fn created() -> CreatedBrowser {
    CreatedBrowser {
        browser_id: 42,
        shared_memory_flink: "/tmp/test-shm".to_string(),
        d3d11_fence_handle: 0xdead_beef,
        audio_shared_memory_flink: "/tmp/test-audio-shm".to_string(),
    }
}

#[test]
fn client_starts_one_server() {
    let mut state = ClientState::new();
    assert!(state.begin_initialize(0, 1));
    assert!(state.log_enabled);
    assert!(!state.use_gpu_mode);
    assert!(!state.initialized);
    assert!(!state.wants_iosurface(Platform::MacOs));
    state.finish_initialize(false);
    assert!(state.initialized);
    assert!(!state.begin_initialize(1, 0));
    assert!(!state.log_enabled);
    assert!(!state.use_gpu_mode);
    assert!(state.shutdown());
    assert!(!state.initialized);
    assert!(state.use_gpu_mode);
    assert!(!state.shutdown());
}

#[test]
fn surfaces_are_connected_only_where_wanted() {
    let mut state = ClientState::new();
    state.begin_initialize(1, 0);
    assert!(state.wants_iosurface(Platform::MacOs));
    assert!(!state.wants_iosurface(Platform::Linux));
    state.finish_initialize(true);
    assert!(state.iosurface_connected);
    assert_eq!(state.connected_code(true), 1);
    assert_eq!(state.connected_code(false), 0);
    state.shutdown();
    assert!(!state.iosurface_connected);
    state.begin_initialize(0, 0);
    assert_eq!(state.connected_code(true), 0);
}

#[test]
fn launch_failures_have_codes() {
    assert_eq!(check_launch(true, true, true), Ok(()));
    assert_eq!(check_launch(false, true, true), Err(-3));
    assert_eq!(check_launch(true, false, true), Err(-4));
    assert_eq!(check_launch(true, true, false), Err(-4));
}

#[test]
fn wait_for_the_server_ends() {
    let quiet = |server_exited, time_is_up| ConnectEvent::Quiet { server_exited, time_is_up };
    assert_eq!(connect_wait(ConnectEvent::Connected), ConnectStep::Proceed);
    assert_eq!(connect_wait(quiet(false, false)), ConnectStep::KeepWaiting);
    assert_eq!(
        connect_wait(ConnectEvent::GreetingFailed),
        ConnectStep::Fail { code: -5, end_server: true }
    );
    assert_eq!(
        connect_wait(ConnectEvent::ListenerLost),
        ConnectStep::Fail { code: -5, end_server: true }
    );
    assert_eq!(
        connect_wait(quiet(true, true)),
        ConnectStep::Fail { code: -6, end_server: false }
    );
    assert_eq!(
        connect_wait(quiet(false, true)),
        ConnectStep::Fail { code: -7, end_server: true }
    );
}

#[test]
fn counters_start_over() {
    let mut state = ClientState::new();
    state.pump();
    assert_eq!(state.pump_count, 1);
    state.pump_count = u64::MAX;
    state.pump();
    assert_eq!(state.pump_count, 0);
    state.painted();
    assert_eq!(state.paint_count, 1);
}

#[test]
fn browser_needs_a_server() {
    let mut state = ClientState::new();
    assert!(state.create_browser(1, 2, "x").is_none());
    state.finish_initialize(false);
    assert!(matches!(
        state.create_browser(800, 600, "https://example.com"),
        Some(Command::CreateBrowser { width: 800, height: 600, url }) if url == "https://example.com"
    ));
}

#[test]
fn numbers_become_flags() {
    assert!(matches!(
        mouse_click(1, 2, 3, 4, 5, -1, 6),
        Command::MouseClick {
            browser_id: 1,
            x: 2,
            y: 3,
            modifiers: 4,
            button: 5,
            mouse_up: true,
            click_count: 6,
        }
    ));
    assert!(matches!(mouse_click(1, 2, 3, 4, 5, 0, 6), Command::MouseClick { mouse_up: false, .. }));
    assert!(matches!(
        finish_composing_text(2, 7),
        Command::ImeFinishComposingText { browser_id: 2, keep_selection: true }
    ));
    assert!(without_answer(Command::Shutdown).expects_response == false);
    assert!(with_answer(Command::GetLogs).expects_response);
}

#[test]
fn blocking_calls_report_errors() {
    assert_eq!(blocking_simple(&answer(Response::Success)), 0);
    assert_eq!(blocking_simple(&answer(Response::CurrentUrl { url: String::new() })), 0);
    assert_eq!(blocking_simple(&answer(Response::Error { message: "no".to_string() })), -1);
    assert_eq!(blocking_simple(&Reply::ChannelFailed { error: "gone".to_string() }), -1);
    assert_eq!(blocking_simple(&Reply::NotConnected), -1);
}

#[test]
fn creation_is_announced() {
    let browser = browser_created(answer(Response::BrowserCreated {
        browser_id: 42,
        shared_memory_flink: "/tmp/test-shm".to_string(),
        d3d11_fence_handle: 0xdead_beef,
        audio_shared_memory_flink: "/tmp/test-audio-shm".to_string(),
    }))
    .unwrap();
    assert_eq!(browser.browser_id, 42);
    assert_eq!(browser.shared_memory_flink, "/tmp/test-shm");
    assert_eq!(browser.d3d11_fence_handle, 0xdead_beef);
    assert_eq!(browser.audio_shared_memory_flink, "/tmp/test-audio-shm");
    assert_eq!(
        browser_created(answer(Response::Error { message: "no".to_string() })).unwrap_err(),
        "create_browser error: no"
    );
    assert_eq!(
        browser_created(answer(Response::Success)).unwrap_err(),
        "unexpected response to CreateBrowser"
    );
    assert_eq!(
        browser_created(Reply::ChannelFailed { error: "gone".to_string() }).unwrap_err(),
        "create_browser IPC error: gone"
    );
    assert_eq!(browser_created(Reply::NotConnected).unwrap_err(), "");
}

#[test]
fn browser_can_do_without_audio() {
    assert!(ClientBrowser::open(created(), false, true).is_none());
    let browser = ClientBrowser::open(created(), true, false).unwrap();
    assert_eq!(browser.browser_id, 42);
    assert!(browser.audio_shared_memory.is_none());
    assert_eq!(browser.audio_flink, "/tmp/test-audio-shm");
    assert!(ClientBrowser::open(created(), true, true).unwrap().audio_shared_memory.is_some());
    assert_eq!(fence_openers(0, true, true), (false, false));
    assert_eq!(fence_openers(7, true, false), (true, false));
}

#[test]
fn frames_that_are_handed_out_are_counted() {
    let mut memory = vec![0u8; SHARED_MEMORY_TOTAL_SIZE];
    let writer = SharedMemoryWriter::new("counted", &mut memory);
    let mut state = ClientState::new();
    let mut browser = ClientBrowser::open(created(), true, true).unwrap();
    assert_eq!(browser.get_buffer(&mut state, &memory), None);
    assert_eq!(state.paint_count, 0);
    writer.write_frame(&mut memory, &[1, 2, 3, 4], 1, 1);
    let (start, width, height) = browser.get_buffer(&mut state, &memory).unwrap();
    assert_eq!((width, height), (1, 1));
    assert_eq!(&memory[start..start + 4], &[1, 2, 3, 4]);
    assert_eq!(state.paint_count, 1);
}

#[test]
fn audio_is_started_once() {
    assert_eq!(native_audio_start(true, false, "/f", 0), VoiceStep::Start { io_frames: 128 });
    assert_eq!(native_audio_start(true, false, "/f", 64), VoiceStep::Start { io_frames: 64 });
    assert_eq!(native_audio_start(true, true, "", 64), VoiceStep::Done { code: 0 });
    assert_eq!(native_audio_start(true, false, "", 64), VoiceStep::Done { code: -1 });
    assert_eq!(native_audio_start(false, false, "/f", 64), VoiceStep::Done { code: -1 });
}

#[test]
fn address_is_copied_with_a_zero() {
    let url = current_url(answer(Response::CurrentUrl { url: "ab例".to_string() })).unwrap();
    assert_eq!(copy_url(&url, &mut []), 6);
    let mut small = [9u8; 5];
    assert_eq!(copy_url(&url, &mut small), 6);
    assert_eq!(small, [9u8; 5]);
    let mut buffer = [9u8; 7];
    assert_eq!(copy_url(&url, &mut buffer), 6);
    assert_eq!(&buffer[..5], "ab例".as_bytes());
    assert_eq!(&buffer[5..], &[0, 9]);
    assert_eq!(current_url(answer(Response::Success)), None);
    assert_eq!(current_url(Reply::NotConnected), None);
}

#[test]
fn messages_are_kept_until_they_are_copied() {
    let mut cache = LogCache::new();
    assert_eq!(cache.keep(&Vec::new()), 0);
    assert_eq!(cache.copy_out(&mut [0u8; 4]), 0);
    let entries = vec!["ab".to_string(), String::new(), "c".to_string()];
    assert_eq!(cache.keep(&entries), 6);
    let mut buffer = [7u8; 8];
    assert_eq!(cache.copy_out(&mut buffer), 6);
    assert_eq!(&buffer, b"ab\0\0c\0\x07\x07");
    assert_eq!(cache.copy_out(&mut buffer), 0);
    cache.keep(&entries);
    let mut small = [7u8; 3];
    assert_eq!(cache.copy_out(&mut small), 3);
    assert_eq!(&small, b"ab\0");
}

#[test]
fn messages_are_fetched_with_an_answer() {
    let mut cache = LogCache::new();
    let entries = vec!["ab".to_string()];
    assert_eq!(cache.fetch(answer(Response::Logs { entries })), 3);
    assert_eq!(cache.fetch(Reply::NotConnected), 0);
    assert_eq!(cache.fetch(answer(Response::Success)), 0);
    let mut buffer = [7u8; 4];
    assert_eq!(cache.copy_out(&mut buffer), 3);
    assert_eq!(&buffer, b"ab\0\x07");
    cache.keep(&vec!["c".to_string()]);
    assert_eq!(cache.fetch(answer(Response::Logs { entries: Vec::new() })), 0);
    assert_eq!(cache.copy_out(&mut buffer), 0);
}

#[test]
fn invalid_text_is_taken_as_empty() {
    assert_eq!(given_text("漢字 a".as_bytes()), "漢字 a");
    assert_eq!(given_text(b"ab\xff"), "");
    assert_eq!(given_text(b""), "");
}
