use cef_unity::begin_frame::{BeginFrame, FrameFacts};
use cef_unity::protocol::{
    audio_shared_memory_flink_name, iosurface_service_name, shared_memory_flink_name, Command,
    Response,
};
use cef_unity::server::{
    addressed_browser, clamp_page_size, command_note, BrowserAction, BrowserFacts, CefServer,
    CreateOutcome, Decision, EditAction, KeyEventKind, MouseButton, Viewport,
};

fn timing(paint_count: u64, now_nanoseconds: u64) -> FrameFacts {
    FrameFacts {
        gate_open: true,
        paint_count,
        now_nanoseconds,
        server_flush_enabled: true,
        streak_cooldown_enabled: true,
    }
}

fn ready() -> BrowserFacts {
    BrowserFacts {
        host: true,
        frame: true,
        url: "https://example.com/".to_string(),
        timing: timing(0, 1),
    }
}

fn unready() -> BrowserFacts {
    BrowserFacts {
        host: false,
        frame: false,
        url: String::new(),
        timing: timing(0, 1),
    }
}

fn reply(decision: Decision) -> (Response, Option<BrowserAction>) {
    match decision {
        Decision::Reply { response, action } => (response, action),
        Decision::Create { .. } => panic!("nothing was to be created"),
    }
}

fn error_text(response: &Response) -> &str {
    match response {
        Response::Error { message } => message,
        other => panic!("{:?}", other),
    }
}

/// A server with one browser, whose number is 1.
fn server_with_browser() -> CefServer {
    let mut server = CefServer::new(10, Some(20), true);
    let decision = server.handle_command(
        Command::CreateBrowser { width: 800, height: 600, url: "about:blank".to_string() },
        ready(),
    );
    let plan = match decision {
        Decision::Create { plan } => plan,
        other => panic!("{:?}", other),
    };
    let response = server.finish_create_browser(
        &plan,
        CreateOutcome::Created {
            shared_memory_flink: "/tmp/pixels".to_string(),
            audio_shared_memory_flink: "/tmp/audio".to_string(),
            fence_handle: Some(7),
        },
    );
    match response {
        Response::BrowserCreated {
            browser_id,
            shared_memory_flink,
            d3d11_fence_handle,
            audio_shared_memory_flink,
        } => {
            assert_eq!(browser_id, 1);
            assert_eq!(shared_memory_flink, "/tmp/pixels");
            assert_eq!(d3d11_fence_handle, 7);
            assert_eq!(audio_shared_memory_flink, "/tmp/audio");
        }
        other => panic!("{:?}", other),
    }
    server
}

#[test]
fn oversize_page_keeps_its_size() {
    let mut server = CefServer::new(10, None, false);
    match server.handle_command(
        Command::CreateBrowser { width: 1706, height: 2762, url: String::new() },
        ready(),
    ) {
        Decision::Create { plan } => {
            assert_eq!(plan.viewport, Viewport { width: 1706, height: 2762 });
            assert_eq!(plan.browser_id, 1);
            assert!(!plan.want_texture_pool);
        }
        other => panic!("{:?}", other),
    }
    assert_eq!(clamp_page_size(0, -5), Viewport { width: 1, height: 1 });
    assert_eq!(clamp_page_size(i32::MAX, 1), Viewport { width: i32::MAX, height: 1 });
}

#[test]
fn failed_creation_is_reported() {
    let mut server = CefServer::new(10, None, true);
    let mut outcomes = vec![
        (
            CreateOutcome::SharedMemoryFailed { error: "full".to_string() },
            "shm_create failed: full",
        ),
        (
            CreateOutcome::AudioSharedMemoryFailed { error: "full".to_string() },
            "audio_shm_create failed: full",
        ),
        (CreateOutcome::HostFailed, "browser_host_create_browser failed"),
    ];
    let mut expected_id = 1;
    for (outcome, words) in outcomes.drain(..) {
        let decision = server.handle_command(
            Command::CreateBrowser { width: 1, height: 1, url: String::new() },
            ready(),
        );
        match decision {
            Decision::Create { plan } => {
                assert_eq!(plan.browser_id, expected_id);
                assert!(plan.want_texture_pool);
                let response = server.finish_create_browser(&plan, outcome);
                assert_eq!(error_text(&response), words);
            }
            other => panic!("{:?}", other),
        }
        expected_id += 1;
    }
    assert!(server.browsers.is_empty());
}

#[test]
fn unknown_browser_is_not_found() {
    let mut server = server_with_browser();
    let (response, action) =
        reply(server.handle_command(Command::Resize { browser_id: 2, width: 1, height: 1 }, ready()));
    assert_eq!(error_text(&response), "browser 2 not found");
    assert!(action.is_none());
    assert_eq!(server.browsers[&1], Viewport { width: 800, height: 600 });
}

#[test]
fn closed_browser_is_unknown() {
    let mut server = server_with_browser();
    let (response, action) =
        reply(server.handle_command(Command::DestroyBrowser { browser_id: 1 }, ready()));
    assert!(matches!(response, Response::Success));
    assert!(matches!(action, Some(BrowserAction::Close)));
    let (response, action) =
        reply(server.handle_command(Command::DestroyBrowser { browser_id: 1 }, ready()));
    assert_eq!(error_text(&response), "browser 1 not found");
    assert!(action.is_none());
    assert_eq!(server.next_browser_id, 2);
}

#[test]
fn resize_is_noted_even_while_the_browser_is_not_ready() {
    let mut server = server_with_browser();
    let command = Command::Resize { browser_id: 1, width: -3, height: 900 };
    let (response, action) = reply(server.handle_command(command, unready()));
    assert!(matches!(response, Response::Success));
    assert!(action.is_none());
    assert_eq!(server.browsers[&1], Viewport { width: 1, height: 900 });
}

#[test]
fn commands_that_need_the_frame_wait_for_it() {
    let mut server = server_with_browser();
    let (response, action) = reply(server.handle_command(
        Command::LoadUrl { browser_id: 1, url: "x".to_string() },
        unready(),
    ));
    assert_eq!(error_text(&response), "browser not ready yet");
    assert!(action.is_none());
    let (response, _) =
        reply(server.handle_command(Command::EditCommand { browser_id: 1, command: 0 }, unready()));
    assert_eq!(error_text(&response), "browser or frame not available");
    let (response, _) =
        reply(server.handle_command(Command::GetCurrentUrl { browser_id: 1 }, unready()));
    assert_eq!(error_text(&response), "browser or frame not available");
    let (response, action) = reply(server.handle_command(
        Command::ExecuteJavaScript { browser_id: 1, code: "1".to_string() },
        unready(),
    ));
    assert!(matches!(response, Response::Success));
    assert!(action.is_none());
    let (response, action) = reply(server.handle_command(
        Command::LoadUrl { browser_id: 1, url: "x".to_string() },
        ready(),
    ));
    assert!(matches!(response, Response::Success));
    assert!(matches!(action, Some(BrowserAction::LoadUrl { url }) if url == "x"));
    let (response, _) =
        reply(server.handle_command(Command::GetCurrentUrl { browser_id: 1 }, ready()));
    assert!(matches!(response, Response::CurrentUrl { url } if url == "https://example.com/"));
}

#[test]
fn clicks_and_keys_are_read() {
    let mut server = server_with_browser();
    let click = |button, mouse_up| Command::MouseClick {
        browser_id: 1,
        x: 3,
        y: 4,
        modifiers: 5,
        button,
        mouse_up,
        click_count: 2,
    };
    for (number, expected) in
        [(0, MouseButton::Left), (1, MouseButton::Middle), (2, MouseButton::Right), (9, MouseButton::Left)]
    {
        let (_, action) = reply(server.handle_command(click(number, false), ready()));
        match action {
            Some(BrowserAction::MouseClick { x, y, modifiers, button, mouse_up, click_count, set_focus }) => {
                assert_eq!((x, y, modifiers, click_count), (3, 4, 5, 2));
                assert_eq!(button, expected);
                assert!(!mouse_up);
                assert!(set_focus);
            }
            other => panic!("{:?}", other),
        }
    }
    let (_, action) = reply(server.handle_command(click(0, true), ready()));
    assert!(matches!(
        action,
        Some(BrowserAction::MouseClick { mouse_up: true, set_focus: false, .. })
    ));
    for (event_type, expected) in [
        (0, KeyEventKind::RawKeyDown),
        (1, KeyEventKind::KeyUp),
        (2, KeyEventKind::Character),
        (3, KeyEventKind::RawKeyDown),
    ] {
        let (_, action) = reply(server.handle_command(
            Command::KeyEvent {
                browser_id: 1,
                event_type,
                modifiers: 0,
                windows_key_code: 0x08,
                native_key_code: 51,
                character: 0x7F,
                unmodified_character: 0x7F,
                is_system_key: 0,
                focus_on_editable_field: 0,
            },
            ready(),
        ));
        match action {
            Some(BrowserAction::Key { kind, windows_key_code, native_key_code, character, .. }) => {
                assert_eq!(kind, expected);
                assert_eq!((windows_key_code, native_key_code, character), (0x08, 51, 0x7F));
            }
            other => panic!("{:?}", other),
        }
    }
}

#[test]
fn edit_commands_are_numbered() {
    let mut server = server_with_browser();
    let actions = [
        EditAction::Copy,
        EditAction::Paste,
        EditAction::Cut,
        EditAction::SelectAll,
        EditAction::Undo,
        EditAction::Redo,
    ];
    for (command, expected) in actions.iter().enumerate() {
        let (_, action) = reply(server.handle_command(
            Command::EditCommand { browser_id: 1, command: command as u8 },
            ready(),
        ));
        match action {
            Some(BrowserAction::Edit { edit }) => assert_eq!(edit, *expected),
            other => panic!("{:?}", other),
        }
    }
    let (response, action) =
        reply(server.handle_command(Command::EditCommand { browser_id: 1, command: 6 }, ready()));
    assert!(matches!(response, Response::Success));
    assert!(action.is_none());
}

#[test]
fn composition_is_underlined_as_a_whole() {
    let mut server = server_with_browser();
    let (_, action) = reply(server.handle_command(
        Command::ImeSetComposition {
            browser_id: 1,
            text: "かな🎉".to_string(),
            selection_start: 0,
            selection_end: 2,
        },
        ready(),
    ));
    match action {
        Some(BrowserAction::ImeSetComposition { text, underline_end, selection_start, selection_end }) => {
            assert_eq!(text, "かな🎉");
            assert_eq!(underline_end, 3);
            assert_eq!((selection_start, selection_end), (0, 2));
        }
        other => panic!("{:?}", other),
    }
    let (_, action) = reply(server.handle_command(
        Command::ImeFinishComposingText { browser_id: 1, keep_selection: true },
        ready(),
    ));
    assert!(matches!(
        action,
        Some(BrowserAction::ImeFinishComposingText { keep_selection: true })
    ));
    let (_, action) =
        reply(server.handle_command(Command::ImeCancelComposition { browser_id: 1 }, ready()));
    assert!(matches!(action, Some(BrowserAction::ImeCancelComposition)));
}

#[test]
fn logs_are_handed_out_once() {
    let mut server = server_with_browser();
    server.logs.set_logging(true);
    server.logs.log("hello");
    let (response, _) = reply(server.handle_command(Command::GetLogs, unready()));
    assert!(matches!(response, Response::Logs { entries } if entries == ["hello"]));
    let (response, _) = reply(server.handle_command(Command::GetLogs, unready()));
    assert!(matches!(response, Response::Logs { entries } if entries.is_empty()));
    let (response, action) = reply(server.handle_command(Command::Shutdown, unready()));
    assert!(matches!(response, Response::Success));
    assert!(action.is_none());
}

#[test]
fn shutdown_closes_every_browser() {
    let mut server = server_with_browser();
    server.browsers.insert(9, Viewport { width: 1, height: 1 });
    let mut closed = server.shutdown();
    closed.sort_unstable();
    assert_eq!(closed, vec![1, 9]);
    assert!(server.browsers.is_empty());
    assert!(server.shutdown().is_empty());
}

#[test]
fn begin_frame_is_followed_by_two_flushes() {
    let mut server = server_with_browser();
    let mut facts = ready();
    facts.timing = timing(5, 1_000_000);
    let (response, action) = reply(server.handle_command(
        Command::SendExternalBeginFrame { browser_id: 1, unity_frame: 77 },
        facts,
    ));
    assert!(matches!(response, Response::Success));
    assert!(matches!(action, Some(BrowserAction::BeginFrame)));
    let frame = Some(BeginFrame { browser_id: 1, unity_frame: 77 });
    assert_eq!(server.process_pending_flushes(timing(5, 3_999_999), true, true), None);
    assert_eq!(server.process_pending_flushes(timing(5, 4_000_000), true, true), frame);
    assert_eq!(server.process_pending_flushes(timing(6, 6_999_999), true, true), None);
    assert_eq!(server.process_pending_flushes(timing(6, 7_000_000), true, true), frame);
    assert_eq!(server.process_pending_flushes(timing(6, 99_000_000), true, true), None);
}

#[test]
fn flush_is_left_out_once_the_content_is_there() {
    let mut server = server_with_browser();
    let mut facts = ready();
    facts.timing = timing(5, 1_000_000);
    reply(server.handle_command(
        Command::SendExternalBeginFrame { browser_id: 1, unity_frame: 1 },
        facts,
    ));
    assert_eq!(server.process_pending_flushes(timing(7, 9_000_000), true, true), None);
    assert!(server.schedule.pending_flush.is_none());
}

#[test]
fn begin_frame_waits_for_a_copy() {
    let mut server = server_with_browser();
    let mut facts = ready();
    facts.timing.gate_open = false;
    let (response, action) = reply(server.handle_command(
        Command::SendExternalBeginFrame { browser_id: 1, unity_frame: 5 },
        facts,
    ));
    assert!(matches!(response, Response::Success));
    assert!(action.is_none());
    let mut closed = timing(0, 2);
    closed.gate_open = false;
    assert_eq!(server.process_pending_flushes(closed, true, true), None);
    assert_eq!(
        server.process_pending_flushes(timing(0, 3), true, true),
        Some(BeginFrame { browser_id: 1, unity_frame: 5 })
    );
    assert_eq!(server.schedule.take_deferred_count(), 1);
    assert_eq!(server.schedule.take_deferred_count(), 0);
}

#[test]
fn commands_address_their_browser() {
    assert_eq!(addressed_browser(&Command::GetLogs), None);
    assert_eq!(addressed_browser(&Command::Shutdown), None);
    assert_eq!(
        addressed_browser(&Command::ImeCommitText { browser_id: 8, text: String::new() }),
        Some(8)
    );
}

#[test]
fn long_scripts_are_cut_in_the_log() {
    let note = command_note(&Command::LoadUrl { browser_id: 3, url: "https://例え.jp".to_string() });
    assert_eq!(note.as_deref(), Some("load_url: browser_id=3, url=https://例え.jp"));
    let code = "あ".repeat(101);
    let note = command_note(&Command::ExecuteJavaScript { browser_id: 3, code });
    let expected = format!("execute_javascript: browser_id=3, code={}", "あ".repeat(100));
    assert_eq!(note, Some(expected));
    let note = command_note(&Command::ExecuteJavaScript { browser_id: 3, code: "1+1".to_string() });
    assert_eq!(note.as_deref(), Some("execute_javascript: browser_id=3, code=1+1"));
    assert_eq!(command_note(&Command::GetLogs), None);
}

#[test]
fn names_are_numbered() {
    assert_eq!(iosurface_service_name(77), "com.cef-unity.iosurface.77");
    assert_eq!(shared_memory_flink_name(12, 3), "cef-unity-shm-12-3");
    assert_eq!(audio_shared_memory_flink_name(12, 3), "cef-unity-audio-12-3");
    assert_ne!(shared_memory_flink_name(1, 23), shared_memory_flink_name(12, 3));
}
