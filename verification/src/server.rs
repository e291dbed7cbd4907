//! The server's decisions: which browsers exist, what a command does to them, and what is
//! answered.
//!
//! The browser engine itself is out of reach here. The caller says what it found there
//! (`BrowserFacts`), and gets back what to do there (`BrowserAction`) and what to answer.
use crate::begin_frame::{BeginFrame, FrameFacts, FrameSchedule};
use crate::log_buffer::LogBuffer;
use crate::protocol::{Command, Response, ResponseView};
use crate::text;
use crate::text::push_decimal;
use std::collections::HashMap;
use vstd::prelude::*;

verus! {

broadcast use vstd::std_specs::hash::group_hash_axioms;

/// The size of a browser's page.
#[derive(Clone, Copy, Debug, PartialEq, Eq, Structural)]
pub struct Viewport {
    pub width: i32,
    pub height: i32,
}

/// What the engine has to say of the browser that a command addresses.
pub struct BrowserFacts {
    /// Whether the browser's host can be reached.
    pub host: bool,
    /// Whether the browser's main frame can be reached.
    pub frame: bool,
    /// The address that the main frame shows.
    pub url: String,
    /// What the schedule of begin frames has to know.
    pub timing: FrameFacts,
}

#[derive(Clone, Copy, Debug, PartialEq, Eq, Structural)]
pub enum MouseButton {
    Left,
    Middle,
    Right,
}

#[derive(Clone, Copy, Debug, PartialEq, Eq, Structural)]
pub enum KeyEventKind {
    RawKeyDown,
    KeyUp,
    Character,
}

#[derive(Clone, Copy, Debug, PartialEq, Eq, Structural)]
pub enum EditAction {
    Copy,
    Paste,
    Cut,
    SelectAll,
    Undo,
    Redo,
}

/// What is to be done with a browser.
#[derive(Debug)]
pub enum BrowserAction {
    Close,
    LoadUrl { url: String },
    /// The page has a new size and is to be drawn anew.
    Resized,
    MouseMove { x: i32, y: i32, modifiers: u32 },
    MouseClick {
        x: i32,
        y: i32,
        modifiers: u32,
        button: MouseButton,
        mouse_up: bool,
        click_count: i32,
        /// Whether the browser gets the focus first.
        set_focus: bool,
    },
    MouseWheel { x: i32, y: i32, modifiers: u32, delta_x: i32, delta_y: i32 },
    Key {
        kind: KeyEventKind,
        modifiers: u32,
        windows_key_code: i32,
        native_key_code: i32,
        character: u16,
        unmodified_character: u16,
        is_system_key: i32,
        focus_on_editable_field: i32,
    },
    ExecuteJavaScript { code: String },
    Edit { edit: EditAction },
    ImeSetComposition {
        text: String,
        /// The underline reaches from the first character to this one.
        underline_end: u32,
        selection_start: u32,
        selection_end: u32,
    },
    ImeCommitText { text: String },
    ImeFinishComposingText { keep_selection: bool },
    ImeCancelComposition,
    BeginFrame,
}

/// A browser that is to be created.
#[derive(Debug)]
pub struct CreatePlan {
    pub browser_id: u32,
    pub viewport: Viewport,
    pub url: String,
    /// Whether a pool of shared textures is to be tried.
    pub want_texture_pool: bool,
}

/// How the creation of a browser came out.
#[derive(Debug)]
pub enum CreateOutcome {
    SharedMemoryFailed { error: String },
    AudioSharedMemoryFailed { error: String },
    HostFailed,
    Created {
        shared_memory_flink: String,
        audio_shared_memory_flink: String,
        /// The fence of the pool of shared textures, where there is one.
        fence_handle: Option<u64>,
    },
}

/// What a command comes to.
#[derive(Debug)]
pub enum Decision {
    /// A browser is to be created; the answer depends on how that comes out.
    Create { plan: CreatePlan },
    /// The answer, and what is to be done with the browser that the command addresses.
    Reply { response: Response, action: Option<BrowserAction> },
}

/// The server's state.
pub struct CefServer {
    pub browsers: HashMap<u32, Viewport>,
    pub next_browser_id: u32,
    pub server_pid: u32,
    pub client_pid: Option<u32>,
    pub use_gpu: bool,
    pub schedule: FrameSchedule,
    pub logs: LogBuffer,
}

/// The answer to a command for a browser that does not exist.
pub open spec fn not_found(browser_id: u32) -> ResponseView {
    ResponseView::Error {
        message: "browser "@ + text::decimal(browser_id as nat) + " not found"@,
    }
}

/// The browser that a command addresses.
pub open spec fn addressed(command: Command) -> Option<u32> {
    match command {
        Command::CreateBrowser { .. } | Command::GetLogs | Command::Shutdown => None,
        Command::DestroyBrowser { browser_id }
        | Command::LoadUrl { browser_id, .. }
        | Command::Resize { browser_id, .. }
        | Command::MouseMove { browser_id, .. }
        | Command::MouseClick { browser_id, .. }
        | Command::MouseWheel { browser_id, .. }
        | Command::KeyEvent { browser_id, .. }
        | Command::ExecuteJavaScript { browser_id, .. }
        | Command::EditCommand { browser_id, .. }
        | Command::GetCurrentUrl { browser_id }
        | Command::ImeSetComposition { browser_id, .. }
        | Command::ImeCommitText { browser_id, .. }
        | Command::ImeFinishComposingText { browser_id, .. }
        | Command::ImeCancelComposition { browser_id }
        | Command::SendExternalBeginFrame { browser_id, .. } => Some(browser_id),
    }
}

/// A size as a page can have it: at least one pixel each way, and no upper bound.
pub open spec fn page_size(width: i32, height: i32) -> Viewport {
    Viewport {
        width: if width < 1 {
            1
        } else {
            width
        },
        height: if height < 1 {
            1
        } else {
            height
        },
    }
}

pub open spec fn mouse_button(button: u8) -> MouseButton {
    match button {
        1 => MouseButton::Middle,
        2 => MouseButton::Right,
        _ => MouseButton::Left,
    }
}

pub open spec fn key_event_kind(event_type: u8) -> KeyEventKind {
    match event_type {
        1 => KeyEventKind::KeyUp,
        2 => KeyEventKind::Character,
        _ => KeyEventKind::RawKeyDown,
    }
}

pub open spec fn edit_action(command: u8) -> Option<EditAction> {
    match command {
        0 => Some(EditAction::Copy),
        1 => Some(EditAction::Paste),
        2 => Some(EditAction::Cut),
        3 => Some(EditAction::SelectAll),
        4 => Some(EditAction::Undo),
        5 => Some(EditAction::Redo),
        _ => None,
    }
}

/// Whether a command needs the main frame rather than the host.
pub open spec fn needs_frame(command: Command) -> bool {
    command is LoadUrl || command is ExecuteJavaScript || command is EditCommand || command
        is GetCurrentUrl
}

/// What a command does to its browser once host and frame are at hand.
pub open spec fn action_of(command: Command) -> Option<BrowserAction> {
    match command {
        Command::DestroyBrowser { .. } => Some(BrowserAction::Close),
        Command::LoadUrl { url, .. } => Some(BrowserAction::LoadUrl { url }),
        Command::Resize { .. } => Some(BrowserAction::Resized),
        Command::MouseMove { x, y, modifiers, .. } => Some(
            BrowserAction::MouseMove { x, y, modifiers },
        ),
        Command::MouseClick { x, y, modifiers, button, mouse_up, click_count, .. } => Some(
            BrowserAction::MouseClick {
                x,
                y,
                modifiers,
                button: mouse_button(button),
                mouse_up,
                click_count,
                set_focus: !mouse_up,
            },
        ),
        Command::MouseWheel { x, y, modifiers, delta_x, delta_y, .. } => Some(
            BrowserAction::MouseWheel { x, y, modifiers, delta_x, delta_y },
        ),
        Command::KeyEvent {
            event_type,
            modifiers,
            windows_key_code,
            native_key_code,
            character,
            unmodified_character,
            is_system_key,
            focus_on_editable_field,
            ..
        } => Some(
            BrowserAction::Key {
                kind: key_event_kind(event_type),
                modifiers,
                windows_key_code,
                native_key_code,
                character,
                unmodified_character,
                is_system_key,
                focus_on_editable_field,
            },
        ),
        Command::ExecuteJavaScript { code, .. } => Some(BrowserAction::ExecuteJavaScript { code }),
        Command::EditCommand { command, .. } => match edit_action(command) {
            Some(edit) => Some(BrowserAction::Edit { edit }),
            None => None,
        },
        Command::ImeSetComposition { text, selection_start, selection_end, .. } => Some(
            BrowserAction::ImeSetComposition {
                text,
                underline_end: (text@.len() % 0x1_0000_0000) as u32,
                selection_start,
                selection_end,
            },
        ),
        Command::ImeCommitText { text, .. } => Some(BrowserAction::ImeCommitText { text }),
        Command::ImeFinishComposingText { keep_selection, .. } => Some(
            BrowserAction::ImeFinishComposingText { keep_selection },
        ),
        Command::ImeCancelComposition { .. } => Some(BrowserAction::ImeCancelComposition),
        Command::SendExternalBeginFrame { .. } => Some(BrowserAction::BeginFrame),
        Command::CreateBrowser { .. }
        | Command::GetCurrentUrl { .. }
        | Command::GetLogs
        | Command::Shutdown => None,
    }
}

/// What a command does to its browser, given what the engine has to say of that browser.
pub open spec fn action_for(command: Command, facts: BrowserFacts) -> Option<BrowserAction> {
    if command is SendExternalBeginFrame && !facts.timing.gate_open {
        None
    } else if needs_frame(command) && !facts.frame || !needs_frame(command) && !facts.host {
        None
    } else {
        action_of(command)
    }
}

/// What a command for a browser that exists is answered.
pub open spec fn answer_for(command: Command, facts: BrowserFacts) -> ResponseView {
    match command {
        Command::LoadUrl { .. } => if facts.frame {
            ResponseView::Success
        } else {
            ResponseView::Error { message: "browser not ready yet"@ }
        },
        Command::EditCommand { .. } => if facts.frame {
            ResponseView::Success
        } else {
            ResponseView::Error { message: "browser or frame not available"@ }
        },
        Command::GetCurrentUrl { .. } => if facts.frame {
            ResponseView::CurrentUrl { url: facts.url@ }
        } else {
            ResponseView::Error { message: "browser or frame not available"@ }
        },
        _ => ResponseView::Success,
    }
}

/// What a command for the given browser is answered.
pub open spec fn answered(
    browsers: Map<u32, Viewport>,
    browser_id: u32,
    command: Command,
    facts: BrowserFacts,
) -> ResponseView {
    if browsers.contains_key(browser_id) {
        answer_for(command, facts)
    } else {
        not_found(browser_id)
    }
}

/// The browsers after a command for one that exists.
pub open spec fn browsers_after(browsers: Map<u32, Viewport>, command: Command) -> Map<
    u32,
    Viewport,
> {
    match command {
        Command::DestroyBrowser { browser_id } => browsers.remove(browser_id),
        Command::Resize { browser_id, width, height } => browsers.insert(
            browser_id,
            page_size(width, height),
        ),
        _ => browsers,
    }
}

/// The schedule after a command for a browser that exists.
pub open spec fn schedule_after(
    schedule: FrameSchedule,
    command: Command,
    facts: BrowserFacts,
) -> FrameSchedule {
    match command {
        Command::SendExternalBeginFrame { browser_id, unity_frame } => schedule.sent(
            BeginFrame { browser_id, unity_frame },
            facts.timing,
            facts.host,
        ),
        _ => schedule,
    }
}

/// What creating a browser is answered.
pub open spec fn created_answer(browser_id: u32, outcome: CreateOutcome) -> ResponseView {
    match outcome {
        CreateOutcome::SharedMemoryFailed { error } => ResponseView::Error {
            message: "shm_create failed: "@ + error@,
        },
        CreateOutcome::AudioSharedMemoryFailed { error } => ResponseView::Error {
            message: "audio_shm_create failed: "@ + error@,
        },
        CreateOutcome::HostFailed => ResponseView::Error {
            message: "browser_host_create_browser failed"@,
        },
        CreateOutcome::Created {
            shared_memory_flink,
            audio_shared_memory_flink,
            fence_handle,
        } => ResponseView::BrowserCreated {
            browser_id,
            shared_memory_flink: shared_memory_flink@,
            d3d11_fence_handle: match fence_handle {
                Some(handle) => handle,
                None => 0,
            },
            audio_shared_memory_flink: audio_shared_memory_flink@,
        },
    }
}

/// The answer to a command for a browser that does not exist.
fn report_not_found(browser_id: u32) -> (response: Response)
    ensures
        response@ == not_found(browser_id),
{
    let mut message: String = String::new();
    message.append("browser ");
    push_decimal(&mut message, browser_id as u64);
    message.append(" not found");
    assert(message@ =~= "browser "@ + text::decimal(browser_id as nat) + " not found"@);
    Response::Error { message }
}

/// An error with the given message.
fn error(message: &str) -> (response: Response)
    ensures
        response@ == (ResponseView::Error { message: message@ }),
{
    Response::Error { message: message.to_owned() }
}

/// An error with the given message, after a prefix.
fn error_because(prefix: &str, cause: String) -> (response: Response)
    ensures
        response@ == (ResponseView::Error { message: prefix@ + cause@ }),
{
    let mut message: String = prefix.to_owned();
    message.append(cause.as_str());
    Response::Error { message }
}

/// A size as a page can have it.
pub fn clamp_page_size(width: i32, height: i32) -> (viewport: Viewport)
    ensures
        viewport == page_size(width, height),
{
    Viewport {
        width: if width < 1 {
            1
        } else {
            width
        },
        height: if height < 1 {
            1
        } else {
            height
        },
    }
}

/// The browser that a command addresses.
pub fn addressed_browser(command: &Command) -> (browser_id: Option<u32>)
    ensures
        browser_id == addressed(*command),
{
    match command {
        Command::CreateBrowser { .. } | Command::GetLogs | Command::Shutdown => None,
        Command::DestroyBrowser { browser_id }
        | Command::LoadUrl { browser_id, .. }
        | Command::Resize { browser_id, .. }
        | Command::MouseMove { browser_id, .. }
        | Command::MouseClick { browser_id, .. }
        | Command::MouseWheel { browser_id, .. }
        | Command::KeyEvent { browser_id, .. }
        | Command::ExecuteJavaScript { browser_id, .. }
        | Command::EditCommand { browser_id, .. }
        | Command::GetCurrentUrl { browser_id }
        | Command::ImeSetComposition { browser_id, .. }
        | Command::ImeCommitText { browser_id, .. }
        | Command::ImeFinishComposingText { browser_id, .. }
        | Command::ImeCancelComposition { browser_id }
        | Command::SendExternalBeginFrame { browser_id, .. } => Some(*browser_id),
    }
}

/// What a command does to its browser once host and frame are at hand.
fn action_of_command(command: Command) -> (action: Option<BrowserAction>)
    ensures
        action == action_of(command),
{
    match command {
        Command::DestroyBrowser { .. } => Some(BrowserAction::Close),
        Command::LoadUrl { url, .. } => Some(BrowserAction::LoadUrl { url }),
        Command::Resize { .. } => Some(BrowserAction::Resized),
        Command::MouseMove { x, y, modifiers, .. } => Some(
            BrowserAction::MouseMove { x, y, modifiers },
        ),
        Command::MouseClick { x, y, modifiers, button, mouse_up, click_count, .. } => {
            let button: MouseButton = match button {
                1 => MouseButton::Middle,
                2 => MouseButton::Right,
                _ => MouseButton::Left,
            };
            Some(
                BrowserAction::MouseClick {
                    x,
                    y,
                    modifiers,
                    button,
                    mouse_up,
                    click_count,
                    set_focus: !mouse_up,
                },
            )
        },
        Command::MouseWheel { x, y, modifiers, delta_x, delta_y, .. } => Some(
            BrowserAction::MouseWheel { x, y, modifiers, delta_x, delta_y },
        ),
        Command::KeyEvent {
            event_type,
            modifiers,
            windows_key_code,
            native_key_code,
            character,
            unmodified_character,
            is_system_key,
            focus_on_editable_field,
            ..
        } => {
            let kind: KeyEventKind = match event_type {
                1 => KeyEventKind::KeyUp,
                2 => KeyEventKind::Character,
                _ => KeyEventKind::RawKeyDown,
            };
            Some(
                BrowserAction::Key {
                    kind,
                    modifiers,
                    windows_key_code,
                    native_key_code,
                    character,
                    unmodified_character,
                    is_system_key,
                    focus_on_editable_field,
                },
            )
        },
        Command::ExecuteJavaScript { code, .. } => Some(BrowserAction::ExecuteJavaScript { code }),
        Command::EditCommand { command, .. } => match command {
            0 => Some(BrowserAction::Edit { edit: EditAction::Copy }),
            1 => Some(BrowserAction::Edit { edit: EditAction::Paste }),
            2 => Some(BrowserAction::Edit { edit: EditAction::Cut }),
            3 => Some(BrowserAction::Edit { edit: EditAction::SelectAll }),
            4 => Some(BrowserAction::Edit { edit: EditAction::Undo }),
            5 => Some(BrowserAction::Edit { edit: EditAction::Redo }),
            _ => None,
        },
        Command::ImeSetComposition { text, selection_start, selection_end, .. } => {
            let length: u64 = text.as_str().unicode_len() as u64;
            let underline_end: u32 = (length % 0x1_0000_0000) as u32;
            Some(
                BrowserAction::ImeSetComposition {
                    text,
                    underline_end,
                    selection_start,
                    selection_end,
                },
            )
        },
        Command::ImeCommitText { text, .. } => Some(BrowserAction::ImeCommitText { text }),
        Command::ImeFinishComposingText { keep_selection, .. } => Some(
            BrowserAction::ImeFinishComposingText { keep_selection },
        ),
        Command::ImeCancelComposition { .. } => Some(BrowserAction::ImeCancelComposition),
        Command::SendExternalBeginFrame { .. } => Some(BrowserAction::BeginFrame),
        Command::CreateBrowser { .. }
        | Command::GetCurrentUrl { .. }
        | Command::GetLogs
        | Command::Shutdown => None,
    }
}

/// The longest part of a script that is logged, in characters.
pub const LOGGED_SCRIPT_CHARACTERS: usize = 100;

/// What is logged of a command when it arrives, where anything is: an address in full, and a script
/// up to a certain length.
pub open spec fn note_of(command: Command) -> Option<Seq<char>> {
    match command {
        Command::LoadUrl { browser_id, url } => Some(
            "load_url: browser_id="@ + text::decimal(browser_id as nat) + ", url="@ + url@,
        ),
        Command::ExecuteJavaScript { browser_id, code } => Some(
            "execute_javascript: browser_id="@ + text::decimal(browser_id as nat) + ", code="@
                + if code@.len() <= LOGGED_SCRIPT_CHARACTERS {
                code@
            } else {
                code@.take(LOGGED_SCRIPT_CHARACTERS as int)
            },
        ),
        _ => None,
    }
}

/// What is logged of a command when it arrives.
pub fn command_note(command: &Command) -> (note: Option<String>)
    ensures
        match (note, note_of(*command)) {
            (Some(note), Some(expected)) => note@ == expected,
            (None, None) => true,
            _ => false,
        },
{
    match command {
        Command::LoadUrl { browser_id, url } => {
            let mut note: String = String::new();
            note.append("load_url: browser_id=");
            push_decimal(&mut note, *browser_id as u64);
            note.append(", url=");
            note.append(url.as_str());
            assert(note@ =~= note_of(*command).unwrap());
            Some(note)
        },
        Command::ExecuteJavaScript { browser_id, code } => {
            let mut note: String = String::new();
            note.append("execute_javascript: browser_id=");
            push_decimal(&mut note, *browser_id as u64);
            note.append(", code=");
            let length: usize = code.as_str().unicode_len();
            if length <= LOGGED_SCRIPT_CHARACTERS {
                note.append(code.as_str());
            } else {
                let front: &str = code.as_str().substring_char(0, LOGGED_SCRIPT_CHARACTERS);
                note.append(front);
            }
            assert(note@ =~= note_of(*command).unwrap());
            Some(note)
        },
        _ => None,
    }
}

impl CefServer {
    /// What holds between any two commands.
    pub open spec fn well_formed(&self) -> bool {
        &&& self.schedule.well_formed()
        &&& self.logs.well_formed()
        &&& forall|id: u32| #[trigger]
            self.browsers@.contains_key(id) ==> self.browsers@[id].width >= 1
                && self.browsers@[id].height >= 1
    }

    /// Every browser has a number below the next one that is given out.
    pub open spec fn ids_below_next(&self) -> bool {
        forall|id: u32| #[trigger] self.browsers@.contains_key(id) ==> id < self.next_browser_id
    }

    /// Everything but the browsers, the schedule and the kept messages is as it was.
    pub open spec fn same_setup(&self, before: &CefServer) -> bool {
        &&& self.server_pid == before.server_pid
        &&& self.client_pid == before.client_pid
        &&& self.use_gpu == before.use_gpu
        &&& self.logs.spec_enabled() == before.logs.spec_enabled()
    }

    /// Whether a command comes to the given decision and leaves the server as `after`.
    pub open spec fn handles(
        &self,
        command: Command,
        facts: BrowserFacts,
        after: &CefServer,
        decision: Decision,
    ) -> bool {
        &&& after.same_setup(self)
        &&& command is CreateBrowser || after.next_browser_id == self.next_browser_id
        &&& command is GetLogs || after.logs@ == self.logs@
        &&& match addressed(command) {
            Some(browser_id) => {
                &&& decision matches Decision::Reply { response, action }
                &&& response@ == answered(self.browsers@, browser_id, command, facts)
                &&& if self.browsers@.contains_key(browser_id) {
                    &&& action == action_for(command, facts)
                    &&& after.browsers@ == browsers_after(self.browsers@, command)
                    &&& after.schedule == schedule_after(self.schedule, command, facts)
                } else {
                    &&& action is None
                    &&& after.browsers@ == self.browsers@
                    &&& after.schedule == self.schedule
                }
            },
            None => {
                &&& after.browsers@ == self.browsers@
                &&& after.schedule == self.schedule
                &&& match command {
                    Command::CreateBrowser { width, height, url } => {
                        &&& decision == (Decision::Create {
                            plan: CreatePlan {
                                browser_id: self.next_browser_id,
                                viewport: page_size(width, height),
                                url,
                                want_texture_pool: self.use_gpu,
                            },
                        })
                        &&& after.next_browser_id == if self.next_browser_id == u32::MAX {
                            0
                        } else {
                            (self.next_browser_id + 1) as u32
                        }
                    },
                    Command::GetLogs => {
                        &&& decision matches Decision::Reply { response, action: None }
                        &&& response@ == (ResponseView::Logs { entries: self.logs@ })
                        &&& after.logs@ == Seq::<Seq<char>>::empty()
                    },
                    _ => decision == (Decision::Reply {
                        response: Response::Success,
                        action: None,
                    }),
                }
            },
        }
    }

    /// Whether the outcome of a creation is answered as given and leaves the server as `after`.
    pub open spec fn finishes(
        &self,
        plan: CreatePlan,
        outcome: CreateOutcome,
        after: &CefServer,
        response: Response,
    ) -> bool {
        &&& after.same_setup(self)
        &&& after.next_browser_id == self.next_browser_id
        &&& after.schedule == self.schedule
        &&& after.logs == self.logs
        &&& after.browsers@ == if outcome is Created {
            self.browsers@.insert(plan.browser_id, plan.viewport)
        } else {
            self.browsers@
        }
        &&& response@ == created_answer(plan.browser_id, outcome)
    }

    /// Whether one turn of the event loop issues the given begin frame or flush, or none, and leaves
    /// the server as `after`.
    pub open spec fn turns(
        &self,
        facts: FrameFacts,
        deferred_host: bool,
        pending_host: bool,
        after: &CefServer,
        issued: Option<BeginFrame>,
    ) -> bool {
        &&& after.same_setup(self)
        &&& after.next_browser_id == self.next_browser_id
        &&& after.logs == self.logs
        &&& after.browsers@ == self.browsers@
        &&& (after.schedule, issued) == self.schedule.processed(
            facts,
            self.schedule.deferred_begin_frame matches Some(frame) && self.browsers@.contains_key(
                frame.browser_id,
            ),
            deferred_host,
            pending_host && (self.schedule.pending_flush matches Some(pending)
                && self.browsers@.contains_key(pending.browser_id)),
        )
    }

    /// Whether nothing distinguishes the server from what it was before.
    pub open spec fn unchanged_since(&self, before: &CefServer) -> bool {
        &&& self.browsers@ == before.browsers@
        &&& self.next_browser_id == before.next_browser_id
        &&& self.server_pid == before.server_pid
        &&& self.client_pid == before.client_pid
        &&& self.use_gpu == before.use_gpu
        &&& self.schedule == before.schedule
        &&& self.logs@ == before.logs@
        &&& self.logs.spec_enabled() == before.logs.spec_enabled()
    }

    /// A server without browsers.
    pub fn new(server_pid: u32, client_pid: Option<u32>, use_gpu: bool) -> (server: CefServer)
        ensures
            server.well_formed(),
            server.ids_below_next(),
            server.browsers@ == Map::<u32, Viewport>::empty(),
            server.next_browser_id == 1,
            server.server_pid == server_pid,
            server.client_pid == client_pid,
            server.use_gpu == use_gpu,
            server.schedule == FrameSchedule::unused(),
            server.logs@ == Seq::<Seq<char>>::empty(),
            !server.logs.spec_enabled(),
    {
        CefServer {
            browsers: HashMap::new(),
            next_browser_id: 1,
            server_pid,
            client_pid,
            use_gpu,
            schedule: FrameSchedule::new(),
            logs: LogBuffer::new(),
        }
    }

    /// Decides what a command comes to.
    pub fn handle_command(&mut self, command: Command, facts: BrowserFacts) -> (decision: Decision)
        ensures
            old(self).well_formed() ==> final(self).well_formed(),
            old(self).ids_below_next() && old(self).next_browser_id < u32::MAX
                ==> final(self).ids_below_next(),
            old(self).handles(command, facts, &*final(self), decision),
    {
        match addressed_browser(&command) {
            Some(browser_id) => if self.browsers.contains_key(&browser_id) {
                self.handle_known(command, browser_id, facts)
            } else {
                Decision::Reply { response: report_not_found(browser_id), action: None }
            },
            None => match command {
                Command::CreateBrowser { width, height, url } => {
                    let browser_id: u32 = self.next_browser_id;
                    self.next_browser_id = if browser_id == u32::MAX {
                        0
                    } else {
                        browser_id + 1
                    };
                    Decision::Create {
                        plan: CreatePlan {
                            browser_id,
                            viewport: clamp_page_size(width, height),
                            url,
                            want_texture_pool: self.use_gpu,
                        },
                    }
                },
                Command::GetLogs => {
                    let entries: Vec<String> = self.logs.drain_logs();
                    Decision::Reply { response: Response::Logs { entries }, action: None }
                },
                _ => Decision::Reply { response: Response::Success, action: None },
            },
        }
    }

    /// Decides what a command for a browser that exists comes to.
    fn handle_known(&mut self, command: Command, browser_id: u32, facts: BrowserFacts) -> (decision:
        Decision)
        requires
            addressed(command) == Some(browser_id),
            old(self).browsers@.contains_key(browser_id),
        ensures
            final(self).same_setup(&*old(self)),
            old(self).well_formed() ==> final(self).well_formed(),
            final(self).next_browser_id == old(self).next_browser_id,
            final(self).logs == old(self).logs,
            decision matches Decision::Reply { response, action } && response@ == answer_for(
                command,
                facts,
            ) && action == action_for(command, facts),
            final(self).browsers@ == browsers_after(old(self).browsers@, command),
            final(self).schedule == schedule_after(old(self).schedule, command, facts),
    {
        let mut ready: bool = facts.host;
        let mut response: Response = Response::Success;
        match &command {
            Command::DestroyBrowser { .. } => {
                self.browsers.remove(&browser_id);
            },
            Command::Resize { width, height, .. } => {
                self.browsers.insert(browser_id, clamp_page_size(*width, *height));
            },
            Command::LoadUrl { .. } => {
                ready = facts.frame;
                if !ready {
                    response = error("browser not ready yet");
                }
            },
            Command::ExecuteJavaScript { .. } => {
                ready = facts.frame;
            },
            Command::EditCommand { .. } => {
                ready = facts.frame;
                if !ready {
                    response = error("browser or frame not available");
                }
            },
            Command::GetCurrentUrl { .. } => {
                ready = facts.frame;
                response = if ready {
                    Response::CurrentUrl { url: facts.url }
                } else {
                    error("browser or frame not available")
                };
            },
            Command::SendExternalBeginFrame { unity_frame, .. } => {
                ready = self.schedule.send_external_begin_frame(
                    BeginFrame { browser_id, unity_frame: *unity_frame },
                    facts.timing,
                    facts.host,
                );
            },
            _ => {},
        }
        let action: Option<BrowserAction> = if ready {
            action_of_command(command)
        } else {
            None
        };
        Decision::Reply { response, action }
    }

    /// Takes note of how the creation of a browser came out, and answers accordingly.
    pub fn finish_create_browser(&mut self, plan: &CreatePlan, outcome: CreateOutcome) -> (response:
        Response)
        ensures
            plan.viewport.width >= 1 && plan.viewport.height >= 1 && old(self).well_formed()
                ==> final(self).well_formed(),
            old(self).ids_below_next() && plan.browser_id < old(self).next_browser_id
                ==> final(self).ids_below_next(),
            old(self).finishes(*plan, outcome, &*final(self), response),
    {
        match outcome {
            CreateOutcome::SharedMemoryFailed { error } => error_because(
                "shm_create failed: ",
                error,
            ),
            CreateOutcome::AudioSharedMemoryFailed { error } => error_because(
                "audio_shm_create failed: ",
                error,
            ),
            CreateOutcome::HostFailed => error("browser_host_create_browser failed"),
            CreateOutcome::Created {
                shared_memory_flink,
                audio_shared_memory_flink,
                fence_handle,
            } => {
                self.browsers.insert(plan.browser_id, plan.viewport);
                let d3d11_fence_handle: u64 = match fence_handle {
                    Some(handle) => handle,
                    None => 0,
                };
                Response::BrowserCreated {
                    browser_id: plan.browser_id,
                    shared_memory_flink,
                    d3d11_fence_handle,
                    audio_shared_memory_flink,
                }
            },
        }
    }

    /// One turn of the event loop: the begin frame or flush to issue now, if any. `deferred_host`
    /// and `pending_host` say whether the browsers of the waiting begin frame and of the pending
    /// flush can be told.
    pub fn process_pending_flushes(
        &mut self,
        facts: FrameFacts,
        deferred_host: bool,
        pending_host: bool,
    ) -> (issued: Option<BeginFrame>)
        ensures
            old(self).well_formed() ==> final(self).well_formed(),
            old(self).turns(facts, deferred_host, pending_host, &*final(self), issued),
    {
        let deferred_known: bool = match self.schedule.deferred_begin_frame {
            Some(frame) => self.browsers.contains_key(&frame.browser_id),
            None => false,
        };
        let pending_known: bool = match self.schedule.pending_flush {
            Some(pending) => self.browsers.contains_key(&pending.browser_id),
            None => false,
        };
        self.schedule.process_pending_flushes(
            facts,
            deferred_known,
            deferred_host,
            pending_host && pending_known,
        )
    }

    /// Forgets every browser, and says which ones there were: these are to be closed.
    pub fn shutdown(&mut self) -> (closed: Vec<u32>)
        ensures
            final(self).same_setup(&*old(self)),
            old(self).well_formed() ==> final(self).well_formed(),
            final(self).next_browser_id == old(self).next_browser_id,
            final(self).schedule == old(self).schedule,
            final(self).logs == old(self).logs,
            final(self).browsers@ == Map::<u32, Viewport>::empty(),
            closed@.no_duplicates(),
            closed@.to_set() == old(self).browsers@.dom(),
    {
        let mut closed: Vec<u32> = Vec::new();
        for id in iter: self.browsers.keys()
            invariant
                iter.seq().no_duplicates(),
                iter.seq().unref().to_set() == self.browsers@.dom(),
                closed@ == iter.seq().unref().take(iter.index()),
                iter.index() == iter.seq().len() ==> closed@.no_duplicates() && closed@.to_set()
                    == self.browsers@.dom(),
        {
            closed.push(*id);
            assert(iter.seq().unref().take(iter.index() + 1) =~= iter.seq().unref().take(
                iter.index(),
            ).push(*id));
            assert(iter.index() + 1 == iter.seq().len() ==> iter.seq().unref().take(
                iter.index() + 1,
            ) =~= iter.seq().unref());
            assert(iter.seq().unref().no_duplicates());
        }
        self.browsers.clear();
        closed
    }
}

/// A browser that was closed is unknown from then on: whatever is asked of it is refused.
pub proof fn law_closed_browser_is_unknown(
    browsers: Map<u32, Viewport>,
    browser_id: u32,
    later: Command,
    facts: BrowserFacts,
)
    requires
        addressed(later) == Some(browser_id),
    ensures
        answered(
            browsers_after(browsers, Command::DestroyBrowser { browser_id }),
            browser_id,
            later,
            facts,
        ) == not_found(browser_id),
{
}

/// A command leaves every browser alone but the one that it addresses.
pub proof fn law_other_browsers_are_left_alone(
    browsers: Map<u32, Viewport>,
    command: Command,
    other: u32,
)
    requires
        addressed(command) != Some(other),
    ensures
        browsers_after(browsers, command).contains_key(other) == browsers.contains_key(other),
        browsers.contains_key(other) ==> browsers_after(browsers, command)[other]
            == browsers[other],
{
}

/// A new browser takes no other one's place: the number that it gets is not in use.
pub proof fn law_new_browser_takes_no_place(server: CefServer)
    requires
        server.ids_below_next(),
    ensures
        !server.browsers@.contains_key(server.next_browser_id),
{
}

/// For a browser whose host can be reached, committing a text leads to the action that commits
/// exactly that text, and nothing else about the server changes.
pub proof fn law_text_is_committed(
    server: CefServer,
    browser_id: u32,
    text: String,
    facts: BrowserFacts,
    after: CefServer,
    decision: Decision,
)
    requires
        server.browsers@.contains_key(browser_id),
        facts.host,
        server.handles(Command::ImeCommitText { browser_id, text }, facts, &after, decision),
    ensures
        decision == (Decision::Reply {
            response: Response::Success,
            action: Some(BrowserAction::ImeCommitText { text }),
        }),
        after.unchanged_since(&server),
{
}

/// A turn of the wheel reaches the browser at the place where it was made, with the keys that were
/// held, and with its horizontal and its vertical distance as they were given.
pub proof fn law_wheel_turn_is_passed_on(
    server: CefServer,
    browser_id: u32,
    place: (i32, i32),
    modifiers: u32,
    distance: (i32, i32),
    facts: BrowserFacts,
    after: CefServer,
    decision: Decision,
)
    requires
        server.browsers@.contains_key(browser_id),
        facts.host,
        server.handles(
            Command::MouseWheel {
                browser_id,
                x: place.0,
                y: place.1,
                modifiers,
                delta_x: distance.0,
                delta_y: distance.1,
            },
            facts,
            &after,
            decision,
        ),
    ensures
        ({
            &&& decision matches Decision::Reply { response: Response::Success, action: Some(action) }
            &&& action matches BrowserAction::MouseWheel { x, y, modifiers: held, delta_x, delta_y }
            &&& (x, y) == place
            &&& held == modifiers
            &&& (delta_x, delta_y) == distance
        }),
        after.unchanged_since(&server),
{
}

/// A move of the mouse reaches the browser with its place and the keys that were held.
pub proof fn law_mouse_move_is_passed_on(
    server: CefServer,
    browser_id: u32,
    place: (i32, i32),
    modifiers: u32,
    facts: BrowserFacts,
    after: CefServer,
    decision: Decision,
)
    requires
        server.browsers@.contains_key(browser_id),
        facts.host,
        server.handles(
            Command::MouseMove { browser_id, x: place.0, y: place.1, modifiers },
            facts,
            &after,
            decision,
        ),
    ensures
        ({
            &&& decision matches Decision::Reply { response: Response::Success, action: Some(action) }
            &&& action matches BrowserAction::MouseMove { x, y, modifiers: held }
            &&& (x, y) == place
            &&& held == modifiers
        }),
        after.unchanged_since(&server),
{
}

/// A button that is pressed or released reaches the browser at its place, with the keys that were
/// held and the count of clicks. One is the middle button, two the right one, and every other number
/// the left one. The browser gets the focus when a button is pressed, and only then.
pub proof fn law_click_is_passed_on(
    server: CefServer,
    browser_id: u32,
    place: (i32, i32),
    modifiers: u32,
    button: u8,
    mouse_up: bool,
    click_count: i32,
    facts: BrowserFacts,
    after: CefServer,
    decision: Decision,
)
    requires
        server.browsers@.contains_key(browser_id),
        facts.host,
        server.handles(
            Command::MouseClick {
                browser_id,
                x: place.0,
                y: place.1,
                modifiers,
                button,
                mouse_up,
                click_count,
            },
            facts,
            &after,
            decision,
        ),
    ensures
        ({
            &&& decision matches Decision::Reply { response: Response::Success, action: Some(action) }
            &&& action matches BrowserAction::MouseClick {
                x,
                y,
                modifiers: held,
                button: pressed,
                mouse_up: released,
                click_count: count,
                set_focus,
            }
            &&& (x, y) == place
            &&& held == modifiers
            &&& released == mouse_up
            &&& count == click_count
            &&& set_focus <==> !mouse_up
            &&& pressed == MouseButton::Middle <==> button == 1
            &&& pressed == MouseButton::Right <==> button == 2
            &&& pressed == MouseButton::Left <==> button != 1 && button != 2
        }),
        after.unchanged_since(&server),
{
}

/// A key reaches the browser with everything that was said of it. One is a release, two a character,
/// and every other number a raw press.
pub proof fn law_key_is_passed_on(
    server: CefServer,
    browser_id: u32,
    event_type: u8,
    modifiers: u32,
    key_codes: (i32, i32),
    characters: (u16, u16),
    flags: (i32, i32),
    facts: BrowserFacts,
    after: CefServer,
    decision: Decision,
)
    requires
        server.browsers@.contains_key(browser_id),
        facts.host,
        server.handles(
            Command::KeyEvent {
                browser_id,
                event_type,
                modifiers,
                windows_key_code: key_codes.0,
                native_key_code: key_codes.1,
                character: characters.0,
                unmodified_character: characters.1,
                is_system_key: flags.0,
                focus_on_editable_field: flags.1,
            },
            facts,
            &after,
            decision,
        ),
    ensures
        ({
            &&& decision matches Decision::Reply { response: Response::Success, action: Some(action) }
            &&& action matches BrowserAction::Key {
                kind,
                modifiers: held,
                windows_key_code,
                native_key_code,
                character,
                unmodified_character,
                is_system_key,
                focus_on_editable_field,
            }
            &&& held == modifiers
            &&& (windows_key_code, native_key_code) == key_codes
            &&& (character, unmodified_character) == characters
            &&& (is_system_key, focus_on_editable_field) == flags
            &&& kind == KeyEventKind::KeyUp <==> event_type == 1
            &&& kind == KeyEventKind::Character <==> event_type == 2
            &&& kind == KeyEventKind::RawKeyDown <==> event_type != 1 && event_type != 2
        }),
        after.unchanged_since(&server),
{
}

/// A resize is noted whether or not the browser's host can be reached, and where it can, the browser
/// is told to draw anew. The page takes the size that was asked for, each way on its own, except that
/// it is never smaller than one pixel. Every other browser keeps its size.
pub proof fn law_resize_is_noted_and_passed_on(
    server: CefServer,
    browser_id: u32,
    width: i32,
    height: i32,
    facts: BrowserFacts,
    after: CefServer,
    decision: Decision,
)
    requires
        server.browsers@.contains_key(browser_id),
        server.handles(Command::Resize { browser_id, width, height }, facts, &after, decision),
    ensures
        facts.host ==> decision == (Decision::Reply {
            response: Response::Success,
            action: Some(BrowserAction::Resized),
        }),
        !facts.host ==> decision == (Decision::Reply { response: Response::Success, action: None }),
        after.browsers@.dom() == server.browsers@.dom(),
        width >= 1 ==> after.browsers@[browser_id].width == width,
        width < 1 ==> after.browsers@[browser_id].width == 1,
        height >= 1 ==> after.browsers@[browser_id].height == height,
        height < 1 ==> after.browsers@[browser_id].height == 1,
        forall|other: u32|
            #![trigger after.browsers@[other]]
            other != browser_id && server.browsers@.contains_key(other) ==> after.browsers@[other]
                == server.browsers@[other],
        after.schedule == server.schedule,
        after.next_browser_id == server.next_browser_id,
{
    assert(after.browsers@.dom() =~= server.browsers@.dom());
}

/// An address is loaded as it was given, where the browser's main frame can be reached; otherwise the
/// client is told that the browser is not ready, and nothing is loaded. Whether the host can be reached
/// does not matter.
pub proof fn law_address_is_loaded(
    server: CefServer,
    browser_id: u32,
    url: String,
    facts: BrowserFacts,
    after: CefServer,
    decision: Decision,
)
    requires
        server.browsers@.contains_key(browser_id),
        server.handles(Command::LoadUrl { browser_id, url }, facts, &after, decision),
    ensures
        facts.frame ==> decision == (Decision::Reply {
            response: Response::Success,
            action: Some(BrowserAction::LoadUrl { url }),
        }),
        !facts.frame ==> (decision matches Decision::Reply {
            response: Response::Error { message },
            action: None,
        } && message@ == "browser not ready yet"@),
        after.unchanged_since(&server),
{
}

/// A script runs as it was given, where the browser's main frame can be reached; otherwise it is
/// dropped. The client is told of success either way.
pub proof fn law_script_is_executed(
    server: CefServer,
    browser_id: u32,
    code: String,
    facts: BrowserFacts,
    after: CefServer,
    decision: Decision,
)
    requires
        server.browsers@.contains_key(browser_id),
        server.handles(Command::ExecuteJavaScript { browser_id, code }, facts, &after, decision),
    ensures
        facts.frame ==> decision == (Decision::Reply {
            response: Response::Success,
            action: Some(BrowserAction::ExecuteJavaScript { code }),
        }),
        !facts.frame ==> decision == (Decision::Reply { response: Response::Success, action: None }),
        after.unchanged_since(&server),
{
}

/// The six edit commands are carried out by number, where the browser's main frame can be reached;
/// every other number does nothing, and is no error. Without the frame the client is told so, whatever
/// the number.
pub proof fn law_edit_is_carried_out(
    server: CefServer,
    browser_id: u32,
    command: u8,
    facts: BrowserFacts,
    after: CefServer,
    decision: Decision,
)
    requires
        server.browsers@.contains_key(browser_id),
        server.handles(Command::EditCommand { browser_id, command }, facts, &after, decision),
    ensures
        ({
            &&& decision matches Decision::Reply { response, action }
            &&& facts.frame ==> response == Response::Success
            &&& !facts.frame ==> action is None && (response matches Response::Error { message }
                && message@ == "browser or frame not available"@)
            &&& facts.frame && command == 0 ==> action == Some(
                BrowserAction::Edit { edit: EditAction::Copy },
            )
            &&& facts.frame && command == 1 ==> action == Some(
                BrowserAction::Edit { edit: EditAction::Paste },
            )
            &&& facts.frame && command == 2 ==> action == Some(
                BrowserAction::Edit { edit: EditAction::Cut },
            )
            &&& facts.frame && command == 3 ==> action == Some(
                BrowserAction::Edit { edit: EditAction::SelectAll },
            )
            &&& facts.frame && command == 4 ==> action == Some(
                BrowserAction::Edit { edit: EditAction::Undo },
            )
            &&& facts.frame && command == 5 ==> action == Some(
                BrowserAction::Edit { edit: EditAction::Redo },
            )
            &&& command > 5 ==> action is None
        }),
        after.unchanged_since(&server),
{
}

/// The client is told the address that the main frame shows, where it can be reached; otherwise it is
/// told that it cannot. Nothing is done to the browser.
pub proof fn law_current_address_is_told(
    server: CefServer,
    browser_id: u32,
    facts: BrowserFacts,
    after: CefServer,
    decision: Decision,
)
    requires
        server.browsers@.contains_key(browser_id),
        server.handles(Command::GetCurrentUrl { browser_id }, facts, &after, decision),
    ensures
        ({
            &&& decision matches Decision::Reply { response, action: None }
            &&& facts.frame ==> (response matches Response::CurrentUrl { url } && url@ == facts.url@)
            &&& !facts.frame ==> (response matches Response::Error { message } && message@
                == "browser or frame not available"@)
        }),
        after.unchanged_since(&server),
{
}

/// A composition reaches the browser with its text and its selection, and is underlined from its first
/// character to its last.
pub proof fn law_composition_is_passed_on(
    server: CefServer,
    browser_id: u32,
    text: String,
    selection: (u32, u32),
    facts: BrowserFacts,
    after: CefServer,
    decision: Decision,
)
    requires
        server.browsers@.contains_key(browser_id),
        facts.host,
        text@.len() <= u32::MAX,
        server.handles(
            Command::ImeSetComposition {
                browser_id,
                text,
                selection_start: selection.0,
                selection_end: selection.1,
            },
            facts,
            &after,
            decision,
        ),
    ensures
        ({
            &&& decision matches Decision::Reply { response: Response::Success, action: Some(action) }
            &&& action matches BrowserAction::ImeSetComposition {
                text: composed,
                underline_end,
                selection_start,
                selection_end,
            }
            &&& composed == text
            &&& underline_end == text@.len()
            &&& (selection_start, selection_end) == selection
        }),
        after.unchanged_since(&server),
{
}

/// A composition ends as it was asked to: it is taken over, with or without its selection, or given
/// up.
pub proof fn law_composition_is_ended(
    server: CefServer,
    browser_id: u32,
    keep_selection: bool,
    facts: BrowserFacts,
    after: CefServer,
    finished: Decision,
    cancelled: Decision,
)
    requires
        server.browsers@.contains_key(browser_id),
        facts.host,
        server.handles(
            Command::ImeFinishComposingText { browser_id, keep_selection },
            facts,
            &after,
            finished,
        ),
        server.handles(Command::ImeCancelComposition { browser_id }, facts, &after, cancelled),
    ensures
        finished == (Decision::Reply {
            response: Response::Success,
            action: Some(BrowserAction::ImeFinishComposingText { keep_selection }),
        }),
        cancelled == (Decision::Reply {
            response: Response::Success,
            action: Some(BrowserAction::ImeCancelComposition),
        }),
        after.unchanged_since(&server),
{
}

/// A browser that is to be closed is known no longer, whether or not its host can be reached; where it
/// can, the browser is told. Every other browser stays.
pub proof fn law_browser_is_closed(
    server: CefServer,
    browser_id: u32,
    facts: BrowserFacts,
    after: CefServer,
    decision: Decision,
)
    requires
        server.browsers@.contains_key(browser_id),
        server.handles(Command::DestroyBrowser { browser_id }, facts, &after, decision),
    ensures
        facts.host ==> decision == (Decision::Reply {
            response: Response::Success,
            action: Some(BrowserAction::Close),
        }),
        !facts.host ==> decision == (Decision::Reply { response: Response::Success, action: None }),
        !after.browsers@.contains_key(browser_id),
        forall|other: u32|
            #![trigger after.browsers@.contains_key(other)]
            other != browser_id ==> after.browsers@.contains_key(other)
                == server.browsers@.contains_key(other) && (server.browsers@.contains_key(other)
                ==> after.browsers@[other] == server.browsers@[other]),
        after.next_browser_id == server.next_browser_id,
        after.schedule == server.schedule,
{
}

/// A begin frame reaches its browser at once where no frame is being copied and the host can be
/// reached. While a frame is being copied it waits, for that browser and that engine frame. The client
/// is told of success either way, and no browser is lost or gained.
pub proof fn law_begin_frame_is_issued_or_waits(
    server: CefServer,
    browser_id: u32,
    unity_frame: u64,
    facts: BrowserFacts,
    after: CefServer,
    decision: Decision,
)
    requires
        server.browsers@.contains_key(browser_id),
        server.handles(
            Command::SendExternalBeginFrame { browser_id, unity_frame },
            facts,
            &after,
            decision,
        ),
    ensures
        ({
            &&& decision matches Decision::Reply { response: Response::Success, action }
            &&& facts.timing.gate_open && facts.host ==> action == Some(BrowserAction::BeginFrame)
            &&& !facts.timing.gate_open || !facts.host ==> action is None
        }),
        facts.timing.gate_open ==> after.schedule.deferred_begin_frame is None,
        facts.timing.gate_open && facts.host ==> after.schedule.last_begin_frame_unity_frame
            == unity_frame && after.schedule.last_begin_frame_nanoseconds
            == facts.timing.now_nanoseconds,
        !facts.timing.gate_open ==> after.schedule.deferred_begin_frame == Some(
            BeginFrame { browser_id, unity_frame },
        ),
        after.browsers@ == server.browsers@,
        after.next_browser_id == server.next_browser_id,
{
}

/// While a browser's host cannot be reached, input for it leads to nothing and changes nothing, and
/// the client is told of success.
pub proof fn law_input_is_dropped_without_a_host(
    server: CefServer,
    command: Command,
    browser_id: u32,
    facts: BrowserFacts,
    after: CefServer,
    decision: Decision,
)
    requires
        command is MouseMove || command is MouseClick || command is MouseWheel || command is KeyEvent
            || command is ImeSetComposition || command is ImeCommitText
            || command is ImeFinishComposingText || command is ImeCancelComposition,
        addressed(command) == Some(browser_id),
        server.browsers@.contains_key(browser_id),
        !facts.host,
        server.handles(command, facts, &after, decision),
    ensures
        decision == (Decision::Reply { response: Response::Success, action: None }),
        after.unchanged_since(&server),
{
}

/// A command for a browser that does not exist leads to nothing and changes nothing, and the answer
/// names the number that was asked for.
pub proof fn law_unknown_browser_is_refused(
    server: CefServer,
    command: Command,
    browser_id: u32,
    facts: BrowserFacts,
    after: CefServer,
    decision: Decision,
)
    requires
        addressed(command) == Some(browser_id),
        !server.browsers@.contains_key(browser_id),
        server.handles(command, facts, &after, decision),
    ensures
        ({
            &&& decision matches Decision::Reply { response: Response::Error { message }, action: None }
            &&& message@.len() > 18
            &&& message@.take(8) == "browser "@
            &&& message@.skip(message@.len() - 10) == " not found"@
            &&& text::is_number(message@.subrange(8, message@.len() - 10))
            &&& text::number(message@.subrange(8, message@.len() - 10)) == browser_id
        }),
        after.unchanged_since(&server),
{
    reveal_strlit("browser ");
    reveal_strlit(" not found");
    text::lemma_decimal_is_number(browser_id as nat);
    let digits = text::decimal(browser_id as nat);
    let message = "browser "@ + digits + " not found"@;
    assert(message.take(8) =~= "browser "@);
    assert(message.skip(message.len() - 10) =~= " not found"@);
    assert(message.subrange(8, message.len() - 10) =~= digits);
}

/// A command addresses the browser whose number it carries: closing it, asking for its address, and
/// everything else alike.
pub proof fn law_commands_carry_their_browser(browser_id: u32, command: Command)
    requires
        match command {
            Command::DestroyBrowser { browser_id: id } => id == browser_id,
            Command::LoadUrl { browser_id: id, url: _ } => id == browser_id,
            Command::Resize { browser_id: id, width: _, height: _ } => id == browser_id,
            Command::MouseMove { browser_id: id, .. } => id == browser_id,
            Command::MouseClick { browser_id: id, .. } => id == browser_id,
            Command::MouseWheel { browser_id: id, .. } => id == browser_id,
            Command::KeyEvent { browser_id: id, .. } => id == browser_id,
            Command::ExecuteJavaScript { browser_id: id, code: _ } => id == browser_id,
            Command::EditCommand { browser_id: id, command: _ } => id == browser_id,
            Command::GetCurrentUrl { browser_id: id } => id == browser_id,
            Command::ImeSetComposition { browser_id: id, .. } => id == browser_id,
            Command::ImeCommitText { browser_id: id, text: _ } => id == browser_id,
            Command::ImeFinishComposingText { browser_id: id, keep_selection: _ } => id == browser_id,
            Command::ImeCancelComposition { browser_id: id } => id == browser_id,
            Command::SendExternalBeginFrame { browser_id: id, unity_frame: _ } => id == browser_id,
            Command::CreateBrowser { .. } | Command::GetLogs | Command::Shutdown => false,
        },
    ensures
        addressed(command) == Some(browser_id),
{
}

/// A creation is planned under the next number, which no later creation gets until all numbers have
/// been given out. The page has the size that was asked for, each way on its own, except that it is never
/// smaller than one pixel; the address is the one that was given; and shared textures are tried where the
/// server draws with a graphics card. No browser exists yet.
pub proof fn law_creation_is_planned(
    server: CefServer,
    width: i32,
    height: i32,
    url: String,
    facts: BrowserFacts,
    after: CefServer,
    decision: Decision,
)
    requires
        server.handles(Command::CreateBrowser { width, height, url }, facts, &after, decision),
    ensures
        ({
            &&& decision matches Decision::Create { plan }
            &&& plan.browser_id == server.next_browser_id
            &&& width >= 1 ==> plan.viewport.width == width
            &&& width < 1 ==> plan.viewport.width == 1
            &&& height >= 1 ==> plan.viewport.height == height
            &&& height < 1 ==> plan.viewport.height == 1
            &&& plan.url == url
            &&& plan.want_texture_pool == server.use_gpu
        }),
        (after.next_browser_id - server.next_browser_id) % 0x1_0000_0000 == 1,
        after.browsers@ == server.browsers@,
        after.schedule == server.schedule,
        after.logs@ == server.logs@,
        after.same_setup(&server),
{
}

/// A browser that was created is known under the number in the answer, with the size that was planned,
/// and whatever is asked under that number reaches it: it is not answered that there is no such browser,
/// and a move of the mouse, for one, is passed on.
pub proof fn law_created_browser_is_reached_by_its_number(
    server: CefServer,
    plan: CreatePlan,
    outcome: CreateOutcome,
    after: CefServer,
    response: Response,
    later: Command,
    facts: BrowserFacts,
    afterwards: CefServer,
    decision: Decision,
)
    requires
        outcome is Created,
        server.finishes(plan, outcome, &after, response),
        response matches Response::BrowserCreated { browser_id, .. } ==> addressed(later) == Some(
            browser_id,
        ),
        after.handles(later, facts, &afterwards, decision),
    ensures
        ({
            &&& response matches Response::BrowserCreated { browser_id, .. }
            &&& after.browsers@.contains_key(browser_id)
            &&& after.browsers@[browser_id] == plan.viewport
            &&& decision matches Decision::Reply { response: answer, action }
            &&& answer@ != not_found(browser_id)
            &&& facts.host ==> (later matches Command::MouseMove { x, y, modifiers, .. } ==> action
                == Some(BrowserAction::MouseMove { x, y, modifiers }))
        }),
{
    reveal_strlit("browser ");
    reveal_strlit("browser not ready yet");
    reveal_strlit("browser or frame not available");
    let digits = text::decimal(plan.browser_id as nat);
    text::lemma_decimal_is_number(plan.browser_id as nat);
    let message = "browser "@ + digits + " not found"@;
    assert(message[8] == digits[0]);
    assert(text::is_digit(digits[0]));
    assert("browser not ready yet"@[8] == 'n');
    assert("browser or frame not available"@[8] == 'o');
}

/// A browser that was created is answered with the number that was planned and the names of its memories,
/// each in its place, and with the handle of its fence, or zero where it has none. Every other browser
/// stays as it was.
pub proof fn law_created_browser_is_announced(
    server: CefServer,
    plan: CreatePlan,
    pixels: String,
    audio: String,
    fence_handle: Option<u64>,
    after: CefServer,
    response: Response,
)
    requires
        server.finishes(
            plan,
            CreateOutcome::Created {
                shared_memory_flink: pixels,
                audio_shared_memory_flink: audio,
                fence_handle,
            },
            &after,
            response,
        ),
    ensures
        ({
            &&& response matches Response::BrowserCreated {
                browser_id,
                shared_memory_flink,
                d3d11_fence_handle,
                audio_shared_memory_flink,
            }
            &&& browser_id == plan.browser_id
            &&& shared_memory_flink@ == pixels@
            &&& audio_shared_memory_flink@ == audio@
            &&& fence_handle matches Some(handle) ==> d3d11_fence_handle == handle
            &&& fence_handle is None ==> d3d11_fence_handle == 0
        }),
        after.browsers@.contains_key(plan.browser_id),
        after.browsers@[plan.browser_id] == plan.viewport,
        forall|other: u32|
            #![trigger after.browsers@.contains_key(other)]
            other != plan.browser_id ==> after.browsers@.contains_key(other)
                == server.browsers@.contains_key(other) && (server.browsers@.contains_key(other)
                ==> after.browsers@[other] == server.browsers@[other]),
        after.next_browser_id == server.next_browser_id,
        after.schedule == server.schedule,
        after.logs@ == server.logs@,
{
}

/// A creation that failed leaves no trace among the browsers, and the client is told why: which memory
/// could not be made, and with what cause, or that the browser itself could not.
pub proof fn law_failed_creation_leaves_no_browser(
    server: CefServer,
    plan: CreatePlan,
    outcome: CreateOutcome,
    after: CefServer,
    response: Response,
)
    requires
        !(outcome is Created),
        server.finishes(plan, outcome, &after, response),
    ensures
        after.unchanged_since(&server),
        ({
            &&& response matches Response::Error { message }
            &&& outcome matches CreateOutcome::SharedMemoryFailed { error } ==> message@
                == "shm_create failed: "@ + error@
            &&& outcome matches CreateOutcome::AudioSharedMemoryFailed { error } ==> message@
                == "audio_shm_create failed: "@ + error@
            &&& outcome is HostFailed ==> message@ == "browser_host_create_browser failed"@
        }),
{
}

/// The client gets every message that was kept, oldest first, and asking again gives none of them.
pub proof fn law_logs_are_handed_out_once(
    server: CefServer,
    facts: BrowserFacts,
    after: CefServer,
    decision: Decision,
    afterwards: CefServer,
    again: Decision,
)
    requires
        server.handles(Command::GetLogs, facts, &after, decision),
        after.handles(Command::GetLogs, facts, &afterwards, again),
    ensures
        ({
            &&& decision matches Decision::Reply { response: Response::Logs { entries }, action: None }
            &&& entries@.len() == server.logs@.len()
            &&& forall|i: int|
                0 <= i < entries@.len() ==> (#[trigger] entries@[i])@ == server.logs@[i]
        }),
        ({
            &&& again matches Decision::Reply { response: Response::Logs { entries }, action: None }
            &&& entries@.len() == 0
        }),
        after.browsers@ == server.browsers@,
        after.next_browser_id == server.next_browser_id,
        after.schedule == server.schedule,
{
    if let Decision::Reply { response: Response::Logs { entries }, .. } = decision {
        assert(server.logs@ == crate::protocol::texts(entries@));
        assert forall|i: int| 0 <= i < entries@.len() implies (#[trigger] entries@[i])@
            == server.logs@[i] by {
            assert(crate::protocol::texts(entries@)[i] == entries@[i]@);
        }
    }
    if let Decision::Reply { response: Response::Logs { entries }, .. } = again {
        assert(after.logs@ == crate::protocol::texts(entries@));
        assert(crate::protocol::texts(entries@).len() == entries@.len());
    }
}

/// The request to shut down is acknowledged, and changes nothing by itself.
pub proof fn law_shutdown_is_acknowledged(
    server: CefServer,
    facts: BrowserFacts,
    after: CefServer,
    decision: Decision,
)
    requires
        server.handles(Command::Shutdown, facts, &after, decision),
    ensures
        decision == (Decision::Reply { response: Response::Success, action: None }),
        after.unchanged_since(&server),
{
}

/// In a turn of the event loop in which no begin frame waits, a flush that has fallen due is issued for
/// its browser if that browser exists and can be told, no frame is being copied and fewer than two paints
/// have come; for a browser that was closed meanwhile it is not.
pub proof fn law_due_flush_reaches_its_browser(
    server: CefServer,
    pending: crate::begin_frame::PendingFlush,
    facts: FrameFacts,
    deferred_host: bool,
    after: CefServer,
    issued: Option<BeginFrame>,
)
    requires
        server.schedule.pending_flush == Some(pending),
        server.schedule.deferred_begin_frame is None,
        facts.gate_open,
        pending.flushes_done == 0 && facts.now_nanoseconds >= pending.begin_frame_1 + 3_000_000
            || pending.flushes_done == 1 && facts.now_nanoseconds >= pending.begin_frame_1
            + 6_000_000,
        (facts.paint_count - pending.paints_at_begin_frame_1) % 0x1_0000_0000_0000_0000 < 2,
        server.turns(facts, deferred_host, true, &after, issued),
    ensures
        server.browsers@.contains_key(pending.browser_id) ==> issued == Some(
            BeginFrame { browser_id: pending.browser_id, unity_frame: pending.unity_frame },
        ),
        !server.browsers@.contains_key(pending.browser_id) ==> issued is None,
        after.browsers@ == server.browsers@,
{
}

/// In the first turn of the event loop in which no frame is being copied, a begin frame that had to wait
/// is issued if its browser exists and can be told; it waits no longer in any case.
pub proof fn law_waiting_begin_frame_reaches_its_browser(
    server: CefServer,
    frame: BeginFrame,
    facts: FrameFacts,
    pending_host: bool,
    after: CefServer,
    issued: Option<BeginFrame>,
)
    requires
        server.schedule.deferred_begin_frame == Some(frame),
        facts.gate_open,
        server.turns(facts, true, pending_host, &after, issued),
    ensures
        server.browsers@.contains_key(frame.browser_id) ==> issued == Some(frame),
        !server.browsers@.contains_key(frame.browser_id) && server.schedule.pending_flush is None
            ==> issued is None,
        after.schedule.deferred_begin_frame is None,
        after.browsers@ == server.browsers@,
{
}

/// What is logged of an address is the whole of it, after the number of its browser.
pub proof fn law_address_is_logged_in_full(browser_id: u32, url: String)
    ensures
        ({
            &&& note_of(Command::LoadUrl { browser_id, url }) matches Some(note)
            &&& note.len() >= url@.len() + 21
            &&& note.take(21) == "load_url: browser_id="@
            &&& note.skip(note.len() - url@.len()) == url@
            &&& text::number(note.subrange(21, note.len() - url@.len() - 6)) == browser_id
        }),
{
    reveal_strlit("load_url: browser_id=");
    reveal_strlit(", url=");
    text::lemma_decimal_is_number(browser_id as nat);
    let digits = text::decimal(browser_id as nat);
    let note = "load_url: browser_id="@ + digits + ", url="@ + url@;
    assert(note.take(21) =~= "load_url: browser_id="@);
    assert(note.skip(note.len() - url@.len()) =~= url@);
    assert(note.subrange(21, note.len() - url@.len() - 6) =~= digits);
}

/// What is logged of a script is its beginning, up to a hundred characters, after the number of its
/// browser: a shorter one in full, and of a longer one not a character more.
pub proof fn law_script_is_logged_in_part(browser_id: u32, code: String)
    ensures
        ({
            &&& note_of(Command::ExecuteJavaScript { browser_id, code }) matches Some(note)
            &&& note.take(31) == "execute_javascript: browser_id="@
            &&& code@.len() <= 100 ==> note.len() >= code@.len() + 38 && note.skip(
                note.len() - code@.len(),
            ) == code@ && text::number(note.subrange(31, note.len() - code@.len() - 7))
                == browser_id
            &&& code@.len() > 100 ==> note.len() >= 138 && note.skip(note.len() - 100)
                == code@.take(100) && text::number(note.subrange(31, note.len() - 107))
                == browser_id
        }),
{
    reveal_strlit("execute_javascript: browser_id=");
    reveal_strlit(", code=");
    text::lemma_decimal_is_number(browser_id as nat);
    let digits = text::decimal(browser_id as nat);
    let part = if code@.len() <= 100 {
        code@
    } else {
        code@.take(100)
    };
    let note = "execute_javascript: browser_id="@ + digits + ", code="@ + part;
    assert(note.take(31) =~= "execute_javascript: browser_id="@);
    assert(note.skip(note.len() - part.len()) =~= part);
    assert(note.subrange(31, note.len() - part.len() - 7) =~= digits);
}

/// Nothing is logged of any other command.
pub proof fn law_other_commands_are_not_logged(command: Command)
    requires
        !(command is LoadUrl),
        !(command is ExecuteJavaScript),
    ensures
        note_of(command) is None,
{
}

/// A turn of the event loop changes the schedule of begin frames and nothing else.
pub proof fn law_turn_changes_only_the_schedule(
    server: CefServer,
    facts: FrameFacts,
    deferred_host: bool,
    pending_host: bool,
    after: CefServer,
    issued: Option<BeginFrame>,
)
    requires
        server.turns(facts, deferred_host, pending_host, &after, issued),
    ensures
        after.browsers@ == server.browsers@,
        after.next_browser_id == server.next_browser_id,
        after.server_pid == server.server_pid,
        after.client_pid == server.client_pid,
        after.use_gpu == server.use_gpu,
        after.logs@ == server.logs@,
        after.logs.spec_enabled() == server.logs.spec_enabled(),
{
}

} // verus!
