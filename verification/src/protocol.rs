//! What client and server say to each other.
use crate::text;
use crate::text::push_decimal;
use vstd::prelude::*;

verus! {

/// What the client asks of the server.
#[derive(Debug)]
pub enum Command {
    CreateBrowser { width: i32, height: i32, url: String },
    DestroyBrowser { browser_id: u32 },
    LoadUrl { browser_id: u32, url: String },
    Resize { browser_id: u32, width: i32, height: i32 },
    MouseMove { browser_id: u32, x: i32, y: i32, modifiers: u32 },
    MouseClick {
        browser_id: u32,
        x: i32,
        y: i32,
        modifiers: u32,
        /// 1 is the middle button, 2 the right one, anything else the left one.
        button: u8,
        mouse_up: bool,
        click_count: i32,
    },
    MouseWheel { browser_id: u32, x: i32, y: i32, modifiers: u32, delta_x: i32, delta_y: i32 },
    KeyEvent {
        browser_id: u32,
        /// 1 is a key release, 2 a character, anything else a raw key press.
        event_type: u8,
        modifiers: u32,
        windows_key_code: i32,
        native_key_code: i32,
        character: u16,
        unmodified_character: u16,
        is_system_key: i32,
        focus_on_editable_field: i32,
    },
    ExecuteJavaScript { browser_id: u32, code: String },
    EditCommand {
        browser_id: u32,
        /// 0 copy, 1 paste, 2 cut, 3 select all, 4 undo, 5 redo; anything else does nothing.
        command: u8,
    },
    GetCurrentUrl { browser_id: u32 },
    ImeSetComposition { browser_id: u32, text: String, selection_start: u32, selection_end: u32 },
    ImeCommitText { browser_id: u32, text: String },
    ImeFinishComposingText { browser_id: u32, keep_selection: bool },
    ImeCancelComposition { browser_id: u32 },
    /// Allows the browser to draw one frame; `unity_frame` is the engine's frame counter.
    SendExternalBeginFrame { browser_id: u32, unity_frame: u64 },
    GetLogs,
    Shutdown,
}

/// A command, and whether its sender waits for the answer.
#[derive(Debug)]
pub struct CommandEnvelope {
    pub command: Command,
    pub expects_response: bool,
}

/// What the server answers.
#[derive(Debug)]
pub enum Response {
    BrowserCreated {
        browser_id: u32,
        shared_memory_flink: String,
        /// 0 where the browser draws without a shared fence.
        d3d11_fence_handle: u64,
        audio_shared_memory_flink: String,
    },
    CurrentUrl { url: String },
    Logs { entries: Vec<String> },
    /// The command was carried out.
    Success,
    Error { message: String },
}

/// An answer, with its strings as sequences of characters.
pub enum ResponseView {
    BrowserCreated {
        browser_id: u32,
        shared_memory_flink: Seq<char>,
        d3d11_fence_handle: u64,
        audio_shared_memory_flink: Seq<char>,
    },
    CurrentUrl { url: Seq<char> },
    Logs { entries: Seq<Seq<char>> },
    Success,
    Error { message: Seq<char> },
}

/// The texts of a list of strings.
pub open spec fn texts(strings: Seq<String>) -> Seq<Seq<char>> {
    strings.map_values(|string: String| string@)
}

impl View for Response {
    type V = ResponseView;

    open spec fn view(&self) -> ResponseView {
        match *self {
            Response::BrowserCreated {
                browser_id,
                shared_memory_flink,
                d3d11_fence_handle,
                audio_shared_memory_flink,
            } => ResponseView::BrowserCreated {
                browser_id,
                shared_memory_flink: shared_memory_flink@,
                d3d11_fence_handle,
                audio_shared_memory_flink: audio_shared_memory_flink@,
            },
            Response::CurrentUrl { url } => ResponseView::CurrentUrl { url: url@ },
            Response::Logs { entries } => ResponseView::Logs { entries: texts(entries@) },
            Response::Success => ResponseView::Success,
            Response::Error { message } => ResponseView::Error { message: message@ },
        }
    }
}

/// `prefix`, then the process, then a hyphen, then the browser.
pub open spec fn numbered_name(prefix: Seq<char>, server_pid: u32, browser_id: u32) -> Seq<char> {
    prefix + text::decimal(server_pid as nat) + seq!['-'] + text::decimal(browser_id as nat)
}

/// The name under which a server offers its surfaces.
pub open spec fn service_name(server_pid: u32) -> Seq<char> {
    "com.cef-unity.iosurface."@ + text::decimal(server_pid as nat)
}

/// The name under which a server offers its surfaces.
pub fn iosurface_service_name(server_pid: u32) -> (name: String)
    ensures
        name@ == service_name(server_pid),
{
    let mut name: String = String::new();
    name.append("com.cef-unity.iosurface.");
    push_decimal(&mut name, server_pid as u64);
    assert(name@ =~= "com.cef-unity.iosurface."@ + text::decimal(server_pid as nat));
    name
}

/// A file name made of a prefix, a process and a browser.
fn numbered(prefix: &str, server_pid: u32, browser_id: u32) -> (name: String)
    ensures
        name@ == numbered_name(prefix@, server_pid, browser_id),
{
    proof {
        reveal_strlit("-");
    }
    let mut name: String = String::new();
    name.append(prefix);
    push_decimal(&mut name, server_pid as u64);
    name.append("-");
    push_decimal(&mut name, browser_id as u64);
    assert("-"@ =~= seq!['-']);
    assert(name@ =~= numbered_name(prefix@, server_pid, browser_id));
    name
}

/// The file name of the memory that a browser's pixels are shared through.
pub fn shared_memory_flink_name(server_pid: u32, browser_id: u32) -> (name: String)
    ensures
        name@ == numbered_name("cef-unity-shm-"@, server_pid, browser_id),
{
    numbered("cef-unity-shm-", server_pid, browser_id)
}

/// The file name of the memory that a browser's audio is shared through.
pub fn audio_shared_memory_flink_name(server_pid: u32, browser_id: u32) -> (name: String)
    ensures
        name@ == numbered_name("cef-unity-audio-"@, server_pid, browser_id),
{
    numbered("cef-unity-audio-", server_pid, browser_id)
}

/// Where two equal texts are split at the same place, both parts are equal.
proof fn lemma_append_injective(a: Seq<char>, b: Seq<char>, c: Seq<char>, d: Seq<char>)
    requires
        a + b == c + d,
        a.len() == c.len(),
    ensures
        a == c,
        b == d,
{
    assert(a =~= (a + b).take(a.len() as int));
    assert(c =~= (c + d).take(c.len() as int));
    assert(b =~= (a + b).skip(a.len() as int));
    assert(d =~= (c + d).skip(c.len() as int));
}

/// Different browsers share their memory under different names: a name determines the process
/// and the browser it was made from.
pub proof fn law_names_tell_browsers_apart(
    prefix: Seq<char>,
    server_pid: u32,
    browser_id: u32,
    other_pid: u32,
    other_id: u32,
)
    requires
        numbered_name(prefix, server_pid, browser_id) == numbered_name(
            prefix,
            other_pid,
            other_id,
        ),
    ensures
        server_pid == other_pid,
        browser_id == other_id,
{
    let (a, b) = (text::decimal(server_pid as nat), text::decimal(browser_id as nat));
    let (c, d) = (text::decimal(other_pid as nat), text::decimal(other_id as nat));
    text::lemma_decimal_is_number(server_pid as nat);
    text::lemma_decimal_is_number(browser_id as nat);
    text::lemma_decimal_is_number(other_pid as nat);
    text::lemma_decimal_is_number(other_id as nat);
    let one = numbered_name(prefix, server_pid, browser_id);
    let two = numbered_name(prefix, other_pid, other_id);
    assert(one =~= prefix + (a + seq!['-'] + b));
    assert(two =~= prefix + (c + seq!['-'] + d));
    lemma_append_injective(prefix, a + seq!['-'] + b, prefix, c + seq!['-'] + d);
    let (x, y) = (a + seq!['-'] + b, c + seq!['-'] + d);
    assert(x[a.len() as int] == '-');
    assert(y[c.len() as int] == '-');
    if a.len() < c.len() {
        assert(y[a.len() as int] == c[a.len() as int]);
        assert(text::is_digit(c[a.len() as int]));
        assert(false);
    }
    if c.len() < a.len() {
        assert(x[c.len() as int] == a[c.len() as int]);
        assert(text::is_digit(a[c.len() as int]));
        assert(false);
    }
    assert(x =~= a + (seq!['-'] + b));
    assert(y =~= c + (seq!['-'] + d));
    lemma_append_injective(a, seq!['-'] + b, c, seq!['-'] + d);
    lemma_append_injective(seq!['-'], b, seq!['-'], d);
}

/// The pixels and the audio of a browser never share one name.
pub proof fn law_pixel_and_audio_names_differ(
    server_pid: u32,
    browser_id: u32,
    other_pid: u32,
    other_id: u32,
)
    ensures
        numbered_name("cef-unity-shm-"@, server_pid, browser_id) != numbered_name(
            "cef-unity-audio-"@,
            other_pid,
            other_id,
        ),
{
    reveal_strlit("cef-unity-shm-");
    reveal_strlit("cef-unity-audio-");
    assert(numbered_name("cef-unity-shm-"@, server_pid, browser_id)[10] == 's');
    assert(numbered_name("cef-unity-audio-"@, other_pid, other_id)[10] == 'a');
}

/// A name is its prefix, then the process and then the browser, both in decimal, with a hyphen between them.
pub proof fn law_names_hold_process_and_browser(prefix: Seq<char>, server_pid: u32, browser_id: u32)
    ensures
        ({
            let name = numbered_name(prefix, server_pid, browser_id);
            let at = prefix.len() + text::decimal(server_pid as nat).len();
            &&& prefix.len() < at < name.len() - 1
            &&& name.take(prefix.len() as int) == prefix
            &&& text::number(name.subrange(prefix.len() as int, at as int)) == server_pid
            &&& name[at as int] == '-'
            &&& text::number(name.skip(at as int + 1)) == browser_id
        }),
{
    let (process, browser) = (text::decimal(server_pid as nat), text::decimal(browser_id as nat));
    text::lemma_decimal_is_number(server_pid as nat);
    text::lemma_decimal_is_number(browser_id as nat);
    let name = numbered_name(prefix, server_pid, browser_id);
    let at = prefix.len() + process.len();
    assert(name.take(prefix.len() as int) =~= prefix);
    assert(name.subrange(prefix.len() as int, at as int) =~= process);
    assert(name.skip(at as int + 1) =~= browser);
}

/// Different servers offer their surfaces under different names, each of which ends with the number of its
/// process.
pub proof fn law_services_are_named_after_their_server(server_pid: u32, other_pid: u32)
    ensures
        service_name(server_pid).take(24) == "com.cef-unity.iosurface."@,
        text::number(service_name(server_pid).skip(24)) == server_pid,
        server_pid != other_pid ==> service_name(server_pid) != service_name(other_pid),
{
    reveal_strlit("com.cef-unity.iosurface.");
    text::lemma_decimal_is_number(server_pid as nat);
    text::lemma_decimal_is_number(other_pid as nat);
    assert(service_name(server_pid).take(24) =~= "com.cef-unity.iosurface."@);
    assert(service_name(server_pid).skip(24) =~= text::decimal(server_pid as nat));
    assert(service_name(other_pid).skip(24) =~= text::decimal(other_pid as nat));
}

} // verus!
