//! The client's decisions: starting and ending the server, what each call of the game engine asks
//! of it, and what its answers come to.
use crate::accelerated_paint::Platform;
use crate::audio_shared_memory::AudioSharedMemoryReader;
use crate::frames;
use crate::protocol;
use crate::protocol::{Command, CommandEnvelope, Response};
use crate::shared_memory;
use crate::shared_memory::{SharedMemoryReader, SHARED_MEMORY_HEADER_SIZE};
use crate::text::from_utf8;
use vstd::prelude::*;
use vstd::string::*;
use vstd::utf8::*;

verus! {

/// A browser as the game engine sees it: a handle without contents.
#[derive(Clone, Copy, Debug, PartialEq, Eq, Structural)]
pub struct CefUnityBrowser {
    pub opaque: u8,
}

/// What the client keeps between calls.
#[derive(Clone, Copy, Debug, PartialEq, Eq, Structural)]
pub struct ClientState {
    /// Whether a server runs and is connected.
    pub initialized: bool,
    pub log_enabled: bool,
    /// Whether surfaces of the graphics processor are wanted.
    pub use_gpu_mode: bool,
    /// Whether surfaces arrive through the system's port.
    pub iosurface_connected: bool,
    /// How many frames were handed out.
    pub paint_count: u64,
    /// How often the engine called.
    pub pump_count: u64,
}

/// How starting the server went wrong, as the engine is told.
pub const SERVER_NOT_FOUND: i32 = -3;

/// See `SERVER_NOT_FOUND`.
pub const SERVER_NOT_STARTED: i32 = -4;

/// See `SERVER_NOT_FOUND`.
pub const SERVER_NOT_CONNECTED: i32 = -5;

/// See `SERVER_NOT_FOUND`.
pub const SERVER_EXITED: i32 = -6;

/// See `SERVER_NOT_FOUND`.
pub const SERVER_TIMED_OUT: i32 = -7;

/// How long the server may take to connect, and how long one look for it lasts, in milliseconds.
pub const CONNECT_MILLISECONDS: u64 = 15_000;

/// See `CONNECT_MILLISECONDS`.
pub const CONNECT_POLL_MILLISECONDS: u64 = 50;

/// How long the server is given to end, in milliseconds.
pub const SHUTDOWN_MILLISECONDS: u64 = 500;

/// A counter after one more; after the largest number it starts over.
pub open spec fn counted(count: u64) -> u64 {
    if count == u64::MAX {
        0
    } else {
        (count + 1) as u64
    }
}

/// One more than `count`; after the largest number it starts over.
fn count_on(count: u64) -> (next: u64)
    ensures
        next == counted(count),
{
    if count == u64::MAX {
        0
    } else {
        count + 1
    }
}

/// What was seen while waiting for the server to connect.
#[derive(Clone, Copy, Debug, PartialEq, Eq, Structural)]
pub enum ConnectEvent {
    Connected,
    /// The server came, and its greeting could not be read.
    GreetingFailed,
    /// Nobody waits for the server any more.
    ListenerLost,
    /// Nothing happened for a while.
    Quiet { server_exited: bool, time_is_up: bool },
}

/// What is to be done while waiting for the server to connect.
#[derive(Clone, Copy, Debug, PartialEq, Eq, Structural)]
pub enum ConnectStep {
    Proceed,
    KeepWaiting,
    /// Starting has failed. Where the server may still run, it is to be ended.
    Fail { code: i32, end_server: bool },
}

/// What an event means for the wait. A server that has ended is noticed even when the time is up.
pub open spec fn connect_step(event: ConnectEvent) -> ConnectStep {
    match event {
        ConnectEvent::Connected => ConnectStep::Proceed,
        ConnectEvent::GreetingFailed | ConnectEvent::ListenerLost => ConnectStep::Fail {
            code: SERVER_NOT_CONNECTED,
            end_server: true,
        },
        ConnectEvent::Quiet { server_exited, time_is_up } => if server_exited {
            ConnectStep::Fail { code: SERVER_EXITED, end_server: false }
        } else if time_is_up {
            ConnectStep::Fail { code: SERVER_TIMED_OUT, end_server: true }
        } else {
            ConnectStep::KeepWaiting
        },
    }
}

/// What a wait comes to: the first event that does not let it go on decides.
pub open spec fn wait_outcome(events: Seq<ConnectEvent>) -> ConnectStep
    decreases events.len(),
{
    if events.len() == 0 {
        ConnectStep::KeepWaiting
    } else if connect_step(events[0]) == ConnectStep::KeepWaiting {
        wait_outcome(events.skip(1))
    } else {
        connect_step(events[0])
    }
}

/// Decides how to go on waiting for the server to connect.
pub fn connect_wait(event: ConnectEvent) -> (step: ConnectStep)
    ensures
        step == connect_step(event),
{
    match event {
        ConnectEvent::Connected => ConnectStep::Proceed,
        ConnectEvent::GreetingFailed | ConnectEvent::ListenerLost => ConnectStep::Fail {
            code: SERVER_NOT_CONNECTED,
            end_server: true,
        },
        ConnectEvent::Quiet { server_exited, time_is_up } => {
            if server_exited {
                ConnectStep::Fail { code: SERVER_EXITED, end_server: false }
            } else if time_is_up {
                ConnectStep::Fail { code: SERVER_TIMED_OUT, end_server: true }
            } else {
                ConnectStep::KeepWaiting
            }
        },
    }
}

/// What the steps that come before the wait come to.
pub open spec fn launch_check(
    program_exists: bool,
    channel_open: bool,
    started: bool,
) -> Result<(), i32> {
    if !program_exists {
        Err(SERVER_NOT_FOUND)
    } else if !channel_open || !started {
        Err(SERVER_NOT_STARTED)
    } else {
        Ok(())
    }
}

/// Checks the steps that come before the wait: the server's program has to be there, a channel has
/// to be open for it, and it has to start.
pub fn check_launch(program_exists: bool, channel_open: bool, started: bool) -> (checked: Result<
    (),
    i32,
>)
    ensures
        checked == launch_check(program_exists, channel_open, started),
{
    if !program_exists {
        return Err(SERVER_NOT_FOUND);
    }
    if !channel_open || !started {
        return Err(SERVER_NOT_STARTED);
    }
    Ok(())
}

/// Whether a number of the engine says yes.
pub open spec fn says_yes(number: i32) -> bool {
    number != 0
}

impl ClientState {
    /// The client once it was asked to start a server.
    pub open spec fn beginning(self, use_gpu: i32, enable_log: i32) -> ClientState {
        ClientState {
            log_enabled: says_yes(enable_log),
            use_gpu_mode: if self.initialized {
                self.use_gpu_mode
            } else {
                says_yes(use_gpu)
            },
            ..self
        }
    }

    /// The client once the server runs and is connected.
    pub open spec fn running(self, iosurface_connected: bool) -> ClientState {
        ClientState {
            initialized: true,
            iosurface_connected: self.iosurface_connected || iosurface_connected,
            ..self
        }
    }

    /// The client once it was asked to end the server.
    pub open spec fn ended(self) -> ClientState {
        if self.initialized {
            ClientState {
                initialized: false,
                iosurface_connected: false,
                use_gpu_mode: true,
                ..self
            }
        } else {
            self
        }
    }

    /// Whether the port for surfaces is to be connected.
    pub open spec fn wants_port(self, platform: Platform) -> bool {
        platform == Platform::MacOs && self.use_gpu_mode
    }

    /// What the engine is told of a way on which surfaces arrive.
    pub open spec fn code_for(self, connected: bool) -> i32 {
        if self.use_gpu_mode && connected {
            1
        } else {
            0
        }
    }

    /// A client without a server.
    pub fn new() -> (state: ClientState)
        ensures
            state == (ClientState {
                initialized: false,
                log_enabled: false,
                use_gpu_mode: true,
                iosurface_connected: false,
                paint_count: 0,
                pump_count: 0,
            }),
    {
        ClientState {
            initialized: false,
            log_enabled: false,
            use_gpu_mode: true,
            iosurface_connected: false,
            paint_count: 0,
            pump_count: 0,
        }
    }

    /// Begins to start a server, unless one runs already. The log is switched in either case.
    pub fn begin_initialize(&mut self, use_gpu: i32, enable_log: i32) -> (wanted: bool)
        ensures
            wanted == !old(self).initialized,
            *final(self) == old(self).beginning(use_gpu, enable_log),
    {
        self.log_enabled = enable_log != 0;
        if self.initialized {
            return false;
        }
        self.use_gpu_mode = use_gpu != 0;
        true
    }

    /// Whether the port for surfaces is to be connected.
    pub fn wants_iosurface(&self, platform: Platform) -> (wanted: bool)
        ensures
            wanted == self.wants_port(platform),
    {
        match platform {
            Platform::MacOs => self.use_gpu_mode,
            _ => false,
        }
    }

    /// Takes note that the server runs and is connected, and whether the port for surfaces is.
    pub fn finish_initialize(&mut self, iosurface_connected: bool)
        ensures
            *final(self) == old(self).running(iosurface_connected),
    {
        if iosurface_connected {
            self.iosurface_connected = true;
        }
        self.initialized = true;
    }

    /// Forgets the server, and says whether there was one to be told.
    pub fn shutdown(&mut self) -> (was_running: bool)
        ensures
            was_running == old(self).initialized,
            *final(self) == old(self).ended(),
    {
        if !self.initialized {
            return false;
        }
        self.initialized = false;
        self.iosurface_connected = false;
        self.use_gpu_mode = true;
        true
    }

    /// Takes note of a call from the engine. The server has a loop of its own.
    pub fn pump(&mut self)
        ensures
            *final(self) == (ClientState {
                pump_count: counted(old(self).pump_count),
                ..*old(self)
            }),
    {
        self.pump_count = count_on(self.pump_count);
    }

    /// Takes note of a frame that was handed out.
    pub fn painted(&mut self)
        ensures
            *final(self) == (ClientState {
                paint_count: counted(old(self).paint_count),
                ..*old(self)
            }),
    {
        self.paint_count = count_on(self.paint_count);
    }

    /// What the engine is told of a way on which surfaces arrive: 1 where it is connected, and 0
    /// where it is not or where surfaces are not wanted.
    pub fn connected_code(&self, connected: bool) -> (code: i32)
        ensures
            code == self.code_for(connected),
    {
        if self.use_gpu_mode && connected {
            1
        } else {
            0
        }
    }

    /// The command that creates a browser, if one can be created.
    pub fn create_browser(&self, width: i32, height: i32, url: &str) -> (command: Option<Command>)
        ensures
            match command {
                Some(Command::CreateBrowser { width: w, height: h, url: u }) => self.initialized
                    && w == width && h == height && u@ == url@,
                Some(_) => false,
                None => !self.initialized,
            },
    {
        if !self.initialized {
            return None;
        }
        Some(Command::CreateBrowser { width, height, url: url.to_owned() })
    }
}

/// A command whose answer is not waited for.
pub fn without_answer(command: Command) -> (envelope: CommandEnvelope)
    ensures
        envelope == (CommandEnvelope { command, expects_response: false }),
{
    CommandEnvelope { command, expects_response: false }
}

/// A command whose answer is waited for.
pub fn with_answer(command: Command) -> (envelope: CommandEnvelope)
    ensures
        envelope == (CommandEnvelope { command, expects_response: true }),
{
    CommandEnvelope { command, expects_response: true }
}

/// A click. Any number but zero says that the button goes up.
pub fn mouse_click(
    browser_id: u32,
    x: i32,
    y: i32,
    modifiers: u32,
    button: u8,
    mouse_up: i32,
    click_count: i32,
) -> (command: Command)
    ensures
        command == (Command::MouseClick {
            browser_id,
            x,
            y,
            modifiers,
            button,
            mouse_up: says_yes(mouse_up),
            click_count,
        }),
{
    Command::MouseClick {
        browser_id,
        x,
        y,
        modifiers,
        button,
        mouse_up: mouse_up != 0,
        click_count,
    }
}

/// The end of a composition. Any number but zero says that the selection stays.
pub fn finish_composing_text(browser_id: u32, keep_selection: i32) -> (command: Command)
    ensures
        command == (Command::ImeFinishComposingText {
            browser_id,
            keep_selection: says_yes(keep_selection),
        }),
{
    Command::ImeFinishComposingText { browser_id, keep_selection: keep_selection != 0 }
}

/// What sending a command and waiting for its answer came to.
#[derive(Debug)]
pub enum Reply {
    Answer { response: Response },
    /// The channel failed.
    ChannelFailed { error: String },
    NotConnected,
}

/// What the engine is told of a command that it waits for.
pub open spec fn reply_code(reply: Reply) -> i32 {
    match reply {
        Reply::Answer { response } => if response is Error {
            -1i32
        } else {
            0
        },
        _ => -1i32,
    }
}

/// What the engine is told of a command that it waits for: 0, or -1 where the server reports an
/// error or cannot be reached.
pub fn blocking_simple(reply: &Reply) -> (code: i32)
    ensures
        code == reply_code(*reply),
{
    match reply {
        Reply::Answer { response } => match response {
            Response::Error { .. } => -1,
            _ => 0,
        },
        _ => -1,
    }
}

/// A browser that the server has created.
#[derive(Debug)]
pub struct CreatedBrowser {
    pub browser_id: u32,
    pub shared_memory_flink: String,
    pub d3d11_fence_handle: u64,
    pub audio_shared_memory_flink: String,
}

/// Whether an answer announces the given browser, or leads to the given line of the log.
pub open spec fn announces(reply: Reply, created: Result<CreatedBrowser, String>) -> bool {
    match reply {
        Reply::Answer { response } => match response {
            Response::BrowserCreated {
                browser_id,
                shared_memory_flink,
                d3d11_fence_handle,
                audio_shared_memory_flink,
            } => created == Ok::<CreatedBrowser, String>(
                CreatedBrowser {
                    browser_id,
                    shared_memory_flink,
                    d3d11_fence_handle,
                    audio_shared_memory_flink,
                },
            ),
            Response::Error { message } => created matches Err(text) && text@
                == "create_browser error: "@ + message@,
            _ => created matches Err(text) && text@ == "unexpected response to CreateBrowser"@,
        },
        Reply::ChannelFailed { error } => created matches Err(text) && text@
            == "create_browser IPC error: "@ + error@,
        Reply::NotConnected => created matches Err(text) && text@ == Seq::<char>::empty(),
    }
}

/// The browser that an answer announces, or what is to be logged.
pub fn browser_created(reply: Reply) -> (created: Result<CreatedBrowser, String>)
    ensures
        announces(reply, created),
{
    match reply {
        Reply::Answer { response } => match response {
            Response::BrowserCreated {
                browser_id,
                shared_memory_flink,
                d3d11_fence_handle,
                audio_shared_memory_flink,
            } => Ok(
                CreatedBrowser {
                    browser_id,
                    shared_memory_flink,
                    d3d11_fence_handle,
                    audio_shared_memory_flink,
                },
            ),
            Response::Error { message } => Err(joined("create_browser error: ", message.as_str())),
            _ => Err("unexpected response to CreateBrowser".to_owned()),
        },
        Reply::ChannelFailed { error } => Err(joined("create_browser IPC error: ", error.as_str())),
        Reply::NotConnected => Err(String::new()),
    }
}

/// Two texts, one behind the other.
fn joined(first: &str, second: &str) -> (text: String)
    ensures
        text@ == first@ + second@,
{
    let mut text: String = first.to_owned();
    text.append(second);
    text
}

/// Which graphics devices open the server's fence.
pub open spec fn fence_opened_by(
    fence_handle: u64,
    d3d11_connected: bool,
    d3d12_connected: bool,
) -> (bool, bool) {
    (fence_handle != 0 && d3d11_connected, fence_handle != 0 && d3d12_connected)
}

/// Which graphics devices open the server's fence: each that is connected, where there is a fence.
pub fn fence_openers(fence_handle: u64, d3d11_connected: bool, d3d12_connected: bool) -> (openers: (
    bool,
    bool,
))
    ensures
        openers == fence_opened_by(fence_handle, d3d11_connected, d3d12_connected),
{
    (fence_handle != 0 && d3d11_connected, fence_handle != 0 && d3d12_connected)
}

/// A browser on the client's side.
#[derive(Debug)]
pub struct ClientBrowser {
    pub browser_id: u32,
    pub shared_memory: SharedMemoryReader,
    /// Where this is missing, the browser is silent.
    pub audio_shared_memory: Option<AudioSharedMemoryReader>,
    pub audio_flink: String,
}

/// The browser on the client's side for one that was created.
pub open spec fn opened_browser(
    created: CreatedBrowser,
    memory_opened: bool,
    audio_opened: bool,
) -> Option<ClientBrowser> {
    if memory_opened {
        Some(
            ClientBrowser {
                browser_id: created.browser_id,
                shared_memory: SharedMemoryReader {
                    last_frame_id: 0,
                    last_accelerated_frame_id: 0,
                    last_d3d11_frame_id: 0,
                },
                audio_shared_memory: if audio_opened {
                    Some(AudioSharedMemoryReader { read_frames: 0 })
                } else {
                    None
                },
                audio_flink: created.audio_shared_memory_flink,
            },
        )
    } else {
        None
    }
}

impl ClientBrowser {
    /// A browser that was created, if its memory could be opened. It can do without the memory for
    /// audio.
    pub fn open(created: CreatedBrowser, memory_opened: bool, audio_opened: bool) -> (browser: Option<
        ClientBrowser,
    >)
        ensures
            browser == opened_browser(created, memory_opened, audio_opened),
    {
        if !memory_opened {
            return None;
        }
        let audio_shared_memory: Option<AudioSharedMemoryReader> = if audio_opened {
            Some(AudioSharedMemoryReader::open())
        } else {
            None
        };
        Some(
            ClientBrowser {
                browser_id: created.browser_id,
                shared_memory: SharedMemoryReader::open(),
                audio_shared_memory,
                audio_flink: created.audio_shared_memory_flink,
            },
        )
    }

    /// Where the newest frame stands in the memory, with its width and height, if it is newer than
    /// the last one. Such a frame is counted.
    pub fn get_buffer(&mut self, state: &mut ClientState, memory: &[u8]) -> (frame: Option<
        (usize, u32, u32),
    >)
        requires
            shared_memory::mapped(memory@),
        ensures
            final(self).browser_id == old(self).browser_id,
            final(self).audio_shared_memory == old(self).audio_shared_memory,
            final(self).audio_flink == old(self).audio_flink,
            final(self).shared_memory == (SharedMemoryReader {
                last_frame_id: shared_memory::header_of(memory@).frame_id,
                ..old(self).shared_memory
            }),
            *final(state) == if frame is Some {
                ClientState { paint_count: counted(old(state).paint_count), ..*old(state) }
            } else {
                *old(state)
            },
            match shared_memory::frame_for(memory@, old(self).shared_memory.last_frame_id) {
                None => frame is None,
                Some((width, height, pixels)) => {
                    &&& frame matches Some((start, w, h))
                    &&& w == width && h == height
                    &&& start == frames::buffer_start(
                        SHARED_MEMORY_HEADER_SIZE,
                        shared_memory::header_of(memory@).active_buffer,
                    )
                    &&& start + pixels.len() <= memory@.len()
                    &&& pixels == memory@.subrange(start as int, start + pixels.len())
                },
            },
    {
        let frame: Option<(usize, u32, u32)> = self.shared_memory.get_active_buffer_offset(memory);
        if frame.is_some() {
            state.painted();
        }
        frame
    }
}

/// What starting to play audio comes to.
#[derive(Clone, Copy, Debug, PartialEq, Eq, Structural)]
pub enum VoiceStep {
    /// Audio plays already, or cannot be played.
    Done { code: i32 },
    Start { io_frames: i32 },
}

/// What a request to play audio comes to.
pub open spec fn voice_step(
    available: bool,
    playing: bool,
    flink: Seq<char>,
    io_frames: i32,
) -> VoiceStep {
    if !available {
        VoiceStep::Done { code: -1i32 }
    } else if playing {
        VoiceStep::Done { code: 0 }
    } else if flink.len() == 0 {
        VoiceStep::Done { code: -1i32 }
    } else {
        VoiceStep::Start {
            io_frames: if io_frames > 0 {
                io_frames
            } else {
                128
            },
        }
    }
}

/// Decides about playing audio. `available` says whether the system can play at all, `playing`
/// whether it does. Without a wish, so many frames are played at a time.
pub fn native_audio_start(available: bool, playing: bool, flink: &str, io_frames: i32) -> (step:
    VoiceStep)
    ensures
        step == voice_step(available, playing, flink@, io_frames),
{
    if !available {
        return VoiceStep::Done { code: -1 };
    }
    if playing {
        return VoiceStep::Done { code: 0 };
    }
    if flink.is_empty() {
        return VoiceStep::Done { code: -1 };
    }
    VoiceStep::Start {
        io_frames: if io_frames > 0 {
            io_frames
        } else {
            128
        },
    }
}

/// The text that bytes of the engine stand for. Bytes that are not valid stand for none.
pub open spec fn given(bytes: Seq<u8>) -> Seq<char> {
    if valid_utf8(bytes) {
        decode_utf8(bytes)
    } else {
        Seq::empty()
    }
}

/// Reads a text of the engine.
pub fn given_text<'a>(bytes: &'a [u8]) -> (text: &'a str)
    ensures
        text@ == given(bytes@),
{
    proof {
        reveal_strlit("");
    }
    match from_utf8(bytes) {
        Some(text) => text,
        None => "",
    }
}

/// The address that an answer holds.
pub open spec fn url_in(reply: Reply) -> Option<String> {
    match reply {
        Reply::Answer { response: Response::CurrentUrl { url } } => Some(url),
        _ => None,
    }
}

/// The address that an answer holds, if it is one to the question for it.
pub fn current_url(reply: Reply) -> (url: Option<String>)
    ensures
        url == url_in(reply),
{
    match reply {
        Reply::Answer { response } => match response {
            Response::CurrentUrl { url } => Some(url),
            _ => None,
        },
        _ => None,
    }
}

/// What a buffer holds after a text was copied there: the text's bytes and a zero in front, if it
/// has room for all of them.
pub open spec fn copied_text(text: Seq<char>, before: Seq<u8>) -> Seq<u8> {
    let bytes = encode_utf8(text).push(0);
    if before.len() < bytes.len() {
        before
    } else {
        bytes + before.skip(bytes.len() as int)
    }
}

/// Copies the front of `source` to the front of `destination`.
fn copy_front(source: &[u8], destination: &mut [u8], count: usize)
    requires
        count <= source.len(),
        count <= old(destination).len(),
    ensures
        final(destination)@ == source@.take(count as int) + old(destination)@.skip(count as int),
{
    let mut index: usize = 0;
    assert(destination@ =~= source@.take(0) + old(destination)@.skip(0));
    while index < count
        invariant
            index <= count,
            count <= source.len(),
            source.len() == source@.len(),
            count <= destination.len(),
            destination.len() == destination@.len(),
            old(destination)@.len() == destination@.len(),
            destination@ == source@.take(index as int) + old(destination)@.skip(index as int),
        decreases count - index,
    {
        destination[index] = source[index];
        assert(destination@ =~= source@.take(index + 1) + old(destination)@.skip(index + 1));
        index += 1;
    }
}

/// Copies a text with a zero behind it, if there is room, and says how much room it takes.
pub fn copy_url(url: &str, buffer: &mut [u8]) -> (required: usize)
    requires
        encode_utf8(url@).len() < usize::MAX,
    ensures
        required == encode_utf8(url@).len() + 1,
        final(buffer)@ == copied_text(url@, old(buffer)@),
{
    let bytes: &[u8] = url.as_bytes();
    let length: usize = bytes.len();
    assert(length == bytes@.len());
    let required: usize = length + 1;
    if buffer.len() >= required {
        copy_front(bytes, buffer, length);
        buffer[length] = 0;
        assert(bytes@.take(length as int) =~= bytes@);
        assert(buffer@ =~= copied_text(url@, old(buffer)@));
    }
    required
}

/// Messages one behind the other, each with a zero behind it.
pub open spec fn encoded_logs(entries: Seq<Seq<char>>) -> Seq<u8>
    decreases entries.len(),
{
    if entries.len() == 0 {
        Seq::empty()
    } else {
        encoded_logs(entries.drop_last()) + encode_utf8(entries.last()).push(0)
    }
}

/// Whether `count` bytes of `data` were copied to the front of a buffer, as many as fit.
pub open spec fn copied_out(data: Seq<u8>, before: Seq<u8>, count: nat, after: Seq<u8>) -> bool {
    &&& count == if data.len() <= before.len() {
        data.len()
    } else {
        before.len()
    }
    &&& after == data.take(count as int) + before.skip(count as int)
}

/// Messages that were fetched and wait to be copied out.
#[derive(Debug)]
pub struct LogCache {
    pub data: Option<Vec<u8>>,
}

impl LogCache {
    /// Nothing was fetched.
    pub fn new() -> (cache: LogCache)
        ensures
            cache.data is None,
    {
        LogCache { data: None }
    }

    /// Keeps messages, and says how much room they take. Without messages nothing is kept.
    pub fn keep(&mut self, entries: &Vec<String>) -> (size: usize)
        ensures
            size == encoded_logs(protocol::texts(entries@)).len(),
            match final(self).data {
                Some(data) => entries@.len() > 0 && data@ == encoded_logs(
                    protocol::texts(entries@),
                ),
                None => entries@.len() == 0,
            },
    {
        if entries.len() == 0 {
            self.data = None;
            return 0;
        }
        let ghost all = protocol::texts(entries@);
        let mut encoded: Vec<u8> = Vec::new();
        let mut index: usize = 0;
        assert(all.take(0) =~= Seq::<Seq<char>>::empty());
        while index < entries.len()
            invariant
                index <= entries.len(),
                all == protocol::texts(entries@),
                encoded@ == encoded_logs(all.take(index as int)),
            decreases entries.len() - index,
        {
            encoded.extend_from_slice(entries[index].as_str().as_bytes());
            encoded.push(0);
            let ghost longer = all.take(index + 1);
            assert(longer.drop_last() =~= all.take(index as int));
            assert(longer.last() == entries@[index as int]@);
            assert(encoded@ =~= encoded_logs(longer));
            index += 1;
        }
        assert(all.take(index as int) =~= all);
        let size: usize = encoded.len();
        self.data = Some(encoded);
        size
    }

    /// Keeps the messages that an answer holds, and says how much room they take. Where it holds none
    /// of them, what was kept stays.
    pub fn fetch(&mut self, reply: Reply) -> (size: usize)
        ensures
            match reply {
                Reply::Answer { response: Response::Logs { entries } } => {
                    &&& size == encoded_logs(protocol::texts(entries@)).len()
                    &&& match final(self).data {
                        Some(data) => entries@.len() > 0 && data@ == encoded_logs(
                            protocol::texts(entries@),
                        ),
                        None => entries@.len() == 0,
                    }
                },
                _ => size == 0 && *final(self) == *old(self),
            },
    {
        match reply {
            Reply::Answer { response } => match response {
                Response::Logs { entries } => self.keep(&entries),
                _ => 0,
            },
            _ => 0,
        }
    }

    /// Copies what is kept into a buffer, as much as fits, and says how much that is. Then nothing
    /// is kept any more.
    pub fn copy_out(&mut self, buffer: &mut [u8]) -> (count: usize)
        ensures
            final(self).data is None,
            copied_out(
                match old(self).data {
                    Some(data) => data@,
                    None => Seq::empty(),
                },
                old(buffer)@,
                count as nat,
                final(buffer)@,
            ),
    {
        let mut taken: Option<Vec<u8>> = None;
        std::mem::swap(&mut self.data, &mut taken);
        match taken {
            None => {
                assert(buffer@ =~= Seq::<u8>::empty().take(0) + buffer@.skip(0));
                0
            },
            Some(data) => {
                let count: usize = if data.len() <= buffer.len() {
                    data.len()
                } else {
                    buffer.len()
                };
                assert(buffer.len() == old(buffer)@.len());
                copy_front(data.as_slice(), buffer, count);
                count
            },
        }
    }
}

/// A wait ends with the first event that ends it, however long it was quiet before.
pub proof fn law_first_event_decides(quiet: Seq<ConnectEvent>, event: ConnectEvent)
    requires
        forall|i: int|
            0 <= i < quiet.len() ==> connect_step(#[trigger] quiet[i]) == ConnectStep::KeepWaiting,
        connect_step(event) != ConnectStep::KeepWaiting,
    ensures
        wait_outcome(quiet.push(event)) == connect_step(event),
    decreases quiet.len(),
{
    let events = quiet.push(event);
    if quiet.len() > 0 {
        assert(events[0] == quiet[0]);
        assert(connect_step(quiet[0]) == ConnectStep::KeepWaiting);
        let rest = quiet.skip(1);
        assert forall|i: int| 0 <= i < rest.len() implies connect_step(#[trigger] rest[i])
            == ConnectStep::KeepWaiting by {
            assert(rest[i] == quiet[i + 1]);
        }
        law_first_event_decides(rest, event);
        assert(events.skip(1) =~= rest.push(event));
    }
}

/// A server that never connects is not waited for beyond the time it is given.
pub proof fn law_wait_ends(server_exited: bool)
    ensures
        connect_step(ConnectEvent::Quiet { server_exited, time_is_up: true }) is Fail,
{
}

/// Whether a text takes no byte that is zero.
pub open spec fn without_zero(text: Seq<char>) -> bool {
    forall|i: int| 0 <= i < encode_utf8(text).len() ==> #[trigger] encode_utf8(text)[i] != 0
}

/// Messages take no room, or end with a zero.
proof fn lemma_logs_end_with_zero(entries: Seq<Seq<char>>)
    ensures
        encoded_logs(entries).len() == 0 <==> entries.len() == 0,
        entries.len() > 0 ==> encoded_logs(entries).last() == 0,
{
}

/// Of two lists of messages with the same bytes, the last message of one is no shorter than that of
/// the other.
proof fn lemma_last_no_shorter(one: Seq<Seq<char>>, two: Seq<Seq<char>>)
    requires
        one.len() > 0,
        two.len() > 0,
        without_zero(two.last()),
        encoded_logs(one) == encoded_logs(two),
    ensures
        encode_utf8(one.last()).len() >= encode_utf8(two.last()).len(),
{
    let (a, b) = (encode_utf8(one.last()), encode_utf8(two.last()));
    let front = encoded_logs(one.drop_last());
    let rest = encoded_logs(two.drop_last());
    let all = encoded_logs(one);
    lemma_logs_end_with_zero(one.drop_last());
    assert(all == front + a.push(0));
    assert(all == rest + b.push(0));
    assert(all.len() == front.len() + a.len() + 1);
    assert(all.len() == rest.len() + b.len() + 1);
    if a.len() < b.len() {
        assert(front.len() > 0);
        let at = front.len() - 1;
        assert(all[at] == front[at]);
        assert(all[at] == b[at - rest.len()]);
    }
}

/// Messages can be told apart again: as long as none holds a zero, their bytes belong to no other
/// list of messages.
pub proof fn law_messages_can_be_told_apart(one: Seq<Seq<char>>, two: Seq<Seq<char>>)
    requires
        forall|i: int| 0 <= i < one.len() ==> without_zero(#[trigger] one[i]),
        forall|i: int| 0 <= i < two.len() ==> without_zero(#[trigger] two[i]),
        encoded_logs(one) == encoded_logs(two),
    ensures
        one == two,
    decreases one.len(),
{
    lemma_logs_end_with_zero(one);
    lemma_logs_end_with_zero(two);
    if one.len() > 0 {
        assert(without_zero(one[one.len() - 1]));
        assert(without_zero(two[two.len() - 1]));
        lemma_last_no_shorter(one, two);
        lemma_last_no_shorter(two, one);
        let (a, b) = (encode_utf8(one.last()), encode_utf8(two.last()));
        let front = encoded_logs(one.drop_last());
        let rest = encoded_logs(two.drop_last());
        let all = encoded_logs(one);
        assert(front.len() == rest.len());
        assert(front =~= all.take(front.len() as int));
        assert(rest =~= all.take(front.len() as int));
        assert(a =~= all.subrange(front.len() as int, front.len() as int + a.len()));
        assert(b =~= all.subrange(front.len() as int, front.len() as int + a.len()));
        encode_utf8_decode_utf8(one.last());
        encode_utf8_decode_utf8(two.last());
        let (shorter, other) = (one.drop_last(), two.drop_last());
        assert forall|i: int| 0 <= i < shorter.len() implies without_zero(#[trigger] shorter[i]) by {
            assert(shorter[i] == one[i]);
        }
        assert forall|i: int| 0 <= i < other.len() implies without_zero(#[trigger] other[i]) by {
            assert(other[i] == two[i]);
        }
        law_messages_can_be_told_apart(shorter, other);
        assert(one =~= shorter.push(one.last()));
        assert(two =~= other.push(two.last()));
    } else {
        assert(one =~= two);
    }
}

/// A server that connects is waited for no longer; one whose greeting fails, and one that nobody waits for
/// any more, is given up and ended.
pub proof fn law_connection_ends_the_wait()
    ensures
        connect_step(ConnectEvent::Connected) == ConnectStep::Proceed,
        forall|event: ConnectEvent| #[trigger]
            connect_step(event) == ConnectStep::Proceed ==> event == ConnectEvent::Connected,
        connect_step(ConnectEvent::GreetingFailed) == (ConnectStep::Fail {
            code: -5i32,
            end_server: true,
        }),
        connect_step(ConnectEvent::ListenerLost) == (ConnectStep::Fail {
            code: -5i32,
            end_server: true,
        }),
{
}

/// While it is quiet the wait goes on, until the server has ended or the time is up. A server that has ended
/// is noticed whether or not the time is up, and there is nothing to end then; one that has not is ended when
/// the time is up.
pub proof fn law_quiet_wait_goes_on_until_something_ends(server_exited: bool, time_is_up: bool)
    ensures
        connect_step(ConnectEvent::Quiet { server_exited: true, time_is_up }) == (ConnectStep::Fail {
            code: -6i32,
            end_server: false,
        }),
        connect_step(ConnectEvent::Quiet { server_exited: false, time_is_up: true })
            == (ConnectStep::Fail { code: -7i32, end_server: true }),
        connect_step(ConnectEvent::Quiet { server_exited, time_is_up }) == ConnectStep::KeepWaiting
            <==> !server_exited && !time_is_up,
{
}

/// A launch is refused where the program is missing, whatever else holds, and otherwise where there is no
/// channel or the program does not start; nothing else stands in its way.
pub proof fn law_launch_needs_program_channel_and_start(channel_open: bool, started: bool)
    ensures
        launch_check(false, channel_open, started) == Err::<(), i32>(-3i32),
        !channel_open || !started ==> launch_check(true, channel_open, started) == Err::<(), i32>(
            -4i32,
        ),
        launch_check(true, true, true) == Ok::<(), i32>(()),
{
}

/// Every number but zero says yes, positive or negative.
pub proof fn law_every_number_but_zero_says_yes(number: i32)
    ensures
        says_yes(number) <==> number > 0 || number < 0,
{
}

/// Asking for a server switches the log in any case. Where no server runs, it also settles whether surfaces
/// are wanted; where one runs, that stays as it was settled then. Nothing else changes yet.
pub proof fn law_running_server_keeps_its_mode(state: ClientState, use_gpu: i32, enable_log: i32)
    ensures
        ({
            let after = state.beginning(use_gpu, enable_log);
            &&& after.log_enabled <==> enable_log != 0
            &&& !state.initialized ==> (after.use_gpu_mode <==> use_gpu != 0)
            &&& state.initialized ==> after.use_gpu_mode == state.use_gpu_mode
            &&& after.initialized == state.initialized
            &&& after.iosurface_connected == state.iosurface_connected
            &&& after.paint_count == state.paint_count
            &&& after.pump_count == state.pump_count
        }),
{
}

/// A server that was started and then ended leaves the client as one without a server: ready to start
/// another, with surfaces wanted and no port for them. The counters and the log stay as they were.
pub proof fn law_ended_server_leaves_no_trace(
    state: ClientState,
    use_gpu: i32,
    enable_log: i32,
    iosurface_connected: bool,
)
    requires
        !state.initialized,
    ensures
        ({
            let running = state.beginning(use_gpu, enable_log).running(iosurface_connected);
            let ended = running.ended();
            &&& running.initialized
            &&& iosurface_connected ==> running.iosurface_connected
            &&& running.use_gpu_mode <==> use_gpu != 0
            &&& !ended.initialized
            &&& !ended.iosurface_connected
            &&& ended.use_gpu_mode
            &&& ended.log_enabled <==> enable_log != 0
            &&& ended.paint_count == state.paint_count
            &&& ended.pump_count == state.pump_count
            &&& ended.ended() == ended
        }),
{
}

/// The port for surfaces is wanted on one system only, and only where surfaces are.
pub proof fn law_port_is_wanted_on_one_system(state: ClientState, platform: Platform)
    ensures
        state.wants_port(platform) ==> platform == Platform::MacOs && state.use_gpu_mode,
        state.use_gpu_mode ==> state.wants_port(Platform::MacOs),
{
}

/// The engine is told that surfaces arrive where they are wanted and the way is connected, and not
/// otherwise.
pub proof fn law_unwanted_surfaces_do_not_arrive(state: ClientState, connected: bool)
    ensures
        state.use_gpu_mode && connected ==> state.code_for(connected) == 1,
        !state.use_gpu_mode || !connected ==> state.code_for(connected) == 0,
{
}

/// Every step counts for one, and after the largest number the count starts over.
pub proof fn law_counters_count_one_by_one(count: u64)
    ensures
        (counted(count) - count) % 0x1_0000_0000_0000_0000 == 1,
{
}

/// A command that is waited for has succeeded if the server answers with anything but an error, and has
/// failed otherwise, whether the server says so or cannot be reached.
pub proof fn law_only_errors_and_silence_are_failures(
    response: Response,
    error: String,
    message: String,
)
    ensures
        !(response is Error) ==> reply_code(Reply::Answer { response }) == 0,
        reply_code(Reply::Answer { response: Response::Error { message } }) == -1,
        reply_code(Reply::ChannelFailed { error }) == -1,
        reply_code(Reply::NotConnected) == -1,
{
}

/// A browser that the server has created is announced with everything that the server said of it; nothing
/// else announces a browser.
pub proof fn law_created_browser_is_announced(reply: Reply, created: Result<CreatedBrowser, String>)
    requires
        announces(reply, created),
    ensures
        created is Ok <==> (reply matches Reply::Answer { response } && response is BrowserCreated),
        reply matches Reply::Answer {
            response: Response::BrowserCreated {
                browser_id,
                shared_memory_flink,
                d3d11_fence_handle,
                audio_shared_memory_flink,
            },
        } ==> (created matches Ok(browser) && browser.browser_id == browser_id
            && browser.shared_memory_flink == shared_memory_flink && browser.d3d11_fence_handle
            == d3d11_fence_handle && browser.audio_shared_memory_flink == audio_shared_memory_flink),
{
}

/// What is logged of a creation that failed ends with the cause that was given.
pub proof fn law_cause_of_a_failed_creation_is_logged(
    reply: Reply,
    created: Result<CreatedBrowser, String>,
    cause: Seq<char>,
)
    requires
        announces(reply, created),
        (reply matches Reply::Answer { response: Response::Error { message } } && message@ == cause)
            || (reply matches Reply::ChannelFailed { error } && error@ == cause),
    ensures
        created matches Err(line) && line@.len() > cause.len() && line@.skip(
            line@.len() - cause.len(),
        ) == cause,
{
    reveal_strlit("create_browser error: ");
    reveal_strlit("create_browser IPC error: ");
    let line = created.unwrap_err()@;
    assert(line.skip(line.len() - cause.len()) =~= cause);
}

/// A fence is opened by each device that is connected, whether or not the other one is; without a fence
/// there is nothing to open.
pub proof fn law_each_connected_device_opens_the_fence(
    fence_handle: u64,
    d3d11_connected: bool,
    d3d12_connected: bool,
)
    ensures
        fence_handle != 0 ==> fence_opened_by(fence_handle, d3d11_connected, d3d12_connected).0
            == d3d11_connected && fence_opened_by(
            fence_handle,
            d3d11_connected,
            d3d12_connected,
        ).1 == d3d12_connected,
        fence_opened_by(0, d3d11_connected, d3d12_connected) == (false, false),
{
}

/// A browser needs its memory and can do without that for audio. It keeps its number and the name of its
/// audio, and has seen nothing yet.
pub proof fn law_browser_needs_its_memory(created: CreatedBrowser, audio_opened: bool)
    ensures
        opened_browser(created, false, audio_opened) is None,
        ({
            &&& opened_browser(created, true, audio_opened) matches Some(browser)
            &&& browser.browser_id == created.browser_id
            &&& browser.audio_flink == created.audio_shared_memory_flink
            &&& browser.shared_memory.last_frame_id == 0
            &&& browser.shared_memory.last_accelerated_frame_id == 0
            &&& browser.shared_memory.last_d3d11_frame_id == 0
            &&& browser.audio_shared_memory is Some <==> audio_opened
            &&& browser.audio_shared_memory matches Some(reader) ==> reader.read_frames == 0
        }),
{
}

/// Audio starts with as many frames at a time as are wished for, if that is a positive number, and with 128
/// otherwise. It does not start a second time, nor without a memory to play from, nor where the system cannot
/// play.
pub proof fn law_audio_starts_once(available: bool, playing: bool, flink: Seq<char>, io_frames: i32)
    ensures
        available && !playing && flink.len() > 0 && io_frames >= 1 ==> voice_step(
            available,
            playing,
            flink,
            io_frames,
        ) == (VoiceStep::Start { io_frames }),
        available && !playing && flink.len() > 0 && io_frames <= 0 ==> voice_step(
            available,
            playing,
            flink,
            io_frames,
        ) == (VoiceStep::Start { io_frames: 128 }),
        available && playing ==> voice_step(available, playing, flink, io_frames)
            == (VoiceStep::Done { code: 0 }),
        !available || !playing && flink.len() == 0 ==> voice_step(
            available,
            playing,
            flink,
            io_frames,
        ) == (VoiceStep::Done { code: -1i32 }),
{
}

/// A text of the engine is read as it was written; bytes that are no text are read as the empty one.
pub proof fn law_text_of_the_engine_is_read(text: Seq<char>, other: Seq<u8>)
    ensures
        given(encode_utf8(text)) == text,
        !valid_utf8(other) ==> given(other).len() == 0,
{
    encode_utf8_valid_utf8(text);
    encode_utf8_decode_utf8(text);
}

/// The address in the server's answer is the one that the engine gets; no other answer, and no failure,
/// yields one.
pub proof fn law_only_an_address_is_taken_for_one(reply: Reply)
    ensures
        reply matches Reply::Answer { response: Response::CurrentUrl { url } } ==> url_in(reply)
            == Some(url),
        reply matches Reply::Answer { response } ==> (url_in(reply) is Some
            <==> response is CurrentUrl),
        reply is ChannelFailed || reply is NotConnected ==> url_in(reply) is None,
{
}

/// A text that fits is found at the front of the buffer, byte for byte, with a zero behind it, and the rest
/// of the buffer is left alone. A text that does not fit together with its zero leaves all of it alone.
pub proof fn law_copied_text_is_found(text: Seq<char>, before: Seq<u8>)
    ensures
        ({
            let length = encode_utf8(text).len() as int;
            let after = copied_text(text, before);
            &&& length < before.len() ==> after.len() == before.len() && after.take(length)
                == encode_utf8(text) && after[length] == 0 && after.skip(length + 1)
                == before.skip(length + 1)
            &&& length >= before.len() ==> after == before
        }),
{
    let length = encode_utf8(text).len() as int;
    let after = copied_text(text, before);
    if length < before.len() {
        assert(after.take(length) =~= encode_utf8(text));
        assert(after.skip(length + 1) =~= before.skip(length + 1));
    }
}

/// A message is its bytes with a zero behind them, and messages stand one behind the other in the order in
/// which they came.
pub proof fn law_messages_stand_in_order(
    earlier: Seq<Seq<char>>,
    later: Seq<Seq<char>>,
    message: Seq<char>,
)
    ensures
        encoded_logs(seq![message]) == encode_utf8(message) + seq![0u8],
        encoded_logs(earlier + later) == encoded_logs(earlier) + encoded_logs(later),
    decreases later.len(),
{
    let single = seq![message];
    assert(single.drop_last() =~= Seq::<Seq<char>>::empty());
    assert(encoded_logs(single.drop_last()) =~= Seq::<u8>::empty());
    assert(encoded_logs(single) =~= encode_utf8(message) + seq![0u8]);
    if later.len() == 0 {
        assert(earlier + later =~= earlier);
        assert(encoded_logs(earlier) + encoded_logs(later) =~= encoded_logs(earlier));
    } else {
        law_messages_stand_in_order(earlier, later.drop_last(), message);
        assert((earlier + later).drop_last() =~= earlier + later.drop_last());
        assert((earlier + later).last() == later.last());
        assert(encoded_logs(earlier + later) =~= encoded_logs(earlier) + encoded_logs(later));
    }
}

/// As much as fits is copied to the front of a buffer, byte for byte from the beginning, and the rest of the
/// buffer is left alone.
pub proof fn law_as_much_as_fits_is_copied(
    data: Seq<u8>,
    before: Seq<u8>,
    count: nat,
    after: Seq<u8>,
)
    requires
        copied_out(data, before, count, after),
    ensures
        count <= data.len(),
        count <= before.len(),
        count == data.len() || count == before.len(),
        after.len() == before.len(),
        forall|i: int| 0 <= i < count ==> #[trigger] after[i] == data[i],
        forall|i: int| count <= i < before.len() ==> #[trigger] after[i] == before[i],
{
}

/// An answer that neither announces a browser nor reports an error is logged as unexpected; where there is no
/// connection there is nothing to log.
pub proof fn law_unexpected_answer_is_logged(reply: Reply, created: Result<CreatedBrowser, String>)
    requires
        announces(reply, created),
    ensures
        (reply matches Reply::Answer { response } && !(response is BrowserCreated) && !(
        response is Error)) ==> (created matches Err(line) && line@
            == "unexpected response to CreateBrowser"@),
        reply is NotConnected ==> (created matches Err(line) && line@.len() == 0),
{
}

} // verus!
