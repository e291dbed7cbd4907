//! A smaller protocol over a byte stream: commands and answers as tagged byte strings, each sent
//! with its length in front, and frames in a memory with a shorter header.
use crate::bytes;
use crate::bytes::{as_signed, as_unsigned, get_u32, get_u64, push_u32};
use crate::frames;
use crate::frames::{copy_out, frame_bytes, put_frame, BUFFER_SIZE};
use crate::text;
use crate::text::{from_utf8, push_decimal};
use vstd::prelude::*;
use vstd::utf8::*;

verus! {

/// The longest message that is received.
pub const MAX_MESSAGE_BYTES: usize = 0x100_0000;

/// The bytes of the header in front of the buffers.
pub const SHM_HEADER_SIZE: usize = 64;

/// The bytes of the header and the two buffers.
pub const SHM_TOTAL_SIZE: usize = 66_355_264;

/// The first byte of a command.
#[derive(Clone, Copy, Debug, PartialEq, Eq, Structural)]
pub enum CommandTag {
    CreateBrowser,
    DestroyBrowser,
    LoadUrl,
    Resize,
    Shutdown,
}

/// The first byte of an answer.
#[derive(Clone, Copy, Debug, PartialEq, Eq, Structural)]
pub enum ResponseTag {
    BrowserCreated,
    Success,
    Error,
}

/// What the client asks of the server.
#[derive(Debug)]
pub enum Command {
    CreateBrowser { width: i32, height: i32, url: String },
    DestroyBrowser { browser_id: u32 },
    LoadUrl { browser_id: u32, url: String },
    Resize { browser_id: u32, width: i32, height: i32 },
    Shutdown,
}

/// What the server answers.
#[derive(Debug)]
pub enum Response {
    BrowserCreated { browser_id: u32, shm_name: String },
    /// The command was carried out.
    Success,
    Error { msg: String },
}

/// A command, with its strings as sequences of characters.
pub enum CommandView {
    CreateBrowser { width: i32, height: i32, url: Seq<char> },
    DestroyBrowser { browser_id: u32 },
    LoadUrl { browser_id: u32, url: Seq<char> },
    Resize { browser_id: u32, width: i32, height: i32 },
    Shutdown,
}

/// An answer, with its strings as sequences of characters.
pub enum ResponseView {
    BrowserCreated { browser_id: u32, shm_name: Seq<char> },
    Success,
    Error { msg: Seq<char> },
}

/// What a message ended in the middle of.
#[derive(Clone, Copy, Debug, PartialEq, Eq, Structural)]
pub enum Truncated {
    /// The message itself: it has no first byte.
    Message,
    U32,
    I32,
    Str,
    /// The stream, in the middle of a message.
    Stream,
}

/// Why bytes were not understood.
#[derive(Clone, Copy, Debug, PartialEq, Eq, Structural)]
pub enum WireError {
    UnexpectedEof { what: Truncated },
    InvalidUtf8,
    UnknownCommandTag { tag: u8 },
    UnknownResponseTag { tag: u8 },
    MessageTooLarge { length: u32 },
}

impl View for Command {
    type V = CommandView;

    open spec fn view(&self) -> CommandView {
        match *self {
            Command::CreateBrowser { width, height, url } => CommandView::CreateBrowser {
                width,
                height,
                url: url@,
            },
            Command::DestroyBrowser { browser_id } => CommandView::DestroyBrowser { browser_id },
            Command::LoadUrl { browser_id, url } => CommandView::LoadUrl { browser_id, url: url@ },
            Command::Resize { browser_id, width, height } => CommandView::Resize {
                browser_id,
                width,
                height,
            },
            Command::Shutdown => CommandView::Shutdown,
        }
    }
}

impl View for Response {
    type V = ResponseView;

    open spec fn view(&self) -> ResponseView {
        match *self {
            Response::BrowserCreated { browser_id, shm_name } => ResponseView::BrowserCreated {
                browser_id,
                shm_name: shm_name@,
            },
            Response::Success => ResponseView::Success,
            Response::Error { msg } => ResponseView::Error { msg: msg@ },
        }
    }
}

impl CommandTag {
    /// The byte that stands for a tag.
    pub open spec fn spec_byte(self) -> u8 {
        match self {
            CommandTag::CreateBrowser => 1,
            CommandTag::DestroyBrowser => 2,
            CommandTag::LoadUrl => 3,
            CommandTag::Resize => 4,
            CommandTag::Shutdown => 5,
        }
    }

    /// The byte that stands for a tag.
    pub fn byte(self) -> (byte: u8)
        ensures
            byte == self.spec_byte(),
    {
        match self {
            CommandTag::CreateBrowser => 1,
            CommandTag::DestroyBrowser => 2,
            CommandTag::LoadUrl => 3,
            CommandTag::Resize => 4,
            CommandTag::Shutdown => 5,
        }
    }
}

impl ResponseTag {
    /// The byte that stands for a tag.
    pub open spec fn spec_byte(self) -> u8 {
        match self {
            ResponseTag::BrowserCreated => 1,
            ResponseTag::Success => 2,
            ResponseTag::Error => 3,
        }
    }

    /// The byte that stands for a tag.
    pub fn byte(self) -> (byte: u8)
        ensures
            byte == self.spec_byte(),
    {
        match self {
            ResponseTag::BrowserCreated => 1,
            ResponseTag::Success => 2,
            ResponseTag::Error => 3,
        }
    }
}

/// What an error says.
pub open spec fn error_text(error: WireError) -> Seq<char> {
    match error {
        WireError::UnexpectedEof { what: Truncated::Message } => "empty"@,
        WireError::UnexpectedEof { what: Truncated::U32 } => "u32"@,
        WireError::UnexpectedEof { what: Truncated::I32 } => "i32"@,
        WireError::UnexpectedEof { what: Truncated::Str } => "str"@,
        WireError::UnexpectedEof { what: Truncated::Stream } => "failed to fill whole buffer"@,
        WireError::InvalidUtf8 => "invalid utf-8"@,
        WireError::UnknownCommandTag { tag } => "unknown command tag: "@ + text::decimal(tag as nat),
        WireError::UnknownResponseTag { tag } => "unknown response tag: "@ + text::decimal(
            tag as nat,
        ),
        WireError::MessageTooLarge { length } => "message too large: "@ + text::decimal(
            length as nat,
        ) + " bytes"@,
    }
}

impl WireError {
    /// What the error says.
    pub fn message(&self) -> (message: String)
        ensures
            message@ == error_text(*self),
    {
        let mut message: String = String::new();
        match *self {
            WireError::UnexpectedEof { what: Truncated::Message } => {
                message.append("empty");
            },
            WireError::UnexpectedEof { what: Truncated::U32 } => {
                message.append("u32");
            },
            WireError::UnexpectedEof { what: Truncated::I32 } => {
                message.append("i32");
            },
            WireError::UnexpectedEof { what: Truncated::Str } => {
                message.append("str");
            },
            WireError::UnexpectedEof { what: Truncated::Stream } => {
                message.append("failed to fill whole buffer");
            },
            WireError::InvalidUtf8 => {
                message.append("invalid utf-8");
            },
            WireError::UnknownCommandTag { tag } => {
                message.append("unknown command tag: ");
                push_decimal(&mut message, tag as u64);
            },
            WireError::UnknownResponseTag { tag } => {
                message.append("unknown response tag: ");
                push_decimal(&mut message, tag as u64);
            },
            WireError::MessageTooLarge { length } => {
                message.append("message too large: ");
                push_decimal(&mut message, length as u64);
                message.append(" bytes");
            },
        }
        assert(message@ =~= error_text(*self));
        message
    }
}

/// A string: the number of its bytes, and its bytes in UTF-8.
pub open spec fn text_bytes(string: Seq<char>) -> Seq<u8> {
    bytes::u32_bytes((encode_utf8(string).len() % 0x1_0000_0000) as u32) + encode_utf8(string)
}

/// Whether the number of a string's bytes fits into the four bytes in front of it.
pub open spec fn text_fits(string: Seq<char>) -> bool {
    encode_utf8(string).len() <= u32::MAX
}

/// The bytes of a command.
pub open spec fn command_bytes(command: CommandView) -> Seq<u8> {
    match command {
        CommandView::CreateBrowser { width, height, url } => seq![
            CommandTag::CreateBrowser.spec_byte(),
        ] + bytes::i32_bytes(width) + bytes::i32_bytes(height) + text_bytes(url),
        CommandView::DestroyBrowser { browser_id } => seq![CommandTag::DestroyBrowser.spec_byte()]
            + bytes::u32_bytes(browser_id),
        CommandView::LoadUrl { browser_id, url } => seq![CommandTag::LoadUrl.spec_byte()]
            + bytes::u32_bytes(browser_id) + text_bytes(url),
        CommandView::Resize { browser_id, width, height } => seq![CommandTag::Resize.spec_byte()]
            + bytes::u32_bytes(browser_id) + bytes::i32_bytes(width) + bytes::i32_bytes(height),
        CommandView::Shutdown => seq![CommandTag::Shutdown.spec_byte()],
    }
}

/// The bytes of an answer.
pub open spec fn response_bytes(response: ResponseView) -> Seq<u8> {
    match response {
        ResponseView::BrowserCreated { browser_id, shm_name } => seq![
            ResponseTag::BrowserCreated.spec_byte(),
        ] + bytes::u32_bytes(browser_id) + text_bytes(shm_name),
        ResponseView::Success => seq![ResponseTag::Success.spec_byte()],
        ResponseView::Error { msg } => seq![ResponseTag::Error.spec_byte()] + text_bytes(msg),
    }
}

/// The number at `at`, if the message reaches so far.
pub open spec fn u32_in(data: Seq<u8>, at: int) -> Result<u32, WireError> {
    if at + 4 > data.len() {
        Err(WireError::UnexpectedEof { what: Truncated::U32 })
    } else {
        Ok(bytes::u32_at(data, at))
    }
}

/// The signed number at `at`, if the message reaches so far.
pub open spec fn i32_in(data: Seq<u8>, at: int) -> Result<i32, WireError> {
    if at + 4 > data.len() {
        Err(WireError::UnexpectedEof { what: Truncated::I32 })
    } else {
        Ok(bytes::i32_at(data, at))
    }
}

/// The string at `at`, if the message reaches so far and the bytes are valid UTF-8.
pub open spec fn text_in(data: Seq<u8>, at: int) -> Result<Seq<char>, WireError> {
    match u32_in(data, at) {
        Err(error) => Err(error),
        Ok(length) => if at + 4 + length > data.len() {
            Err(WireError::UnexpectedEof { what: Truncated::Str })
        } else if !valid_utf8(data.subrange(at + 4, at + 4 + length)) {
            Err(WireError::InvalidUtf8)
        } else {
            Ok(decode_utf8(data.subrange(at + 4, at + 4 + length)))
        },
    }
}

/// What a message says as a command. Bytes behind the last field do not matter.
pub open spec fn command_in(data: Seq<u8>) -> Result<CommandView, WireError> {
    if data.len() == 0 {
        Err(WireError::UnexpectedEof { what: Truncated::Message })
    } else if data[0] == CommandTag::CreateBrowser.spec_byte() {
        match (i32_in(data, 1), i32_in(data, 5), text_in(data, 9)) {
            (Err(error), _, _) => Err(error),
            (_, Err(error), _) => Err(error),
            (_, _, Err(error)) => Err(error),
            (Ok(width), Ok(height), Ok(url)) => Ok(
                CommandView::CreateBrowser { width, height, url },
            ),
        }
    } else if data[0] == CommandTag::DestroyBrowser.spec_byte() {
        match u32_in(data, 1) {
            Err(error) => Err(error),
            Ok(browser_id) => Ok(CommandView::DestroyBrowser { browser_id }),
        }
    } else if data[0] == CommandTag::LoadUrl.spec_byte() {
        match (u32_in(data, 1), text_in(data, 5)) {
            (Err(error), _) => Err(error),
            (_, Err(error)) => Err(error),
            (Ok(browser_id), Ok(url)) => Ok(CommandView::LoadUrl { browser_id, url }),
        }
    } else if data[0] == CommandTag::Resize.spec_byte() {
        match (u32_in(data, 1), i32_in(data, 5), i32_in(data, 9)) {
            (Err(error), _, _) => Err(error),
            (_, Err(error), _) => Err(error),
            (_, _, Err(error)) => Err(error),
            (Ok(browser_id), Ok(width), Ok(height)) => Ok(
                CommandView::Resize { browser_id, width, height },
            ),
        }
    } else if data[0] == CommandTag::Shutdown.spec_byte() {
        Ok(CommandView::Shutdown)
    } else {
        Err(WireError::UnknownCommandTag { tag: data[0] })
    }
}

/// What a message says as an answer. Bytes behind the last field do not matter.
pub open spec fn response_in(data: Seq<u8>) -> Result<ResponseView, WireError> {
    if data.len() == 0 {
        Err(WireError::UnexpectedEof { what: Truncated::Message })
    } else if data[0] == ResponseTag::BrowserCreated.spec_byte() {
        match (u32_in(data, 1), text_in(data, 5)) {
            (Err(error), _) => Err(error),
            (_, Err(error)) => Err(error),
            (Ok(browser_id), Ok(shm_name)) => Ok(
                ResponseView::BrowserCreated { browser_id, shm_name },
            ),
        }
    } else if data[0] == ResponseTag::Success.spec_byte() {
        Ok(ResponseView::Success)
    } else if data[0] == ResponseTag::Error.spec_byte() {
        match text_in(data, 1) {
            Err(error) => Err(error),
            Ok(msg) => Ok(ResponseView::Error { msg }),
        }
    } else {
        Err(WireError::UnknownResponseTag { tag: data[0] })
    }
}

/// Appends a number.
pub fn write_u32(buf: &mut Vec<u8>, v: u32)
    ensures
        final(buf)@ == old(buf)@ + bytes::u32_bytes(v),
{
    push_u32(buf, v);
}

/// Appends a signed number.
pub fn write_i32(buf: &mut Vec<u8>, v: i32)
    ensures
        final(buf)@ == old(buf)@ + bytes::i32_bytes(v),
{
    push_u32(buf, as_unsigned(v));
}

/// Appends a string.
pub fn write_str(buf: &mut Vec<u8>, s: &str)
    ensures
        final(buf)@ == old(buf)@ + text_bytes(s@),
{
    let encoded: &[u8] = s.as_bytes();
    write_u32(buf, (encoded.len() as u64 % 0x1_0000_0000) as u32);
    buf.extend_from_slice(encoded);
    assert(buf@ =~= old(buf)@ + text_bytes(s@));
}

/// Reads a number and steps over it.
pub fn read_u32(data: &[u8], off: &mut usize) -> (v: Result<u32, WireError>)
    ensures
        v == u32_in(data@, *old(off) as int),
        *final(off) == if v is Ok {
            *old(off) + 4
        } else {
            *old(off) as int
        },
{
    if data.len() < 4 || *off > data.len() - 4 {
        return Err(WireError::UnexpectedEof { what: Truncated::U32 });
    }
    let v: u32 = get_u32(data, *off);
    *off = *off + 4;
    Ok(v)
}

/// Reads a signed number and steps over it.
pub fn read_i32(data: &[u8], off: &mut usize) -> (v: Result<i32, WireError>)
    ensures
        v == i32_in(data@, *old(off) as int),
        *final(off) == if v is Ok {
            *old(off) + 4
        } else {
            *old(off) as int
        },
{
    if data.len() < 4 || *off > data.len() - 4 {
        return Err(WireError::UnexpectedEof { what: Truncated::I32 });
    }
    let v: i32 = as_signed(get_u32(data, *off));
    *off = *off + 4;
    Ok(v)
}

/// Reads a string and steps over it. Where its length can be read and no more, that is stepped
/// over.
pub fn read_str(data: &[u8], off: &mut usize) -> (s: Result<String, WireError>)
    ensures
        match (s, text_in(data@, *old(off) as int)) {
            (Ok(s), Ok(expected)) => s@ == expected && *final(off) == *old(off) + 4
                + bytes::u32_at(data@, *old(off) as int),
            (Err(error), Err(expected)) => error == expected && *final(off) == if u32_in(
                data@,
                *old(off) as int,
            ) is Ok {
                *old(off) + 4
            } else {
                *old(off) as int
            },
            _ => false,
        },
{
    let length: u32 = match read_u32(data, off) {
        Ok(length) => length,
        Err(error) => {
            return Err(error);
        },
    };
    if (length as u64) > (data.len() - *off) as u64 {
        return Err(WireError::UnexpectedEof { what: Truncated::Str });
    }
    let end: usize = *off + length as usize;
    match from_utf8(&data[*off..end]) {
        None => Err(WireError::InvalidUtf8),
        Some(s) => {
            *off = end;
            Ok(s.to_owned())
        },
    }
}

impl Command {
    /// The bytes of the command.
    pub fn serialize(&self) -> (buf: Vec<u8>)
        ensures
            buf@ == command_bytes(self@),
    {
        let mut buf: Vec<u8> = Vec::with_capacity(64);
        match self {
            Command::CreateBrowser { width, height, url } => {
                buf.push(CommandTag::CreateBrowser.byte());
                write_i32(&mut buf, *width);
                write_i32(&mut buf, *height);
                write_str(&mut buf, url.as_str());
            },
            Command::DestroyBrowser { browser_id } => {
                buf.push(CommandTag::DestroyBrowser.byte());
                write_u32(&mut buf, *browser_id);
            },
            Command::LoadUrl { browser_id, url } => {
                buf.push(CommandTag::LoadUrl.byte());
                write_u32(&mut buf, *browser_id);
                write_str(&mut buf, url.as_str());
            },
            Command::Resize { browser_id, width, height } => {
                buf.push(CommandTag::Resize.byte());
                write_u32(&mut buf, *browser_id);
                write_i32(&mut buf, *width);
                write_i32(&mut buf, *height);
            },
            Command::Shutdown => {
                buf.push(CommandTag::Shutdown.byte());
            },
        }
        assert(buf@ =~= command_bytes(self@));
        buf
    }

    /// The command that the bytes say.
    pub fn deserialize(data: &[u8]) -> (command: Result<Command, WireError>)
        ensures
            match command {
                Ok(command) => command_in(data@) == Ok::<CommandView, WireError>(command@),
                Err(error) => command_in(data@) == Err::<CommandView, WireError>(error),
            },
    {
        if data.len() == 0 {
            return Err(WireError::UnexpectedEof { what: Truncated::Message });
        }
        let tag: u8 = data[0];
        let mut off: usize = 1;
        if tag == CommandTag::CreateBrowser.byte() {
            let width: i32 = match read_i32(data, &mut off) {
                Ok(width) => width,
                Err(error) => {
                    return Err(error);
                },
            };
            let height: i32 = match read_i32(data, &mut off) {
                Ok(height) => height,
                Err(error) => {
                    return Err(error);
                },
            };
            match read_str(data, &mut off) {
                Ok(url) => Ok(Command::CreateBrowser { width, height, url }),
                Err(error) => Err(error),
            }
        } else if tag == CommandTag::DestroyBrowser.byte() {
            match read_u32(data, &mut off) {
                Ok(browser_id) => Ok(Command::DestroyBrowser { browser_id }),
                Err(error) => Err(error),
            }
        } else if tag == CommandTag::LoadUrl.byte() {
            let browser_id: u32 = match read_u32(data, &mut off) {
                Ok(browser_id) => browser_id,
                Err(error) => {
                    return Err(error);
                },
            };
            match read_str(data, &mut off) {
                Ok(url) => Ok(Command::LoadUrl { browser_id, url }),
                Err(error) => Err(error),
            }
        } else if tag == CommandTag::Resize.byte() {
            let browser_id: u32 = match read_u32(data, &mut off) {
                Ok(browser_id) => browser_id,
                Err(error) => {
                    return Err(error);
                },
            };
            let width: i32 = match read_i32(data, &mut off) {
                Ok(width) => width,
                Err(error) => {
                    return Err(error);
                },
            };
            match read_i32(data, &mut off) {
                Ok(height) => Ok(Command::Resize { browser_id, width, height }),
                Err(error) => Err(error),
            }
        } else if tag == CommandTag::Shutdown.byte() {
            Ok(Command::Shutdown)
        } else {
            Err(WireError::UnknownCommandTag { tag })
        }
    }
}

impl Response {
    /// The bytes of the answer.
    pub fn serialize(&self) -> (buf: Vec<u8>)
        ensures
            buf@ == response_bytes(self@),
    {
        let mut buf: Vec<u8> = Vec::with_capacity(64);
        match self {
            Response::BrowserCreated { browser_id, shm_name } => {
                buf.push(ResponseTag::BrowserCreated.byte());
                write_u32(&mut buf, *browser_id);
                write_str(&mut buf, shm_name.as_str());
            },
            Response::Success => {
                buf.push(ResponseTag::Success.byte());
            },
            Response::Error { msg } => {
                buf.push(ResponseTag::Error.byte());
                write_str(&mut buf, msg.as_str());
            },
        }
        assert(buf@ =~= response_bytes(self@));
        buf
    }

    /// The answer that the bytes say.
    pub fn deserialize(data: &[u8]) -> (response: Result<Response, WireError>)
        ensures
            match response {
                Ok(response) => response_in(data@) == Ok::<ResponseView, WireError>(response@),
                Err(error) => response_in(data@) == Err::<ResponseView, WireError>(error),
            },
    {
        if data.len() == 0 {
            return Err(WireError::UnexpectedEof { what: Truncated::Message });
        }
        let tag: u8 = data[0];
        let mut off: usize = 1;
        if tag == ResponseTag::BrowserCreated.byte() {
            let browser_id: u32 = match read_u32(data, &mut off) {
                Ok(browser_id) => browser_id,
                Err(error) => {
                    return Err(error);
                },
            };
            match read_str(data, &mut off) {
                Ok(shm_name) => Ok(Response::BrowserCreated { browser_id, shm_name }),
                Err(error) => Err(error),
            }
        } else if tag == ResponseTag::Success.byte() {
            Ok(Response::Success)
        } else if tag == ResponseTag::Error.byte() {
            match read_str(data, &mut off) {
                Ok(msg) => Ok(Response::Error { msg }),
                Err(error) => Err(error),
            }
        } else {
            Err(WireError::UnknownResponseTag { tag })
        }
    }
}

/// A message as it goes over the stream: the number of its bytes, and its bytes.
pub open spec fn framed(payload: Seq<u8>) -> Seq<u8> {
    bytes::u32_bytes((payload.len() % 0x1_0000_0000) as u32) + payload
}

/// The message at `at` in what has come over the stream.
pub open spec fn message_in(stream: Seq<u8>, at: int) -> Result<Seq<u8>, WireError> {
    if at + 4 > stream.len() {
        Err(WireError::UnexpectedEof { what: Truncated::Stream })
    } else {
        let length = bytes::u32_at(stream, at);
        if length > MAX_MESSAGE_BYTES {
            Err(WireError::MessageTooLarge { length })
        } else if at + 4 + length > stream.len() {
            Err(WireError::UnexpectedEof { what: Truncated::Stream })
        } else {
            Ok(stream.subrange(at + 4, at + 4 + length))
        }
    }
}

/// The bytes to send for a message.
pub fn send_message(payload: &[u8]) -> (sent: Vec<u8>)
    ensures
        sent@ == framed(payload@),
{
    let mut sent: Vec<u8> = Vec::new();
    push_u32(&mut sent, (payload.len() as u64 % 0x1_0000_0000) as u32);
    sent.extend_from_slice(payload);
    assert(sent@ =~= framed(payload@));
    sent
}

/// How many bytes of a message are to be read whose length was announced.
pub open spec fn accepted_length(length: u32) -> Result<usize, WireError> {
    if length > MAX_MESSAGE_BYTES {
        Err(WireError::MessageTooLarge { length })
    } else {
        Ok(length as usize)
    }
}

/// Whether a message whose length was announced is received, and how many bytes are to be read.
pub fn message_length(length: u32) -> (accepted: Result<usize, WireError>)
    ensures
        accepted == accepted_length(length),
{
    if length > MAX_MESSAGE_BYTES as u32 {
        Err(WireError::MessageTooLarge { length })
    } else {
        Ok(length as usize)
    }
}

/// Takes the next message out of what has come over the stream, and steps over it. As long as the
/// message is not complete nothing is stepped over; one that is too large is stepped into.
pub fn recv_message(stream: &[u8], off: &mut usize) -> (message: Result<Vec<u8>, WireError>)
    ensures
        match (message, message_in(stream@, *old(off) as int)) {
            (Ok(message), Ok(expected)) => message@ == expected && *final(off) == *old(off) + 4
                + message@.len(),
            (Err(error), Err(expected)) => error == expected && *final(off) == if error
                is MessageTooLarge {
                *old(off) + 4
            } else {
                *old(off) as int
            },
            _ => false,
        },
{
    if stream.len() < 4 || *off > stream.len() - 4 {
        return Err(WireError::UnexpectedEof { what: Truncated::Stream });
    }
    let start: usize = *off + 4;
    let length: usize = match message_length(get_u32(stream, *off)) {
        Ok(length) => length,
        Err(error) => {
            *off = start;
            return Err(error);
        },
    };
    if length > stream.len() - start {
        return Err(WireError::UnexpectedEof { what: Truncated::Stream });
    }
    let mut message: Vec<u8> = Vec::new();
    copy_out(stream, start, length, &mut message);
    *off = start + length;
    Ok(message)
}

/// What the header in front of the buffers holds.
#[derive(Clone, Copy, Debug, PartialEq, Eq, Structural)]
pub struct ShmHeader {
    pub frame_id: u64,
    pub width: u32,
    pub height: u32,
    /// The index of the readable buffer.
    pub active_buffer: u32,
}

/// The header of a memory.
pub open spec fn header_of(memory: Seq<u8>) -> ShmHeader {
    ShmHeader {
        frame_id: frames::frame_id(memory),
        width: frames::frame_width(memory),
        height: frames::frame_height(memory),
        active_buffer: frames::active_buffer(memory),
    }
}

/// Whether a memory is as large as it has to be.
pub open spec fn mapped(memory: Seq<u8>) -> bool {
    memory.len() >= SHM_TOTAL_SIZE
}

/// The frame that a reader gets that has seen all frames up to `last_frame_id`: its size, and its
/// pixels. Nothing if there is no newer frame, if it is empty, or if it is larger than a buffer.
pub open spec fn frame_for(memory: Seq<u8>, last_frame_id: u64) -> Option<(u32, u32, Seq<u8>)> {
    let header = header_of(memory);
    let size = frames::frame_size(header.width, header.height);
    if header.frame_id == last_frame_id || header.active_buffer > 1 || size == 0 || size
        > BUFFER_SIZE {
        None
    } else {
        Some(
            (
                header.width,
                header.height,
                frames::pixels_in(
                    memory,
                    SHM_HEADER_SIZE,
                    header.active_buffer,
                    header.width,
                    header.height,
                ),
            ),
        )
    }
}

impl ShmHeader {
    /// Reads the header of a memory.
    pub fn load(memory: &[u8]) -> (header: ShmHeader)
        requires
            mapped(memory@),
        ensures
            header == header_of(memory@),
    {
        ShmHeader {
            frame_id: get_u64(memory, 0),
            width: get_u32(memory, 8),
            height: get_u32(memory, 12),
            active_buffer: get_u32(memory, 16),
        }
    }
}

/// The server's end of a memory.
pub struct ShmWriter {
    pub name: String,
}

impl ShmWriter {
    /// Takes a memory into use: its header is blank then.
    pub fn new(name: &str, memory: &mut [u8]) -> (writer: ShmWriter)
        requires
            mapped(old(memory)@),
        ensures
            writer.name@ == name@,
            header_of(final(memory)@) == (ShmHeader {
                frame_id: 0,
                width: 0,
                height: 0,
                active_buffer: 0,
            }),
            bytes::same_outside(old(memory)@, final(memory)@, 0, SHM_HEADER_SIZE as int),
    {
        let mut index: usize = 0;
        while index < SHM_HEADER_SIZE
            invariant
                index <= SHM_HEADER_SIZE,
                mapped(memory@),
                bytes::same_outside(old(memory)@, memory@, 0, SHM_HEADER_SIZE as int),
                forall|i: int| 0 <= i < index ==> #[trigger] memory@[i] == 0,
            decreases SHM_HEADER_SIZE - index,
        {
            memory[index] = 0;
            index += 1;
        }
        ShmWriter { name: name.to_owned() }
    }

    /// Writes a frame of four bytes per pixel. The frame has to fit into a buffer.
    pub fn write_frame(&self, memory: &mut [u8], pixels: &[u8], width: u32, height: u32)
        requires
            mapped(old(memory)@),
            frames::frame_size(width, height) <= BUFFER_SIZE,
            pixels@.len() == frames::frame_size(width, height),
        ensures
            frames::frame_written(
                old(memory)@,
                final(memory)@,
                SHM_HEADER_SIZE,
                pixels@,
                width,
                height,
            ),
    {
        put_frame(memory, SHM_HEADER_SIZE, pixels, width, height);
    }
}

/// The client's end of a memory, and what it has seen of it.
pub struct ShmReader {
    pub name: String,
    pub last_frame_id: u64,
}

impl ShmReader {
    /// A reader that has seen nothing yet.
    pub fn open(name: &str) -> (reader: ShmReader)
        ensures
            reader.name@ == name@,
            reader.last_frame_id == 0,
    {
        ShmReader { name: name.to_owned(), last_frame_id: 0 }
    }

    /// Copies the newest frame into `dst`, if it is newer than the last one, and says how large it
    /// is.
    pub fn read_frame(&mut self, memory: &[u8], dst: &mut Vec<u8>) -> (size: Option<(u32, u32)>)
        requires
            mapped(memory@),
        ensures
            final(self).name == old(self).name,
            final(self).last_frame_id == header_of(memory@).frame_id,
            match frame_for(memory@, old(self).last_frame_id) {
                None => size is None && final(dst)@ == old(dst)@,
                Some((width, height, pixels)) => size == Some((width, height)) && final(dst)@
                    == pixels,
            },
    {
        let header: ShmHeader = ShmHeader::load(memory);
        if header.frame_id == self.last_frame_id {
            return None;
        }
        self.last_frame_id = header.frame_id;
        let size: u128 = frame_bytes(header.width, header.height);
        if header.active_buffer > 1 || size == 0 || size > BUFFER_SIZE as u128 {
            return None;
        }
        let start: usize = SHM_HEADER_SIZE + header.active_buffer as usize * BUFFER_SIZE;
        copy_out(memory, start, size as usize, dst);
        Some((header.width, header.height))
    }
}

/// A string that was written is read back, whatever stands around it.
proof fn lemma_text_in(data: Seq<u8>, at: int, string: Seq<char>)
    requires
        text_fits(string),
        0 <= at,
        at + text_bytes(string).len() <= data.len(),
        data.subrange(at, at + text_bytes(string).len()) == text_bytes(string),
    ensures
        text_in(data, at) == Ok::<Seq<char>, WireError>(string),
{
    let encoded = encode_utf8(string);
    let written = data.subrange(at, at + text_bytes(string).len());
    let length = encoded.len() as u32;
    assert(data.subrange(at, at + 4) =~= written.subrange(0, 4));
    assert(written.subrange(0, 4) =~= bytes::u32_bytes(length));
    bytes::lemma_u32_round_trip(length, data, at);
    assert(data.subrange(at + 4, at + 4 + length) =~= written.subrange(4, 4 + length));
    assert(written.subrange(4, 4 + length) =~= encoded);
    encode_utf8_valid_utf8(string);
    encode_utf8_decode_utf8(string);
}

/// What the client sends as a command the server understands as that command, whatever follows in
/// the message. (A string is sent as it is as long as four bytes can hold its length.)
pub proof fn law_command_round_trip(command: CommandView, rest: Seq<u8>)
    requires
        command matches CommandView::CreateBrowser { url, .. } ==> text_fits(url),
        command matches CommandView::LoadUrl { url, .. } ==> text_fits(url),
    ensures
        command_in(command_bytes(command) + rest) == Ok::<CommandView, WireError>(command),
{
    let written = command_bytes(command);
    let data = written + rest;
    match command {
        CommandView::CreateBrowser { width, height, url } => {
            assert(data.subrange(1, 5) =~= bytes::i32_bytes(width));
            assert(data.subrange(5, 9) =~= bytes::i32_bytes(height));
            assert(data.subrange(9, 9 + text_bytes(url).len() as int) =~= text_bytes(url));
            bytes::lemma_i32_round_trip(width, data, 1);
            bytes::lemma_i32_round_trip(height, data, 5);
            lemma_text_in(data, 9, url);
        },
        CommandView::DestroyBrowser { browser_id } => {
            assert(data.subrange(1, 5) =~= bytes::u32_bytes(browser_id));
            bytes::lemma_u32_round_trip(browser_id, data, 1);
        },
        CommandView::LoadUrl { browser_id, url } => {
            assert(data.subrange(1, 5) =~= bytes::u32_bytes(browser_id));
            assert(data.subrange(5, 5 + text_bytes(url).len() as int) =~= text_bytes(url));
            bytes::lemma_u32_round_trip(browser_id, data, 1);
            lemma_text_in(data, 5, url);
        },
        CommandView::Resize { browser_id, width, height } => {
            assert(data.subrange(1, 5) =~= bytes::u32_bytes(browser_id));
            assert(data.subrange(5, 9) =~= bytes::i32_bytes(width));
            assert(data.subrange(9, 13) =~= bytes::i32_bytes(height));
            bytes::lemma_u32_round_trip(browser_id, data, 1);
            bytes::lemma_i32_round_trip(width, data, 5);
            bytes::lemma_i32_round_trip(height, data, 9);
        },
        CommandView::Shutdown => {},
    }
}

/// What the server answers the client understands as that answer, whatever follows in the message.
pub proof fn law_response_round_trip(response: ResponseView, rest: Seq<u8>)
    requires
        response matches ResponseView::BrowserCreated { shm_name, .. } ==> text_fits(shm_name),
        response matches ResponseView::Error { msg } ==> text_fits(msg),
    ensures
        response_in(response_bytes(response) + rest) == Ok::<ResponseView, WireError>(response),
{
    let data = response_bytes(response) + rest;
    match response {
        ResponseView::BrowserCreated { browser_id, shm_name } => {
            assert(data.subrange(1, 5) =~= bytes::u32_bytes(browser_id));
            assert(data.subrange(5, 5 + text_bytes(shm_name).len() as int) =~= text_bytes(shm_name));
            bytes::lemma_u32_round_trip(browser_id, data, 1);
            lemma_text_in(data, 5, shm_name);
        },
        ResponseView::Success => {},
        ResponseView::Error { msg } => {
            assert(data.subrange(1, 1 + text_bytes(msg).len() as int) =~= text_bytes(msg));
            lemma_text_in(data, 1, msg);
        },
    }
}

/// A message that is short enough to be received comes out of the stream as it was sent, and what
/// was sent behind it comes next.
pub proof fn law_message_round_trip(payload: Seq<u8>, rest: Seq<u8>)
    requires
        payload.len() <= MAX_MESSAGE_BYTES,
    ensures
        message_in(framed(payload) + rest, 0) == Ok::<Seq<u8>, WireError>(payload),
        (framed(payload) + rest).skip(4 + payload.len() as int) == rest,
{
    let stream = framed(payload) + rest;
    let length = payload.len() as u32;
    assert(stream.subrange(0, 4) =~= bytes::u32_bytes(length));
    bytes::lemma_u32_round_trip(length, stream, 0);
    assert(stream.subrange(4, 4 + length) =~= payload);
    assert(stream.skip(4 + payload.len() as int) =~= rest);
}

/// A message that is too long to be received is refused by its length alone.
pub proof fn law_long_message_is_refused(payload: Seq<u8>, rest: Seq<u8>)
    requires
        MAX_MESSAGE_BYTES < payload.len() <= u32::MAX,
    ensures
        message_in(framed(payload) + rest, 0) == Err::<Seq<u8>, WireError>(
            WireError::MessageTooLarge { length: payload.len() as u32 },
        ),
{
    let stream = framed(payload) + rest;
    assert(stream.subrange(0, 4) =~= bytes::u32_bytes(payload.len() as u32));
    bytes::lemma_u32_round_trip(payload.len() as u32, stream, 0);
}

/// What the server writes the client reads: a reader that has seen every earlier frame gets
/// exactly the pixels that were written, and then nothing until the next frame.
pub proof fn law_read_gives_back_what_was_written(
    before: Seq<u8>,
    after: Seq<u8>,
    pixels: Seq<u8>,
    width: u32,
    height: u32,
)
    requires
        mapped(before),
        0 < frames::frame_size(width, height) <= BUFFER_SIZE,
        pixels.len() == frames::frame_size(width, height),
        frames::frame_written(before, after, SHM_HEADER_SIZE, pixels, width, height),
    ensures
        frame_for(after, header_of(before).frame_id) == Some((width, height, pixels)),
        frame_for(after, header_of(after).frame_id) is None,
{
}

/// The first byte tells which command, and which answer, the others belong to.
pub proof fn law_first_byte_tells_the_kind(command: CommandView, response: ResponseView)
    ensures
        command_bytes(command).len() >= 1,
        command_bytes(command)[0] == 1 <==> command is CreateBrowser,
        command_bytes(command)[0] == 2 <==> command is DestroyBrowser,
        command_bytes(command)[0] == 3 <==> command is LoadUrl,
        command_bytes(command)[0] == 4 <==> command is Resize,
        command_bytes(command)[0] == 5 <==> command is Shutdown,
        response_bytes(response).len() >= 1,
        response_bytes(response)[0] == 1 <==> response is BrowserCreated,
        response_bytes(response)[0] == 2 <==> response is Success,
        response_bytes(response)[0] == 3 <==> response is Error,
{
}

/// A string is the number of its bytes, in four bytes, and then its bytes in UTF-8.
pub proof fn law_strings_have_their_length_in_front(string: Seq<char>)
    requires
        text_fits(string),
    ensures
        text_bytes(string).len() == 4 + encode_utf8(string).len(),
        text_bytes(string).take(4) == bytes::u32_bytes(encode_utf8(string).len() as u32),
        text_bytes(string).skip(4) == encode_utf8(string),
{
    assert(text_bytes(string).take(4) =~= bytes::u32_bytes(encode_utf8(string).len() as u32));
    assert(text_bytes(string).skip(4) =~= encode_utf8(string));
}

/// Behind the first byte of a command stand its fields: the browser, where it addresses one, then the width
/// and the height, and the address last.
pub proof fn law_fields_of_a_command_stand_in_order(
    browser_id: u32,
    width: i32,
    height: i32,
    url: Seq<char>,
)
    ensures
        ({
            let create = command_bytes(CommandView::CreateBrowser { width, height, url });
            let load = command_bytes(CommandView::LoadUrl { browser_id, url });
            let resize = command_bytes(CommandView::Resize { browser_id, width, height });
            let destroy = command_bytes(CommandView::DestroyBrowser { browser_id });
            &&& create.subrange(1, 5) == bytes::i32_bytes(width)
            &&& create.subrange(5, 9) == bytes::i32_bytes(height)
            &&& create.skip(9) == text_bytes(url)
            &&& load.subrange(1, 5) == bytes::u32_bytes(browser_id)
            &&& load.skip(5) == text_bytes(url)
            &&& resize.subrange(1, 5) == bytes::u32_bytes(browser_id)
            &&& resize.subrange(5, 9) == bytes::i32_bytes(width)
            &&& resize.skip(9) == bytes::i32_bytes(height)
            &&& destroy.skip(1) == bytes::u32_bytes(browser_id)
            &&& command_bytes(CommandView::Shutdown).len() == 1
        }),
{
    let create = command_bytes(CommandView::CreateBrowser { width, height, url });
    let load = command_bytes(CommandView::LoadUrl { browser_id, url });
    let resize = command_bytes(CommandView::Resize { browser_id, width, height });
    let destroy = command_bytes(CommandView::DestroyBrowser { browser_id });
    assert(create.subrange(1, 5) =~= bytes::i32_bytes(width));
    assert(create.subrange(5, 9) =~= bytes::i32_bytes(height));
    assert(create.skip(9) =~= text_bytes(url));
    assert(load.subrange(1, 5) =~= bytes::u32_bytes(browser_id));
    assert(load.skip(5) =~= text_bytes(url));
    assert(resize.subrange(1, 5) =~= bytes::u32_bytes(browser_id));
    assert(resize.subrange(5, 9) =~= bytes::i32_bytes(width));
    assert(resize.skip(9) =~= bytes::i32_bytes(height));
    assert(destroy.skip(1) =~= bytes::u32_bytes(browser_id));
}

/// Behind the first byte of an answer stand its fields: the browser and the name of its memory, or the
/// message.
pub proof fn law_fields_of_an_answer_stand_in_order(browser_id: u32, words: Seq<char>)
    ensures
        ({
            let created = response_bytes(
                ResponseView::BrowserCreated { browser_id, shm_name: words },
            );
            let error = response_bytes(ResponseView::Error { msg: words });
            &&& created.subrange(1, 5) == bytes::u32_bytes(browser_id)
            &&& created.skip(5) == text_bytes(words)
            &&& error.skip(1) == text_bytes(words)
            &&& response_bytes(ResponseView::Success).len() == 1
        }),
{
    let created = response_bytes(ResponseView::BrowserCreated { browser_id, shm_name: words });
    let error = response_bytes(ResponseView::Error { msg: words });
    assert(created.subrange(1, 5) =~= bytes::u32_bytes(browser_id));
    assert(created.skip(5) =~= text_bytes(words));
    assert(error.skip(1) =~= text_bytes(words));
}

/// A string that was cut anywhere is noticed.
proof fn lemma_cut_text(data: Seq<u8>, at: int, string: Seq<char>)
    requires
        text_fits(string),
        0 <= at <= data.len(),
        data.len() < at + text_bytes(string).len(),
        data.skip(at) == text_bytes(string).take(data.len() - at),
    ensures
        text_in(data, at) matches Err(WireError::UnexpectedEof { .. }),
{
    if at + 4 <= data.len() {
        let length = encode_utf8(string).len() as u32;
        assert(data.subrange(at, at + 4) =~= data.skip(at).take(4));
        assert(data.skip(at).take(4) =~= text_bytes(string).take(4));
        assert(text_bytes(string).take(4) =~= bytes::u32_bytes(length));
        bytes::lemma_u32_round_trip(length, data, at);
    }
}

/// A command that was cut anywhere is not taken for another one: it is noticed that something is missing.
pub proof fn law_cut_command_is_noticed(command: CommandView, length: int)
    requires
        command matches CommandView::CreateBrowser { url, .. } ==> text_fits(url),
        command matches CommandView::LoadUrl { url, .. } ==> text_fits(url),
        0 <= length < command_bytes(command).len(),
    ensures
        command_in(command_bytes(command).take(length)) matches Err(WireError::UnexpectedEof { .. }),
{
    let data = command_bytes(command).take(length);
    if length > 0 {
        assert(data[0] == command_bytes(command)[0]);
        match command {
            CommandView::CreateBrowser { url, .. } => {
                if length >= 9 {
                    assert(data.skip(9) =~= text_bytes(url).take(length - 9));
                    lemma_cut_text(data, 9, url);
                }
            },
            CommandView::LoadUrl { url, .. } => {
                if length >= 5 {
                    assert(data.skip(5) =~= text_bytes(url).take(length - 5));
                    lemma_cut_text(data, 5, url);
                }
            },
            _ => {},
        }
    }
}

/// An answer that was cut anywhere is not taken for another one: it is noticed that something is missing.
pub proof fn law_cut_answer_is_noticed(response: ResponseView, length: int)
    requires
        response matches ResponseView::BrowserCreated { shm_name, .. } ==> text_fits(shm_name),
        response matches ResponseView::Error { msg } ==> text_fits(msg),
        0 <= length < response_bytes(response).len(),
    ensures
        response_in(response_bytes(response).take(length)) matches Err(
            WireError::UnexpectedEof { .. },
        ),
{
    let data = response_bytes(response).take(length);
    if length > 0 {
        assert(data[0] == response_bytes(response)[0]);
        match response {
            ResponseView::BrowserCreated { shm_name, .. } => {
                if length >= 5 {
                    assert(data.skip(5) =~= text_bytes(shm_name).take(length - 5));
                    lemma_cut_text(data, 5, shm_name);
                }
            },
            ResponseView::Error { msg } => {
                assert(data.skip(1) =~= text_bytes(msg).take(length - 1));
                lemma_cut_text(data, 1, msg);
            },
            _ => {},
        }
    }
}

/// A message with a first byte that stands for nothing is refused by that byte, whatever follows, and an
/// empty one for its emptiness.
pub proof fn law_unknown_first_byte_is_refused(data: Seq<u8>)
    ensures
        data.len() > 0 && (data[0] < 1 || data[0] > 5) ==> command_in(data) == Err::<
            CommandView,
            WireError,
        >(WireError::UnknownCommandTag { tag: data[0] }),
        data.len() > 0 && (data[0] < 1 || data[0] > 3) ==> response_in(data) == Err::<
            ResponseView,
            WireError,
        >(WireError::UnknownResponseTag { tag: data[0] }),
        command_in(Seq::empty()) == Err::<CommandView, WireError>(
            WireError::UnexpectedEof { what: Truncated::Message },
        ),
        response_in(Seq::empty()) == Err::<ResponseView, WireError>(
            WireError::UnexpectedEof { what: Truncated::Message },
        ),
{
}

/// A string whose bytes are all there is read if they are valid, and refused for that reason if they are not.
pub proof fn law_invalid_string_is_refused(encoded: Seq<u8>, before: Seq<u8>, after: Seq<u8>)
    requires
        encoded.len() <= u32::MAX,
    ensures
        ({
            let data = before + bytes::u32_bytes(encoded.len() as u32) + encoded + after;
            &&& valid_utf8(encoded) ==> text_in(data, before.len() as int) == Ok::<
                Seq<char>,
                WireError,
            >(decode_utf8(encoded))
            &&& !valid_utf8(encoded) ==> text_in(data, before.len() as int) == Err::<
                Seq<char>,
                WireError,
            >(WireError::InvalidUtf8)
        }),
{
    let length = encoded.len() as u32;
    let at = before.len() as int;
    let data = before + bytes::u32_bytes(length) + encoded + after;
    assert(data.subrange(at, at + 4) =~= bytes::u32_bytes(length));
    bytes::lemma_u32_round_trip(length, data, at);
    assert(data.subrange(at + 4, at + 4 + length) =~= encoded);
}

/// Messages of up to sixteen times 1024 times 1024 bytes are received, and longer ones refused.
pub proof fn law_longest_message_has_sixteen_million_bytes(length: u32)
    ensures
        length <= 16 * 1024 * 1024 ==> (accepted_length(length) matches Ok(size) && size == length),
        length > 16 * 1024 * 1024 ==> accepted_length(length) == Err::<usize, WireError>(
            WireError::MessageTooLarge { length },
        ),
        MAX_MESSAGE_BYTES == 16 * 1024 * 1024,
{
}

/// A message that has not come over the stream as a whole is not handed out in part.
pub proof fn law_incomplete_message_is_not_handed_out(payload: Seq<u8>, length: int)
    requires
        payload.len() <= MAX_MESSAGE_BYTES,
        0 <= length < framed(payload).len(),
    ensures
        message_in(framed(payload).take(length), 0) == Err::<Seq<u8>, WireError>(
            WireError::UnexpectedEof { what: Truncated::Stream },
        ),
{
    let stream = framed(payload).take(length);
    if length >= 4 {
        let announced = payload.len() as u32;
        assert(stream.subrange(0, 4) =~= bytes::u32_bytes(announced));
        bytes::lemma_u32_round_trip(announced, stream, 0);
    }
}

/// A new frame is read at its size and from the buffer that the header names, 64 bytes behind the beginning
/// of the memory, unless the header describes none: one of no pixels or of more than a buffer holds, or in a
/// buffer that there is not.
pub proof fn law_frame_is_read_from_the_named_buffer(memory: Seq<u8>, last_frame_id: u64)
    requires
        header_of(memory).frame_id != last_frame_id,
    ensures
        ({
            let header = header_of(memory);
            let size = header.width * header.height * 4;
            let start = 64 + header.active_buffer * 33_177_600;
            &&& header.active_buffer <= 1 && 0 < size <= 33_177_600 ==> (frame_for(
                memory,
                last_frame_id,
            ) matches Some((width, height, pixels)) && width == header.width && height
                == header.height && pixels == memory.subrange(start, start + size))
            &&& header.active_buffer > 1 || size == 0 || size > 33_177_600 ==> frame_for(
                memory,
                last_frame_id,
            ) is None
        }),
{
}

/// What an error says of a first byte, or of a length, ends with that number.
pub proof fn law_errors_name_their_numbers(tag: u8, length: u32)
    ensures
        ({
            let command = error_text(WireError::UnknownCommandTag { tag });
            let response = error_text(WireError::UnknownResponseTag { tag });
            let large = error_text(WireError::MessageTooLarge { length });
            &&& command.take(21) == "unknown command tag: "@
            &&& text::number(command.skip(21)) == tag
            &&& response.take(22) == "unknown response tag: "@
            &&& text::number(response.skip(22)) == tag
            &&& large.take(19) == "message too large: "@
            &&& text::number(large.subrange(19, large.len() - 6)) == length
        }),
{
    reveal_strlit("unknown command tag: ");
    reveal_strlit("unknown response tag: ");
    reveal_strlit("message too large: ");
    reveal_strlit(" bytes");
    text::lemma_decimal_is_number(tag as nat);
    text::lemma_decimal_is_number(length as nat);
    let command = error_text(WireError::UnknownCommandTag { tag });
    let response = error_text(WireError::UnknownResponseTag { tag });
    let large = error_text(WireError::MessageTooLarge { length });
    assert(command.take(21) =~= "unknown command tag: "@);
    assert(command.skip(21) =~= text::decimal(tag as nat));
    assert(response.take(22) =~= "unknown response tag: "@);
    assert(response.skip(22) =~= text::decimal(tag as nat));
    assert(large.take(19) =~= "message too large: "@);
    assert(large.subrange(19, large.len() - 6) =~= text::decimal(length as nat));
}

} // verus!
