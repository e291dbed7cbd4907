use cef_unity::ipc::{
    message_length, read_i32, read_str, read_u32, recv_message, send_message, write_i32, write_str,
    write_u32, Command, CommandTag, Response, ResponseTag, ShmReader, ShmWriter, Truncated,
    WireError, SHM_TOTAL_SIZE,
};

#[test]
fn numbers_are_little_endian() {
    let mut buf = Vec::new();
    write_u32(&mut buf, 0x0403_0201);
    write_i32(&mut buf, -2);
    assert_eq!(buf, vec![1, 2, 3, 4, 0xFE, 0xFF, 0xFF, 0xFF]);
    let mut off = 0;
    assert_eq!(read_u32(&buf, &mut off), Ok(0x0403_0201));
    assert_eq!(read_i32(&buf, &mut off), Ok(-2));
    assert_eq!(off, 8);
    assert_eq!(
        read_u32(&buf, &mut off),
        Err(WireError::UnexpectedEof { what: Truncated::U32 })
    );
    assert_eq!(
        read_i32(&buf, &mut off),
        Err(WireError::UnexpectedEof { what: Truncated::I32 })
    );
    assert_eq!(off, 8);
}

#[test]
fn strings_carry_their_length() {
    let mut buf = Vec::new();
    write_str(&mut buf, "aé");
    assert_eq!(buf, vec![3, 0, 0, 0, b'a', 0xC3, 0xA9]);
    let mut off = 0;
    assert_eq!(read_str(&buf, &mut off), Ok("aé".to_string()));
    assert_eq!(off, 7);
    let mut off = 0;
    assert_eq!(
        read_str(&buf[..6], &mut off),
        Err(WireError::UnexpectedEof { what: Truncated::Str })
    );
    let mut off = 0;
    assert_eq!(read_str(&[1, 0, 0, 0, 0xFF], &mut off), Err(WireError::InvalidUtf8));
}

fn command_text(command: &Command) -> String {
    format!("{:?}", command)
}

#[test]
fn commands_round_trip() {
    let commands = [
        Command::CreateBrowser { width: -1, height: 2, url: "https://例え.jp".to_string() },
        Command::DestroyBrowser { browser_id: 3 },
        Command::LoadUrl { browser_id: 4, url: String::new() },
        Command::Resize { browser_id: 5, width: i32::MAX, height: i32::MIN },
        Command::Shutdown,
    ];
    for command in &commands {
        let restored = Command::deserialize(&command.serialize()).unwrap();
        assert_eq!(command_text(&restored), command_text(command));
    }
    assert_eq!(commands[4].serialize(), vec![CommandTag::Shutdown.byte()]);
    assert_eq!(commands[1].serialize(), vec![CommandTag::DestroyBrowser.byte(), 3, 0, 0, 0]);
}

#[test]
fn responses_round_trip() {
    let responses = [
        Response::BrowserCreated { browser_id: 42, shm_name: "/cef".to_string() },
        Response::Success,
        Response::Error { msg: "no".to_string() },
    ];
    for response in &responses {
        let restored = Response::deserialize(&response.serialize()).unwrap();
        assert_eq!(format!("{:?}", restored), format!("{:?}", response));
    }
    assert_eq!(responses[1].serialize(), vec![ResponseTag::Success.byte()]);
}

#[test]
fn unknown_tags_are_refused() {
    assert_eq!(
        Command::deserialize(&[0xEE]).unwrap_err(),
        WireError::UnknownCommandTag { tag: 0xEE }
    );
    assert_eq!(
        Response::deserialize(&[0xEE]).unwrap_err(),
        WireError::UnknownResponseTag { tag: 0xEE }
    );
    assert_eq!(
        Command::deserialize(&[]).unwrap_err(),
        WireError::UnexpectedEof { what: Truncated::Message }
    );
    assert_eq!(
        Response::deserialize(&[]).unwrap_err(),
        WireError::UnexpectedEof { what: Truncated::Message }
    );
}

#[test]
fn errors_have_words() {
    assert!(!WireError::InvalidUtf8.message().is_empty());
    assert!(WireError::UnknownCommandTag { tag: 238 }.message().contains("238"));
    assert!(WireError::MessageTooLarge { length: 16_777_217 }.message().contains("16777217"));
}

#[test]
fn messages_are_framed() {
    let mut stream = send_message(b"abc");
    assert_eq!(stream, vec![3, 0, 0, 0, b'a', b'b', b'c']);
    stream.extend(send_message(b""));
    let mut off = 0;
    assert_eq!(recv_message(&stream, &mut off), Ok(b"abc".to_vec()));
    assert_eq!(recv_message(&stream, &mut off), Ok(Vec::new()));
    assert_eq!(off, stream.len());
    assert_eq!(
        recv_message(&stream, &mut off),
        Err(WireError::UnexpectedEof { what: Truncated::Stream })
    );
    let mut off = 0;
    assert_eq!(
        recv_message(&stream[..6], &mut off),
        Err(WireError::UnexpectedEof { what: Truncated::Stream })
    );
    assert_eq!(off, 0);
}

#[test]
fn long_messages_are_refused() {
    assert_eq!(message_length(0x100_0000), Ok(0x100_0000));
    assert_eq!(
        message_length(0x100_0001),
        Err(WireError::MessageTooLarge { length: 0x100_0001 })
    );
    let mut off = 0;
    assert_eq!(
        recv_message(&[1, 0, 0, 1], &mut off),
        Err(WireError::MessageTooLarge { length: 0x100_0001 })
    );
    assert_eq!(off, 4);
}

#[test]
fn frames_pass_through_the_memory() {
    let mut memory = vec![0x55u8; SHM_TOTAL_SIZE];
    let writer = ShmWriter::new("/cef-unity-1", &mut memory);
    assert_eq!(writer.name, "/cef-unity-1");
    let mut reader = ShmReader::open("/cef-unity-1");
    let mut copy = vec![1u8];
    assert_eq!(reader.read_frame(&memory, &mut copy), None);
    assert_eq!(copy, vec![1u8]);
    writer.write_frame(&mut memory, &[9u8; 8], 2, 1);
    assert_eq!(reader.read_frame(&memory, &mut copy), Some((2, 1)));
    assert_eq!(copy, vec![9u8; 8]);
    assert_eq!(reader.read_frame(&memory, &mut copy), None);
    writer.write_frame(&mut memory, &[8u8; 4], 1, 1);
    assert_eq!(reader.read_frame(&memory, &mut copy), Some((1, 1)));
    assert_eq!(copy, vec![8u8; 4]);
}
