use cef_unity::frames::BUFFER_SIZE;
use cef_unity::shared_memory::{
    paint_fits, SharedMemoryHeader, SharedMemoryReader, SharedMemoryWriter,
    SHARED_MEMORY_HEADER_SIZE, SHARED_MEMORY_TOTAL_SIZE,
};

fn memory() -> Vec<u8> {
    vec![0xAA; SHARED_MEMORY_TOTAL_SIZE]
}

#[test]
fn shared_memory_write_read_roundtrip() {
    let mut memory = memory();
    let writer = SharedMemoryWriter::new("cef-unity-test-shm-roundtrip", &mut memory);
    let mut reader = SharedMemoryReader::open();

    // No frame yet
    let mut buffer = Vec::new();
    assert!(reader.read_frame(&memory, &mut buffer).is_none());

    // Write a 2x2 BGRA frame (16 bytes)
    let pixels: Vec<u8> = (0..16).collect();
    writer.write_frame(&mut memory, &pixels, 2, 2);

    // Read it back
    let result = reader.read_frame(&memory, &mut buffer);
    assert_eq!(result, Some((2, 2)));
    assert_eq!(buffer, pixels);

    // No new frame if we read again
    assert!(reader.read_frame(&memory, &mut buffer).is_none());

    // Write another frame, verify double-buffer swap
    let pixels2: Vec<u8> = (16..32).collect();
    writer.write_frame(&mut memory, &pixels2, 2, 2);
    let result2 = reader.read_frame(&memory, &mut buffer);
    assert_eq!(result2, Some((2, 2)));
    assert_eq!(buffer, pixels2);
}

#[test]
fn shared_memory_zero_copy_read() {
    let mut memory = memory();
    let writer = SharedMemoryWriter::new("cef-unity-test-shm-zerocopy", &mut memory);
    let mut reader = SharedMemoryReader::open();

    // No frame yet
    assert!(reader.get_active_buffer_offset(&memory).is_none());

    // Write a 2x2 BGRA frame (16 bytes)
    let pixels: Vec<u8> = (0..16).collect();
    writer.write_frame(&mut memory, &pixels, 2, 2);

    // Zero-copy read: the offset points into shared memory with correct data
    let result = reader.get_active_buffer_offset(&memory);
    assert!(result.is_some());
    let (offset, width, height) = result.unwrap();
    assert_eq!(width, 2);
    assert_eq!(height, 2);
    assert_eq!(&memory[offset..offset + 16], &pixels[..]);

    // No new frame on second call
    assert!(reader.get_active_buffer_offset(&memory).is_none());

    // Write another frame, verify double-buffer swap
    let pixels2: Vec<u8> = (16..32).collect();
    writer.write_frame(&mut memory, &pixels2, 2, 2);
    let (offset_2, width_2, height_2) = reader.get_active_buffer_offset(&memory).unwrap();
    assert_eq!(width_2, 2);
    assert_eq!(height_2, 2);
    assert_ne!(offset, offset_2);
    assert_eq!(&memory[offset_2..offset_2 + 16], &pixels2[..]);
}

#[test]
fn frame_outlives_the_next_write() {
    let mut memory = memory();
    let writer = SharedMemoryWriter::new("outlives", &mut memory);
    let mut reader = SharedMemoryReader::open();
    let pixels: Vec<u8> = (0..16).collect();
    writer.write_frame(&mut memory, &pixels, 2, 2);
    let (offset, _, _) = reader.get_active_buffer_offset(&memory).unwrap();
    assert_eq!(offset, 128 + 3840 * 2160 * 4);
    writer.write_frame(&mut memory, &[9u8; 16], 2, 2);
    assert_eq!(&memory[offset..offset + 16], &pixels[..]);
    assert_eq!(reader.get_active_buffer_offset(&memory).unwrap().0, 128);
}

#[test]
fn header_has_a_fixed_layout() {
    let mut memory = memory();
    let writer = SharedMemoryWriter::new("layout", &mut memory);
    assert_eq!(writer.flink, "layout");
    writer.write_frame(&mut memory, &[7u8; 24], 3, 2);
    assert_eq!(&memory[0..8], &[1, 0, 0, 0, 0, 0, 0, 0]);
    assert_eq!(&memory[8..12], &[3, 0, 0, 0]);
    assert_eq!(&memory[12..16], &[2, 0, 0, 0]);
    assert_eq!(&memory[16..20], &[1, 0, 0, 0]);
    let second = SHARED_MEMORY_HEADER_SIZE + BUFFER_SIZE;
    assert_eq!(memory[SHARED_MEMORY_HEADER_SIZE], 0xAA);
    assert_eq!(&memory[second..second + 24], &[7u8; 24]);
    assert_eq!(memory[second + 24], 0xAA);
    let header = SharedMemoryHeader::load(&memory);
    assert_eq!(header.frame_id, 1);
    assert_eq!(header.active_buffer, 1);
}

#[test]
fn caret_is_carried() {
    let mut memory = memory();
    let writer = SharedMemoryWriter::new("caret", &mut memory);
    let reader = SharedMemoryReader::open();
    assert_eq!(reader.read_ime_caret(&memory), (0, 0, 0, 0));
    writer.write_ime_caret(&mut memory, -1, i32::MIN, 2, i32::MAX);
    assert_eq!(reader.read_ime_caret(&memory), (-1, i32::MIN, 2, i32::MAX));
    assert!(!reader.has_new_frame(&memory));
}

#[test]
fn surface_is_read_once() {
    let mut memory = memory();
    let writer = SharedMemoryWriter::new("surface", &mut memory);
    let mut reader = SharedMemoryReader::open();
    assert_eq!(reader.get_iosurface_info(&memory), None);
    writer.write_paint_unity_frame(&mut memory, 99);
    writer.stage_iosurface_info(&mut memory, 5, 1706, 2762, 1);
    assert_eq!(reader.get_iosurface_info(&memory), None);
    writer.publish_iosurface_info(&mut memory);
    assert_eq!(reader.peek_accelerated_frame_id(&memory), 1);
    assert_eq!(reader.get_iosurface_info(&memory), Some((5, 1706, 2762, 1)));
    assert_eq!(reader.get_iosurface_info(&memory), None);
    assert_eq!(reader.read_accelerated_dimensions(&memory), (1706, 2762));
    assert_eq!(reader.read_paint_unity_frame(&memory), 99);
    writer.write_iosurface_info(&mut memory, 6, 1, 1, 0);
    assert_eq!(reader.get_iosurface_info(&memory), Some((6, 1, 1, 0)));
}

#[test]
fn texture_handle_is_read_once() {
    let mut memory = memory();
    let writer = SharedMemoryWriter::new("handle", &mut memory);
    let mut reader = SharedMemoryReader::open();
    assert_eq!(reader.get_d3d11_handle(&memory), None);
    writer.write_d3d11_handle(&mut memory, 0xdead_beef, 640, 480, 1, 77);
    assert_eq!(reader.get_d3d11_handle(&memory), Some((0xdead_beef, 640, 480, 1, 77)));
    assert_eq!(reader.get_d3d11_handle(&memory), None);
    writer.stage_d3d11_handle(&mut memory, 1, 2, 3, 0, 78);
    assert_eq!(reader.get_d3d11_handle(&memory), None);
    writer.publish_d3d11_handle(&mut memory);
    assert_eq!(reader.get_d3d11_handle(&memory), Some((1, 2, 3, 0, 78)));
}

#[test]
fn largest_frame_fits() {
    assert!(paint_fits(3840, 2160));
    assert!(!paint_fits(3841, 2160));
    assert!(!paint_fits(3840, 2161));
    assert!(!paint_fits(0, 1));
    assert!(!paint_fits(1, -1));
    let mut memory = memory();
    let writer = SharedMemoryWriter::new("largest", &mut memory);
    let mut reader = SharedMemoryReader::open();
    let pixels = vec![3u8; 3840 * 2160 * 4];
    writer.write_frame(&mut memory, &pixels, 3840, 2160);
    let mut copy = Vec::new();
    assert_eq!(reader.read_frame(&memory, &mut copy), Some((3840, 2160)));
    assert_eq!(copy, pixels);
}

#[test]
fn damaged_header_yields_no_frame() {
    let mut memory = memory();
    let writer = SharedMemoryWriter::new("damaged", &mut memory);
    let mut reader = SharedMemoryReader::open();
    writer.write_frame(&mut memory, &[1u8; 4], 1, 1);
    memory[8..12].copy_from_slice(&3841u32.to_le_bytes());
    let mut copy = vec![9u8];
    assert_eq!(reader.read_frame(&memory, &mut copy), None);
    assert_eq!(copy, vec![9u8]);
    writer.write_frame(&mut memory, &[1u8; 4], 1, 1);
    memory[16..20].copy_from_slice(&2u32.to_le_bytes());
    assert_eq!(reader.get_active_buffer_offset(&memory), None);
}
