use cef_unity::dmabuf::{
    failure_stage_name, DmabufPublisher, DmabufTextureCache, ImportThread, PublishStep,
};
use cef_unity::file_descriptor_channel::{
    can_send, received_count, DmabufDescriptor, DMABUF_DESCRIPTOR_BYTES,
};

#[test]
fn texture_is_found_under_its_generation() {
    let mut cache = DmabufTextureCache::new();
    cache.store(3, 42);
    assert_eq!(cache.texture_for_generation(3), Some(42));
}

#[test]
fn texture_is_not_found_under_another_generation() {
    let mut cache = DmabufTextureCache::new();
    cache.store(3, 42);
    assert_eq!(cache.texture_for_generation(4), None);
}

#[test]
fn newer_generation_replaces_the_older_one() {
    let mut cache = DmabufTextureCache::new();
    cache.store(3, 42);
    cache.store(4, 43);
    assert_eq!(cache.texture_for_generation(4), Some(43));
    assert_eq!(cache.texture_for_generation(3), None);
}

#[test]
fn empty_cache_finds_nothing() {
    let cache = DmabufTextureCache::new();
    assert_eq!(cache.texture_for_generation(0), None);
    assert_eq!(cache.current_generation(), None);
}

#[test]
fn descriptor_round_trips_through_bytes() {
    let descriptor = DmabufDescriptor {
        width: 1280,
        height: 720,
        stride: 5120,
        modifier: 0x0300_0000_0e08_0140,
        fourcc: 0x3432_5241, // "AR24"
        generation: 3,
    };
    let restored = DmabufDescriptor::from_bytes(&descriptor.to_bytes()).unwrap();
    assert_eq!(restored, descriptor);
}

#[test]
fn too_few_bytes_are_no_descriptor() {
    assert!(DmabufDescriptor::from_bytes(&[0u8; 10]).is_none());
}

#[test]
fn descriptor_has_a_fixed_layout() {
    let descriptor = DmabufDescriptor {
        width: 0x0403_0201,
        height: 5,
        stride: 6,
        modifier: 0x1817_1615_1413_1211,
        fourcc: 7,
        generation: 8,
    };
    let bytes = descriptor.to_bytes();
    assert_eq!(bytes.len(), DMABUF_DESCRIPTOR_BYTES);
    assert_eq!(&bytes[0..4], &[1, 2, 3, 4]);
    assert_eq!(&bytes[12..20], &[0x11, 0x12, 0x13, 0x14, 0x15, 0x16, 0x17, 0x18]);
    assert_eq!(&bytes[24..28], &[8, 0, 0, 0]);
    let mut longer = bytes.to_vec();
    longer.push(9);
    assert_eq!(DmabufDescriptor::from_bytes(&longer), Some(descriptor));
    assert_eq!(DmabufDescriptor::from_bytes(&bytes[..27]), None);
}

#[test]
fn default_cache_is_empty() {
    let mut cache = DmabufTextureCache::default();
    assert_eq!(cache.current_generation(), None);
    cache.store(0, 9);
    assert_eq!(cache.current_generation(), Some(0));
    assert_eq!(cache.texture_for_generation(0), Some(9));
}

#[test]
fn second_thread_is_noticed() {
    let mut thread = ImportThread::new();
    assert!(!thread.warn_if_calling_thread_changed(7));
    assert!(!thread.warn_if_calling_thread_changed(7));
    assert!(thread.warn_if_calling_thread_changed(8));
    assert!(!thread.warn_if_calling_thread_changed(7));
}

#[test]
fn buffer_is_sent_before_its_frames_are_announced() {
    let mut publisher = DmabufPublisher::new();
    let mut descriptor = DmabufDescriptor {
        width: 1,
        height: 1,
        stride: 4,
        modifier: 0,
        fourcc: 0,
        generation: 1,
    };
    assert_eq!(publisher.next_step(&descriptor, false), PublishStep::Wait);
    assert_eq!(publisher.next_step(&descriptor, true), PublishStep::Send);
    assert!(!publisher.sent(&descriptor, false));
    assert_eq!(publisher.next_step(&descriptor, true), PublishStep::Send);
    assert!(publisher.sent(&descriptor, true));
    assert_eq!(publisher.next_step(&descriptor, false), PublishStep::Announce);
    descriptor.generation = 2;
    assert_eq!(publisher.next_step(&descriptor, true), PublishStep::Send);
}

#[test]
fn stages_have_names() {
    assert_eq!(failure_stage_name(2), "gbm_create_device に失敗");
    assert_eq!(failure_stage_name(9), "EGL/GL の拡張関数が取れない");
    assert_eq!(failure_stage_name(0), "不明");
    assert_eq!(failure_stage_name(10), "不明");
}

#[test]
fn one_message_carries_four_descriptors() {
    assert!(can_send(0));
    assert!(can_send(4));
    assert!(!can_send(5));
    assert_eq!(received_count(0), 0);
    assert_eq!(received_count(7), 1);
    assert_eq!(received_count(16), 4);
}
