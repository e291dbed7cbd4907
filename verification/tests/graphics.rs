use cef_unity::accelerated_paint::{
    copy_submission, logs_paint, on_accelerated_paint, on_paint, packet_is_written,
    shared_texture_enabled, stream_format, view_rect, CopySubmission, PageRect, PaintCount,
    PaintProblem, PaintStep, Platform, SurfaceFacts, SurfaceStep,
};
use cef_unity::copy_mode::{begin_frame_gate_open, copy_mode, switched_on, CopyMode};
use cef_unity::d3d11_pool::{texture_format, PoolState};
use cef_unity::server::Viewport;
use cef_unity::shared_texture::{FenceError, FenceState, OpenStep, OpenedState};
use cef_unity::{d3d11, d3d12};

const SURFACE: SurfaceFacts = SurfaceFacts {
    is_view: true,
    described: true,
    present: true,
    plane_count: 1,
    width: 1706,
    height: 2762,
    rgba: false,
    pool: true,
};

#[test]
fn page_fills_its_view() {
    assert_eq!(
        view_rect(Viewport { width: 3, height: 4 }),
        PageRect { x: 0, y: 0, width: 3, height: 4 }
    );
}

#[test]
fn paints_are_counted_and_some_logged() {
    let mut count = PaintCount::new();
    assert_eq!(count.painted(), 1);
    count.count = u64::MAX;
    assert_eq!(count.painted(), 0);
    assert!(logs_paint(3, 3, 100));
    assert!(!logs_paint(4, 3, 100));
    assert!(logs_paint(200, 3, 100));
}

#[test]
fn only_pages_that_fit_are_written() {
    assert_eq!(on_paint(false, 1, 1), PaintStep::NotThePage);
    assert_eq!(on_paint(true, 3840, 2160), PaintStep::Write { width: 3840, height: 2160 });
    assert_eq!(on_paint(true, 1706, 2762), PaintStep::DoesNotFit);
    assert_eq!(on_paint(true, -1, 1), PaintStep::DoesNotFit);
}

#[test]
fn surfaces_of_any_size_are_copied() {
    for platform in [Platform::Linux, Platform::MacOs, Platform::Windows] {
        assert_eq!(
            on_accelerated_paint(platform, &SURFACE),
            SurfaceStep::Copy { width: 1706, height: 2762, format: 0, fourcc: 0x3432_5241 }
        );
        assert_eq!(
            on_accelerated_paint(platform, &SurfaceFacts { rgba: true, ..SURFACE }),
            SurfaceStep::Copy { width: 1706, height: 2762, format: 1, fourcc: 0x3432_4241 }
        );
        assert_eq!(
            on_accelerated_paint(platform, &SurfaceFacts { is_view: false, ..SURFACE }),
            SurfaceStep::Ignore
        );
    }
}

#[test]
fn linux_says_what_is_wrong() {
    let problems = [
        (SurfaceFacts { described: false, ..SURFACE }, PaintProblem::NotDescribed, "info=None"),
        (
            SurfaceFacts { plane_count: 2, ..SURFACE },
            PaintProblem::SeveralPlanes,
            "plane_count が 1 ではない",
        ),
        (SurfaceFacts { present: false, ..SURFACE }, PaintProblem::NotDuplicated, "fd を複製できない"),
        (SurfaceFacts { pool: false, ..SURFACE }, PaintProblem::NoPool, "プールが無い"),
    ];
    for (facts, problem, reason) in problems {
        assert_eq!(on_accelerated_paint(Platform::Linux, &facts), SurfaceStep::Report { problem });
        assert_eq!(problem.reason(), reason);
    }
    assert_eq!(PaintProblem::BlitFailed.reason(), "blit に失敗");
    assert_eq!(PaintProblem::NoOutput.reason(), "出力記述子が取れない");
    let missing = SurfaceFacts { described: false, ..SURFACE };
    assert_eq!(on_accelerated_paint(Platform::MacOs, &missing), SurfaceStep::Ignore);
    let empty = SurfaceFacts { width: 0, ..SURFACE };
    assert_eq!(on_accelerated_paint(Platform::Windows, &empty), SurfaceStep::Ignore);
}

#[test]
fn copies_can_be_dropped() {
    assert_eq!(copy_submission(1), CopySubmission::Started);
    assert_eq!(copy_submission(0), CopySubmission::Dropped);
    assert_eq!(copy_submission(-1), CopySubmission::Failed);
}

#[test]
fn each_system_has_its_condition_for_surfaces() {
    assert!(shared_texture_enabled(Platform::MacOs, true, false, false));
    assert!(shared_texture_enabled(Platform::Windows, false, true, false));
    assert!(shared_texture_enabled(Platform::Linux, false, false, true));
    assert!(!shared_texture_enabled(Platform::Linux, true, true, false));
}

#[test]
fn audio_streams_have_a_format() {
    assert_eq!(stream_format(None, 2), (48_000, 2));
    assert_eq!(stream_format(Some(44_100), -1), (44_100, 0));
    assert_eq!(stream_format(Some(-1), 1), (u32::MAX, 1));
    assert!(packet_is_written(true, 1, 1));
    assert!(!packet_is_written(true, 0, 1));
    assert!(!packet_is_written(true, 1, 0));
    assert!(!packet_is_written(false, 1, 1));
}

#[test]
fn variables_choose_how_surfaces_are_copied() {
    assert!(switched_on(Some("1")));
    assert!(!switched_on(Some("11")));
    assert!(!switched_on(Some("")));
    assert!(!switched_on(None));
    assert_eq!(copy_mode(false, false), CopyMode::Async);
    assert_eq!(copy_mode(false, true), CopyMode::Sync);
    assert_eq!(copy_mode(true, true), CopyMode::UnsafeNoWait);
    assert_eq!(CopyMode::Async.name(), "async");
    assert_eq!(CopyMode::UnsafeNoWait.name(), "unsafe-no-wait");
    assert_eq!(CopyMode::Sync.name(), "sync");
}

#[test]
fn engine_does_not_paint_over_a_copy() {
    assert!(begin_frame_gate_open(CopyMode::Async, false, 0));
    assert!(!begin_frame_gate_open(CopyMode::Async, false, 1));
    assert!(begin_frame_gate_open(CopyMode::Async, true, 1));
    assert!(begin_frame_gate_open(CopyMode::Sync, false, 1));
}

#[test]
fn texture_is_opened_once() {
    let mut opened: OpenedState<&str> = OpenedState::new();
    assert_eq!(opened.next_step(0, true, 1, 1), OpenStep::Nothing);
    assert_eq!(opened.next_step(5, false, 1, 1), OpenStep::Nothing);
    assert_eq!(opened.next_step(5, true, 1, 1), OpenStep::Open);
    opened.store(5, "first", 1, 1);
    assert_eq!(opened.next_step(5, true, 1, 1), OpenStep::Cached);
    assert_eq!(opened.next_step(5, true, 2, 1), OpenStep::Open);
    assert_eq!(opened.next_step(5, true, 1, 2), OpenStep::Open);
    opened.store(6, "second", 1, 1);
    assert_eq!(opened.previous.as_ref().map(|texture| texture.texture), Some("first"));
    opened.store(7, "third", 1, 1);
    assert_eq!(opened.previous.as_ref().map(|texture| texture.texture), Some("second"));
    opened.clear();
    assert!(opened.current.is_none() && opened.previous.is_none());
}

#[test]
fn no_value_is_waited_for_twice() {
    let mut fence = FenceState::new();
    assert!(!fence.needs_wait(3));
    assert_eq!(FenceState::check_open(0, true), Err(FenceError::NoHandle));
    assert_eq!(FenceState::check_open(1, false), Err(FenceError::NoDevice));
    assert_eq!(FenceState::check_open(1, true), Ok(()));
    fence.open();
    assert!(!fence.needs_wait(0));
    assert!(fence.needs_wait(3));
    fence.waited(3);
    assert!(!fence.needs_wait(3));
    assert!(!fence.needs_wait(2));
    assert!(fence.needs_wait(4));
    fence.waited(2);
    assert_eq!(fence.last_waited, Some(3));
    fence.clear();
    assert!(!fence.needs_wait(4));
}

#[test]
fn eleventh_device_is_found_late() {
    let mut graphics: d3d11::UnityGraphics<u32> = d3d11::unconnected();
    let nothing = d3d11::DeviceAnswer { graphics: 0, device: 0 };
    let device = d3d11::DeviceAnswer { graphics: 5, device: 6 };
    assert!(!d3d11::is_connected(&mut graphics, device));
    assert!(!d3d11::asks_for_device(&graphics));
    d3d11::set_unity_interfaces(&mut graphics, 1, nothing);
    assert!(d3d11::asks_for_device(&graphics));
    assert!(!d3d11::is_connected(&mut graphics, d3d11::DeviceAnswer { graphics: 0, device: 6 }));
    assert!(d3d11::is_connected(&mut graphics, device));
    assert!(!d3d11::asks_for_device(&graphics));
    assert!(d3d11::is_connected(&mut graphics, nothing));
    graphics.opened.store(1, 2, 3, 4);
    graphics.fence.open();
    d3d11::clear_unity_interfaces(&mut graphics);
    assert!(!d3d11::is_connected(&mut graphics, device));
    assert!(graphics.opened.current.is_none());
    assert!(graphics.fence.last_waited.is_none());
    d3d11::set_external_device(&mut graphics, 9);
    assert!(d3d11::is_connected(&mut graphics, nothing));
    assert_eq!(d3d11::graphics_guid().m_guid_high, 0xAAB3_7EF8_7A87_D748);
    assert_eq!(d3d11::fence_error_message(FenceError::NoHandle), "fence handle is 0");
    assert_eq!(
        d3d11::fence_error_message(FenceError::NoDevice),
        "Unity D3D11 device not yet available"
    );
}

#[test]
fn twelfth_device_brings_its_queue() {
    let mut graphics: d3d12::UnityGraphics<u32> = d3d12::unconnected();
    let no_device = d3d12::DeviceAnswer { graphics: 5, device: 0, queue: 8 };
    d3d12::set_unity_interfaces(&mut graphics, 1, no_device);
    assert_eq!(graphics.pointers.graphics, 5);
    assert_eq!(graphics.pointers.queue, 0);
    assert!(d3d12::asks_for_device(&graphics));
    let device = d3d12::DeviceAnswer { graphics: 5, device: 6, queue: 7 };
    assert_eq!(d3d12::unity_queue(&mut graphics, device), 7);
    assert!(d3d12::is_connected(&mut graphics, no_device));
    assert_eq!(d3d12::unity_queue(&mut graphics, no_device), 7);
    d3d12::declared(&mut graphics, 33);
    assert_eq!(graphics.declared, vec![33]);
    d3d12::clear_unity_interfaces(&mut graphics);
    assert!(!d3d12::is_connected(&mut graphics, device));
    assert!(graphics.declared.is_empty());
    assert_eq!(d3d12::graphics_guid().m_guid_low, 0xB02D_FE93_B506_4A27);
    assert_eq!(
        d3d12::fence_error_message(FenceError::NoDevice),
        "Unity D3D12 device not available"
    );
}

#[test]
fn output_texture_is_made_anew_when_the_source_changes() {
    let mut pool: PoolState<&str> = PoolState::new();
    let format = texture_format(false);
    assert_eq!(format, 91);
    assert_eq!(texture_format(true), 29);
    assert!(pool.need_recreate(0, 0, 87));
    assert_eq!(pool.discard(), None);
    pool.store("texture", 11, Some(22), 640, 480, format);
    assert_eq!(pool.client_handle_value, 22);
    assert!(!pool.need_recreate(640, 480, format));
    assert!(pool.need_recreate(641, 480, format));
    assert!(pool.need_recreate(640, 481, format));
    assert!(pool.need_recreate(640, 480, 29));
    assert_eq!(pool.discard(), Some(11));
    assert_eq!(pool.client_handle_value, 0);
    assert!(pool.need_recreate(640, 480, format));
    pool.store("texture", 12, None, 640, 480, format);
    assert_eq!(pool.client_handle_value, 12);
}
