use cef_unity::accelerated_paint::Platform;
use cef_unity::caret::{composition_caret, console_caret, Caret};
use cef_unity::command_line::{
    command_line_switches, engine_settings, helper_binary_path, page_settings, screen_settings,
    server_binary_path, PageSettings,
};
use cef_unity::pixels::{bgra_to_rgba, painted_image};
use cef_unity::statistics::{
    cpu_milliseconds, damage_area, filetime_milliseconds, format_milliseconds, latency_line,
    statistics_line, LatencySamples, PaintStatistics, StatisticsFacts, LATENCY_WINDOW,
};

#[test]
fn caret_is_read_from_the_console() {
    assert_eq!(
        console_caret("__CARET__:12:-34:0:18"),
        Some(Caret { x: 12, y: -34, width: 0, height: 18 })
    );
    assert_eq!(
        console_caret("__CARET__:+1:2147483647:-2147483648:0"),
        Some(Caret { x: 1, y: i32::MAX, width: i32::MIN, height: 0 })
    );
}

#[test]
fn other_messages_report_no_caret() {
    for message in [
        "",
        "__CARET__",
        "__CARET__:",
        "__CARET__:1:2:3",
        "__CARET__:1:2:3:4:5",
        "__CARET__:1:2:3:",
        "__CARET__:1:2:x:4",
        "__CARET__:1:2:2147483648:4",
        " __CARET__:1:2:3:4",
    ] {
        assert_eq!(console_caret(message), None, "{}", message);
    }
}

#[test]
fn composition_ends_right_of_its_last_character() {
    let first = Caret { x: 1, y: 2, width: 3, height: 4 };
    let last = Caret { x: 10, y: 20, width: 7, height: 9 };
    assert_eq!(composition_caret(&[]), None);
    assert_eq!(
        composition_caret(&[first, last]),
        Some(Caret { x: 17, y: 20, width: 7, height: 9 })
    );
}

fn switches(platform: Platform, accelerated: bool, use_gpu: bool) -> Vec<String> {
    command_line_switches(platform, accelerated, use_gpu)
        .into_iter()
        .map(|switch| match switch.value {
            Some(value) => format!("{}={}", switch.name, value),
            None => switch.name,
        })
        .collect()
}

#[test]
fn engine_gets_its_switches() {
    let common =
        vec!["use-mock-keychain", "autoplay-policy=no-user-gesture-required", "disable-gpu-sandbox"];
    assert_eq!(switches(Platform::MacOs, true, true), common);
    let mut headless = common.clone();
    headless.push("ozone-platform=headless");
    assert_eq!(switches(Platform::Linux, false, true), headless);
    let mut accelerated = common.clone();
    accelerated.extend(["ozone-platform=x11", "enable-features=Vulkan"]);
    assert_eq!(switches(Platform::Linux, true, true), accelerated);
    let mut software = common.clone();
    software.extend(["disable-gpu", "disable-gpu-compositing", "num-raster-threads=4"]);
    assert_eq!(switches(Platform::Windows, false, false), software);
}

#[test]
fn programs_have_their_places() {
    assert_eq!(server_binary_path(Platform::Linux), "cef-unity-server");
    assert_eq!(server_binary_path(Platform::Windows), "cef-unity-server.exe");
    assert_eq!(
        server_binary_path(Platform::MacOs),
        "cef-unity-server.app/Contents/MacOS/cef-unity-server"
    );
    assert_eq!(helper_binary_path(Platform::Linux), "cef-unity-rust-helper");
    assert_eq!(helper_binary_path(Platform::Windows), "cef-unity-rust-helper.exe");
    let settings = engine_settings(Platform::Linux);
    assert!(settings.no_sandbox && settings.windowless_rendering_enabled);
    assert!(settings.external_message_pump && settings.verbose_log);
    assert_eq!(settings.framework_directory, None);
    assert_eq!(settings.locales_directory, "locales");
    assert_eq!(
        engine_settings(Platform::MacOs).framework_directory,
        Some("../Frameworks/Chromium Embedded Framework.framework")
    );
}

#[test]
fn pages_are_drawn_when_told() {
    for shared_texture in [false, true] {
        assert_eq!(
            page_settings(shared_texture),
            PageSettings {
                shared_texture_enabled: shared_texture,
                external_begin_frame_enabled: true,
                background_color: 0,
                windowless_frame_rate: 120,
            }
        );
    }
    let screen = screen_settings();
    assert_eq!((screen.depth, screen.depth_per_component), (32, 8));
    assert!(!screen.is_monochrome);
}

#[test]
fn colours_are_exchanged() {
    let bgra = [1, 2, 3, 4, 5, 6, 7, 8, 9, 10];
    let rgba = bgra_to_rgba(&bgra);
    assert_eq!(rgba, vec![3, 2, 1, 4, 7, 6, 5, 8, 9, 10]);
    assert_eq!(bgra_to_rgba(&rgba), bgra.to_vec());
    assert!(bgra_to_rgba(&[]).is_empty());
}

#[test]
fn image_needs_a_byte_for_every_channel() {
    let bgra = [10u8, 20, 30, 40, 50, 60, 70, 80];
    assert_eq!(
        painted_image(&bgra, 2, 1),
        Some((2, 1, vec![30, 20, 10, 40, 70, 60, 50, 80]))
    );
    assert_eq!(painted_image(&bgra, 1, 1).map(|image| image.2.len()), Some(8));
    assert_eq!(painted_image(&bgra, 3, 1), None);
    assert_eq!(painted_image(&bgra, u32::MAX, u32::MAX), None);
}

#[test]
fn latencies_are_reported_in_windows() {
    let mut samples = LatencySamples::new();
    assert_eq!(samples.record_paint_latency(0, 5_000), None);
    assert_eq!(samples.record_paint_latency(9_000, 9_000), None);
    for number in 1..LATENCY_WINDOW as u64 {
        assert_eq!(samples.record_paint_latency(1, 1 + number * 1000), None);
    }
    let report = samples.record_paint_latency(1, 1 + 1_000_000_000).unwrap();
    assert_eq!(report.count, 60);
    assert_eq!(report.min, 1);
    assert_eq!(report.max, 1_000_000);
    assert_eq!(report.median, 31);
    assert_eq!(report.average, (59 * 60 / 2 + 1_000_000) / 60);
    assert_eq!(
        latency_line(&report),
        "BeginFrame→paint latency (n=60): average=16.696ms median=0.031ms min=0.001ms max=1000.000ms"
    );
    assert_eq!(samples.record_paint_latency(1, 2_001), None);
}

#[test]
fn windows_of_statistics_last_a_second() {
    let mut statistics = PaintStatistics::new();
    let facts = |now_nanoseconds, pump_count, paint_count, cpu_milliseconds| StatisticsFacts {
        now_nanoseconds,
        pump_count,
        paint_count,
        cpu_milliseconds,
    };
    assert_eq!(statistics.report_paint_statistics(facts(0, 5, 6, 7)), None);
    statistics.record_drain_burst(4, 2);
    statistics.record_drain_burst(3, 3);
    statistics.record_damage(10, 100);
    statistics.record_copy(1500, false);
    statistics.record_copy(500, true);
    statistics.counters.send_wait.record_wait(42);
    assert_eq!(statistics.report_paint_statistics(facts(999_999_999, 9, 9, 9)), None);
    let report = statistics.report_paint_statistics(facts(1_000_000_000, 15, 26, 37)).unwrap();
    assert_eq!(
        statistics_line(&report, "ThreadId(1)", "async", "10.0", 8, 0),
        "STATISTICS tick_thread=ThreadId(1) mode=async window=1000ms pump_ticks=10 paints=20 \
         copies=2 dropped=1 copy_wait_total=2.000ms copy_wait_max=1.500ms \
         send_wait_total=0.042ms send_wait_max=0.042ms cpu=30ms damage_ratio=10.0% \
         drain_max=4 begin_frame_drained=5 begin_frame_burst_max=3 \
         begin_frame_deferred=8 poisoned_total=0"
    );
    let next = statistics.report_paint_statistics(facts(2_000_000_000, 15, 26, 37)).unwrap();
    assert_eq!(next.counters.copies, 0);
    assert_eq!(next.pump_ticks, 0);
}

#[test]
fn times_are_converted() {
    assert_eq!(format_milliseconds(0), "0.000ms");
    assert_eq!(format_milliseconds(12_345_678), "12345.678ms");
    assert_eq!(format_milliseconds(1_007), "1.007ms");
    assert_eq!(cpu_milliseconds(1, 999_999, 2, 1_000), 4_000);
    assert_eq!(filetime_milliseconds(1, 0), 429_496);
    assert_eq!(filetime_milliseconds(0, 9_999), 0);
    assert_eq!(damage_area(&[(2, 3), (4, 5)]), 26);
    assert_eq!(damage_area(&[]), 0);
}
