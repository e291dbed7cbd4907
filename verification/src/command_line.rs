//! The switches with which the browser engine starts.
use crate::accelerated_paint::Platform;
use vstd::prelude::*;
use vstd::string::*;

verus! {

/// A switch, with its value where it takes one.
#[derive(Debug)]
pub struct Switch {
    pub name: String,
    pub value: Option<String>,
}

impl View for Switch {
    type V = (Seq<char>, Option<Seq<char>>);

    open spec fn view(&self) -> (Seq<char>, Option<Seq<char>>) {
        (
            self.name@,
            match self.value {
                Some(value) => Some(value@),
                None => None,
            },
        )
    }
}

/// The names and values of switches.
pub open spec fn views(switches: Seq<Switch>) -> Seq<(Seq<char>, Option<Seq<char>>)> {
    switches.map_values(|switch: Switch| switch@)
}

/// The switches that every engine gets.
pub open spec fn common() -> Seq<(Seq<char>, Option<Seq<char>>)> {
    seq![
        ("use-mock-keychain"@, None),
        ("autoplay-policy"@, Some("no-user-gesture-required"@)),
        ("disable-gpu-sandbox"@, None),
    ]
}

/// The switches that choose the display under Linux. Surfaces can be passed on only with a real
/// one.
pub open spec fn display_switches(platform: Platform, accelerated: bool) -> Seq<
    (Seq<char>, Option<Seq<char>>),
> {
    if platform != Platform::Linux {
        Seq::empty()
    } else if accelerated {
        seq![("ozone-platform"@, Some("x11"@)), ("enable-features"@, Some("Vulkan"@))]
    } else {
        seq![("ozone-platform"@, Some("headless"@))]
    }
}

/// The switches that keep the engine from the graphics processor.
pub open spec fn software_switches(use_gpu: bool) -> Seq<(Seq<char>, Option<Seq<char>>)> {
    if use_gpu {
        Seq::empty()
    } else {
        seq![
            ("disable-gpu"@, None),
            ("disable-gpu-compositing"@, None),
            ("num-raster-threads"@, Some("4"@)),
        ]
    }
}

/// The switches for an engine.
pub open spec fn switches_for(platform: Platform, accelerated: bool, use_gpu: bool) -> Seq<
    (Seq<char>, Option<Seq<char>>),
> {
    common() + display_switches(platform, accelerated) + software_switches(use_gpu)
}

/// A switch without a value.
fn plain(name: &str) -> (switch: Switch)
    ensures
        switch@ == (name@, None::<Seq<char>>),
{
    Switch { name: name.to_owned(), value: None }
}

/// A switch with a value.
fn valued(name: &str, value: &str) -> (switch: Switch)
    ensures
        switch@ == (name@, Some(value@)),
{
    Switch { name: name.to_owned(), value: Some(value.to_owned()) }
}

/// The switches for an engine. `accelerated` says whether surfaces can be passed on under Linux.
pub fn command_line_switches(platform: Platform, accelerated: bool, use_gpu: bool) -> (switches: Vec<
    Switch,
>)
    ensures
        views(switches@) == switches_for(platform, accelerated, use_gpu),
{
    let mut switches: Vec<Switch> = Vec::new();
    switches.push(plain("use-mock-keychain"));
    switches.push(valued("autoplay-policy", "no-user-gesture-required"));
    switches.push(plain("disable-gpu-sandbox"));
    assert(views(switches@) =~= common());
    match platform {
        Platform::Linux => {
            if accelerated {
                switches.push(valued("ozone-platform", "x11"));
                switches.push(valued("enable-features", "Vulkan"));
            } else {
                switches.push(valued("ozone-platform", "headless"));
            }
        },
        _ => {},
    }
    assert(views(switches@) =~= common() + display_switches(platform, accelerated));
    if !use_gpu {
        switches.push(plain("disable-gpu"));
        switches.push(plain("disable-gpu-compositing"));
        switches.push(valued("num-raster-threads", "4"));
    }
    assert(views(switches@) =~= common() + display_switches(platform, accelerated)
        + software_switches(use_gpu));
    switches
}

/// The program that the engine starts for its helper processes.
pub open spec fn helper_path(platform: Platform) -> Seq<char> {
    match platform {
        Platform::MacOs => "../Frameworks/cef-unity-server Helper.app/Contents/MacOS/cef-unity-server Helper"@,
        Platform::Windows => "cef-unity-rust-helper.exe"@,
        Platform::Linux => "cef-unity-rust-helper"@,
    }
}

/// The server's program.
pub open spec fn server_path(platform: Platform) -> Seq<char> {
    match platform {
        Platform::MacOs => "cef-unity-server.app/Contents/MacOS/cef-unity-server"@,
        Platform::Windows => "cef-unity-server.exe"@,
        Platform::Linux => "cef-unity-server"@,
    }
}

/// The program that the engine starts for its helper processes, seen from the directory of the
/// server's own program.
pub fn helper_binary_path(platform: Platform) -> (path: &'static str)
    ensures
        path@ == helper_path(platform),
{
    match platform {
        Platform::MacOs => "../Frameworks/cef-unity-server Helper.app/Contents/MacOS/cef-unity-server Helper",
        Platform::Windows => "cef-unity-rust-helper.exe",
        Platform::Linux => "cef-unity-rust-helper",
    }
}

/// The server's program, seen from the directory of the client's library.
pub fn server_binary_path(platform: Platform) -> (path: &'static str)
    ensures
        path@ == server_path(platform),
{
    match platform {
        Platform::MacOs => "cef-unity-server.app/Contents/MacOS/cef-unity-server",
        Platform::Windows => "cef-unity-server.exe",
        Platform::Linux => "cef-unity-server",
    }
}

/// How the browser engine is set up. Directories are seen from that of the server's own program.
#[derive(Clone, Copy, Debug)]
pub struct EngineSettings {
    pub no_sandbox: bool,
    pub windowless_rendering_enabled: bool,
    pub external_message_pump: bool,
    /// Where the engine itself stands, where it is not linked.
    pub framework_directory: Option<&'static str>,
    pub resources_directory: &'static str,
    /// The directory of translations, which is set only where it exists.
    pub locales_directory: &'static str,
    /// The names of the cache and of the log, both in the directory for temporary files.
    pub cache_name: &'static str,
    pub log_name: &'static str,
    /// Whether the engine logs everything.
    pub verbose_log: bool,
}

/// Whether an engine is set up with the given settings.
pub open spec fn sets_up(platform: Platform, settings: EngineSettings) -> bool {
    &&& settings.no_sandbox
    &&& settings.windowless_rendering_enabled
    &&& settings.external_message_pump
    &&& settings.verbose_log
    &&& settings.cache_name@ == "cef_unity_cache"@
    &&& settings.log_name@ == "cef_debug.log"@
    &&& match platform {
        Platform::MacOs => {
            &&& settings.framework_directory matches Some(directory)
            &&& directory@ == "../Frameworks/Chromium Embedded Framework.framework"@
            &&& settings.resources_directory@
                == "../Frameworks/Chromium Embedded Framework.framework/Resources"@
            &&& settings.locales_directory@
                == "../Frameworks/Chromium Embedded Framework.framework/Resources/locales"@
        },
        _ => {
            &&& settings.framework_directory is None
            &&& settings.resources_directory@ == "."@
            &&& settings.locales_directory@ == "locales"@
        },
    }
}

/// How the browser engine is set up.
pub fn engine_settings(platform: Platform) -> (settings: EngineSettings)
    ensures
        sets_up(platform, settings),
{
    let (framework_directory, resources_directory, locales_directory): (
        Option<&'static str>,
        &'static str,
        &'static str,
    ) = match platform {
        Platform::MacOs => (
            Some("../Frameworks/Chromium Embedded Framework.framework"),
            "../Frameworks/Chromium Embedded Framework.framework/Resources",
            "../Frameworks/Chromium Embedded Framework.framework/Resources/locales",
        ),
        _ => (None, ".", "locales"),
    };
    EngineSettings {
        no_sandbox: true,
        windowless_rendering_enabled: true,
        external_message_pump: true,
        framework_directory,
        resources_directory,
        locales_directory,
        cache_name: "cef_unity_cache",
        log_name: "cef_debug.log",
        verbose_log: true,
    }
}

/// How the engine makes a page.
#[derive(Clone, Copy, Debug, PartialEq, Eq, Structural)]
pub struct PageSettings {
    /// Whether the page is painted as surfaces of the graphics processor.
    pub shared_texture_enabled: bool,
    /// Whether the page is drawn only when it is told to.
    pub external_begin_frame_enabled: bool,
    /// The colour behind the page: alpha, red, green, blue.
    pub background_color: u32,
    /// How often the page may be drawn in a second, where it is not told when.
    pub windowless_frame_rate: i32,
}

/// How the engine makes a page: drawn when it is told to, in front of nothing.
pub fn page_settings(shared_texture: bool) -> (settings: PageSettings)
    ensures
        settings == (PageSettings {
            shared_texture_enabled: shared_texture,
            external_begin_frame_enabled: true,
            background_color: 0,
            windowless_frame_rate: 120,
        }),
{
    PageSettings {
        shared_texture_enabled: shared_texture,
        external_begin_frame_enabled: true,
        background_color: 0,
        windowless_frame_rate: 120,
    }
}

/// The screen on which a page is shown, as the engine is told. Its size is the page's.
#[derive(Clone, Copy, Debug, PartialEq, Eq, Structural)]
pub struct ScreenSettings {
    /// The bits of a pixel.
    pub depth: i32,
    /// The bits of each of its components.
    pub depth_per_component: i32,
    pub is_monochrome: bool,
}

/// The screen on which a page is shown.
pub fn screen_settings() -> (settings: ScreenSettings)
    ensures
        settings == (ScreenSettings { depth: 32, depth_per_component: 8, is_monochrome: false }),
{
    ScreenSettings { depth: 32, depth_per_component: 8, is_monochrome: false }
}

/// Whether a switch is among some, with the given value or without one.
pub open spec fn has_switch(
    switches: Seq<(Seq<char>, Option<Seq<char>>)>,
    name: Seq<char>,
    value: Option<Seq<char>>,
) -> bool {
    exists|i: int| 0 <= i < switches.len() && #[trigger] switches[i] == (name, value)
}

/// Whether a switch is among some, with any value or without one.
pub open spec fn names_switch(
    switches: Seq<(Seq<char>, Option<Seq<char>>)>,
    name: Seq<char>,
) -> bool {
    exists|i: int| 0 <= i < switches.len() && (#[trigger] switches[i]).0 == name
}

/// Every engine may play without being asked, goes without the system's keychain, and leaves the graphics
/// processor out of its sandbox.
pub proof fn law_every_engine_gets_the_common_switches(
    platform: Platform,
    accelerated: bool,
    use_gpu: bool,
)
    ensures
        ({
            let switches = switches_for(platform, accelerated, use_gpu);
            &&& has_switch(switches, "use-mock-keychain"@, None)
            &&& has_switch(switches, "autoplay-policy"@, Some("no-user-gesture-required"@))
            &&& has_switch(switches, "disable-gpu-sandbox"@, None)
        }),
{
    let switches = switches_for(platform, accelerated, use_gpu);
    assert(switches[0] == common()[0]);
    assert(switches[1] == common()[1]);
    assert(switches[2] == common()[2]);
}

/// The engine is kept from the graphics processor just where that is not to be used, on every system; it then
/// draws with four threads.
pub proof fn law_graphics_processor_is_left_alone_where_unwanted(
    platform: Platform,
    accelerated: bool,
    use_gpu: bool,
)
    ensures
        ({
            let switches = switches_for(platform, accelerated, use_gpu);
            &&& !use_gpu ==> has_switch(switches, "disable-gpu"@, None) && has_switch(
                switches,
                "disable-gpu-compositing"@,
                None,
            ) && has_switch(switches, "num-raster-threads"@, Some("4"@))
            &&& use_gpu ==> !names_switch(switches, "disable-gpu"@) && !names_switch(
                switches,
                "disable-gpu-compositing"@,
            ) && !names_switch(switches, "num-raster-threads"@)
        }),
{
    reveal_strlit("use-mock-keychain");
    reveal_strlit("autoplay-policy");
    reveal_strlit("disable-gpu-sandbox");
    reveal_strlit("ozone-platform");
    reveal_strlit("enable-features");
    reveal_strlit("disable-gpu");
    reveal_strlit("disable-gpu-compositing");
    reveal_strlit("num-raster-threads");
    let switches = switches_for(platform, accelerated, use_gpu);
    let front = common() + display_switches(platform, accelerated);
    let count = front.len() as int;
    if !use_gpu {
        assert(switches[count] == software_switches(use_gpu)[0]);
        assert(switches[count + 1] == software_switches(use_gpu)[1]);
        assert(switches[count + 2] == software_switches(use_gpu)[2]);
    } else {
        assert("use-mock-keychain"@[0] == 'u' && "autoplay-policy"@[0] == 'a');
        assert("ozone-platform"@[0] == 'o' && "enable-features"@[0] == 'e');
        assert("disable-gpu"@[0] == 'd' && "num-raster-threads"@[0] == 'n');
        assert("disable-gpu-compositing"@[0] == 'd' && "disable-gpu-sandbox"@[0] == 'd');
        assert("disable-gpu"@.len() == 11 && "disable-gpu-sandbox"@.len() == 19);
        assert("disable-gpu-compositing"@.len() == 23);
    }
}

/// Under Linux the engine draws on a real display where surfaces can be passed on, and on none otherwise; the
/// other systems choose their display themselves.
pub proof fn law_display_is_chosen_under_linux(
    platform: Platform,
    accelerated: bool,
    use_gpu: bool,
)
    ensures
        has_switch(switches_for(Platform::Linux, true, use_gpu), "ozone-platform"@, Some("x11"@)),
        has_switch(switches_for(Platform::Linux, true, use_gpu), "enable-features"@, Some("Vulkan"@)),
        has_switch(
            switches_for(Platform::Linux, false, use_gpu),
            "ozone-platform"@,
            Some("headless"@),
        ),
        platform != Platform::Linux ==> !names_switch(
            switches_for(platform, accelerated, use_gpu),
            "ozone-platform"@,
        ),
{
    reveal_strlit("use-mock-keychain");
    reveal_strlit("autoplay-policy");
    reveal_strlit("disable-gpu-sandbox");
    reveal_strlit("ozone-platform");
    reveal_strlit("disable-gpu");
    reveal_strlit("disable-gpu-compositing");
    reveal_strlit("num-raster-threads");
    assert(switches_for(Platform::Linux, true, use_gpu)[3] == ("ozone-platform"@, Some("x11"@)));
    assert(switches_for(Platform::Linux, true, use_gpu)[4] == ("enable-features"@, Some("Vulkan"@)));
    assert(switches_for(Platform::Linux, false, use_gpu)[3] == (
        "ozone-platform"@,
        Some("headless"@),
    ));
    assert("use-mock-keychain"@[0] == 'u' && "autoplay-policy"@[0] == 'a');
    assert("disable-gpu-sandbox"@[0] == 'd' && "ozone-platform"@[0] == 'o');
    assert("disable-gpu"@[0] == 'd' && "num-raster-threads"@[0] == 'n');
    assert("disable-gpu-compositing"@[0] == 'd');
}

/// Under Windows programs are named as under Linux, with an ending of their own. The server's program and that
/// of its helpers are never the same.
pub proof fn law_programs_differ(platform: Platform)
    ensures
        server_path(Platform::Windows) == server_path(Platform::Linux) + ".exe"@,
        helper_path(Platform::Windows) == helper_path(Platform::Linux) + ".exe"@,
        server_path(platform) != helper_path(platform),
        server_path(Platform::MacOs) == server_path(Platform::Linux) + ".app/Contents/MacOS/"@
            + server_path(Platform::Linux),
        helper_path(Platform::MacOs) == "../Frameworks/"@ + (server_path(Platform::Linux) + " Helper"@)
            + ".app/Contents/MacOS/"@ + (server_path(Platform::Linux) + " Helper"@),
{
    reveal_strlit("cef-unity-server");
    reveal_strlit("cef-unity-server.exe");
    reveal_strlit("cef-unity-server.app/Contents/MacOS/cef-unity-server");
    reveal_strlit("cef-unity-rust-helper");
    reveal_strlit("cef-unity-rust-helper.exe");
    reveal_strlit(
        "../Frameworks/cef-unity-server Helper.app/Contents/MacOS/cef-unity-server Helper",
    );
    reveal_strlit(".exe");
    reveal_strlit(".app/Contents/MacOS/");
    reveal_strlit("../Frameworks/");
    reveal_strlit(" Helper");
    assert(server_path(Platform::Windows) =~= server_path(Platform::Linux) + ".exe"@);
    assert(helper_path(Platform::Windows) =~= helper_path(Platform::Linux) + ".exe"@);
    assert(server_path(Platform::MacOs) =~= server_path(Platform::Linux) + ".app/Contents/MacOS/"@
        + server_path(Platform::Linux));
    assert(helper_path(Platform::MacOs) =~= "../Frameworks/"@ + (server_path(Platform::Linux)
        + " Helper"@) + ".app/Contents/MacOS/"@ + (server_path(Platform::Linux) + " Helper"@));
    assert(server_path(Platform::Linux).len() == 16 && helper_path(Platform::Linux).len() == 21);
}

/// Every engine draws without a window, is pumped from outside and logs everything, and its sandbox is off.
/// Where it is not linked it stands in a directory, its resources stand in there, and its translations stand
/// in that of the resources.
pub proof fn law_engine_finds_its_resources(platform: Platform, settings: EngineSettings)
    requires
        sets_up(platform, settings),
    ensures
        settings.no_sandbox && settings.windowless_rendering_enabled
            && settings.external_message_pump && settings.verbose_log,
        settings.framework_directory is Some <==> platform == Platform::MacOs,
        settings.framework_directory matches Some(directory) ==> settings.resources_directory@
            == directory@ + "/Resources"@ && settings.locales_directory@
            == settings.resources_directory@ + "/locales"@,
        platform != Platform::MacOs ==> settings.resources_directory@ == "."@
            && settings.locales_directory@ == "locales"@,
        settings.cache_name@ != settings.log_name@,
{
    reveal_strlit("../Frameworks/Chromium Embedded Framework.framework");
    reveal_strlit("../Frameworks/Chromium Embedded Framework.framework/Resources");
    reveal_strlit("../Frameworks/Chromium Embedded Framework.framework/Resources/locales");
    reveal_strlit("/Resources");
    reveal_strlit("/locales");
    reveal_strlit("cef_unity_cache");
    reveal_strlit("cef_debug.log");
    assert("../Frameworks/Chromium Embedded Framework.framework/Resources"@
        =~= "../Frameworks/Chromium Embedded Framework.framework"@ + "/Resources"@);
    assert("../Frameworks/Chromium Embedded Framework.framework/Resources/locales"@
        =~= "../Frameworks/Chromium Embedded Framework.framework/Resources"@ + "/locales"@);
    assert("cef_unity_cache"@.len() == 15 && "cef_debug.log"@.len() == 13);
}

} // verus!
