//! What becomes of a paint: into shared memory, or as a surface of the graphics processor.
use crate::bytes;
use crate::bytes::as_unsigned;
use crate::frames;
use crate::server::Viewport;
use crate::shared_memory::paint_fits;
use vstd::prelude::*;
use vstd::string::*;

verus! {

/// The pixels of a surface hold blue, green, red, alpha.
pub const DRM_FORMAT_ARGB8888: u32 = 0x3432_5241;

/// The pixels of a surface hold red, green, blue, alpha.
pub const DRM_FORMAT_ABGR8888: u32 = 0x3432_4241;

/// The system that the server runs on.
#[derive(Clone, Copy, Debug, PartialEq, Eq, Structural)]
pub enum Platform {
    MacOs,
    Windows,
    Linux,
}

/// A rectangle of the page.
#[derive(Clone, Copy, Debug, PartialEq, Eq, Structural)]
pub struct PageRect {
    pub x: i32,
    pub y: i32,
    pub width: i32,
    pub height: i32,
}

/// The rectangle that a page fills.
pub fn view_rect(viewport: Viewport) -> (rect: PageRect)
    ensures
        rect == (PageRect { x: 0, y: 0, width: viewport.width, height: viewport.height }),
{
    PageRect { x: 0, y: 0, width: viewport.width, height: viewport.height }
}

/// The count after one more; after the largest number it starts over.
pub open spec fn next_count(count: u64) -> u64 {
    if count == u64::MAX {
        0
    } else {
        (count + 1) as u64
    }
}

/// The number of paints so far.
#[derive(Clone, Copy, Debug, PartialEq, Eq, Structural)]
pub struct PaintCount {
    pub count: u64,
}

impl PaintCount {
    /// Before the first paint.
    pub fn new() -> (count: PaintCount)
        ensures
            count.count == 0,
    {
        PaintCount { count: 0 }
    }

    /// Counts a paint. After the largest number the count starts over.
    pub fn painted(&mut self) -> (count: u64)
        ensures
            count == final(self).count,
            final(self).count == next_count(old(self).count),
    {
        self.count = if self.count == u64::MAX {
            0
        } else {
            self.count + 1
        };
        self.count
    }
}

/// Whether the paint of the given number is logged.
pub open spec fn is_logged(count: u64, first: u64, every: u64) -> bool {
    count <= first || count % every == 0
}

/// Whether the paint of the given number is logged: the first few, and then one in so many.
pub fn logs_paint(count: u64, first: u64, every: u64) -> (logged: bool)
    requires
        every > 0,
    ensures
        logged == is_logged(count, first, every),
{
    count <= first || count % every == 0
}

/// What is to be done with pixels that the browser engine painted.
#[derive(Clone, Copy, Debug, PartialEq, Eq, Structural)]
pub enum PaintStep {
    /// They are not the page's.
    NotThePage,
    /// There is no room for so many.
    DoesNotFit,
    /// They go into shared memory.
    Write { width: u32, height: u32 },
}

/// What is to be done with pixels that the browser engine painted.
pub open spec fn paint_step(is_view: bool, width: i32, height: i32) -> PaintStep {
    if !is_view {
        PaintStep::NotThePage
    } else if 0 < width <= frames::MAX_WIDTH && 0 < height <= frames::MAX_HEIGHT {
        PaintStep::Write { width: width as u32, height: height as u32 }
    } else {
        PaintStep::DoesNotFit
    }
}

/// Decides about painted pixels. A popup's are left out, and so is a page that is empty or larger
/// than the shared memory.
pub fn on_paint(is_view: bool, width: i32, height: i32) -> (step: PaintStep)
    ensures
        step == paint_step(is_view, width, height),
{
    if !is_view {
        return PaintStep::NotThePage;
    }
    if !paint_fits(width, height) {
        return PaintStep::DoesNotFit;
    }
    PaintStep::Write { width: width as u32, height: height as u32 }
}

/// What the browser engine says of a painted surface.
#[derive(Clone, Copy, Debug, PartialEq, Eq, Structural)]
pub struct SurfaceFacts {
    /// Whether the surface is the page's.
    pub is_view: bool,
    /// Whether the engine describes the surface at all.
    pub described: bool,
    /// Whether the surface can be got hold of.
    pub present: bool,
    pub plane_count: i32,
    pub width: u32,
    pub height: u32,
    /// Whether the pixels begin with red.
    pub rgba: bool,
    /// Whether there is a pool of surfaces to copy into.
    pub pool: bool,
}

/// Why a surface is not passed on.
#[derive(Clone, Copy, Debug, PartialEq, Eq, Structural)]
pub enum PaintProblem {
    NotDescribed,
    SeveralPlanes,
    NotDuplicated,
    NoPool,
    BlitFailed,
    NoOutput,
}

impl PaintProblem {
    /// The problem in words.
    pub open spec fn words(self) -> Seq<char> {
        match self {
            PaintProblem::NotDescribed => "info=None"@,
            PaintProblem::SeveralPlanes => "plane_count が 1 ではない"@,
            PaintProblem::NotDuplicated => "fd を複製できない"@,
            PaintProblem::NoPool => "プールが無い"@,
            PaintProblem::BlitFailed => "blit に失敗"@,
            PaintProblem::NoOutput => "出力記述子が取れない"@,
        }
    }

    /// The problem in words.
    pub fn reason(self) -> (reason: &'static str)
        ensures
            reason@ == self.words(),
    {
        match self {
            PaintProblem::NotDescribed => "info=None",
            PaintProblem::SeveralPlanes => "plane_count が 1 ではない",
            PaintProblem::NotDuplicated => "fd を複製できない",
            PaintProblem::NoPool => "プールが無い",
            PaintProblem::BlitFailed => "blit に失敗",
            PaintProblem::NoOutput => "出力記述子が取れない",
        }
    }
}

/// What is to be done with a painted surface.
#[derive(Clone, Copy, Debug, PartialEq, Eq, Structural)]
pub enum SurfaceStep {
    Ignore,
    Report { problem: PaintProblem },
    /// The surface is to be copied; `format` is 1 where its pixels begin with red and 0 otherwise,
    /// and `fourcc` says the same as the graphics driver does.
    Copy { width: u32, height: u32, format: u32, fourcc: u32 },
}

/// The number of a pixel order: 1 where red comes first.
pub open spec fn format_tag(rgba: bool) -> u32 {
    if rgba {
        1
    } else {
        0
    }
}

/// The graphics driver's number of a pixel order.
pub open spec fn fourcc(rgba: bool) -> u32 {
    if rgba {
        DRM_FORMAT_ABGR8888
    } else {
        DRM_FORMAT_ARGB8888
    }
}

/// What is to be done with a painted surface.
pub open spec fn surface_step(platform: Platform, facts: SurfaceFacts) -> SurfaceStep {
    let copy = SurfaceStep::Copy {
        width: facts.width,
        height: facts.height,
        format: format_tag(facts.rgba),
        fourcc: fourcc(facts.rgba),
    };
    if !facts.is_view {
        SurfaceStep::Ignore
    } else {
        match platform {
            Platform::Linux => if !facts.described {
                SurfaceStep::Report { problem: PaintProblem::NotDescribed }
            } else if facts.plane_count != 1 {
                SurfaceStep::Report { problem: PaintProblem::SeveralPlanes }
            } else if !facts.present {
                SurfaceStep::Report { problem: PaintProblem::NotDuplicated }
            } else if !facts.pool {
                SurfaceStep::Report { problem: PaintProblem::NoPool }
            } else {
                copy
            },
            Platform::MacOs => if facts.described && facts.present {
                copy
            } else {
                SurfaceStep::Ignore
            },
            Platform::Windows => if facts.described && facts.present && facts.pool && facts.width
                != 0 && facts.height != 0 {
                copy
            } else {
                SurfaceStep::Ignore
            },
        }
    }
}

/// Decides about a painted surface. Linux says why a surface is not passed on; the other systems
/// drop it without a word.
pub fn on_accelerated_paint(platform: Platform, facts: &SurfaceFacts) -> (step: SurfaceStep)
    ensures
        step == surface_step(platform, *facts),
{
    if !facts.is_view {
        return SurfaceStep::Ignore;
    }
    match platform {
        Platform::Linux => {
            if !facts.described {
                return SurfaceStep::Report { problem: PaintProblem::NotDescribed };
            }
            if facts.plane_count != 1 {
                return SurfaceStep::Report { problem: PaintProblem::SeveralPlanes };
            }
            if !facts.present {
                return SurfaceStep::Report { problem: PaintProblem::NotDuplicated };
            }
            if !facts.pool {
                return SurfaceStep::Report { problem: PaintProblem::NoPool };
            }
        },
        Platform::MacOs => {
            if !facts.described || !facts.present {
                return SurfaceStep::Ignore;
            }
        },
        Platform::Windows => {
            if !facts.described || !facts.present || !facts.pool || facts.width == 0 || facts.height
                == 0 {
                return SurfaceStep::Ignore;
            }
        },
    }
    SurfaceStep::Copy {
        width: facts.width,
        height: facts.height,
        format: if facts.rgba {
            1
        } else {
            0
        },
        fourcc: if facts.rgba {
            DRM_FORMAT_ABGR8888
        } else {
            DRM_FORMAT_ARGB8888
        },
    }
}

/// What became of starting a copy.
#[derive(Clone, Copy, Debug, PartialEq, Eq, Structural)]
pub enum CopySubmission {
    Started,
    /// Too many copies are under way; this one was dropped.
    Dropped,
    Failed,
}

/// What the result of starting a copy says.
pub open spec fn submission_of(result: i32) -> CopySubmission {
    if result < 0 {
        CopySubmission::Failed
    } else if result == 0 {
        CopySubmission::Dropped
    } else {
        CopySubmission::Started
    }
}

/// Reads the result of starting a copy.
pub fn copy_submission(result: i32) -> (submission: CopySubmission)
    ensures
        submission == submission_of(result),
{
    if result < 0 {
        CopySubmission::Failed
    } else if result == 0 {
        CopySubmission::Dropped
    } else {
        CopySubmission::Started
    }
}

/// Whether surfaces can be passed on under Linux.
pub open spec fn linux_passes_surfaces(
    use_gpu: bool,
    display: Option<Seq<char>>,
    pool_available: bool,
) -> bool {
    use_gpu && (display matches Some(name) && name.len() > 0) && pool_available
}

/// Whether surfaces can be passed on under Linux: the graphics processor is wanted, there is a
/// display, and there is a pool.
pub fn linux_accelerated_paint_available(
    use_gpu: bool,
    display: Option<&str>,
    pool_available: bool,
) -> (available: bool)
    ensures
        available == linux_passes_surfaces(
            use_gpu,
            match display {
                Some(name) => Some(name@),
                None => None,
            },
            pool_available,
        ),
{
    let displayed: bool = match display {
        Some(name) => !name.is_empty(),
        None => false,
    };
    use_gpu && displayed && pool_available
}

/// Whether a browser is created to paint surfaces.
pub open spec fn paints_surfaces(
    platform: Platform,
    use_gpu: bool,
    texture_pool: bool,
    linux_available: bool,
) -> bool {
    match platform {
        Platform::MacOs => use_gpu,
        Platform::Windows => texture_pool,
        Platform::Linux => linux_available,
    }
}

/// Whether a browser is created to paint surfaces. Windows needs a pool of textures for that, Linux
/// all that passing surfaces on needs there.
pub fn shared_texture_enabled(
    platform: Platform,
    use_gpu: bool,
    texture_pool: bool,
    linux_available: bool,
) -> (enabled: bool)
    ensures
        enabled == paints_surfaces(platform, use_gpu, texture_pool, linux_available),
{
    match platform {
        Platform::MacOs => use_gpu,
        Platform::Windows => texture_pool,
        Platform::Linux => linux_available,
    }
}

/// The format of the audio that the engine is asked for: two channels, so many samples a second,
/// so many frames at a time.
pub const AUDIO_SAMPLE_RATE: i32 = 48_000;

/// See `AUDIO_SAMPLE_RATE`.
pub const AUDIO_FRAMES_PER_BUFFER: i32 = 512;

/// The rate and the number of channels of an audio stream that has begun.
pub open spec fn format_of_stream(sample_rate: Option<i32>, channels: i32) -> (u32, u32) {
    (
        match sample_rate {
            Some(rate) => bytes::twos_complement(rate),
            None => 48_000,
        },
        if channels < 0 {
            0
        } else {
            channels as u32
        },
    )
}

/// The format of an audio stream that has begun. Where the engine names no rate, it is the one that
/// was asked for.
pub fn stream_format(sample_rate: Option<i32>, channels: i32) -> (format: (u32, u32))
    ensures
        format == format_of_stream(sample_rate, channels),
{
    let rate: i32 = match sample_rate {
        Some(rate) => rate,
        None => AUDIO_SAMPLE_RATE,
    };
    let count: u32 = if channels < 0 {
        0
    } else {
        channels as u32
    };
    (as_unsigned(rate), count)
}

/// Whether a packet of audio holds anything.
pub open spec fn carries_audio(present: bool, frames: i32, channels: usize) -> bool {
    present && frames > 0 && channels != 0
}

/// Whether a packet of audio is passed on.
pub fn packet_is_written(present: bool, frames: i32, channels: usize) -> (written: bool)
    ensures
        written == carries_audio(present, frames, channels),
{
    present && frames > 0 && channels != 0
}

/// Every paint counts for one, and after the largest number the count starts over.
pub proof fn law_paints_are_counted_one_by_one(count: u64)
    ensures
        (next_count(count) - count) % 0x1_0000_0000_0000_0000 == 1,
{
}

/// The first paints are all logged, and of the later ones just those whose number is a multiple of
/// `every`.
pub proof fn law_one_paint_in_so_many_is_logged(count: u64, first: u64, every: u64)
    requires
        every > 0,
    ensures
        count <= first ==> is_logged(count, first, every),
        count > first ==> (is_logged(count, first, every) <==> exists|times: int|
            count == #[trigger] (times * every)),
{
    if count > first {
        if is_logged(count, first, every) {
            vstd::arithmetic::div_mod::lemma_fundamental_div_mod(count as int, every as int);
            let times = (count / every) as int;
            assert(count == times * every) by (nonlinear_arith)
                requires
                    count == every * (count as int / every as int) + count as int % every as int,
                    count as int % every as int == 0,
                    times == count as int / every as int,
            ;
        }
        if exists|times: int| count == #[trigger] (times * every) {
            let times = choose|times: int| count == #[trigger] (times * every);
            vstd::arithmetic::div_mod::lemma_mod_multiples_basic(times, every as int);
        }
    }
}

/// Pixels of the page go into shared memory at their own size if they fill at least one pixel and at
/// most 3840 by 2160; those of another size are not cut but left out, and those of a popup whatever
/// their size.
pub proof fn law_page_that_fits_is_written(width: i32, height: i32)
    ensures
        1 <= width <= 3840 && 1 <= height <= 2160 ==> (paint_step(
            true,
            width,
            height,
        ) matches PaintStep::Write { width: w, height: h } && w == width && h == height),
        width < 1 || width > 3840 || height < 1 || height > 2160 ==> paint_step(true, width, height)
            == PaintStep::DoesNotFit,
        paint_step(false, width, height) == PaintStep::NotThePage,
{
}

/// A surface of the page that can be got hold of is copied at its own size, whatever that is, and with its
/// own order of colours. Linux wants it in one plane and, like Windows, a pool to copy into; Windows wants it
/// not to be empty.
pub proof fn law_surface_of_the_page_is_copied(platform: Platform, facts: SurfaceFacts)
    requires
        facts.is_view,
        facts.described,
        facts.present,
        platform == Platform::Linux ==> facts.plane_count == 1 && facts.pool,
        platform == Platform::Windows ==> facts.pool && facts.width > 0 && facts.height > 0,
    ensures
        ({
            &&& surface_step(platform, facts) matches SurfaceStep::Copy {
                width,
                height,
                format,
                fourcc,
            }
            &&& width == facts.width
            &&& height == facts.height
            &&& facts.rgba ==> format == 1 && fourcc == 0x3432_4241
            &&& !facts.rgba ==> format == 0 && fourcc == 0x3432_5241
        }),
{
}

/// A surface that is not the page's is dropped without a word on every system.
pub proof fn law_popup_surface_is_ignored(platform: Platform, facts: SurfaceFacts)
    requires
        !facts.is_view,
    ensures
        surface_step(platform, facts) == SurfaceStep::Ignore,
{
}

/// Where a surface of the page cannot be copied, Linux says what is missing, the first thing first; the
/// other systems drop it without a word.
pub proof fn law_unusable_surface_is_reported_or_dropped(facts: SurfaceFacts)
    requires
        facts.is_view,
    ensures
        !facts.described ==> surface_step(Platform::Linux, facts) == (SurfaceStep::Report {
            problem: PaintProblem::NotDescribed,
        }),
        facts.described && facts.plane_count != 1 ==> surface_step(Platform::Linux, facts)
            == (SurfaceStep::Report { problem: PaintProblem::SeveralPlanes }),
        facts.described && facts.plane_count == 1 && !facts.present ==> surface_step(
            Platform::Linux,
            facts,
        ) == (SurfaceStep::Report { problem: PaintProblem::NotDuplicated }),
        facts.described && facts.plane_count == 1 && facts.present && !facts.pool ==> surface_step(
            Platform::Linux,
            facts,
        ) == (SurfaceStep::Report { problem: PaintProblem::NoPool }),
        !facts.described || !facts.present ==> surface_step(Platform::MacOs, facts)
            == SurfaceStep::Ignore && surface_step(Platform::Windows, facts)
            == SurfaceStep::Ignore,
        !facts.pool || facts.width == 0 || facts.height == 0 ==> surface_step(
            Platform::Windows,
            facts,
        ) == SurfaceStep::Ignore,
{
}

/// A copy has started if the result is positive, was dropped if it is zero, and has failed if it is
/// negative.
pub proof fn law_result_of_a_copy_is_read_by_its_sign(result: i32)
    ensures
        submission_of(result) == CopySubmission::Started <==> result > 0,
        submission_of(result) == CopySubmission::Dropped <==> result == 0,
        submission_of(result) == CopySubmission::Failed <==> result < 0,
{
}

/// Under Linux surfaces are passed on only with all three: the wish for the graphics processor, a display
/// with a name, and a pool. Any one missing is enough to prevent it.
pub proof fn law_linux_needs_all_three(
    use_gpu: bool,
    display: Option<Seq<char>>,
    pool_available: bool,
)
    ensures
        !use_gpu ==> !linux_passes_surfaces(use_gpu, display, pool_available),
        !pool_available ==> !linux_passes_surfaces(use_gpu, display, pool_available),
        display is None ==> !linux_passes_surfaces(use_gpu, display, pool_available),
        display matches Some(name) ==> linux_passes_surfaces(true, display, true) == (name.len() != 0),
{
}

/// Each system has one condition for painting surfaces, and the others do not matter to it.
pub proof fn law_each_system_has_one_condition(wanted: bool, other: bool, another: bool)
    ensures
        paints_surfaces(Platform::MacOs, wanted, other, another) == wanted,
        paints_surfaces(Platform::Windows, other, wanted, another) == wanted,
        paints_surfaces(Platform::Linux, other, another, wanted) == wanted,
{
}

/// A stream has the rate and the channels that the engine names. Without a rate it has the usual one, and
/// less than no channel is none.
pub proof fn law_stream_has_the_format_that_is_named(sample_rate: i32, channels: i32)
    ensures
        sample_rate >= 0 ==> format_of_stream(Some(sample_rate), channels).0 == sample_rate,
        format_of_stream(None, channels).0 == 48_000,
        channels >= 0 ==> format_of_stream(Some(sample_rate), channels).1 == channels
            && format_of_stream(None, channels).1 == channels,
        channels < 0 ==> format_of_stream(Some(sample_rate), channels).1 == 0 && format_of_stream(
            None,
            channels,
        ).1 == 0,
{
}

/// A packet of audio is passed on if it is there and holds at least one frame of at least one channel.
pub proof fn law_empty_packets_are_left_out(present: bool, frames: i32, channels: usize)
    ensures
        present && frames >= 1 && channels >= 1 ==> carries_audio(present, frames, channels),
        !present || frames <= 0 || channels == 0 ==> !carries_audio(present, frames, channels),
{
}

} // verus!
