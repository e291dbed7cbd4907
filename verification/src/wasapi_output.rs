//! Playing audio through the system mixer: the mixer's format, and what goes into its buffer.
//!
//! Samples are carried as the bits of their floating-point numbers; the volume is applied by the
//! caller.
use crate::text;
use crate::text::push_decimal;
use vstd::arithmetic::mul::*;
use vstd::prelude::*;

verus! {

/// Marks a format of floating-point samples.
pub const WAVE_FORMAT_IEEE_FLOAT: u16 = 0x0003;

/// Marks a format that is described further.
pub const WAVE_FORMAT_EXTENSIBLE: u16 = 0xFFFE;

/// Whether a format is one of floating-point samples.
pub open spec fn is_float(tag: u16, sub_format: u32) -> bool {
    tag == WAVE_FORMAT_IEEE_FLOAT || tag == WAVE_FORMAT_EXTENSIBLE && sub_format
        == WAVE_FORMAT_IEEE_FLOAT
}

/// Whether a format is one of floating-point samples. `sub_format` is the first part of the further
/// description, which counts only where there is one.
pub fn format_is_float(tag: u16, sub_format: u32) -> (float: bool)
    ensures
        float == is_float(tag, sub_format),
{
    tag == WAVE_FORMAT_IEEE_FLOAT || tag == WAVE_FORMAT_EXTENSIBLE && sub_format
        == WAVE_FORMAT_IEEE_FLOAT as u32
}

/// How long so many frames take, in units of a hundred nanoseconds, rounded down.
pub open spec fn duration_of(frames: u32, device_rate: u32) -> int {
    frames * 10_000_000 / device_rate as int
}

/// How long so many frames take, in units of a hundred nanoseconds, rounded down.
pub fn requested_duration(frames: u32, device_rate: u32) -> (duration: i64)
    requires
        device_rate > 0,
    ensures
        duration == duration_of(frames, device_rate),
{
    let scaled: u64 = frames as u64 * 10_000_000;
    let duration: u64 = scaled / device_rate as u64;
    assert(duration <= scaled) by (nonlinear_arith)
        requires
            duration == scaled / device_rate as u64,
            device_rate > 0,
    ;
    duration as i64
}

/// How opening the mixer came out.
#[derive(Clone, Copy, Debug, PartialEq, Eq, Structural)]
pub enum OpenOutcome {
    /// The mixer is open; `autoconvert` says whether it converts rates itself.
    Opened { autoconvert: bool },
    /// The mixer took neither form of request.
    Refused,
    /// The mixer's samples are not floating-point numbers.
    NotFloat,
}

/// How opening the mixer came out.
pub open spec fn opening(
    with_autoconvert: bool,
    without_autoconvert: bool,
    is_float: bool,
) -> OpenOutcome {
    if !with_autoconvert && !without_autoconvert {
        OpenOutcome::Refused
    } else if !is_float {
        OpenOutcome::NotFloat
    } else {
        OpenOutcome::Opened { autoconvert: with_autoconvert }
    }
}

/// Judges how opening the mixer came out. The mixer is first asked to convert rates itself and,
/// where it refuses, without that.
pub fn open_outcome(with_autoconvert: bool, without_autoconvert: bool, is_float: bool) -> (outcome:
    OpenOutcome)
    ensures
        outcome == opening(with_autoconvert, without_autoconvert, is_float),
{
    if !with_autoconvert && !without_autoconvert {
        OpenOutcome::Refused
    } else if !is_float {
        OpenOutcome::NotFloat
    } else {
        OpenOutcome::Opened { autoconvert: with_autoconvert }
    }
}

/// What is said of a mixer whose samples are not floating-point numbers.
pub fn unsupported_format(tag: u16) -> (message: String)
    ensures
        message@ == "unsupported mixer format (not IEEE float): wFormatTag="@ + text::decimal(
            tag as nat,
        ),
{
    let mut message: String = String::new();
    message.append("unsupported mixer format (not IEEE float): wFormatTag=");
    push_decimal(&mut message, tag as u64);
    assert(message@ =~= "unsupported mixer format (not IEEE float): wFormatTag="@ + text::decimal(
        tag as nat,
    ));
    message
}

/// Whether the rates of source and mixer are matched here.
pub open spec fn needs_resampling(autoconvert: bool, device_rate: u32) -> bool {
    !autoconvert && device_rate != 0
}

/// Whether the rates of source and mixer are matched here. Otherwise frames are read one by one.
pub fn resamples(autoconvert: bool, device_rate: u32) -> (needed: bool)
    ensures
        needed == needs_resampling(autoconvert, device_rate),
{
    !autoconvert && device_rate != 0
}

/// What is to be done when the mixer may want more.
#[derive(Clone, Copy, Debug, PartialEq, Eq, Structural)]
pub enum RenderStep {
    Stop,
    Wait,
    Render { frames: u32 },
}

/// What is to be done when the mixer may want more.
pub open spec fn rendering(
    stopped: bool,
    signalled: bool,
    buffer_frames: u32,
    padding: u32,
) -> RenderStep {
    if stopped && !signalled {
        RenderStep::Stop
    } else if !signalled || padding >= buffer_frames {
        RenderStep::Wait
    } else {
        RenderStep::Render { frames: (buffer_frames - padding) as u32 }
    }
}

/// Decides what is to be done next. `signalled` says whether the mixer asked for more, `padding`
/// how many frames of its buffer are still to be played.
pub fn render_step(stopped: bool, signalled: bool, buffer_frames: u32, padding: u32) -> (step:
    RenderStep)
    ensures
        step == rendering(stopped, signalled, buffer_frames, padding),
{
    if !signalled {
        return if stopped {
            RenderStep::Stop
        } else {
            RenderStep::Wait
        };
    }
    if padding >= buffer_frames {
        RenderStep::Wait
    } else {
        RenderStep::Render { frames: buffer_frames - padding }
    }
}

/// The sample for a channel of the device: that of the same channel of the source, of the only
/// channel where the source has one, and silence otherwise.
pub open spec fn mapped_sample(
    source: Seq<u32>,
    source_channels: int,
    frame: int,
    channel: int,
) -> u32 {
    if channel < source_channels {
        source[frame * source_channels + channel]
    } else if source_channels == 1 {
        source[frame]
    } else {
        0
    }
}

/// The number of channels that source and device have in common.
pub open spec fn shared_channels(source_channels: int, device_channels: int) -> int {
    if source_channels < device_channels {
        source_channels
    } else {
        device_channels
    }
}

/// What the device is given after so many of its samples were set.
pub open spec fn mapped(
    source: Seq<u32>,
    before: Seq<u32>,
    source_channels: int,
    device_channels: int,
    samples: int,
) -> Seq<u32> {
    Seq::new(
        before.len(),
        |i: int|
            if i < samples {
                mapped_sample(source, source_channels, i / device_channels, i % device_channels)
            } else {
                before[i]
            },
    )
}

/// Sets every sample to silence.
fn silence(destination: &mut [u32])
    ensures
        final(destination)@ == Seq::new(old(destination)@.len(), |i: int| 0u32),
{
    let length: usize = destination.len();
    let mut index: usize = 0;
    while index < length
        invariant
            index <= length,
            length == destination@.len(),
            length == destination.len(),
            destination@.len() == old(destination)@.len(),
            forall|i: int| 0 <= i < index ==> destination@[i] == 0,
        decreases length - index,
    {
        destination[index] = 0;
        index += 1;
    }
    assert(destination@ =~= Seq::new(old(destination)@.len(), |i: int| 0u32));
}

/// Fits frames to the number of channels of the device. Where either side has no channel,
/// everything is silence.
pub fn copy_with_channel_mapping(
    source: &[u32],
    destination: &mut [u32],
    frames: usize,
    source_channels: usize,
    device_channels: usize,
)
    requires
        source_channels != 0 && device_channels != 0 && frames != 0 ==> {
            &&& (frames - 1) * source_channels + shared_channels(
                source_channels as int,
                device_channels as int,
            ) <= source.len()
            &&& frames * device_channels <= old(destination).len()
        },
    ensures
        final(destination)@ == if source_channels == 0 || device_channels == 0 {
            Seq::new(old(destination)@.len(), |i: int| 0u32)
        } else {
            mapped(
                source@,
                old(destination)@,
                source_channels as int,
                device_channels as int,
                frames * device_channels,
            )
        },
{
    if source_channels == 0 || device_channels == 0 {
        silence(destination);
        return;
    }
    let ghost before = destination@;
    let ghost common = shared_channels(source_channels as int, device_channels as int);
    let mut frame: usize = 0;
    let mut source_base: usize = 0;
    let mut destination_base: usize = 0;
    assert(destination@ =~= mapped(
        source@,
        before,
        source_channels as int,
        device_channels as int,
        0,
    ));
    while frame < frames
        invariant
            frame <= frames,
            source_channels > 0,
            device_channels > 0,
            common == shared_channels(source_channels as int, device_channels as int),
            frames > 0 ==> (frames - 1) * source_channels + common <= source.len(),
            source.len() == source@.len(),
            frames > 0 ==> frames * device_channels <= before.len(),
            destination.len() == destination@.len(),
            before.len() == destination@.len(),
            frame < frames ==> source_base == frame * source_channels,
            destination_base == frame * device_channels,
            destination@ == mapped(
                source@,
                before,
                source_channels as int,
                device_channels as int,
                destination_base as int,
            ),
        decreases frames - frame,
    {
        proof {
            lemma_mul_inequality(frame as int, frames - 1, source_channels as int);
            lemma_mul_inequality(frame + 1, frames as int, device_channels as int);
            lemma_mul_is_distributive_add_other_way(source_channels as int, frame as int, 1);
            lemma_mul_is_distributive_add_other_way(device_channels as int, frame as int, 1);
        }
        let mut channel: usize = 0;
        while channel < device_channels
            invariant
                channel <= device_channels,
                frame < frames,
                source_channels > 0,
                device_channels > 0,
                source.len() == source@.len(),
                destination.len() == destination@.len(),
                before.len() == destination@.len(),
                source_base == frame * source_channels,
                destination_base == frame * device_channels,
                common == shared_channels(source_channels as int, device_channels as int),
                source_base + common <= source.len(),
                destination_base + device_channels <= destination.len(),
                destination@ == mapped(
                    source@,
                    before,
                    source_channels as int,
                    device_channels as int,
                    destination_base + channel,
                ),
            decreases device_channels - channel,
        {
            let sample: u32 = if channel < source_channels {
                source[source_base + channel]
            } else if source_channels == 1 {
                source[source_base]
            } else {
                0
            };
            proof {
                lemma_mul_basics(frame as int);
                vstd::arithmetic::div_mod::lemma_fundamental_div_mod_converse(
                    destination_base + channel,
                    device_channels as int,
                    frame as int,
                    channel as int,
                );
            }
            destination[destination_base + channel] = sample;
            assert(destination@ =~= mapped(
                source@,
                before,
                source_channels as int,
                device_channels as int,
                destination_base + channel + 1,
            ));
            channel += 1;
        }
        frame += 1;
        if frame < frames {
            proof {
                lemma_mul_inequality(frame as int, frames - 1, source_channels as int);
            }
            source_base += source_channels;
        }
        destination_base += device_channels;
    }
}

/// Between devices with the same number of channels the frames stay as they are.
pub proof fn law_same_channels_pass_through(source: Seq<u32>, before: Seq<u32>, channels: int)
    requires
        channels > 0,
        source.len() == before.len(),
    ensures
        mapped(source, before, channels, channels, source.len() as int) == source,
{
    let result = mapped(source, before, channels, channels, source.len() as int);
    assert forall|i: int| 0 <= i < source.len() implies result[i] == source[i] by {
        vstd::arithmetic::div_mod::lemma_fundamental_div_mod(i, channels);
        lemma_mul_is_commutative(channels, i / channels);
    }
    assert(result =~= source);
}

/// A format is one of floating-point samples if it is marked so, or if it is marked as described further and
/// the description says so. The description does not count otherwise.
pub proof fn law_description_counts_where_there_is_one(tag: u16, sub_format: u32)
    ensures
        is_float(3, sub_format),
        is_float(0xFFFE, sub_format) <==> sub_format == 3,
        tag != 3 && tag != 0xFFFE ==> !is_float(tag, sub_format),
{
}

/// So many frames at that rate take that long, rounded down to a hundred nanoseconds.
pub proof fn law_duration_is_frames_over_rate(frames: u32, device_rate: u32)
    requires
        device_rate > 0,
    ensures
        duration_of(frames, device_rate) * device_rate <= frames * 10_000_000 < (duration_of(
            frames,
            device_rate,
        ) + 1) * device_rate,
{
    let scaled = frames * 10_000_000;
    let rate = device_rate as int;
    vstd::arithmetic::div_mod::lemma_fundamental_div_mod(scaled, rate);
    assert((scaled / rate) * rate <= scaled < (scaled / rate + 1) * rate) by (nonlinear_arith)
        requires
            rate > 0,
            scaled == rate * (scaled / rate) + scaled % rate,
            0 <= scaled % rate < rate,
    ;
}

/// A mixer that takes either request is open, as long as its samples are floating-point numbers; it converts
/// rates itself if it took the request for that. One that takes neither has refused, whatever its samples.
pub proof fn law_either_request_opens_the_mixer(without_autoconvert: bool, is_float: bool)
    ensures
        opening(true, without_autoconvert, true) == (OpenOutcome::Opened { autoconvert: true }),
        opening(false, true, true) == (OpenOutcome::Opened { autoconvert: false }),
        opening(true, without_autoconvert, false) == OpenOutcome::NotFloat,
        opening(false, true, false) == OpenOutcome::NotFloat,
        opening(false, false, is_float) == OpenOutcome::Refused,
{
}

/// When the mixer asks for more it gets as many frames as its buffer has room for, even where playing is to
/// stop; it is left to play where there is no room. Playing stops when the mixer does not ask.
pub proof fn law_mixer_gets_what_it_has_room_for(stopped: bool, buffer_frames: u32, padding: u32)
    ensures
        padding < buffer_frames ==> (rendering(
            stopped,
            true,
            buffer_frames,
            padding,
        ) matches RenderStep::Render { frames } && frames + padding == buffer_frames),
        padding >= buffer_frames ==> rendering(stopped, true, buffer_frames, padding)
            == RenderStep::Wait,
        rendering(true, false, buffer_frames, padding) == RenderStep::Stop,
        rendering(false, false, buffer_frames, padding) == RenderStep::Wait,
{
}

/// Each channel of the device plays the same channel of the source. Where the source has none such, it plays
/// the only channel of a source that has one, and silence otherwise. What stands behind the last frame is left
/// alone.
pub proof fn law_channels_are_mapped_one_to_one(
    source: Seq<u32>,
    before: Seq<u32>,
    source_channels: int,
    device_channels: int,
    frames: int,
    frame: int,
    channel: int,
)
    requires
        source_channels > 0,
        device_channels > 0,
        0 <= frame < frames,
        0 <= channel < device_channels,
        frames * device_channels <= before.len(),
    ensures
        ({
            let after = mapped(
                source,
                before,
                source_channels,
                device_channels,
                frames * device_channels,
            );
            let sample = after[frame * device_channels + channel];
            &&& after.len() == before.len()
            &&& channel < source_channels ==> sample == source[frame * source_channels + channel]
            &&& channel >= source_channels && source_channels == 1 ==> sample == source[frame]
            &&& channel >= source_channels && source_channels > 1 ==> sample == 0
            &&& forall|i: int|
                frames * device_channels <= i < before.len() ==> #[trigger] after[i] == before[i]
        }),
{
    let at = frame * device_channels + channel;
    assert(0 <= at < frames * device_channels) by (nonlinear_arith)
        requires
            0 <= frame < frames,
            0 <= channel < device_channels,
            at == frame * device_channels + channel,
    ;
    vstd::arithmetic::div_mod::lemma_fundamental_div_mod_converse(
        at,
        device_channels,
        frame,
        channel,
    );
    let after = mapped(
        source,
        before,
        source_channels,
        device_channels,
        frames * device_channels,
    );
    assert(after[at] == mapped_sample(source, source_channels, frame, channel));
}

/// Rates are matched here unless the mixer does it, or its rate is not known.
pub proof fn law_rates_are_matched_once(device_rate: u32)
    ensures
        !needs_resampling(true, device_rate),
        needs_resampling(false, device_rate) <==> device_rate > 0,
{
}

} // verus!
