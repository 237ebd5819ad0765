//! Stream parameters and the negotiation of the encoder's settings.

use vstd::prelude::*;
use vstd::arithmetic::power2::{lemma2_to64, lemma2_to64_rest, lemma_pow2_unfold, pow2};
use crate::error::{Error, ErrorKind};
use crate::timebase::{Ratio, TimeBase};

verus! {

/// The channel layout of one front-centre channel.
pub const MONO: u64 = 0x4;

/// The channel layout of a front-left and a front-right channel.
pub const STEREO: u64 = 0x3;

/// How the samples of a frame are stored.
#[derive(Clone, Copy, Debug, PartialEq, Eq, Structural)]
pub enum SampleFormat {
    U8,
    S16,
    S32,
    S64,
    Float,
    Double,
    U8Planar,
    S16Planar,
    S32Planar,
    S64Planar,
    FloatPlanar,
    DoublePlanar,
}

impl SampleFormat {
    /// The name of the format in filter arguments.
    pub open spec fn name_of(self) -> Seq<char> {
        match self {
            SampleFormat::U8 => "u8"@,
            SampleFormat::S16 => "s16"@,
            SampleFormat::S32 => "s32"@,
            SampleFormat::S64 => "s64"@,
            SampleFormat::Float => "flt"@,
            SampleFormat::Double => "dbl"@,
            SampleFormat::U8Planar => "u8p"@,
            SampleFormat::S16Planar => "s16p"@,
            SampleFormat::S32Planar => "s32p"@,
            SampleFormat::S64Planar => "s64p"@,
            SampleFormat::FloatPlanar => "fltp"@,
            SampleFormat::DoublePlanar => "dblp"@,
        }
    }

    /// The name of the format in filter arguments.
    pub fn name(&self) -> (s: &'static str)
        ensures
            s@ == self.name_of(),
    {
        match self {
            SampleFormat::U8 => "u8",
            SampleFormat::S16 => "s16",
            SampleFormat::S32 => "s32",
            SampleFormat::S64 => "s64",
            SampleFormat::Float => "flt",
            SampleFormat::Double => "dbl",
            SampleFormat::U8Planar => "u8p",
            SampleFormat::S16Planar => "s16p",
            SampleFormat::S32Planar => "s32p",
            SampleFormat::S64Planar => "s64p",
            SampleFormat::FloatPlanar => "fltp",
            SampleFormat::DoublePlanar => "dblp",
        }
    }
}

/// What is fixed about a stream of audio once its codec is open.
#[derive(Clone, Copy, Debug)]
pub struct StreamParameters {
    /// Samples per second.
    pub sample_rate: u32,
    /// One bit per channel position.
    pub channel_layout: u64,
    pub sample_format: SampleFormat,
    pub time_base: TimeBase,
}

/// What an opened decoder reports about its stream.
#[derive(Clone, Copy, Debug)]
pub struct DecoderInfo {
    pub params: StreamParameters,
    pub bit_rate: usize,
    pub max_bit_rate: usize,
}

impl DecoderInfo {
    /// What an opened decoder reports, as far as it is of use: a decoder
    /// with an unknown sample format or without a positive time base cannot
    /// be transcoded from.
    pub fn new(
        sample_rate: u32,
        channel_layout: u64,
        sample_format: Option<SampleFormat>,
        time_base: (i32, i32),
        bit_rate: usize,
        max_bit_rate: usize,
    ) -> (r: Result<DecoderInfo, Error>)
        ensures
            r.is_ok() <==> (sample_format is Some && time_base.0 > 0 && time_base.1 > 0),
            r matches Ok(info) ==> {
                &&& info.params.sample_rate == sample_rate
                &&& info.params.channel_layout == channel_layout
                &&& Some(info.params.sample_format) == sample_format
                &&& info.params.time_base@ == (Ratio {
                    num: time_base.0 as int,
                    den: time_base.1 as int,
                })
                &&& info.bit_rate == bit_rate
                &&& info.max_bit_rate == max_bit_rate
            },
            r matches Err(e) ==> e.kind == ErrorKind::DecoderInit && e.cause@ == (
            if sample_format is None {
                "the sample format is unknown"@
            } else {
                "the time base is not positive"@
            }),
    {
        let format: SampleFormat = match sample_format {
            Some(format) => format,
            None => {
                return Err(Error::new(ErrorKind::DecoderInit, "the sample format is unknown"));
            },
        };
        let base: TimeBase = match TimeBase::reported(
            time_base.0,
            time_base.1,
            ErrorKind::DecoderInit,
        ) {
            Ok(base) => base,
            Err(e) => {
                return Err(e);
            },
        };
        Ok(
            DecoderInfo {
                params: StreamParameters {
                    sample_rate,
                    channel_layout,
                    sample_format: format,
                    time_base: base,
                },
                bit_rate,
                max_bit_rate,
            },
        )
    }
}

/// What the target codec declares that it supports.
#[derive(Clone, Debug)]
pub struct CodecCapabilities {
    /// The channel layouts it accepts, in its order of declaration; `None`
    /// where it declares no preference.
    pub layouts: Option<Vec<u64>>,
    /// The sample formats it accepts, in its order of declaration; `None`
    /// where it declares none.
    pub formats: Option<Vec<SampleFormat>>,
    /// Whether it takes frames of any size.
    pub variable_frame_size: bool,
}

/// The settings an encoder is opened with.
#[derive(Clone, Copy, Debug)]
pub struct EncoderSettings {
    pub params: StreamParameters,
    pub channels: u32,
    pub bit_rate: usize,
    pub max_bit_rate: usize,
    /// Whether the encoder puts its headers into the container's global
    /// header rather than into the packets.
    pub global_header: bool,
}

/// The number of channels of a layout: the number of bits set in it.
pub open spec fn channel_count(layout: u64) -> nat
    decreases layout,
{
    if layout == 0 {
        0
    } else {
        (layout % 2) as nat + channel_count(layout / 2)
    }
}

/// The layout among `supported` that suits a source of `max` channels best:
/// going through them in order, from mono, a layout replaces the choice made
/// so far when it has more channels than that and no more than `max`.
pub open spec fn best_layout(supported: Seq<u64>, max: nat) -> u64
    decreases supported.len(),
{
    if supported.len() == 0 {
        MONO
    } else {
        let before = best_layout(supported.drop_last(), max);
        let last = supported.last();
        if channel_count(last) > channel_count(before) && channel_count(last) <= max {
            last
        } else {
            before
        }
    }
}

/// A layout that negotiation can choose over mono for a source of `max`
/// channels.
pub open spec fn eligible(layout: u64, max: nat) -> bool {
    1 < channel_count(layout) <= max
}

/// The layout the encoder gets: the best of the codec's for the decoder's
/// number of channels, stereo where the codec declares none.
pub open spec fn agreed_layout(decoder: DecoderInfo, codec: CodecCapabilities) -> u64 {
    match codec.layouts {
        Some(layouts) => best_layout(layouts@, channel_count(decoder.params.channel_layout)),
        None => STEREO,
    }
}

/// Whether encoder settings exist for this decoder and codec: the sample rate
/// can serve as the denominator of a time base, and the codec declares at
/// least one sample format.
pub open spec fn negotiable(decoder: DecoderInfo, codec: CodecCapabilities) -> bool {
    &&& 0 < decoder.params.sample_rate <= i32::MAX
    &&& codec.formats matches Some(formats) && formats@.len() > 0
}

/// The settings agreed for an encoder of `codec` that takes over from
/// `decoder`.
pub open spec fn agreed(
    decoder: DecoderInfo,
    codec: CodecCapabilities,
    global_header: bool,
    settings: EncoderSettings,
) -> bool {
    &&& settings.params.sample_rate == decoder.params.sample_rate
    &&& settings.params.channel_layout == agreed_layout(decoder, codec)
    &&& settings.params.sample_format == codec.formats->0@[0]
    &&& settings.params.time_base@ == (Ratio {
        num: 1,
        den: decoder.params.sample_rate as int,
    })
    &&& settings.channels == channel_count(settings.params.channel_layout)
    &&& settings.bit_rate == decoder.bit_rate
    &&& settings.max_bit_rate == decoder.max_bit_rate
    &&& settings.global_header == global_header
}

/// A layout below `2^k` has at most `k` channels.
proof fn lemma_channel_count_below(layout: u64, k: nat)
    requires
        layout < pow2(k),
    ensures
        channel_count(layout) <= k,
    decreases k,
{
    if layout != 0 {
        if k == 0 {
            lemma2_to64();
        } else {
            lemma_pow2_unfold(k);
            lemma_channel_count_below(layout / 2, (k - 1) as nat);
        }
    }
}

/// No layout has more than 64 channels.
pub proof fn lemma_channel_count_bound(layout: u64)
    ensures
        channel_count(layout) <= 64,
{
    lemma2_to64_rest();
    lemma_channel_count_below(layout, 64);
}

/// Mono has one channel and stereo has two.
pub proof fn lemma_named_layouts()
    ensures
        channel_count(MONO) == 1,
        channel_count(STEREO) == 2,
{
    reveal_with_fuel(channel_count, 4);
}

/// The number of channels of a layout.
pub fn channels(layout: u64) -> (n: u32)
    ensures
        n == channel_count(layout),
        n <= 64,
{
    let mut rest: u64 = layout;
    let mut n: u32 = 0;
    proof {
        lemma_channel_count_bound(layout);
    }
    while rest != 0
        invariant
            n + channel_count(rest) == channel_count(layout),
            channel_count(layout) <= 64,
        decreases rest,
    {
        n = n + (rest % 2) as u32;
        rest = rest / 2;
    }
    n
}

/// The layout among `supported` that suits a source of `max` channels best.
pub fn choose_layout(supported: &Vec<u64>, max: u32) -> (best: u64)
    ensures
        best == best_layout(supported@, max as nat),
{
    let mut best: u64 = MONO;
    let mut most: u32 = channels(MONO);
    let mut i: usize = 0;
    proof {
        assert(supported@.take(0) =~= Seq::<u64>::empty());
    }
    while i < supported.len()
        invariant
            i <= supported.len(),
            best == best_layout(supported@.take(i as int), max as nat),
            most == channel_count(best),
        decreases supported.len() - i,
    {
        let layout: u64 = supported[i];
        let count: u32 = channels(layout);
        proof {
            assert(supported@.take(i + 1).drop_last() =~= supported@.take(i as int));
            assert(supported@.take(i + 1).last() == layout);
        }
        if count > most && count <= max {
            best = layout;
            most = count;
        }
        i = i + 1;
    }
    proof {
        assert(supported@.take(supported.len() as int) =~= supported@);
    }
    best
}

/// Settles the settings of the encoder that takes over from `decoder`,
/// given what the search for the target codec has brought: what the codec
/// declares, or nothing where no encoder for it was found.
///
/// The sample rate is the decoder's, and the time base one sample. The
/// channel layout is the best of the codec's for the decoder's number of
/// channels, stereo where the codec declares none. The sample format is the
/// first that the codec declares. Bit rate and maximum bit rate are the
/// decoder's.
pub fn negotiate_encoder(
    decoder: &DecoderInfo,
    found: Option<&CodecCapabilities>,
    global_header: bool,
) -> (r: Result<EncoderSettings, Error>)
    ensures
        r.is_ok() <==> (found matches Some(codec) && negotiable(*decoder, *codec)),
        r matches Ok(settings) ==> agreed(*decoder, *found->0, global_header, settings),
        r matches Err(e) ==> e.kind == ErrorKind::EncoderInit && e.cause@ == (if found is None {
            "no encoder for the codec"@
        } else if 0 < decoder.params.sample_rate <= i32::MAX {
            "codec declares no sample format"@
        } else {
            "sample rate out of range"@
        }),
{
    let codec: &CodecCapabilities = match found {
        Some(codec) => codec,
        None => {
            return Err(Error::new(ErrorKind::EncoderInit, "no encoder for the codec"));
        },
    };
    let rate: u32 = decoder.params.sample_rate;
    if rate == 0 || rate > 0x7fff_ffff {
        return Err(Error::new(ErrorKind::EncoderInit, "sample rate out of range"));
    }
    let format: SampleFormat = match &codec.formats {
        Some(formats) => {
            if formats.len() == 0 {
                return Err(Error::new(ErrorKind::EncoderInit, "codec declares no sample format"));
            }
            formats[0]
        },
        None => {
            return Err(Error::new(ErrorKind::EncoderInit, "codec declares no sample format"));
        },
    };
    let layout: u64 = match &codec.layouts {
        Some(layouts) => choose_layout(layouts, channels(decoder.params.channel_layout)),
        None => STEREO,
    };
    let time_base: TimeBase = match TimeBase::new(1, rate as i32) {
        Some(tb) => tb,
        None => {
            return Err(Error::new(ErrorKind::EncoderInit, "sample rate out of range"));
        },
    };
    Ok(
        EncoderSettings {
            params: StreamParameters {
                sample_rate: rate,
                channel_layout: layout,
                sample_format: format,
                time_base,
            },
            channels: channels(layout),
            bit_rate: decoder.bit_rate,
            max_bit_rate: decoder.max_bit_rate,
            global_header,
        },
    )
}

/// The chosen layout is mono or one of the supported layouts that negotiation
/// can choose.
pub proof fn lemma_best_layout_is_supported(supported: Seq<u64>, max: nat)
    ensures
        best_layout(supported, max) == MONO || (supported.contains(best_layout(supported, max))
            && eligible(best_layout(supported, max), max)),
    decreases supported.len(),
{
    lemma_named_layouts();
    if supported.len() > 0 {
        lemma_best_layout_is_supported(supported.drop_last(), max);
        let before = best_layout(supported.drop_last(), max);
        let front = supported.drop_last();
        if front.contains(before) {
            let j = choose|j: int| 0 <= j < front.len() && front[j] == before;
            assert(supported[j] == before);
        }
        assert(supported[supported.len() - 1] == supported.last());
    }
}

/// No supported layout that negotiation can choose has more channels than the
/// chosen one.
pub proof fn lemma_best_layout_has_most_channels(supported: Seq<u64>, max: nat, i: int)
    requires
        0 <= i < supported.len(),
        eligible(supported[i], max),
    ensures
        channel_count(supported[i]) <= channel_count(best_layout(supported, max)),
        eligible(best_layout(supported, max), max),
    decreases supported.len(),
{
    lemma_named_layouts();
    lemma_best_layout_is_supported(supported.drop_last(), max);
    if i < supported.len() - 1 {
        assert(supported.drop_last()[i] == supported[i]);
        lemma_best_layout_has_most_channels(supported.drop_last(), max, i);
    }
}

/// Whether no layout before position `at` can be chosen with as many
/// channels as the layout at `at` has.
pub open spec fn comes_first(supported: Seq<u64>, max: nat, at: int) -> bool {
    forall|j: int|
        0 <= j < at ==> !(eligible(#[trigger] supported[j], max) && channel_count(supported[j])
            >= channel_count(supported[at]))
}

/// Of several supported layouts with the most channels that negotiation can
/// choose, the first is chosen.
pub proof fn lemma_best_layout_is_first(supported: Seq<u64>, max: nat)
    ensures
        best_layout(supported, max) == MONO || exists|at: int|
            0 <= at < supported.len() && supported[at] == best_layout(supported, max)
                && comes_first(supported, max, at),
    decreases supported.len(),
{
    lemma_named_layouts();
    if supported.len() > 0 {
        let front = supported.drop_last();
        let before = best_layout(front, max);
        let last = supported.last();
        let best = best_layout(supported, max);
        lemma_best_layout_is_first(front, max);
        if best == last && channel_count(last) > channel_count(before) {
            let at = supported.len() - 1;
            assert forall|j: int| 0 <= j < at implies !(eligible(#[trigger] supported[j], max)
                && channel_count(supported[j]) >= channel_count(supported[at])) by {
                if eligible(supported[j], max) {
                    assert(front[j] == supported[j]);
                    lemma_best_layout_has_most_channels(front, max, j);
                }
            }
            assert(supported[at] == best && comes_first(supported, max, at));
        } else if before != MONO {
            let at = choose|at: int|
                0 <= at < front.len() && front[at] == before && comes_first(front, max, at);
            assert forall|j: int| 0 <= j < at implies !(eligible(#[trigger] supported[j], max)
                && channel_count(supported[j]) >= channel_count(supported[at])) by {
                assert(front[j] == supported[j]);
                assert(front[at] == supported[at]);
            }
            assert(supported[at] == best && comes_first(supported, max, at));
        }
    }
}

} // verus!
