//! Channel conversion: mixes decoded frames into the output buffer, scaled by
//! a fixed-point gain, adapting one or two source channels to one or two
//! output channels.
use vstd::prelude::*;
use crate::clip::Clip;
use crate::GAIN_ONE;

verus! {

/// How the frames of a source are laid onto the output channels.
#[derive(Clone, Copy, Debug, PartialEq, Eq, Structural)]
pub enum Conversion {
    /// one source channel onto one output channel
    MonoToMono,
    /// one source channel duplicated onto both output channels
    MonoToStereo,
    /// the mean of both source channels onto one output channel
    StereoToMono,
    /// each source channel onto its own output channel
    StereoToStereo,
}

impl Conversion {
    /// Channels per source frame.
    pub open spec fn input_channels(self) -> nat {
        match self {
            Conversion::MonoToMono | Conversion::MonoToStereo => 1,
            _ => 2,
        }
    }

    /// Channels per output frame.
    pub open spec fn output_channels(self) -> nat {
        match self {
            Conversion::MonoToMono | Conversion::StereoToMono => 1,
            _ => 2,
        }
    }

    /// The conversion from `source` to `output` channels, for channel counts
    /// of 1 or 2.
    pub open spec fn between(source: nat, output: nat) -> Conversion {
        if source == 1 {
            if output == 1 {
                Conversion::MonoToMono
            } else {
                Conversion::MonoToStereo
            }
        } else if output == 1 {
            Conversion::StereoToMono
        } else {
            Conversion::StereoToStereo
        }
    }

    /// The conversion from `source` to `output` channels; `None` unless both
    /// are 1 or 2.
    pub fn select(source: usize, output: usize) -> (r: Option<Conversion>)
        ensures
            r matches Some(c) ==> c.input_channels() == source && c.output_channels() == output
                && c == Conversion::between(source as nat, output as nat),
            r is None <==> !((source == 1 || source == 2) && (output == 1 || output == 2)),
    {
        if source == 1 && output == 1 {
            Some(Conversion::MonoToMono)
        } else if source == 1 && output == 2 {
            Some(Conversion::MonoToStereo)
        } else if source == 2 && output == 1 {
            Some(Conversion::StereoToMono)
        } else if source == 2 && output == 2 {
            Some(Conversion::StereoToStereo)
        } else {
            None
        }
    }
}

/// `x` scaled by `g / GAIN_ONE`, truncated toward zero.
pub open spec fn scale(x: int, g: int) -> int {
    if x >= 0 {
        x * g / (GAIN_ONE as int)
    } else {
        -((-x) * g / (GAIN_ONE as int))
    }
}

/// Half of `x`, truncated toward zero.
pub open spec fn half(x: int) -> int {
    if x >= 0 {
        x / 2
    } else {
        -((-x) / 2)
    }
}

/// `x` held within the range of `i32`.
pub open spec fn clamp_i32(x: int) -> int {
    if x < i32::MIN {
        i32::MIN as int
    } else if x > i32::MAX {
        i32::MAX as int
    } else {
        x
    }
}

/// The unscaled value that source frame `frame` gives output channel `c`.
pub open spec fn source_value(conv: Conversion, s: Seq<i16>, frame: int, c: int) -> int {
    match conv {
        Conversion::MonoToMono | Conversion::MonoToStereo => s[frame] as int,
        Conversion::StereoToStereo => s[2 * frame + c] as int,
        Conversion::StereoToMono => half(s[2 * frame] + s[2 * frame + 1]),
    }
}

/// How many frames a mix reads: as many as the output holds, or as the source
/// has left after `pos`.
pub open spec fn frames_read(out_len: nat, conv: Conversion, frames: nat, pos: int) -> nat {
    let room = out_len / conv.output_channels();
    let left = frames - pos;
    if left <= 0 {
        0
    } else if room <= left {
        room
    } else {
        left as nat
    }
}

/// The output after mixing source frames `pos..` into its leading frames at
/// gain `g`: each sample read is added, saturating at the range of `i32`.
pub open spec fn mixed(out: Seq<i32>, conv: Conversion, s: Seq<i16>, frames: nat, pos: int, g: int) -> Seq<i32> {
    let n = frames_read(out.len(), conv, frames, pos);
    let oc = conv.output_channels() as int;
    Seq::new(
        out.len(),
        |i: int|
            if i / oc < n {
                clamp_i32(out[i] + scale(source_value(conv, s, pos + i / oc, i % oc), g)) as i32
            } else {
                out[i]
            },
    )
}

/// `x` scaled by `g / GAIN_ONE`, truncated toward zero.
pub fn scale_sample(x: i32, g: u32) -> (r: i64)
    requires
        -32768 <= x <= 32768,
    ensures
        r == scale(x as int, g as int),
        -0x1_0000_0000_0000 <= r <= 0x1_0000_0000_0000,
{
    if x >= 0 {
        let m: u64 = x as u64;
        assert(m * (g as u64) <= 32768 * 0xffff_ffff) by (nonlinear_arith)
            requires m <= 32768, g <= 0xffff_ffff;
        let p: u64 = m * (g as u64) / (GAIN_ONE as u64);
        p as i64
    } else {
        let m: u64 = (-x) as u64;
        assert(m * (g as u64) <= 32768 * 0xffff_ffff) by (nonlinear_arith)
            requires m <= 32768, g <= 0xffff_ffff;
        let p: u64 = m * (g as u64) / (GAIN_ONE as u64);
        -(p as i64)
    }
}

/// Mixes frames `pos..` of `clip` into the leading frames of `out` at gain
/// `g`, and returns how many frames it read (0 when the clip has no frame
/// left after `pos`).
pub fn mix(out: &mut Vec<i32>, conv: Conversion, clip: &Clip, pos: usize, g: u32) -> (n: usize)
    requires
        clip.wf(),
        clip.channels == conv.input_channels(),
    ensures
        n == frames_read(old(out)@.len(), conv, clip.frames(), pos as int),
        n == 0 || pos + n <= clip.frames(),
        clip.frames() <= usize::MAX,
        final(out)@ == mixed(old(out)@, conv, clip.samples@, clip.frames(), pos as int, g as int),
{
    let oc: usize = if conv == Conversion::MonoToMono || conv == Conversion::StereoToMono { 1 } else { 2 };
    let frames = clip.frame_count();
    let room = out.len() / oc;
    let n: usize = if pos >= frames {
        0
    } else if room <= frames - pos {
        room
    } else {
        frames - pos
    };
    let ghost old_out = out@;
    let ghost s = clip.samples@;
    proof {
        assert(clip.samples@.len() == clip.frames() * clip.channels) by {
            vstd::arithmetic::div_mod::lemma_fundamental_div_mod(clip.samples@.len() as int, clip.channels as int);
        }
    }
    let sample_count: usize = clip.samples.len();
    let total: usize = n * oc;
    assert(total <= out.len()) by {
        vstd::arithmetic::div_mod::lemma_fundamental_div_mod(out@.len() as int, oc as int);
    }
    let mut i: usize = 0;
    while i < total
        invariant
            clip.wf(),
            clip.channels == conv.input_channels(),
            oc == conv.output_channels(),
            s == clip.samples@,
            s.len() == clip.frames() * clip.channels,
            n == frames_read(old_out.len(), conv, clip.frames(), pos as int),
            n <= room,
            n > 0 ==> pos + n <= clip.frames(),
            clip.frames() <= s.len(),
            s.len() == sample_count,
            room == old_out.len() / (oc as nat),
            total == n * oc,
            total <= old_out.len(),
            i <= total,
            out@.len() == old_out.len(),
            forall|j: int| 0 <= j < i ==> out@[j] == mixed(old_out, conv, s, clip.frames(), pos as int, g as int)[j],
            forall|j: int| i <= j < out@.len() ==> out@[j] == old_out[j],
        decreases total - i,
    {
        let f: usize = i / oc;
        let c: usize = i % oc;
        assert(f < n) by {
            if oc == 2 {
                assert(i / 2 < n);
            }
        }
        let v: i32 = match conv {
            Conversion::MonoToMono | Conversion::MonoToStereo => clip.samples[pos + f] as i32,
            Conversion::StereoToStereo => clip.samples[2 * (pos + f) + c] as i32,
            Conversion::StereoToMono => {
                let sum: i32 = clip.samples[2 * (pos + f)] as i32 + clip.samples[2 * (pos + f) + 1] as i32;
                if sum >= 0 {
                    sum / 2
                } else {
                    -((-sum) / 2)
                }
            },
        };
        assert(v as int == source_value(conv, s, (pos + f) as int, c as int));
        let add: i64 = scale_sample(v, g);
        let cur: i64 = out[i] as i64;
        let sum: i64 = cur + add;
        let w: i32 = if sum < i32::MIN as i64 {
            i32::MIN
        } else if sum > i32::MAX as i64 {
            i32::MAX
        } else {
            sum as i32
        };
        out.set(i, w);
        i = i + 1;
    }
    proof {
        let m = mixed(old_out, conv, s, clip.frames(), pos as int, g as int);
        assert forall|j: int| total <= j < old_out.len() implies out@[j] == #[trigger] m[j] by {
            if oc == 2 {
                assert(j / 2 >= n);
            }
        }
    }
    assert(out@ =~= mixed(old_out, conv, s, clip.frames(), pos as int, g as int));
    n
}

/// Mixing a mono source onto a stereo output keeps the two channels equal:
/// an output whose frames have equal channels still has after the mix.
pub proof fn lemma_mono_to_stereo_balanced(out: Seq<i32>, s: Seq<i16>, frames: nat, pos: int, g: int)
    requires
        out.len() % 2 == 0,
        forall|k: int| 0 <= k < out.len() / 2 ==> #[trigger] out[2 * k] == out[2 * k + 1],
    ensures
        forall|k: int|
            0 <= k < out.len() / 2 ==> #[trigger] mixed(out, Conversion::MonoToStereo, s, frames, pos, g)[2 * k]
                == mixed(out, Conversion::MonoToStereo, s, frames, pos, g)[2 * k + 1],
{
    assert forall|k: int| 0 <= k < out.len() / 2 implies #[trigger] mixed(
        out,
        Conversion::MonoToStereo,
        s,
        frames,
        pos,
        g,
    )[2 * k] == mixed(out, Conversion::MonoToStereo, s, frames, pos, g)[2 * k + 1] by {
        assert((2 * k) / 2 == k && (2 * k + 1) / 2 == k);
        assert(out[2 * k] == out[2 * k + 1]);
    }
}

/// A stereo source whose two channels are equal frame by frame (silence, or
/// both at full scale) mixes down to mono exactly as the mono source of those
/// frames does: the mean of two equal samples is that sample.
pub proof fn lemma_stereo_to_mono_mean(out: Seq<i32>, s: Seq<i16>, mono: Seq<i16>, frames: nat, pos: int, g: int)
    requires
        0 <= pos,
        s.len() == 2 * frames,
        mono.len() == frames,
        forall|f: int| 0 <= f < frames ==> #[trigger] s[2 * f] == mono[f] && s[2 * f + 1] == mono[f],
    ensures
        mixed(out, Conversion::StereoToMono, s, frames, pos, g) == mixed(out, Conversion::MonoToMono, mono, frames, pos, g),
{
    let a = mixed(out, Conversion::StereoToMono, s, frames, pos, g);
    let b = mixed(out, Conversion::MonoToMono, mono, frames, pos, g);
    assert forall|i: int| 0 <= i < out.len() implies a[i] == b[i] by {
        let n = frames_read(out.len(), Conversion::StereoToMono, frames, pos);
        if i / 1 < n {
            let f = pos + i;
            assert(f < frames);
            assert(s[2 * f] == mono[f] && s[2 * f + 1] == mono[f]);
            assert(half(mono[f] + mono[f]) == mono[f]);
        }
    }
    assert(a =~= b);
}

} // verus!
