//! Persistent sound effects: continuous loops whose gain is computed on the
//! control side from the positions of their sources.
use vstd::prelude::*;
use crate::clip::Clip;
use crate::convert::{Conversion, frames_read, mix, mixed};
use crate::engine::Command;
use crate::effect::{ATTENUATION_ONE, DistanceModel, attenuated, euclidean_distance};
use crate::{mul_gain, mul_gains};

verus! {

/// A continuous loop of one clip. Its gain comes from outside; at gain 0 it
/// does not read at all, so its position holds.
pub struct PersistentVoice {
    /// the decoded effect
    pub clip: Clip,
    /// how its frames are laid onto the output
    pub conv: Conversion,
    /// next frame to read
    pub pos: usize,
    /// its gain
    pub volume: u32,
}

impl PersistentVoice {
    /// The clip suits the output and the position lies within it.
    pub open spec fn wf(&self, oc: nat) -> bool {
        &&& self.clip.wf()
        &&& self.conv.input_channels() == self.clip.channels
        &&& self.conv.output_channels() == oc
        &&& self.pos <= self.clip.frames()
    }

    /// The position and the output after one fill: nothing is read at gain
    /// 0; otherwise the clip is mixed from its position, or from its start
    /// once it has ended.
    pub open spec fn filled(self, out: Seq<i32>) -> (usize, Seq<i32>) {
        let c = self.clip;
        if self.volume == 0 {
            (self.pos, out)
        } else {
            let n = frames_read(out.len(), self.conv, c.frames(), self.pos as int);
            if n > 0 {
                ((self.pos + n) as usize, mixed(out, self.conv, c.samples@, c.frames(), self.pos as int, self.volume as int))
            } else {
                let n0 = frames_read(out.len(), self.conv, c.frames(), 0);
                (n0 as usize, mixed(out, self.conv, c.samples@, c.frames(), 0, self.volume as int))
            }
        }
    }

    /// Its position after a fill of each buffer of `bufs` in turn.
    pub open spec fn position_after(self, bufs: Seq<Seq<i32>>) -> usize
        decreases bufs.len(),
    {
        if bufs.len() == 0 {
            self.pos
        } else {
            PersistentVoice { pos: self.filled(bufs[0]).0, ..self }.position_after(bufs.drop_first())
        }
    }

    /// A voice at the start of `clip`, silent until it is given a gain.
    pub fn new(clip: Clip, conv: Conversion) -> (r: PersistentVoice)
        requires
            clip.wf(),
            conv.input_channels() == clip.channels,
        ensures
            r.wf(conv.output_channels()),
            r == (PersistentVoice { clip, conv, pos: 0, volume: 0 }),
    {
        PersistentVoice { clip, conv, pos: 0, volume: 0 }
    }

    /// Mixes the voice into `out` for one callback.
    pub fn fill(&mut self, out: &mut Vec<i32>)
        requires
            old(self).wf(old(self).conv.output_channels()),
        ensures
            (final(self).pos, final(out)@) == old(self).filled(old(out)@),
            *final(self) == (PersistentVoice { pos: final(self).pos, ..*old(self) }),
            final(self).wf(final(self).conv.output_channels()),
    {
        if self.volume != 0 {
            let n = mix(out, self.conv, &self.clip, self.pos, self.volume);
            if n > 0 {
                self.pos = self.pos + n;
            } else {
                self.pos = mix(out, self.conv, &self.clip, 0, self.volume);
            }
        }
    }
}

/// A voice at gain 0 holds its position over any number of callbacks, so it
/// resumes from there once it is given a gain again.
pub proof fn lemma_silent_voice_holds(v: PersistentVoice, bufs: Seq<Seq<i32>>)
    requires
        v.volume == 0,
    ensures
        v.position_after(bufs) == v.pos,
    decreases bufs.len(),
{
    if bufs.len() > 0 {
        lemma_silent_voice_holds(PersistentVoice { pos: v.filled(bufs[0]).0, ..v }, bufs.drop_first());
    }
}

/// The sum of the gains of sources at `positions` heard at `listener`.
pub open spec fn sum_gains(model: DistanceModel, positions: Seq<[i32; 3]>, listener: [i32; 3]) -> int
    decreases positions.len(),
{
    if positions.len() == 0 {
        0
    } else {
        sum_gains(model, positions.drop_last(), listener) + model.gain_at(
            euclidean_distance(positions.last(), listener) as int,
        )
    }
}

/// The gain of persistent effect `effect`: `global_volume * effect_volume *
/// sum(distance(position, listener))` over its sources, held within `u32`.
pub open spec fn effect_gain(state: crate::State, effect: int) -> int {
    let g = attenuated(
        mul_gain(state.global_volume as int, state.effect.volume as int),
        sum_gains(state.effect.distance_model, state.effect.persistent_positions@[effect]@, state.effect.listener),
    );
    if g > u32::MAX {
        u32::MAX as int
    } else {
        g
    }
}

/// `r` gives every persistent effect its gain.
pub open spec fn is_volumes_command(state: crate::State, r: Command) -> bool {
    r matches Command::SetPersistentVolumes(vs) && vs@ == Seq::new(
        state.effect.persistent_positions@.len(),
        |i: int| effect_gain(state, i) as u32,
    )
}

/// The sum of the gains of sources at `positions`, held within `u128`
/// arithmetic: at most `ATTENUATION_ONE` per source.
fn gain_sum(model: &DistanceModel, positions: &Vec<[i32; 3]>, listener: [i32; 3]) -> (r: u128)
    requires
        model.wf(),
    ensures
        r == sum_gains(*model, positions@, listener),
        r <= 0x1_0000_0000_0000_0000 * ATTENUATION_ONE,
{
    let mut sum: u128 = 0;
    let mut i: usize = 0;
    while i < positions.len()
        invariant
            model.wf(),
            i <= positions@.len(),
            sum == sum_gains(*model, positions@.take(i as int), listener),
            sum <= i * (ATTENUATION_ONE as int),
        decreases positions@.len() - i,
    {
        let g = model.distance(positions[i], listener);
        assert(positions@.take(i + 1).drop_last() =~= positions@.take(i as int));
        sum = sum + g as u128;
        i = i + 1;
    }
    assert(positions@.take(i as int) =~= positions@);
    assert(sum <= 0x1_0000_0000_0000_0000 * ATTENUATION_ONE) by (nonlinear_arith)
        requires sum <= i * ATTENUATION_ONE, i <= 0x1_0000_0000_0000_0000;
    sum
}

/// The gain of persistent effect `effect`.
fn effect_gain_of(state: &crate::State, effect: usize) -> (r: u32)
    requires
        state.wf(),
        effect < state.effect.persistent_positions@.len(),
    ensures
        r == effect_gain(*state, effect as int),
{
    let sum = gain_sum(
        &state.effect.distance_model,
        &state.effect.persistent_positions[effect],
        state.effect.listener,
    );
    let g = mul_gains(state.global_volume, state.effect.volume);
    assert(g * sum <= 10_000 * 0x1_0000_0000_0000_0000 * ATTENUATION_ONE) by (nonlinear_arith)
        requires sum <= 0x1_0000_0000_0000_0000 * ATTENUATION_ONE, g <= 10_000, sum >= 0, g >= 0;
    let total: u128 = (g as u128) * sum / (ATTENUATION_ONE as u128);
    if total > u32::MAX as u128 {
        u32::MAX
    } else {
        total as u32
    }
}

/// The sources of persistent effect `i`.
pub open spec fn sources(state: crate::State, i: int) -> Seq<[i32; 3]> {
    state.effect.persistent_positions@[i]@
}

/// `b` is `a` but for the sources of persistent effects, of which there are
/// as many lists.
pub open spec fn same_but_positions(a: crate::State, b: crate::State) -> bool {
    &&& b.global_volume == a.global_volume
    &&& b.music == a.music
    &&& b.effect.listener == a.effect.listener
    &&& b.effect.distance_model == a.effect.distance_model
    &&& b.effect.volume == a.effect.volume
    &&& b.effect.paused == a.effect.paused
    &&& b.effect.short_effects == a.effect.short_effects
    &&& b.effect.persistent_effects == a.effect.persistent_effects
    &&& b.effect.persistent_positions@.len() == a.effect.persistent_positions@.len()
}

/// add a new source of the effect
pub fn add_position(state: &mut crate::State, effect: usize, pos: [i32; 3])
    requires
        old(state).wf(),
        effect < old(state).effect.persistent_effects,
    ensures
        final(state).wf(),
        same_but_positions(*old(state), *final(state)),
        forall|i: int|
            0 <= i < old(state).effect.persistent_positions@.len() ==> #[trigger] sources(*final(state), i) == (if i == effect {
                old(state).effect.persistent_positions@[i]@.push(pos)
            } else {
                old(state).effect.persistent_positions@[i]@
            }),
{
    state.effect.persistent_positions[effect].push(pos);
}

/// add a vec of new sources of the effect
pub fn add_positions(state: &mut crate::State, effect: usize, pos: Vec<[i32; 3]>)
    requires
        old(state).wf(),
        effect < old(state).effect.persistent_effects,
    ensures
        final(state).wf(),
        same_but_positions(*old(state), *final(state)),
        forall|i: int|
            0 <= i < old(state).effect.persistent_positions@.len() ==> #[trigger] sources(*final(state), i) == (if i == effect {
                old(state).effect.persistent_positions@[i]@ + pos@
            } else {
                old(state).effect.persistent_positions@[i]@
            }),
{
    let mut pos = pos;
    state.effect.persistent_positions[effect].append(&mut pos);
}

/// add vecs of new sources to the effects, in order
pub fn add_positions_for_all(state: &mut crate::State, all: Vec<(usize, Vec<[i32; 3]>)>)
    requires
        old(state).wf(),
        forall|k: int| 0 <= k < all@.len() ==> (#[trigger] all@[k]).0 < old(state).effect.persistent_effects,
    ensures
        final(state).wf(),
        same_but_positions(*old(state), *final(state)),
        forall|i: int|
            0 <= i < old(state).effect.persistent_positions@.len() ==> #[trigger] sources(*final(state), i)
                == sources(*old(state), i) + added_to(all@, i, all@.len() as int),
{
    let ghost entries = all@;
    let count = all.len();
    let mut rest = all;
    let mut k: usize = 0;
    while rest.len() > 0
        invariant
            state.wf(),
            k <= entries.len(),
            count == entries.len(),
            rest@ == entries.subrange(k as int, entries.len() as int),
            same_but_positions(*old(state), *state),
            forall|k: int| 0 <= k < entries.len() ==> (#[trigger] entries[k]).0 < old(state).effect.persistent_effects,
            forall|i: int|
                0 <= i < old(state).effect.persistent_positions@.len() ==> #[trigger] sources(*state, i)
                    == sources(*old(state), i) + added_to(entries, i, k as int),
        decreases rest@.len(),
    {
        let (effect, pos) = rest.remove(0);
        assert((effect, pos) == entries[k as int]);
        let ghost before = *state;
        add_positions(state, effect, pos);
        proof {
            assert forall|i: int| 0 <= i < old(state).effect.persistent_positions@.len() implies #[trigger] sources(
                *state,
                i,
            ) == sources(*old(state), i) + added_to(entries, i, k + 1) by {
                assert(sources(before, i) == sources(*old(state), i) + added_to(entries, i, k as int));
                if i == effect {
                    assert(sources(*state, i) == sources(before, i) + pos@);
                } else {
                    assert(sources(*state, i) == sources(before, i));
                }
                assert(added_to(entries, i, k + 1) == added_to(entries, i, k as int) + (if entries[k as int].0 == i {
                    entries[k as int].1@
                } else {
                    Seq::empty()
                })) by {
                    if entries[k as int].0 != i {
                        assert(added_to(entries, i, k as int) + Seq::<[i32; 3]>::empty() =~= added_to(entries, i, k as int));
                    }
                }
                if i == effect {
                    assert(sources(*old(state), i) + added_to(entries, i, k as int) + pos@ =~= sources(*old(state), i)
                        + added_to(entries, i, k + 1));
                }
            }
            assert(rest@ =~= entries.subrange(k + 1, entries.len() as int));
        }
        k = k + 1;
    }
}

/// The sources that the first `k` entries of `all` add to effect `i`.
pub open spec fn added_to(all: Seq<(usize, Vec<[i32; 3]>)>, i: int, k: int) -> Seq<[i32; 3]>
    decreases k,
{
    if k <= 0 {
        Seq::empty()
    } else if all[k - 1].0 == i {
        added_to(all, i, k - 1) + all[k - 1].1@
    } else {
        added_to(all, i, k - 1)
    }
}

/// remove all sources of the effect
pub fn clear_positions(state: &mut crate::State, effect: usize)
    requires
        old(state).wf(),
        effect < old(state).effect.persistent_effects,
    ensures
        final(state).wf(),
        same_but_positions(*old(state), *final(state)),
        forall|i: int|
            0 <= i < old(state).effect.persistent_positions@.len() ==> #[trigger] sources(*final(state), i) == (if i == effect {
                Seq::empty()
            } else {
                old(state).effect.persistent_positions@[i]@
            }),
{
    state.effect.persistent_positions[effect].clear();
}

/// remove all sources of all effects
pub fn clear_positions_for_all(state: &mut crate::State)
    requires
        old(state).wf(),
    ensures
        final(state).wf(),
        same_but_positions(*old(state), *final(state)),
        forall|i: int|
            0 <= i < old(state).effect.persistent_positions@.len() ==> #[trigger] sources(*final(state), i).len() == 0,
{
    let n = state.effect.persistent_positions.len();
    let mut i: usize = 0;
    while i < n
        invariant
            state.wf(),
            i <= n,
            n == old(state).effect.persistent_positions@.len(),
            same_but_positions(*old(state), *state),
            forall|j: int| 0 <= j < i ==> (#[trigger] state.effect.persistent_positions@[j])@.len() == 0,
        decreases n - i,
    {
        state.effect.persistent_positions[i].clear();
        i = i + 1;
    }
}

/// the command that gives the effect the gain computed from the positions of
/// its sources and of the listener at the moment of this call
pub fn update_volume(state: &crate::State, effect: usize) -> (r: Command)
    requires
        state.wf(),
        effect < state.effect.persistent_effects,
    ensures
        r == Command::SetPersistentVolume(effect, effect_gain(*state, effect as int) as u32),
{
    Command::SetPersistentVolume(effect, effect_gain_of(state, effect))
}

/// the command that gives every effect its gain
pub fn update_volume_for_all(state: &crate::State) -> (r: Command)
    requires
        state.wf(),
    ensures
        is_volumes_command(*state, r),
{
    let n = state.effect.persistent_positions.len();
    let mut gains: Vec<u32> = Vec::new();
    let mut i: usize = 0;
    while i < n
        invariant
            state.wf(),
            i <= n,
            n == state.effect.persistent_positions@.len(),
            gains@.len() == i,
            forall|j: int| 0 <= j < i ==> #[trigger] gains@[j] == effect_gain(*state, j) as u32,
        decreases n - i,
    {
        gains.push(effect_gain_of(state, i));
        i = i + 1;
    }
    assert(gains@ =~= Seq::new(n as nat, |i: int| effect_gain(*state, i) as u32));
    Command::SetPersistentVolumes(gains)
}

} // verus!
