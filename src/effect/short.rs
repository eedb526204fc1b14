//! Short sound effects: a fixed pool of voices per effect, where a new play
//! takes the oldest voice once all are busy.
use vstd::prelude::*;
use crate::clip::Clip;
use crate::convert::{Conversion, frames_read, mix, mixed};
use crate::engine::Command;
use crate::effect::{ATTENUATION_ONE, attenuate, attenuated, euclidean_distance};
use crate::{mul_gain, mul_gains};

verus! {

/// `x` brought back into `0..cap`, for `x < 2 * cap`.
pub open spec fn wrap(x: int, cap: int) -> int {
    if x < cap {
        x
    } else {
        x - cap
    }
}

/// The window after slot `s` reports its end: it shrinks from the edge the
/// slot occupies; a slot inside the window stays counted.
pub open spec fn retired(start: int, len: int, cap: int, s: int) -> (int, int) {
    if len > 0 && s == start {
        (wrap(start + 1, cap), len - 1)
    } else if len > 0 && s == wrap(start + len - 1, cap) {
        (start, len - 1)
    } else {
        (start, len)
    }
}

/// One voice of a pool mixed and advanced: the state is the cursors, the
/// window and the output.
pub open spec fn slot_step(
    clip: Clip,
    conv: Conversion,
    volumes: Seq<u32>,
    st: (Seq<usize>, int, int, Seq<i32>),
    s: int,
) -> (Seq<usize>, int, int, Seq<i32>) {
    let (cursors, start, len, out) = st;
    let pos = cursors[s];
    let n = frames_read(out.len(), conv, clip.frames(), pos as int);
    let mixed_out = mixed(out, conv, clip.samples@, clip.frames(), pos as int, volumes[s] as int);
    if n == 0 {
        let (s2, l2) = retired(start, len, cursors.len() as int, s);
        (cursors, s2, l2, mixed_out)
    } else {
        (cursors.update(s, (pos + n) as usize), start, len, mixed_out)
    }
}

/// The first `k` voices of the window that starts at `start0`, mixed in turn.
pub open spec fn slots_run(
    clip: Clip,
    conv: Conversion,
    volumes: Seq<u32>,
    st: (Seq<usize>, int, int, Seq<i32>),
    start0: int,
    k: nat,
) -> (Seq<usize>, int, int, Seq<i32>)
    decreases k,
{
    if k == 0 {
        st
    } else {
        let prev = slots_run(clip, conv, volumes, st, start0, (k - 1) as nat);
        slot_step(clip, conv, volumes, prev, wrap(start0 + k - 1, volumes.len() as int))
    }
}

/// The voices of one short effect: each has its own cursor on the shared
/// clip and its own gain; the busy ones form a window of `len` slots from
/// `start`, oldest first, in circular order.
pub struct ShortPool {
    /// the decoded effect
    pub clip: Clip,
    /// how its frames are laid onto the output
    pub conv: Conversion,
    /// next frame of each voice
    pub cursors: Vec<usize>,
    /// gain of each voice
    pub volumes: Vec<u32>,
    /// the oldest busy voice
    pub start: usize,
    /// how many voices are busy
    pub len: usize,
}

impl ShortPool {
    /// How many voices it has.
    pub open spec fn capacity(&self) -> nat {
        self.cursors@.len()
    }

    /// The slot of the `i`-th oldest busy voice.
    pub open spec fn slot(&self, i: int) -> int {
        wrap(self.start + i, self.capacity() as int)
    }

    /// The busy voices, oldest first.
    pub open spec fn active_slots(&self) -> Seq<int> {
        Seq::new(self.len as nat, |i: int| self.slot(i))
    }

    /// The clip suits the output, there is at least one voice, every cursor
    /// lies within the clip, and the window lies within the pool.
    pub open spec fn wf(&self, oc: nat) -> bool {
        &&& self.clip.wf()
        &&& self.conv.input_channels() == self.clip.channels
        &&& self.conv.output_channels() == oc
        &&& self.capacity() >= 1
        &&& self.volumes@.len() == self.capacity()
        &&& self.start < self.capacity()
        &&& self.len <= self.capacity()
        &&& forall|k: int| 0 <= k < self.capacity() ==> #[trigger] self.cursors@[k] <= self.clip.frames()
    }

    /// A pool of `capacity` idle voices on `clip`.
    pub fn new(clip: Clip, conv: Conversion, capacity: usize) -> (r: ShortPool)
        requires
            clip.wf(),
            conv.input_channels() == clip.channels,
            capacity >= 1,
        ensures
            r.wf(conv.output_channels()),
            r.capacity() == capacity,
            r.len == 0,
            r.clip == clip,
            r.conv == conv,
    {
        let mut cursors: Vec<usize> = Vec::new();
        let mut volumes: Vec<u32> = Vec::new();
        let mut i: usize = 0;
        while i < capacity
            invariant
                i <= capacity,
                cursors@.len() == i,
                volumes@.len() == i,
                forall|k: int| 0 <= k < i ==> #[trigger] cursors@[k] == 0,
            decreases capacity - i,
        {
            cursors.push(0);
            volumes.push(0);
            i = i + 1;
        }
        ShortPool { clip, conv, cursors, volumes, start: 0, len: 0 }
    }

    /// The slot a play takes: slot 0 in an idle pool, else the slot after
    /// the newest busy voice (the oldest one's when every voice is busy).
    pub open spec fn next_slot(&self) -> int {
        if self.len == 0 {
            0
        } else {
            self.slot(self.len as int)
        }
    }

    /// `self` is `before` after a play at gain `volume`: the next slot
    /// restarts at that gain; when every voice was busy that slot was the
    /// oldest one's, which is stolen.
    pub open spec fn played_from(&self, before: ShortPool, volume: u32) -> bool {
        let s = before.next_slot();
        &&& self.clip == before.clip
        &&& self.conv == before.conv
        &&& self.cursors@ == before.cursors@.update(s, 0)
        &&& self.volumes@ == before.volumes@.update(s, volume)
        &&& before.len < before.capacity() ==> self.active_slots() == before.active_slots().push(s)
        &&& before.len == before.capacity() ==> self.active_slots() == before.active_slots().drop_first().push(s)
        &&& before.len == 0 ==> self.active_slots() == seq![0int]
        &&& self.len <= self.capacity()
    }

    /// Starts the effect at gain `volume`.
    pub fn play(&mut self, volume: u32)
        requires
            old(self).wf(old(self).conv.output_channels()),
        ensures
            final(self).wf(final(self).conv.output_channels()),
            final(self).played_from(*old(self), volume),
            final(self).start < final(self).capacity(),
    {
        let cap = self.cursors.len();
        let ghost before_slots = self.active_slots();
        if self.len == 0 {
            self.start = 0;
        }
        let slot: usize = if self.len == cap {
            self.start
        } else if self.start < cap - self.len {
            self.start + self.len
        } else {
            self.start - (cap - self.len)
        };
        let ghost old_slots = self.active_slots();
        assert(old_slots =~= before_slots);
        self.cursors.set(slot, 0);
        self.volumes.set(slot, volume);
        if self.len == cap {
            self.start = if self.start + 1 == cap { 0 } else { self.start + 1 };
            assert(self.active_slots() =~= old_slots.drop_first().push(slot as int));
        } else {
            self.len = self.len + 1;
            assert(self.active_slots() =~= old_slots.push(slot as int));
            if self.len == 1 {
                assert(self.active_slots() =~= seq![0int]);
            }
        }
    }

    /// Idles every voice; cursors stay until the next play resets them.
    pub fn stop_all(&mut self)
        ensures
            final(self).len == 0,
            final(self).start == old(self).start,
            final(self).cursors == old(self).cursors,
            final(self).volumes == old(self).volumes,
            final(self).clip == old(self).clip,
            final(self).conv == old(self).conv,
    {
        self.len = 0;
    }

    /// Mixes every busy voice, oldest first, into `out` and advances it; a
    /// voice that has ended leaves the window when it is at one of its edges.
    pub fn fill(&mut self, out: &mut Vec<i32>)
        requires
            old(self).wf(old(self).conv.output_channels()),
        ensures
            final(self).wf(final(self).conv.output_channels()),
            final(self).clip == old(self).clip,
            final(self).conv == old(self).conv,
            final(self).volumes == old(self).volumes,
            (final(self).cursors@, final(self).start as int, final(self).len as int, final(out)@) == slots_run(
                old(self).clip,
                old(self).conv,
                old(self).volumes@,
                (old(self).cursors@, old(self).start as int, old(self).len as int, old(out)@),
                old(self).start as int,
                old(self).len as nat,
            ),
    {
        let cap = self.cursors.len();
        let start0 = self.start;
        let count = self.len;
        let ghost st0 = (self.cursors@, self.start as int, self.len as int, out@);
        let mut k: usize = 0;
        while k < count
            invariant
                self.wf(self.conv.output_channels()),
                self.clip == old(self).clip,
                self.conv == old(self).conv,
                self.volumes == old(self).volumes,
                cap == self.capacity(),
                start0 == old(self).start,
                start0 < cap,
                count == old(self).len,
                count <= cap,
                k <= count,
                st0 == (old(self).cursors@, old(self).start as int, old(self).len as int, old(out)@),
                (self.cursors@, self.start as int, self.len as int, out@) == slots_run(
                    self.clip,
                    self.conv,
                    self.volumes@,
                    st0,
                    start0 as int,
                    k as nat,
                ),
            decreases count - k,
        {
            let s: usize = if start0 < cap - k { start0 + k } else { start0 - (cap - k) };
            self.step_slot(out, s);
            k = k + 1;
        }
    }

    /// Mixes and advances the voice in slot `s`, retiring it if it has ended.
    fn step_slot(&mut self, out: &mut Vec<i32>, s: usize)
        requires
            old(self).wf(old(self).conv.output_channels()),
            s < old(self).capacity(),
        ensures
            final(self).wf(final(self).conv.output_channels()),
            final(self).clip == old(self).clip,
            final(self).conv == old(self).conv,
            final(self).volumes == old(self).volumes,
            (final(self).cursors@, final(self).start as int, final(self).len as int, final(out)@) == slot_step(
                old(self).clip,
                old(self).conv,
                old(self).volumes@,
                (old(self).cursors@, old(self).start as int, old(self).len as int, old(out)@),
                s as int,
            ),
    {
        let cap = self.cursors.len();
        let pos = self.cursors[s];
        let n = mix(out, self.conv, &self.clip, pos, self.volumes[s]);
        if n == 0 {
            if self.len > 0 && s == self.start {
                self.start = if self.start + 1 == cap { 0 } else { self.start + 1 };
                self.len = self.len - 1;
            } else if self.len > 0 && s == (if self.start < cap - (self.len - 1) {
                self.start + (self.len - 1)
            } else {
                self.start - (cap - (self.len - 1))
            }) {
                self.len = self.len - 1;
            }
        } else {
            self.cursors.set(s, pos + n);
        }
    }
}

/// The gain of short effect played at `pos`: `global_volume * effect_volume
/// * distance(pos, listener)`.
pub open spec fn play_gain(state: crate::State, pos: [i32; 3]) -> int {
    attenuated(
        mul_gain(state.global_volume as int, state.effect.volume as int),
        state.effect.distance_model.gain_at(euclidean_distance(pos, state.effect.listener) as int),
    )
}

/// play the sound effect at the volume `global_volume * effect_volume *
/// distance(position, listener_position)`; nothing is played where the
/// distance leaves no gain
pub fn play(state: &crate::State, effect: usize, pos: [i32; 3]) -> (r: Option<Command>)
    requires
        state.wf(),
        effect < state.effect.short_effects,
    ensures
        ({
            let d = state.effect.distance_model.gain_at(euclidean_distance(pos, state.effect.listener) as int);
            &&& d > 0 ==> r == Some(Command::PlayShortEffect(effect, play_gain(*state, pos) as u32))
            &&& d == 0 ==> r is None
        }),
{
    let distance_volume = state.effect.distance_model.distance(pos, state.effect.listener);
    if distance_volume > 0 {
        let g = attenuate(mul_gains(state.global_volume, state.effect.volume), distance_volume);
        Some(Command::PlayShortEffect(effect, g))
    } else {
        None
    }
}

/// play the sound effect at the position of the listener, i.e. at volume
/// `global_volume * effect_volume`
pub fn play_on_listener(state: &crate::State, effect: usize) -> (r: Option<Command>)
    requires
        state.wf(),
        effect < state.effect.short_effects,
    ensures
        r == Some(Command::PlayShortEffect(
            effect,
            mul_gain(state.global_volume as int, state.effect.volume as int) as u32,
        )),
{
    let r = play(state, effect, state.effect.listener);
    proof {
        let l = state.effect.listener;
        assert(crate::effect::square_distance(l, l) == 0) by {
            assert(l@[0] - l@[0] == 0 && l@[1] - l@[1] == 0 && l@[2] - l@[2] == 0);
        }
        assert(0nat * 0nat <= 0nat && 0nat < (0nat + 1) * (0nat + 1)) by (nonlinear_arith);
        crate::effect::lemma_floor_sqrt_unique(0, 0);
        let g = mul_gain(state.global_volume as int, state.effect.volume as int);
        assert(g * (ATTENUATION_ONE as int) / (ATTENUATION_ONE as int) == g) by (nonlinear_arith);
    }
    r
}

/// stop all short sound effects
pub fn stop_all() -> (r: Command)
    ensures
        r == Command::StopAllShortEffects,
{
    Command::StopAllShortEffects
}

} // verus!
