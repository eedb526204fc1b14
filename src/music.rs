//! Music: the transition state machine of the music voice, and the music
//! controls.
use vstd::prelude::*;
use crate::clip::Clip;
use crate::convert::{Conversion, frames_read, mix, mixed};
use crate::sndfile::SeekMode;
use crate::engine::Command;
use crate::{GAIN_ONE, mul_gain, mul_gains};

verus! {

/// the status of the music
#[derive(Clone, Copy, Debug, PartialEq, Eq, Structural)]
pub enum MusicStatus {
    /// the music is paused
    Pause,
    /// there is no music
    Stop,
    /// the music is played
    Play,
}

/// the type of transition between musics, with its duration in milliseconds
#[derive(Clone, Copy, Debug, PartialEq, Eq, Structural)]
pub enum MusicTransition {
    /// the current music ends smoothly and then the new one is played.
    Smooth(u32),
    /// the current music ends smoothly while the new one begins smoothly.
    Overlap(u32),
    /// the current music is stopped and the new one is played.
    Instant,
}

impl MusicTransition {
    /// whether music transition is smooth
    pub fn is_smooth(&self) -> (r: bool)
        ensures
            r == (*self is Smooth),
    {
        if let MusicTransition::Smooth(_) = self {
            true
        } else {
            false
        }
    }

    /// whether music transition is instant
    pub fn is_instant(&self) -> (r: bool)
        ensures
            r == (*self is Instant),
    {
        if let MusicTransition::Instant = self {
            true
        } else {
            false
        }
    }

    /// Its duration in milliseconds (none for `Instant`).
    pub open spec fn millis(self) -> nat {
        match self {
            MusicTransition::Smooth(ms) => ms as nat,
            MusicTransition::Overlap(ms) => ms as nat,
            MusicTransition::Instant => 0,
        }
    }

    /// Its duration in frames at `rate` frames per second, rounded down.
    pub fn fade_frames(&self, rate: u32) -> (r: u64)
        ensures
            r == self.millis() * rate / 1000,
    {
        let ms: u64 = match *self {
            MusicTransition::Smooth(ms) => ms as u64,
            MusicTransition::Overlap(ms) => ms as u64,
            MusicTransition::Instant => 0,
        };
        assert(ms * (rate as u64) <= 0xffff_ffff * 0xffff_ffff) by (nonlinear_arith)
            requires ms <= 0xffff_ffff, rate <= 0xffff_ffff;
        ms * (rate as u64) / 1000
    }
}

/// Gain of the outgoing track after `e` of `d` frames of a fade: `v * (1 - e / d)`.
pub open spec fn fade_out_gain(v: int, e: int, d: int) -> int {
    v * (d - e) / d
}

/// Gain of the incoming track after `e` of `d` frames of an overlap: `v * e / d`.
pub open spec fn fade_in_gain(v: int, e: int, d: int) -> int {
    v * e / d
}

/// Under an overlap, half-way through the fade the outgoing and the incoming
/// track each sound at half the music volume.
pub proof fn lemma_overlap_midpoint(v: u32, d: u64, e: u64)
    requires
        d > 0,
        2 * e == d,
    ensures
        fade_out_gain(v as int, e as int, d as int) == v / 2,
        fade_in_gain(v as int, e as int, d as int) == v / 2,
{
    assert(v * (d - e) / (d as int) == v / 2) by (nonlinear_arith)
        requires d == 2 * e, e > 0;
    assert(v * e / (d as int) == v / 2) by (nonlinear_arith)
        requires d == 2 * e, e > 0;
}

/// `fade_out_gain` on machine integers.
fn fade_out(v: u32, e: u64, d: u64) -> (r: u32)
    requires
        e < d,
    ensures
        r == fade_out_gain(v as int, e as int, d as int),
{
    let k: u64 = d - e;
    assert((v as int) * (k as int) <= 0xffff_ffff * 0xffff_ffff_ffff_ffff) by (nonlinear_arith)
        requires v <= 0xffff_ffff, k <= 0xffff_ffff_ffff_ffff, v >= 0, k >= 0;
    let p: u128 = (v as u128) * (k as u128);
    assert((p as int) / (d as int) <= v) by (nonlinear_arith)
        requires p == v * (d - e), d - e <= d, d > 0, v >= 0;
    (p / (d as u128)) as u32
}

/// `fade_in_gain` on machine integers.
fn fade_in(v: u32, e: u64, d: u64) -> (r: u32)
    requires
        e < d,
    ensures
        r == fade_in_gain(v as int, e as int, d as int),
{
    assert((v as int) * (e as int) <= 0xffff_ffff * 0xffff_ffff_ffff_ffff) by (nonlinear_arith)
        requires v <= 0xffff_ffff, e <= 0xffff_ffff_ffff_ffff, v >= 0, e >= 0;
    let p: u128 = (v as u128) * (e as u128);
    assert((p as int) / (d as int) <= v) by (nonlinear_arith)
        requires p == v * e, e <= d, d > 0, v >= 0;
    (p / (d as u128)) as u32
}

/// Every clip holds whole frames of one or two channels.
pub open spec fn clips_wf(clips: Seq<Clip>) -> bool {
    forall|i: int| 0 <= i < clips.len() ==> (#[trigger] clips[i]).wf()
}

/// A read position in one of the music clips, with the conversion chosen for
/// it when it was opened.
#[derive(Clone, Copy, Debug, PartialEq, Eq, Structural)]
pub struct Track {
    /// index of the clip in the music catalog
    pub index: usize,
    /// next frame to read
    pub pos: usize,
    /// how its frames are laid onto the output
    pub conv: Conversion,
}

impl Track {
    /// It reads an existing clip, within its frames, onto `oc` output channels.
    pub open spec fn fits(self, clips: Seq<Clip>, oc: nat) -> bool {
        &&& self.index < clips.len()
        &&& self.pos <= clips[self.index as int].frames()
        &&& self.conv.input_channels() == clips[self.index as int].channels
        &&& self.conv.output_channels() == oc
    }
}

/// The music voice: a current track, and a transitional one that fades out
/// while a transition runs.
pub struct MusicVoice {
    /// the track being played
    pub current: Option<Track>,
    /// the outgoing track, while it fades out
    pub transitional: Option<Track>,
    /// the transition applied when a new music starts
    pub transition: MusicTransition,
    /// duration of the transition in frames
    pub fade_frames: u64,
    /// frames of the transition done so far
    pub elapsed: u64,
    /// gain of the music
    pub volume: u32,
    /// whether the current track restarts when it ends
    pub looping: bool,
    /// whether the current track is frozen
    pub paused: bool,
}

impl MusicVoice {
    /// Tracks fit the clips; a transitional track exists only during a
    /// transition of some duration, which it has not finished.
    pub open spec fn wf(self, clips: Seq<Clip>, oc: nat) -> bool {
        &&& clips_wf(clips)
        &&& (self.current matches Some(t) ==> t.fits(clips, oc))
        &&& (self.transitional matches Some(t) ==> t.fits(clips, oc) && self.fade_frames > 0
            && self.elapsed < self.fade_frames && !(self.transition is Instant))
    }

    /// A silent voice with these settings.
    pub open spec fn new_spec(transition: MusicTransition, fade_frames: u64, volume: u32, looping: bool) -> MusicVoice {
        MusicVoice {
            current: None,
            transitional: None,
            transition,
            fade_frames,
            elapsed: 0,
            volume,
            looping,
            paused: false,
        }
    }

    /// A silent voice with these settings.
    pub fn new(transition: MusicTransition, fade_frames: u64, volume: u32, looping: bool) -> (r: MusicVoice)
        ensures
            r == MusicVoice::new_spec(transition, fade_frames, volume, looping),
    {
        MusicVoice {
            current: None,
            transitional: None,
            transition,
            fade_frames,
            elapsed: 0,
            volume,
            looping,
            paused: false,
        }
    }

    /// First step of a fill: the transitional track, if any, is mixed at its
    /// fading gain and advanced; it is dropped once the fade is done or the
    /// track has ended.
    pub open spec fn faded(self, clips: Seq<Clip>, out: Seq<i32>) -> (MusicVoice, Seq<i32>) {
        match self.transitional {
            Some(t) => {
                let c = clips[t.index as int];
                let g = fade_out_gain(self.volume as int, self.elapsed as int, self.fade_frames as int);
                let n = frames_read(out.len(), t.conv, c.frames(), t.pos as int);
                let done = self.elapsed + n >= self.fade_frames;
                let e = if done { self.fade_frames } else { (self.elapsed + n) as u64 };
                let next = if n == 0 || done { None } else { Some(Track { pos: (t.pos + n) as usize, ..t }) };
                (
                    MusicVoice { transitional: next, elapsed: e, ..self },
                    mixed(out, t.conv, c.samples@, c.frames(), t.pos as int, g),
                )
            },
            None => (self, out),
        }
    }

    /// Whether the current track waits: it is paused, or a smooth transition
    /// has not finished fading out the previous track.
    pub open spec fn waits(self) -> bool {
        self.paused || (self.transitional is Some && self.transition is Smooth)
    }

    /// Second step of a fill: the current track, unless it waits, is mixed at
    /// the music volume (rising with the fade under an overlap) and advanced;
    /// at its end it restarts if looping, else it is dropped.
    pub open spec fn advanced(self, clips: Seq<Clip>, out: Seq<i32>) -> (MusicVoice, Seq<i32>) {
        match self.current {
            Some(t) => {
                if self.waits() {
                    (self, out)
                } else {
                    let c = clips[t.index as int];
                    let g = if self.transitional is Some {
                        fade_in_gain(self.volume as int, self.elapsed as int, self.fade_frames as int)
                    } else {
                        self.volume as int
                    };
                    let n = frames_read(out.len(), t.conv, c.frames(), t.pos as int);
                    if n > 0 {
                        (
                            MusicVoice { current: Some(Track { pos: (t.pos + n) as usize, ..t }), ..self },
                            mixed(out, t.conv, c.samples@, c.frames(), t.pos as int, g),
                        )
                    } else if self.looping {
                        let n0 = frames_read(out.len(), t.conv, c.frames(), 0);
                        (
                            MusicVoice { current: Some(Track { pos: n0 as usize, ..t }), ..self },
                            mixed(out, t.conv, c.samples@, c.frames(), 0, g),
                        )
                    } else {
                        (MusicVoice { current: None, ..self }, out)
                    }
                }
            },
            None => (self, out),
        }
    }

    /// The voice and the output after one fill.
    pub open spec fn filled(self, clips: Seq<Clip>, out: Seq<i32>) -> (MusicVoice, Seq<i32>) {
        let (m, o) = self.faded(clips, out);
        m.advanced(clips, o)
    }

    /// The voice once clip `index` starts from its first frame. Under
    /// `Instant`, or a transition of no duration, the previous track is
    /// dropped; otherwise it becomes the transitional track and the fade
    /// starts.
    pub open spec fn played(self, index: usize, conv: Conversion) -> MusicVoice {
        let fresh = Some(Track { index, pos: 0, conv });
        if self.transition is Instant || self.fade_frames == 0 {
            MusicVoice { current: fresh, transitional: None, ..self }
        } else {
            MusicVoice { current: fresh, transitional: self.current, elapsed: 0, ..self }
        }
    }

    /// Starts clip `index` from its first frame.
    pub fn play(&mut self, index: usize, conv: Conversion)
        ensures
            *final(self) == old(self).played(index, conv),
    {
        let fresh = Track { index, pos: 0, conv };
        match self.transition {
            MusicTransition::Instant => {
                self.transitional = None;
            },
            _ => {
                if self.fade_frames == 0 {
                    self.transitional = None;
                } else {
                    self.transitional = self.current;
                    self.elapsed = 0;
                }
            },
        }
        self.current = Some(fresh);
    }

    /// Drops both tracks.
    pub fn stop(&mut self)
        ensures
            *final(self) == (MusicVoice { current: None, transitional: None, ..*old(self) }),
    {
        self.current = None;
        self.transitional = None;
    }

    /// The voice with the transition set to `transition`, lasting
    /// `fade_frames` frames. A running fade that the new setting cannot carry
    /// (`Instant`, or already longer than the new duration) is dropped.
    pub open spec fn with_transition(self, transition: MusicTransition, fade_frames: u64) -> MusicVoice {
        let keep = !(transition is Instant) && self.elapsed < fade_frames;
        MusicVoice {
            transition,
            fade_frames,
            transitional: if keep {
                self.transitional
            } else {
                None
            },
            ..self
        }
    }

    /// Sets the transition applied to the next music.
    pub fn set_transition(&mut self, transition: MusicTransition, fade_frames: u64)
        ensures
            *final(self) == old(self).with_transition(transition, fade_frames),
    {
        self.transition = transition;
        self.fade_frames = fade_frames;
        if transition.is_instant() || self.elapsed >= fade_frames {
            self.transitional = None;
        }
    }

    /// The voice once its current track moves to the frame `offset` from
    /// the origin `mode` names; a target outside the clip changes nothing.
    pub open spec fn sought(self, clips: Seq<Clip>, offset: i64, mode: SeekMode) -> MusicVoice {
        match self.current {
            Some(t) => {
                let frames = clips[t.index as int].frames() as int;
                let target = mode.base(t.pos as int, frames) + offset;
                if 0 <= target <= frames {
                    MusicVoice { current: Some(Track { pos: target as usize, ..t }), ..self }
                } else {
                    self
                }
            },
            None => self,
        }
    }

    /// Moves the current track within its clip.
    pub fn seek(&mut self, clips: &Vec<Clip>, offset: i64, mode: SeekMode)
        requires
            old(self).current matches Some(t) ==> t.index < clips@.len() && t.pos
                <= clips@[t.index as int].frames() && clips@[t.index as int].wf(),
        ensures
            *final(self) == old(self).sought(clips@, offset, mode),
    {
        if let Some(t) = self.current {
            let frames = clips[t.index].frame_count();
            if let Some(p) = mode.target(offset, t.pos, frames) {
                self.current = Some(Track { pos: p, ..t });
            }
        }
    }

    /// Mixes the voice into `out` for one callback.
    pub fn fill(&mut self, clips: &Vec<Clip>, out: &mut Vec<i32>, oc: usize)
        requires
            old(self).wf(clips@, oc as nat),
        ensures
            (*final(self), final(out)@) == old(self).filled(clips@, old(out)@),
            final(self).wf(clips@, oc as nat),
    {
        self.fade_step(clips, out, oc);
        self.advance_step(clips, out, oc);
    }

    /// The first step of `fill`.
    fn fade_step(&mut self, clips: &Vec<Clip>, out: &mut Vec<i32>, oc: usize)
        requires
            old(self).wf(clips@, oc as nat),
        ensures
            (*final(self), final(out)@) == old(self).faded(clips@, old(out)@),
            final(self).wf(clips@, oc as nat),
    {
        if let Some(t) = self.transitional {
            let c = &clips[t.index];
            assert(c.wf());
            let g = fade_out(self.volume, self.elapsed, self.fade_frames);
            let n = mix(out, t.conv, c, t.pos, g);
            let left: u64 = self.fade_frames - self.elapsed;
            if n as u64 >= left {
                self.elapsed = self.fade_frames;
                self.transitional = None;
            } else {
                self.elapsed = self.elapsed + n as u64;
                if n == 0 {
                    self.transitional = None;
                } else {
                    self.transitional = Some(Track { pos: t.pos + n, ..t });
                }
            }
        }
    }

    /// The second step of `fill`.
    fn advance_step(&mut self, clips: &Vec<Clip>, out: &mut Vec<i32>, oc: usize)
        requires
            old(self).wf(clips@, oc as nat),
        ensures
            (*final(self), final(out)@) == old(self).advanced(clips@, old(out)@),
            final(self).wf(clips@, oc as nat),
    {
        if let Some(t) = self.current {
            let wait = self.paused || (self.transitional.is_some() && self.transition.is_smooth());
            if !wait {
                let c = &clips[t.index];
                assert(c.wf());
                let g = if self.transitional.is_some() {
                    fade_in(self.volume, self.elapsed, self.fade_frames)
                } else {
                    self.volume
                };
                let n = mix(out, t.conv, c, t.pos, g);
                if n > 0 {
                    self.current = Some(Track { pos: t.pos + n, ..t });
                } else if self.looping {
                    let n0 = mix(out, t.conv, c, 0, g);
                    self.current = Some(Track { pos: n0, ..t });
                } else {
                    self.current = None;
                }
            }
        }
    }
}

/// Under a smooth transition the incoming track waits: while the outgoing
/// track has not finished fading out, a fill mixes nothing of the current
/// track and leaves its position where it was.
pub proof fn lemma_smooth_waits(m: MusicVoice, clips: Seq<Clip>, out: Seq<i32>)
    requires
        m.transition is Smooth,
        m.faded(clips, out).0.transitional is Some,
    ensures
        m.filled(clips, out).1 == m.faded(clips, out).1,
        m.filled(clips, out).0.current == m.current,
{
}

/// The control-side settings of the music and its last known status.
pub struct State {
    /// the transition between musics
    pub transition: MusicTransition,
    /// gain of the music
    pub volume: u32,
    /// number of musics in the catalog
    pub musics: usize,
    /// the music last started, unless stopped since
    pub index: Option<usize>,
    /// whether the music was last paused
    pub paused: bool,
    /// whether a music restarts when it ends
    pub looping: bool,
}

/// set the volume of the music; the music sounds at
/// `music_volume * global_volume`
pub fn set_volume(state: &mut crate::State, v: u32) -> (r: Command)
    requires
        old(state).wf(),
        v <= GAIN_ONE,
    ensures
        final(state).wf(),
        *final(state) == (crate::State { music: State { volume: v, ..old(state).music }, ..*old(state) }),
        r == Command::SetMusicVolume(mul_gain(v as int, old(state).global_volume as int) as u32),
{
    state.music.volume = v;
    update_volume(state)
}

/// the command that gives the music its gain, `music_volume * global_volume`
pub fn update_volume(state: &crate::State) -> (r: Command)
    requires
        state.wf(),
    ensures
        r == Command::SetMusicVolume(mul_gain(state.music.volume as int, state.global_volume as int) as u32),
{
    Command::SetMusicVolume(mul_gains(state.music.volume, state.global_volume))
}

/// return the volume of the music
pub fn volume(state: &crate::State) -> (r: u32)
    ensures
        r == state.music.volume,
{
    state.music.volume
}

/// play the music `music` of the catalog
pub fn play(state: &mut crate::State, music: usize) -> (r: Command)
    requires
        music < old(state).music.musics,
    ensures
        *final(state) == (crate::State { music: State { index: Some(music), ..old(state).music }, ..*old(state) }),
        r == Command::PlayMusic(music),
{
    state.music.index = Some(music);
    Command::PlayMusic(music)
}

/// play the music if it is different from the current one
pub fn play_or_continue(state: &mut crate::State, music: usize) -> (r: Option<Command>)
    requires
        music < old(state).music.musics,
    ensures
        old(state).music.index == Some(music) ==> r is None && *final(state) == *old(state),
        old(state).music.index != Some(music) ==> r == Some(Command::PlayMusic(music)) && *final(state) == (
        crate::State { music: State { index: Some(music), ..old(state).music }, ..*old(state) }),
{
    let must_play = match state.music.index {
        Some(index) => music != index,
        None => true,
    };
    if must_play {
        Some(play(state, music))
    } else {
        None
    }
}

/// pause the music
pub fn pause(state: &mut crate::State) -> (r: Command)
    ensures
        *final(state) == (crate::State { music: State { paused: true, ..old(state).music }, ..*old(state) }),
        r == Command::PauseMusic,
{
    state.music.paused = true;
    Command::PauseMusic
}

/// resume the music
pub fn resume(state: &mut crate::State) -> (r: Command)
    ensures
        *final(state) == (crate::State { music: State { paused: false, ..old(state).music }, ..*old(state) }),
        r == Command::ResumeMusic,
{
    state.music.paused = false;
    Command::ResumeMusic
}

/// return whether the music is paused
pub fn is_paused(state: &crate::State) -> (r: bool)
    ensures
        r == state.music.paused,
{
    state.music.paused
}

/// stop the music
pub fn stop(state: &mut crate::State) -> (r: Command)
    ensures
        *final(state) == (crate::State { music: State { index: None, ..old(state).music }, ..*old(state) }),
        r == Command::StopMusic,
{
    state.music.index = None;
    Command::StopMusic
}

/// record that music `music` has ended on its own, as `Engine::tick`
/// reports: the music shows as stopped unless another has been started since
pub fn ended(state: &mut crate::State, music: usize)
    ensures
        old(state).music.index == Some(music) ==> *final(state) == (crate::State {
            music: State { index: None, ..old(state).music },
            ..*old(state)
        }),
        old(state).music.index != Some(music) ==> *final(state) == *old(state),
{
    if state.music.index == Some(music) {
        state.music.index = None;
    }
}

/// return whether the music is stopped
pub fn is_stopped(state: &crate::State) -> (r: bool)
    ensures
        r == (state.music.index is None),
{
    state.music.index.is_none()
}

/// return the status of the music
pub fn status(state: &crate::State) -> (r: MusicStatus)
    ensures
        r == (if state.music.index is None {
            MusicStatus::Stop
        } else if state.music.paused {
            MusicStatus::Pause
        } else {
            MusicStatus::Play
        }),
{
    if state.music.index.is_none() {
        MusicStatus::Stop
    } else if state.music.paused {
        MusicStatus::Pause
    } else {
        MusicStatus::Play
    }
}

/// return the current type of transition
pub fn transition(state: &crate::State) -> (r: MusicTransition)
    ensures
        r == state.music.transition,
{
    state.music.transition
}

/// set the type of transition between musics
pub fn set_transition(state: &mut crate::State, trans: MusicTransition) -> (r: Command)
    ensures
        *final(state) == (crate::State { music: State { transition: trans, ..old(state).music }, ..*old(state) }),
        r == Command::SetMusicTransition(trans),
{
    state.music.transition = trans;
    Command::SetMusicTransition(trans)
}

/// set whether a music restarts when it ends
pub fn set_loop(state: &mut crate::State, looping: bool) -> (r: Command)
    ensures
        *final(state) == (crate::State { music: State { looping, ..old(state).music }, ..*old(state) }),
        r == Command::SetMusicLoop(looping),
{
    state.music.looping = looping;
    Command::SetMusicLoop(looping)
}

/// move the current music by `offset` frames from the origin `mode` names
pub fn seek(offset: i64, mode: SeekMode) -> (r: Command)
    ensures
        r == Command::SeekMusic(offset, mode),
{
    Command::SeekMusic(offset, mode)
}

/// return the index of the current music if any
pub fn index(state: &crate::State) -> (r: Option<usize>)
    ensures
        r == state.music.index,
{
    state.music.index
}

} // verus!
