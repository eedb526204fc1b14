//! The render engine: owns every voice, applies the commands of the control
//! side, and fills one output buffer per device callback.
use vstd::prelude::*;
use crate::clip::Clip;
use crate::convert::Conversion;
use crate::effect::persistent::PersistentVoice;
use crate::effect::short::{ShortPool, slots_run};
use crate::music::{MusicTransition, MusicVoice};
use crate::sndfile::SeekMode;

verus! {

/// A change of render-side state, sent by the control side.
#[derive(Clone, Debug)]
pub enum Command {
    /// start music `index`
    PlayMusic(usize),
    /// stop the music
    StopMusic,
    /// freeze the current music
    PauseMusic,
    /// unfreeze the current music
    ResumeMusic,
    /// move the current music by an offset in frames from an origin
    SeekMusic(i64, SeekMode),
    /// set the gain of the music
    SetMusicVolume(u32),
    /// set whether the music restarts when it ends
    SetMusicLoop(bool),
    /// set the transition between musics
    SetMusicTransition(MusicTransition),
    /// play short effect `index` at a gain
    PlayShortEffect(usize, u32),
    /// stop every short effect
    StopAllShortEffects,
    /// set the gain of persistent effect `index`
    SetPersistentVolume(usize, u32),
    /// set the gain of each persistent effect, in catalog order
    SetPersistentVolumes(Vec<u32>),
    /// silence the persistent effects, holding their positions
    MutePersistentEffects,
    /// let the persistent effects sound again
    UnmutePersistentEffects,
}

/// The output after the first `k` pools have filled it in turn.
pub open spec fn pools_out(pools: Seq<ShortPool>, out: Seq<i32>, k: nat) -> Seq<i32>
    decreases k,
{
    if k == 0 {
        out
    } else {
        let p = pools[k - 1];
        slots_run(
            p.clip,
            p.conv,
            p.volumes@,
            (p.cursors@, p.start as int, p.len as int, pools_out(pools, out, (k - 1) as nat)),
            p.start as int,
            p.len as nat,
        ).3
    }
}

/// `after` is pool `before` once it has filled `out`.
pub open spec fn pool_filled(before: ShortPool, after: ShortPool, out: Seq<i32>) -> bool {
    let r = slots_run(
        before.clip,
        before.conv,
        before.volumes@,
        (before.cursors@, before.start as int, before.len as int, out),
        before.start as int,
        before.len as nat,
    );
    &&& after.clip == before.clip
    &&& after.conv == before.conv
    &&& after.volumes == before.volumes
    &&& after.cursors@ == r.0
    &&& after.start == r.1
    &&& after.len == r.2
}

/// The output after the first `k` persistent voices have filled it in turn.
pub open spec fn voices_out(voices: Seq<PersistentVoice>, out: Seq<i32>, k: nat) -> Seq<i32>
    decreases k,
{
    if k == 0 {
        out
    } else {
        voices[k - 1].filled(voices_out(voices, out, (k - 1) as nat)).1
    }
}

/// The render-side state: every voice, and the output format.
pub struct Engine {
    /// output channels, 1 or 2
    pub channels: usize,
    /// output frames per second
    pub sample_rate: u32,
    /// the music catalog, decoded
    pub musics: Vec<Clip>,
    /// the music voice
    pub music: MusicVoice,
    /// one pool per short effect
    pub shorts: Vec<ShortPool>,
    /// one voice per persistent effect
    pub persistents: Vec<PersistentVoice>,
    /// whether the persistent effects are silenced
    pub muted: bool,
}

impl Engine {
    /// Every voice suits the output format.
    pub open spec fn wf(&self) -> bool {
        &&& self.channels == 1 || self.channels == 2
        &&& self.music.wf(self.musics@, self.channels as nat)
        &&& forall|i: int| 0 <= i < self.shorts@.len() ==> (#[trigger] self.shorts@[i]).wf(self.channels as nat)
        &&& forall|i: int|
            0 <= i < self.persistents@.len() ==> (#[trigger] self.persistents@[i]).wf(self.channels as nat)
    }

    /// The music voice once `cmd` has been applied to `before`.
    pub open spec fn music_after(before: Engine, cmd: Command) -> MusicVoice {
        match cmd {
            Command::PlayMusic(i) => if i < before.musics@.len() {
                before.music.played(
                    i,
                    Conversion::between(before.musics@[i as int].channels as nat, before.channels as nat),
                )
            } else {
                before.music
            },
            Command::StopMusic => MusicVoice { current: None, transitional: None, ..before.music },
            Command::PauseMusic => MusicVoice { paused: true, ..before.music },
            Command::ResumeMusic => MusicVoice { paused: false, ..before.music },
            Command::SeekMusic(o, m) => before.music.sought(before.musics@, o, m),
            Command::SetMusicVolume(v) => MusicVoice { volume: v, ..before.music },
            Command::SetMusicLoop(b) => MusicVoice { looping: b, ..before.music },
            Command::SetMusicTransition(t) => before.music.with_transition(
                t,
                (t.millis() * before.sample_rate / 1000) as u64,
            ),
            _ => before.music,
        }
    }

    /// The short-effect pools of `after` are those of `before` once `cmd` has
    /// been applied.
    pub open spec fn shorts_after(before: Engine, after: Engine, cmd: Command) -> bool {
        &&& after.shorts@.len() == before.shorts@.len()
        &&& forall|i: int|
            0 <= i < before.shorts@.len() ==> match cmd {
                Command::PlayShortEffect(k, v) => if i == k {
                    (#[trigger] after.shorts@[i]).played_from(before.shorts@[i], v)
                } else {
                    after.shorts@[i] == before.shorts@[i]
                },
                Command::StopAllShortEffects => after.shorts@[i] == (ShortPool {
                    len: 0,
                    ..before.shorts@[i]
                }),
                _ => after.shorts@[i] == before.shorts@[i],
            }
    }

    /// The persistent voices and the mute flag of `after` are those of
    /// `before` once `cmd` has been applied.
    pub open spec fn persistents_after(before: Engine, after: Engine, cmd: Command) -> bool {
        &&& after.persistents@.len() == before.persistents@.len()
        &&& forall|i: int|
            0 <= i < before.persistents@.len() ==> #[trigger] after.persistents@[i] == match cmd {
                Command::SetPersistentVolume(k, v) => if i == k {
                    PersistentVoice { volume: v, ..before.persistents@[i] }
                } else {
                    before.persistents@[i]
                },
                Command::SetPersistentVolumes(vs) => if i < vs@.len() {
                    PersistentVoice { volume: vs@[i], ..before.persistents@[i] }
                } else {
                    before.persistents@[i]
                },
                _ => before.persistents@[i],
            }
        &&& after.muted == match cmd {
            Command::MutePersistentEffects => true,
            Command::UnmutePersistentEffects => false,
            _ => before.muted,
        }
    }

    /// `after` is `before` once `cmd` has been applied. A command that names a
    /// voice the engine does not have changes nothing.
    pub open spec fn applied(before: Engine, after: Engine, cmd: Command) -> bool {
        &&& after.channels == before.channels
        &&& after.sample_rate == before.sample_rate
        &&& after.musics == before.musics
        &&& after.music == Engine::music_after(before, cmd)
        &&& Engine::shorts_after(before, after, cmd)
        &&& Engine::persistents_after(before, after, cmd)
    }

    /// Applies one command.
    pub fn apply(&mut self, cmd: &Command)
        requires
            old(self).wf(),
        ensures
            final(self).wf(),
            Engine::applied(*old(self), *final(self), *cmd),
    {
        self.apply_music(cmd);
        self.apply_shorts(cmd);
        self.apply_persistents(cmd);
    }

    /// The music part of `apply`.
    fn apply_music(&mut self, cmd: &Command)
        requires
            old(self).wf(),
        ensures
            final(self).wf(),
            final(self).channels == old(self).channels,
            final(self).sample_rate == old(self).sample_rate,
            final(self).musics == old(self).musics,
            final(self).shorts == old(self).shorts,
            final(self).persistents == old(self).persistents,
            final(self).muted == old(self).muted,
            final(self).music == Engine::music_after(*old(self), *cmd),
    {
        match cmd {
            Command::PlayMusic(i) => {
                if *i < self.musics.len() {
                    assert(self.musics@[*i as int].wf());
                    if let Some(conv) = Conversion::select(self.musics[*i].channels, self.channels) {
                        self.music.play(*i, conv);
                    }
                }
            },
            Command::StopMusic => self.music.stop(),
            Command::PauseMusic => self.music.paused = true,
            Command::ResumeMusic => self.music.paused = false,
            Command::SeekMusic(o, m) => {
                proof {
                    if let Some(t) = self.music.current {
                        assert(self.musics@[t.index as int].wf());
                    }
                }
                self.music.seek(&self.musics, *o, *m);
            },
            Command::SetMusicVolume(v) => self.music.volume = *v,
            Command::SetMusicLoop(b) => self.music.looping = *b,
            Command::SetMusicTransition(t) => {
                let ff = t.fade_frames(self.sample_rate);
                self.music.set_transition(*t, ff);
            },
            _ => {},
        }
    }

    /// The short-effect part of `apply`.
    fn apply_shorts(&mut self, cmd: &Command)
        requires
            old(self).wf(),
        ensures
            final(self).wf(),
            final(self).channels == old(self).channels,
            final(self).sample_rate == old(self).sample_rate,
            final(self).musics == old(self).musics,
            final(self).music == old(self).music,
            final(self).persistents == old(self).persistents,
            final(self).muted == old(self).muted,
            Engine::shorts_after(*old(self), *final(self), *cmd),
    {
        match cmd {
            Command::PlayShortEffect(k, v) => {
                if *k < self.shorts.len() {
                    let ghost before = self.shorts@;
                    assert(self.shorts@[*k as int].wf(self.channels as nat));
                    self.shorts[*k].play(*v);
                    assert forall|i: int| 0 <= i < self.shorts@.len() implies (#[trigger] self.shorts@[i]).wf(
                        self.channels as nat,
                    ) by {
                        if i != *k {
                            assert(self.shorts@[i] == before[i]);
                        }
                    }
                }
            },
            Command::StopAllShortEffects => {
                let n = self.shorts.len();
                let mut i: usize = 0;
                while i < n
                    invariant
                        n == self.shorts@.len(),
                        n == old(self).shorts@.len(),
                        i <= n,
                        self.channels == old(self).channels,
                        self.sample_rate == old(self).sample_rate,
                        self.musics == old(self).musics,
                        self.music == old(self).music,
                        self.persistents == old(self).persistents,
                        self.muted == old(self).muted,
                        old(self).wf(),
                        forall|j: int| 0 <= j < n ==> (#[trigger] old(self).shorts@[j]).wf(self.channels as nat),
                        forall|j: int| 0 <= j < i ==> #[trigger] self.shorts@[j] == (ShortPool { len: 0, ..old(self).shorts@[j] }),
                        forall|j: int| i <= j < n ==> #[trigger] self.shorts@[j] == old(self).shorts@[j],
                    decreases n - i,
                {
                    self.shorts[i].stop_all();
                    i = i + 1;
                }
                assert forall|j: int| 0 <= j < n implies (#[trigger] self.shorts@[j]).wf(self.channels as nat) by {
                    assert(old(self).shorts@[j].wf(self.channels as nat));
                }
            },
            _ => {},
        }
    }

    /// The persistent-effect part of `apply`.
    fn apply_persistents(&mut self, cmd: &Command)
        requires
            old(self).wf(),
        ensures
            final(self).wf(),
            final(self).channels == old(self).channels,
            final(self).sample_rate == old(self).sample_rate,
            final(self).musics == old(self).musics,
            final(self).music == old(self).music,
            final(self).shorts == old(self).shorts,
            Engine::persistents_after(*old(self), *final(self), *cmd),
    {
        match cmd {
            Command::SetPersistentVolume(k, v) => {
                if *k < self.persistents.len() {
                    let ghost before = self.persistents@;
                    self.persistents[*k].volume = *v;
                    assert forall|i: int| 0 <= i < self.persistents@.len() implies (
                    #[trigger] self.persistents@[i]).wf(self.channels as nat) by {
                        assert(before[i].wf(self.channels as nat));
                    }
                }
            },
            Command::SetPersistentVolumes(vs) => {
                let n = self.persistents.len();
                let mut i: usize = 0;
                while i < n && i < vs.len()
                    invariant
                        n == self.persistents@.len(),
                        n == old(self).persistents@.len(),
                        i <= n,
                        i <= vs@.len(),
                        self.channels == old(self).channels,
                        self.sample_rate == old(self).sample_rate,
                        self.musics == old(self).musics,
                        self.music == old(self).music,
                        self.shorts == old(self).shorts,
                        self.muted == old(self).muted,
                        old(self).wf(),
                        forall|j: int| 0 <= j < n ==> (#[trigger] old(self).persistents@[j]).wf(self.channels as nat),
                        forall|j: int| 0 <= j < i ==> #[trigger] self.persistents@[j] == (PersistentVoice {
                            volume: vs@[j],
                            ..old(self).persistents@[j]
                        }),
                        forall|j: int| i <= j < n ==> #[trigger] self.persistents@[j] == old(self).persistents@[j],
                    decreases n - i,
                {
                    self.persistents[i].volume = vs[i];
                    i = i + 1;
                }
                assert forall|j: int| 0 <= j < n implies (#[trigger] self.persistents@[j]).wf(self.channels as nat) by {
                    assert(old(self).persistents@[j].wf(self.channels as nat));
                }
            },
            Command::MutePersistentEffects => self.muted = true,
            Command::UnmutePersistentEffects => self.muted = false,
            _ => {},
        }
    }

    /// `after` and `out` are `before` and a buffer of `len` samples once one
    /// buffer has been rendered: silence, then the music, then every
    /// short-effect pool, then (unless muted) every persistent effect, each
    /// mixed in turn.
    pub open spec fn rendered(before: Engine, after: Engine, len: nat, out: Seq<i32>) -> bool {
        let z = Seq::new(len, |i: int| 0i32);
        let (m, o1) = before.music.filled(before.musics@, z);
        let o2 = pools_out(before.shorts@, o1, before.shorts@.len());
        &&& after.channels == before.channels
        &&& after.sample_rate == before.sample_rate
        &&& after.musics == before.musics
        &&& after.muted == before.muted
        &&& after.music == m
        &&& after.shorts@.len() == before.shorts@.len()
        &&& forall|i: int|
            0 <= i < before.shorts@.len() ==> pool_filled(
                before.shorts@[i],
                #[trigger] after.shorts@[i],
                pools_out(before.shorts@, o1, i as nat),
            )
        &&& before.muted ==> after.persistents == before.persistents && out == o2
        &&& !before.muted ==> Engine::voices_filled(before.persistents@, after.persistents@, o2) && out
            == voices_out(before.persistents@, o2, before.persistents@.len())
    }

    /// `after` is `before` once each command of `cmds` has been applied in
    /// order, through the states `states`.
    pub open spec fn applied_through(before: Engine, after: Engine, cmds: Seq<Command>, states: Seq<Engine>) -> bool {
        &&& states.len() == cmds.len() + 1
        &&& states[0] == before
        &&& states[cmds.len() as int] == after
        &&& forall|j: int| 0 <= j < cmds.len() ==> Engine::applied(states[j], #[trigger] states[j + 1], cmds[j])
    }

    /// One device callback: applies the pending commands in order, then
    /// renders `out`. Returns the index of the music whose track ended in
    /// this callback, if one did, so that the control side can report it
    /// stopped.
    pub fn tick(&mut self, commands: &Vec<Command>, out: &mut Vec<i32>) -> (r: Option<usize>)
        requires
            old(self).wf(),
        ensures
            final(self).wf(),
            exists|states: Seq<Engine>|
                {
                    &&& Engine::applied_through(*old(self), states.last(), commands@, states)
                    &&& Engine::rendered(states.last(), *final(self), old(out)@.len(), final(out)@)
                    &&& r == (if states.last().music.current is Some && final(self).music.current is None {
                        Some(states.last().music.current->0.index)
                    } else {
                        None
                    })
                },
    {
        let ghost mut states: Seq<Engine> = seq![*self];
        let mut k: usize = 0;
        while k < commands.len()
            invariant
                self.wf(),
                k <= commands@.len(),
                states.len() == k + 1,
                states[0] == *old(self),
                states[k as int] == *self,
                forall|j: int| 0 <= j < k ==> Engine::applied(states[j], #[trigger] states[j + 1], commands@[j]),
            decreases commands@.len() - k,
        {
            self.apply(&commands[k]);
            proof {
                states = states.push(*self);
            }
            k = k + 1;
        }
        let playing = self.music.current;
        self.render(out);
        assert(Engine::applied_through(*old(self), states.last(), commands@, states));
        match playing {
            Some(t) => if self.music.current.is_none() {
                Some(t.index)
            } else {
                None
            },
            None => None,
        }
    }

    /// Renders one buffer: silence, then the music, then every short-effect
    /// pool, then (unless muted) every persistent effect, each mixed in turn.
    pub fn render(&mut self, out: &mut Vec<i32>)
        requires
            old(self).wf(),
        ensures
            final(self).wf(),
            Engine::rendered(*old(self), *final(self), old(out)@.len(), final(out)@),
    {
        let n = out.len();
        let mut i: usize = 0;
        while i < n
            invariant
                n == out@.len(),
                n == old(out)@.len(),
                i <= n,
                forall|j: int| 0 <= j < i ==> out@[j] == 0,
            decreases n - i,
        {
            out.set(i, 0);
            i = i + 1;
        }
        assert(out@ =~= Seq::new(old(out)@.len(), |i: int| 0i32));
        self.music.fill(&self.musics, out, self.channels);
        self.fill_shorts(out);
        if !self.muted {
            self.fill_persistents(out);
        }
    }

    /// `after` is `before`, each voice having filled in turn from `out`.
    pub open spec fn voices_filled(before: Seq<PersistentVoice>, after: Seq<PersistentVoice>, out: Seq<i32>) -> bool {
        &&& after.len() == before.len()
        &&& forall|i: int|
            0 <= i < before.len() ==> #[trigger] after[i] == (PersistentVoice {
                pos: before[i].filled(voices_out(before, out, i as nat)).0,
                ..before[i]
            })
    }

    /// Every pool fills `out` in turn.
    fn fill_shorts(&mut self, out: &mut Vec<i32>)
        requires
            old(self).wf(),
        ensures
            final(self).wf(),
            final(self).channels == old(self).channels,
            final(self).sample_rate == old(self).sample_rate,
            final(self).musics == old(self).musics,
            final(self).music == old(self).music,
            final(self).persistents == old(self).persistents,
            final(self).muted == old(self).muted,
            final(self).shorts@.len() == old(self).shorts@.len(),
            final(out)@ == pools_out(old(self).shorts@, old(out)@, old(self).shorts@.len()),
            forall|i: int|
                0 <= i < old(self).shorts@.len() ==> pool_filled(
                    old(self).shorts@[i],
                    #[trigger] final(self).shorts@[i],
                    pools_out(old(self).shorts@, old(out)@, i as nat),
                ),
    {
        let n = self.shorts.len();
        let mut i: usize = 0;
        while i < n
            invariant
                n == self.shorts@.len(),
                n == old(self).shorts@.len(),
                i <= n,
                self.channels == old(self).channels,
                self.sample_rate == old(self).sample_rate,
                self.musics == old(self).musics,
                self.music == old(self).music,
                self.persistents == old(self).persistents,
                self.muted == old(self).muted,
                old(self).wf(),
                out@ == pools_out(old(self).shorts@, old(out)@, i as nat),
                forall|j: int| 0 <= j < n ==> (#[trigger] self.shorts@[j]).wf(self.channels as nat),
                forall|j: int|
                    0 <= j < i ==> pool_filled(
                        old(self).shorts@[j],
                        #[trigger] self.shorts@[j],
                        pools_out(old(self).shorts@, old(out)@, j as nat),
                    ),
                forall|j: int| i <= j < n ==> #[trigger] self.shorts@[j] == old(self).shorts@[j],
            decreases n - i,
        {
            let ghost before = self.shorts@;
            assert(self.shorts@[i as int].wf(self.channels as nat));
            assert(self.shorts@[i as int].conv.output_channels() == self.channels);
            self.shorts[i].fill(out);
            assert forall|j: int| 0 <= j < n implies (#[trigger] self.shorts@[j]).wf(self.channels as nat) by {
                if j != i {
                    assert(self.shorts@[j] == before[j]);
                }
            }
            i = i + 1;
        }
    }

    /// Every persistent voice fills `out` in turn.
    fn fill_persistents(&mut self, out: &mut Vec<i32>)
        requires
            old(self).wf(),
        ensures
            final(self).wf(),
            final(self).channels == old(self).channels,
            final(self).sample_rate == old(self).sample_rate,
            final(self).musics == old(self).musics,
            final(self).music == old(self).music,
            final(self).shorts == old(self).shorts,
            final(self).muted == old(self).muted,
            Engine::voices_filled(old(self).persistents@, final(self).persistents@, old(out)@),
            final(out)@ == voices_out(old(self).persistents@, old(out)@, old(self).persistents@.len()),
    {
        let n = self.persistents.len();
        let mut i: usize = 0;
        while i < n
            invariant
                n == self.persistents@.len(),
                n == old(self).persistents@.len(),
                i <= n,
                self.channels == old(self).channels,
                self.sample_rate == old(self).sample_rate,
                self.musics == old(self).musics,
                self.music == old(self).music,
                self.shorts == old(self).shorts,
                self.muted == old(self).muted,
                old(self).wf(),
                out@ == voices_out(old(self).persistents@, old(out)@, i as nat),
                forall|j: int| 0 <= j < n ==> (#[trigger] self.persistents@[j]).wf(self.channels as nat),
                forall|j: int|
                    0 <= j < i ==> #[trigger] self.persistents@[j] == (PersistentVoice {
                        pos: old(self).persistents@[j].filled(voices_out(old(self).persistents@, old(out)@, j as nat)).0,
                        ..old(self).persistents@[j]
                    }),
                forall|j: int| i <= j < n ==> #[trigger] self.persistents@[j] == old(self).persistents@[j],
            decreases n - i,
        {
            let ghost before = self.persistents@;
            assert(self.persistents@[i as int].wf(self.channels as nat));
            self.persistents[i].fill(out);
            assert forall|j: int| 0 <= j < n implies (#[trigger] self.persistents@[j]).wf(self.channels as nat) by {
                if j != i {
                    assert(self.persistents@[j] == before[j]);
                }
            }
            i = i + 1;
        }
    }
}

} // verus!
