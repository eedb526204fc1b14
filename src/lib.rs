//! baal (BAsic Audio Library): a real-time mixer for games that plays music
//! with transitions, short sound effects from fixed pools of voices, and
//! persistent ambient effects whose gain follows the distance of their
//! sources to the listener.
//!
//! The control side (`State`, and the functions of `music` and `effect`)
//! keeps the settings and turns each call into `engine::Command`s; the render
//! side (`engine::Engine`) applies them and mixes one output buffer per
//! device callback. Gains are fixed-point: `GAIN_ONE` is unity.
pub mod clip;
pub mod convert;
pub mod effect;
pub mod engine;
pub mod music;
pub mod sndfile;

use vstd::prelude::*;
use crate::clip::{Clip, ClipError};
use crate::convert::Conversion;
use crate::effect::DistanceModel;
use crate::effect::persistent::PersistentVoice;
use crate::effect::short::ShortPool;
use crate::engine::{Command, Engine};
use crate::music::{MusicTransition, MusicVoice, clips_wf};

verus! {

/// Fixed-point representation of unit gain: a gain `g` scales by `g / GAIN_ONE`.
pub const GAIN_ONE: u32 = 10_000;

/// The product of two gains.
pub open spec fn mul_gain(a: int, b: int) -> int {
    a * b / (GAIN_ONE as int)
}

/// The product of two gains of at most unity.
pub fn mul_gains(a: u32, b: u32) -> (r: u32)
    requires
        a <= GAIN_ONE,
        b <= GAIN_ONE,
    ensures
        r == mul_gain(a as int, b as int),
        r <= GAIN_ONE,
{
    assert(a * b <= GAIN_ONE * GAIN_ONE) by (nonlinear_arith)
        requires a <= GAIN_ONE, b <= GAIN_ONE;
    assert((a * b) / (GAIN_ONE as int) <= GAIN_ONE) by (nonlinear_arith)
        requires a * b <= GAIN_ONE * GAIN_ONE;
    ((a as u64) * (b as u64) / (GAIN_ONE as u64)) as u32
}

/// The configuration of the player.
pub struct Setting {
    /// output channels: 1 or 2
    pub channels: usize,
    /// output frames per second
    pub sample_rate: u32,
    /// frames per device callback
    pub frames_per_buffer: usize,
    /// directory of the effect files
    pub effect_dir: String,
    /// directory of the music files
    pub music_dir: String,
    /// gain applied to everything, at most `GAIN_ONE`
    pub global_volume: u32,
    /// gain of the music, at most `GAIN_ONE`
    pub music_volume: u32,
    /// gain of the effects, at most `GAIN_ONE`
    pub effect_volume: u32,
    /// how effects fade with distance
    pub distance_model: DistanceModel,
    /// the transition between musics
    pub music_transition: MusicTransition,
    /// whether a music restarts when it ends
    pub music_loop: bool,
    /// short effects: file and number of voices
    pub short_effects: Vec<(String, usize)>,
    /// persistent effects: file
    pub persistent_effects: Vec<String>,
    /// musics: file
    pub musics: Vec<String>,
}

/// The decoded files of a setting, in catalog order.
pub struct Catalog {
    /// one clip per music
    pub musics: Vec<Clip>,
    /// one clip per short effect
    pub short_effects: Vec<Clip>,
    /// one clip per persistent effect
    pub persistent_effects: Vec<Clip>,
}

/// Why a setting cannot be played.
#[derive(Clone, Copy, Debug, PartialEq, Eq, Structural)]
pub enum InitError {
    /// the output has neither 1 nor 2 channels
    ChannelCount,
    /// a device callback would carry no frame
    FramesPerBuffer,
    /// a volume is above unity
    Volume,
    /// the distance model's bounds are not ordered
    DistanceModel,
    /// short effect `i` has no voice
    EffectCapacity(usize),
    /// the decoded files do not match the catalog
    CatalogSize,
    /// music `i` cannot be played
    Music(usize, ClipError),
    /// short effect `i` cannot be played
    ShortEffect(usize, ClipError),
    /// persistent effect `i` cannot be played
    PersistentEffect(usize, ClipError),
}

/// The control-side state: what the calls of the public functions read and
/// change.
pub struct State {
    /// gain applied to everything
    pub global_volume: u32,
    /// music settings and the last known music status
    pub music: music::State,
    /// effect settings and the positions of persistent sources
    pub effect: effect::State,
}

impl State {
    /// Volumes are at most unity, the distance model is ordered, and there
    /// is one list of sources per persistent effect.
    pub open spec fn wf(&self) -> bool {
        &&& self.global_volume <= GAIN_ONE
        &&& self.music.volume <= GAIN_ONE
        &&& self.effect.volume <= GAIN_ONE
        &&& self.effect.distance_model.wf()
        &&& self.effect.persistent_positions@.len() == self.effect.persistent_effects
    }
}

/// The clip of index `i` of `clips` that cannot be played at `rate` and
/// comes first, with its defect.
pub open spec fn first_defect(clips: Seq<Clip>, rate: u32, i: int, e: ClipError) -> bool {
    &&& 0 <= i < clips.len()
    &&& Clip::defect(clips[i].channels, clips[i].sample_rate, clips[i].samples@.len(), rate) == Some(e)
    &&& forall|j: int|
        0 <= j < i ==> (#[trigger] Clip::defect(
            clips[j].channels,
            clips[j].sample_rate,
            clips[j].samples@.len(),
            rate,
        )) is None
}

/// Every clip can be played at `rate`.
pub open spec fn all_playable(clips: Seq<Clip>, rate: u32) -> bool {
    forall|j: int|
        0 <= j < clips.len() ==> (#[trigger] Clip::defect(
            clips[j].channels,
            clips[j].sample_rate,
            clips[j].samples@.len(),
            rate,
        )) is None
}

/// The first clip that cannot be played at `rate`, if any.
fn check_clips(clips: &Vec<Clip>, rate: u32) -> (r: Option<(usize, ClipError)>)
    ensures
        r matches Some((i, e)) ==> first_defect(clips@, rate, i as int, e),
        r is None ==> all_playable(clips@, rate) && clips_wf(clips@),
{
    let mut i: usize = 0;
    while i < clips.len()
        invariant
            i <= clips@.len(),
            forall|j: int|
                0 <= j < i ==> (#[trigger] Clip::defect(
                    clips@[j].channels,
                    clips@[j].sample_rate,
                    clips@[j].samples@.len(),
                    rate,
                )) is None,
        decreases clips@.len() - i,
    {
        if let Some(e) = clips[i].validate(rate) {
            return Some((i, e));
        }
        i = i + 1;
    }
    proof {
        assert forall|j: int| 0 <= j < clips@.len() implies (#[trigger] clips@[j]).wf() by {
            assert(Clip::defect(clips@[j].channels, clips@[j].sample_rate, clips@[j].samples@.len(), rate) is None);
        }
    }
    None
}

/// The output format and volumes of `s` are acceptable, and every short
/// effect has a voice.
pub open spec fn setting_ok(s: &Setting) -> bool {
    &&& s.channels == 1 || s.channels == 2
    &&& s.frames_per_buffer >= 1
    &&& s.global_volume <= GAIN_ONE && s.music_volume <= GAIN_ONE && s.effect_volume <= GAIN_ONE
    &&& s.distance_model.wf()
    &&& forall|j: int| 0 <= j < s.short_effects@.len() ==> (#[trigger] s.short_effects@[j]).1 >= 1
}

/// The decoded files match the catalog of `s` one for one.
pub open spec fn catalog_matches(s: &Setting, c: &Catalog) -> bool {
    &&& c.musics@.len() == s.musics@.len()
    &&& c.short_effects@.len() == s.short_effects@.len()
    &&& c.persistent_effects@.len() == s.persistent_effects@.len()
}

/// `s` and `c` can be played.
pub open spec fn init_ok(s: &Setting, c: &Catalog) -> bool {
    &&& setting_ok(s)
    &&& catalog_matches(s, c)
    &&& all_playable(c.musics@, s.sample_rate)
    &&& all_playable(c.short_effects@, s.sample_rate)
    &&& all_playable(c.persistent_effects@, s.sample_rate)
}

/// `e` is the first problem of `s` and `c`, the checks going in the order of
/// the variants of `InitError`.
pub open spec fn init_error(s: &Setting, c: &Catalog, e: InitError) -> bool {
    let channels_ok = s.channels == 1 || s.channels == 2;
    let frames_ok = s.frames_per_buffer >= 1;
    let volumes_ok = s.global_volume <= GAIN_ONE && s.music_volume <= GAIN_ONE && s.effect_volume <= GAIN_ONE;
    match e {
        InitError::ChannelCount => !channels_ok,
        InitError::FramesPerBuffer => channels_ok && !frames_ok,
        InitError::Volume => channels_ok && frames_ok && !volumes_ok,
        InitError::DistanceModel => channels_ok && frames_ok && volumes_ok && !s.distance_model.wf(),
        InitError::EffectCapacity(i) => channels_ok && frames_ok && volumes_ok && s.distance_model.wf() && i
            < s.short_effects@.len() && s.short_effects@[i as int].1 == 0 && forall|j: int|
            0 <= j < i ==> (#[trigger] s.short_effects@[j]).1 >= 1,
        InitError::CatalogSize => setting_ok(s) && !catalog_matches(s, c),
        InitError::Music(i, d) => setting_ok(s) && catalog_matches(s, c) && first_defect(
            c.musics@,
            s.sample_rate,
            i as int,
            d,
        ),
        InitError::ShortEffect(i, d) => setting_ok(s) && catalog_matches(s, c) && all_playable(
            c.musics@,
            s.sample_rate,
        ) && first_defect(c.short_effects@, s.sample_rate, i as int, d),
        InitError::PersistentEffect(i, d) => setting_ok(s) && catalog_matches(s, c) && all_playable(
            c.musics@,
            s.sample_rate,
        ) && all_playable(c.short_effects@, s.sample_rate) && first_defect(
            c.persistent_effects@,
            s.sample_rate,
            i as int,
            d,
        ),
    }
}

/// `st` and `en` are the control and render state that `s` and `c` start
/// with: nothing plays, every persistent effect is silent and has no source.
pub open spec fn started(s: &Setting, c: &Catalog, st: State, en: Engine) -> bool {
    &&& st.wf()
    &&& st.global_volume == s.global_volume
    &&& st.music == (music::State {
        transition: s.music_transition,
        volume: s.music_volume,
        musics: s.musics@.len() as usize,
        index: None,
        paused: false,
        looping: s.music_loop,
    })
    &&& st.effect.listener == [0i32, 0i32, 0i32]
    &&& st.effect.distance_model == s.distance_model
    &&& st.effect.volume == s.effect_volume
    &&& !st.effect.paused
    &&& st.effect.short_effects == s.short_effects@.len()
    &&& st.effect.persistent_effects == s.persistent_effects@.len()
    &&& forall|i: int| 0 <= i < st.effect.persistent_positions@.len() ==> (#[trigger] st.effect.persistent_positions@[i])@.len() == 0
    &&& en.wf()
    &&& en.channels == s.channels
    &&& en.sample_rate == s.sample_rate
    &&& en.musics@ == c.musics@
    &&& en.music == MusicVoice::new_spec(
        s.music_transition,
        (s.music_transition.millis() * s.sample_rate / 1000) as u64,
        mul_gain(s.music_volume as int, s.global_volume as int) as u32,
        s.music_loop,
    )
    &&& !en.muted
    &&& en.shorts@.len() == c.short_effects@.len()
    &&& forall|i: int|
        0 <= i < en.shorts@.len() ==> {
            let p = #[trigger] en.shorts@[i];
            &&& p.clip == c.short_effects@[i]
            &&& p.capacity() == s.short_effects@[i].1
            &&& p.len == 0
        }
    &&& en.persistents@.len() == c.persistent_effects@.len()
    &&& forall|i: int|
        0 <= i < en.persistents@.len() ==> #[trigger] en.persistents@[i] == (PersistentVoice {
            clip: c.persistent_effects@[i],
            conv: Conversion::between(c.persistent_effects@[i].channels as nat, s.channels as nat),
            pos: 0,
            volume: 0,
        })
}

/// The first short effect without a voice, if any.
fn check_capacities(effects: &Vec<(String, usize)>) -> (r: Option<usize>)
    ensures
        r matches Some(i) ==> i < effects@.len() && effects@[i as int].1 == 0 && forall|j: int|
            0 <= j < i ==> (#[trigger] effects@[j]).1 >= 1,
        r is None ==> forall|j: int| 0 <= j < effects@.len() ==> (#[trigger] effects@[j]).1 >= 1,
{
    let mut i: usize = 0;
    while i < effects.len()
        invariant
            i <= effects@.len(),
            forall|j: int| 0 <= j < i ==> (#[trigger] effects@[j]).1 >= 1,
        decreases effects@.len() - i,
    {
        if effects[i].1 == 0 {
            return Some(i);
        }
        i = i + 1;
    }
    None
}

/// init the audio player: checks the setting and its decoded files, and
/// builds the control state and the render engine.
pub fn init(setting: &Setting, catalog: Catalog) -> (r: Result<(State, Engine), InitError>)
    ensures
        init_ok(setting, &catalog) ==> r is Ok,
        r matches Ok((st, en)) ==> init_ok(setting, &catalog) && started(setting, &catalog, st, en),
        r matches Err(e) ==> init_error(setting, &catalog, e),
{
    if setting.channels != 1 && setting.channels != 2 {
        return Err(InitError::ChannelCount);
    }
    if setting.frames_per_buffer == 0 {
        return Err(InitError::FramesPerBuffer);
    }
    if setting.global_volume > GAIN_ONE || setting.music_volume > GAIN_ONE || setting.effect_volume > GAIN_ONE {
        return Err(InitError::Volume);
    }
    let model_ok = match setting.distance_model {
        DistanceModel::Linear(a, b) => a < b,
        DistanceModel::Pow2(a, b) => a < b,
    };
    if !model_ok {
        return Err(InitError::DistanceModel);
    }
    if let Some(i) = check_capacities(&setting.short_effects) {
        return Err(InitError::EffectCapacity(i));
    }
    if catalog.musics.len() != setting.musics.len() || catalog.short_effects.len() != setting.short_effects.len()
        || catalog.persistent_effects.len() != setting.persistent_effects.len() {
        return Err(InitError::CatalogSize);
    }
    if let Some((i, e)) = check_clips(&catalog.musics, setting.sample_rate) {
        return Err(InitError::Music(i, e));
    }
    if let Some((i, e)) = check_clips(&catalog.short_effects, setting.sample_rate) {
        return Err(InitError::ShortEffect(i, e));
    }
    if let Some((i, e)) = check_clips(&catalog.persistent_effects, setting.sample_rate) {
        return Err(InitError::PersistentEffect(i, e));
    }
    let ghost c0 = catalog;
    let Catalog { musics, short_effects, persistent_effects } = catalog;
    let shorts = build_pools(short_effects, &setting.short_effects, setting.channels);
    let persistents = build_voices(persistent_effects, setting.channels);
    let music = MusicVoice::new(
        setting.music_transition,
        setting.music_transition.fade_frames(setting.sample_rate),
        mul_gains(setting.music_volume, setting.global_volume),
        setting.music_loop,
    );
    let n_musics = musics.len();
    let engine = Engine {
        channels: setting.channels,
        sample_rate: setting.sample_rate,
        musics,
        music,
        shorts,
        persistents,
        muted: false,
    };
    let mut positions: Vec<Vec<[i32; 3]>> = Vec::new();
    let mut i: usize = 0;
    while i < setting.persistent_effects.len()
        invariant
            i <= setting.persistent_effects@.len(),
            positions@.len() == i,
            forall|j: int| 0 <= j < i ==> (#[trigger] positions@[j])@.len() == 0,
        decreases setting.persistent_effects@.len() - i,
    {
        positions.push(Vec::new());
        i = i + 1;
    }
    let state = State {
        global_volume: setting.global_volume,
        music: music::State {
            transition: setting.music_transition,
            volume: setting.music_volume,
            musics: n_musics,
            index: None,
            paused: false,
            looping: setting.music_loop,
        },
        effect: effect::State {
            listener: [0, 0, 0],
            distance_model: setting.distance_model,
            volume: setting.effect_volume,
            paused: false,
            short_effects: setting.short_effects.len(),
            persistent_effects: setting.persistent_effects.len(),
            persistent_positions: positions,
        },
    };
    assert(state.effect.listener@ =~= [0i32, 0i32, 0i32]@);
    Ok((state, engine))
}

/// One pool per short effect, with the number of voices of `effects`.
fn build_pools(clips: Vec<Clip>, effects: &Vec<(String, usize)>, channels: usize) -> (r: Vec<ShortPool>)
    requires
        clips_wf(clips@),
        clips@.len() == effects@.len(),
        channels == 1 || channels == 2,
        forall|j: int| 0 <= j < effects@.len() ==> (#[trigger] effects@[j]).1 >= 1,
    ensures
        r@.len() == clips@.len(),
        forall|i: int|
            0 <= i < r@.len() ==> {
                let p = #[trigger] r@[i];
                &&& p.wf(channels as nat)
                &&& p.clip == clips@[i]
                &&& p.capacity() == effects@[i].1
                &&& p.len == 0
            },
{
    let ghost all = clips@;
    let mut rest = clips;
    let mut pools: Vec<ShortPool> = Vec::new();
    let mut i: usize = 0;
    while i < effects.len()
        invariant
            i <= effects@.len(),
            all.len() == effects@.len(),
            clips_wf(all),
            channels == 1 || channels == 2,
            forall|j: int| 0 <= j < effects@.len() ==> (#[trigger] effects@[j]).1 >= 1,
            rest@ == all.subrange(i as int, all.len() as int),
            pools@.len() == i,
            forall|j: int|
                0 <= j < i ==> {
                    let p = #[trigger] pools@[j];
                    &&& p.wf(channels as nat)
                    &&& p.clip == all[j]
                    &&& p.capacity() == effects@[j].1
                    &&& p.len == 0
                },
        decreases effects@.len() - i,
    {
        let clip = rest.remove(0);
        assert(clip == all[i as int]);
        assert(all[i as int].wf());
        let conv = match Conversion::select(clip.channels, channels) {
            Some(c) => c,
            None => Conversion::MonoToMono,
        };
        pools.push(ShortPool::new(clip, conv, effects[i].1));
        assert(rest@ =~= all.subrange(i + 1, all.len() as int));
        i = i + 1;
    }
    pools
}

/// One silent voice per persistent effect.
fn build_voices(clips: Vec<Clip>, channels: usize) -> (r: Vec<PersistentVoice>)
    requires
        clips_wf(clips@),
        channels == 1 || channels == 2,
    ensures
        r@.len() == clips@.len(),
        forall|i: int|
            0 <= i < r@.len() ==> #[trigger] r@[i] == (PersistentVoice {
                clip: clips@[i],
                conv: Conversion::between(clips@[i].channels as nat, channels as nat),
                pos: 0,
                volume: 0,
            }) && r@[i].wf(channels as nat),
{
    let ghost all = clips@;
    let n = clips.len();
    let mut rest = clips;
    let mut voices: Vec<PersistentVoice> = Vec::new();
    let mut i: usize = 0;
    while i < n
        invariant
            i <= n,
            n == all.len(),
            clips_wf(all),
            channels == 1 || channels == 2,
            rest@ == all.subrange(i as int, all.len() as int),
            voices@.len() == i,
            forall|j: int|
                0 <= j < i ==> #[trigger] voices@[j] == (PersistentVoice {
                    clip: all[j],
                    conv: Conversion::between(all[j].channels as nat, channels as nat),
                    pos: 0,
                    volume: 0,
                }) && voices@[j].wf(channels as nat),
        decreases n - i,
    {
        let clip = rest.remove(0);
        assert(clip == all[i as int]);
        assert(all[i as int].wf());
        let conv = match Conversion::select(clip.channels, channels) {
            Some(c) => c,
            None => Conversion::MonoToMono,
        };
        voices.push(PersistentVoice::new(clip, conv));
        assert(rest@ =~= all.subrange(i + 1, all.len() as int));
        i = i + 1;
    }
    voices
}

/// set the global volume; returns the commands that give the music and the
/// persistent effects their new gains
pub fn set_global_volume(state: &mut State, v: u32) -> (r: Vec<Command>)
    requires
        old(state).wf(),
        v <= GAIN_ONE,
    ensures
        final(state).wf(),
        *final(state) == (State { global_volume: v, ..*old(state) }),
        r@.len() == 2,
        r@[0] == Command::SetMusicVolume(mul_gain(old(state).music.volume as int, v as int) as u32),
        effect::persistent::is_volumes_command(*final(state), r@[1]),
{
    state.global_volume = v;
    let mut r: Vec<Command> = Vec::new();
    r.push(music::update_volume(state));
    r.push(effect::update_volume(state));
    r
}

} // verus!
