use baal::clip::{Clip, ClipError};
use baal::convert::{Conversion, mix};
use baal::effect::DistanceModel;
use baal::effect::persistent::PersistentVoice;
use baal::effect::short::ShortPool;
use baal::engine::{Command, Engine};
use baal::music::{MusicTransition, MusicVoice};
use baal::sndfile::SeekMode;
use baal::{Catalog, InitError, Setting, State, init};

fn mono(samples: Vec<i16>) -> Clip {
    Clip { channels: 1, sample_rate: 1000, samples }
}

fn setting(channels: usize, transition: MusicTransition) -> Setting {
    Setting {
        channels,
        sample_rate: 1000,
        frames_per_buffer: 4,
        effect_dir: "assets/effects".into(),
        music_dir: "assets/musics".into(),
        global_volume: 10_000,
        music_volume: 10_000,
        effect_volume: 10_000,
        distance_model: DistanceModel::Linear(10, 110),
        music_transition: transition,
        music_loop: false,
        short_effects: vec![("shoot.ogg".into(), 2)],
        persistent_effects: vec!["fly.ogg".into()],
        musics: vec!["village.ogg".into(), "first_call.ogg".into()],
    }
}

fn catalog() -> Catalog {
    Catalog {
        musics: vec![mono(vec![100; 8]), mono(vec![1000; 8])],
        short_effects: vec![mono(vec![10; 6])],
        persistent_effects: vec![mono(vec![1, 2, 3, 4, 5, 6])],
    }
}

fn start(transition: MusicTransition) -> (State, Engine) {
    match init(&setting(1, transition), catalog()) {
        Ok(r) => r,
        Err(e) => panic!("fail to init baal: {:?}", e),
    }
}

fn tick(engine: &mut Engine, cmds: Vec<Command>) -> Vec<i32> {
    let mut out = vec![7; 4];
    let _ = engine.tick(&cmds, &mut out);
    out
}

#[test]
fn music_stop_test() {
    let (mut state, mut engine) = start(MusicTransition::Instant);
    let c = baal::music::play(&mut state, 0);
    let mut out = vec![7; 4];
    assert_eq!(engine.tick(&vec![c], &mut out), None);
    assert_eq!(out, vec![100, 100, 100, 100]);
    assert_eq!(engine.tick(&vec![], &mut out), None);
    assert!(!baal::music::is_stopped(&state));
    // the track ends on its own: the engine reports it, and the music
    // shows as stopped
    let ended = engine.tick(&vec![], &mut out);
    assert_eq!(ended, Some(0));
    assert_eq!(out, vec![0, 0, 0, 0]);
    baal::music::ended(&mut state, 0);
    assert!(baal::music::is_stopped(&state));
    assert_eq!(baal::music::status(&state), baal::music::MusicStatus::Stop);
}

#[test]
fn ended_report_keeps_a_newer_music() {
    let (mut state, _engine) = start(MusicTransition::Instant);
    let _ = baal::music::play(&mut state, 1);
    baal::music::ended(&mut state, 0);
    assert_eq!(baal::music::index(&state), Some(1));
}

#[test]
fn idle_pool_plays_into_slot_zero() {
    let mut pool = ShortPool::new(mono(vec![10; 6]), Conversion::MonoToMono, 3);
    pool.play(10_000);
    pool.play(10_000);
    pool.play(10_000);
    pool.play(10_000);
    assert_eq!((pool.start, pool.len), (1, 3));
    pool.stop_all();
    pool.play(5_000);
    assert_eq!((pool.start, pool.len), (0, 1));
    assert_eq!(pool.volumes[0], 5_000);
}

#[test]
fn music_transition_test() {
    let (mut state, mut engine) = start(MusicTransition::Instant);
    let c = baal::music::play(&mut state, 0);
    tick(&mut engine, vec![c]);
    let c1 = baal::music::set_transition(&mut state, MusicTransition::Smooth(8));
    let c2 = baal::music::play(&mut state, 1);
    // the outgoing track starts its fade; the incoming one waits in silence
    assert_eq!(tick(&mut engine, vec![c1, c2]), vec![100, 100, 100, 100]);
    assert!(engine.music.transitional.is_some());
    assert_eq!(engine.music.current.unwrap().pos, 0);
    // the outgoing track has ended: the incoming one starts
    assert_eq!(tick(&mut engine, vec![]), vec![1000, 1000, 1000, 1000]);
    assert!(engine.music.transitional.is_none());
}

#[test]
fn overlap_midpoint_halves_both_tracks() {
    let mut voice = MusicVoice::new(MusicTransition::Overlap(8), 8, 10_000, false);
    let clips = vec![mono(vec![100; 16]), mono(vec![1000; 16])];
    voice.play(0, Conversion::MonoToMono);
    let mut out = vec![0; 4];
    voice.fill(&clips, &mut out, 1);
    voice.play(1, Conversion::MonoToMono);
    // after 4 of 8 frames the incoming track is at half volume
    let mut out = vec![0; 4];
    voice.fill(&clips, &mut out, 1);
    assert_eq!(voice.elapsed, 4);
    assert_eq!(out, vec![100 + 500, 100 + 500, 100 + 500, 100 + 500]);
    // at 4 of 8 frames the outgoing track is at half volume; it is then done
    let mut out = vec![0; 4];
    voice.fill(&clips, &mut out, 1);
    assert_eq!(out, vec![50 + 1000, 50 + 1000, 50 + 1000, 50 + 1000]);
    assert!(voice.transitional.is_none());
}

#[test]
fn smooth_transition_holds_incoming_track() {
    let mut voice = MusicVoice::new(MusicTransition::Smooth(8), 8, 10_000, false);
    let clips = vec![mono(vec![100; 16]), mono(vec![1000; 16])];
    voice.play(0, Conversion::MonoToMono);
    voice.play(1, Conversion::MonoToMono);
    let mut out = vec![0; 4];
    voice.fill(&clips, &mut out, 1);
    assert_eq!(out, vec![100, 100, 100, 100]);
    assert_eq!(voice.current.unwrap().pos, 0);
    assert!(voice.transitional.is_some());
    let mut out = vec![0; 4];
    voice.fill(&clips, &mut out, 1);
    assert_eq!(out, vec![50 + 1000, 50 + 1000, 50 + 1000, 50 + 1000]);
    assert_eq!(voice.current.unwrap().pos, 4);
}

#[test]
fn instant_transition_drops_previous_track() {
    let mut voice = MusicVoice::new(MusicTransition::Instant, 0, 10_000, false);
    voice.play(0, Conversion::MonoToMono);
    voice.play(1, Conversion::MonoToMono);
    assert!(voice.transitional.is_none());
    assert_eq!(voice.current.unwrap().index, 1);
}

#[test]
fn switching_to_instant_clears_a_fade() {
    let mut voice = MusicVoice::new(MusicTransition::Overlap(8), 8, 10_000, false);
    voice.play(0, Conversion::MonoToMono);
    voice.play(1, Conversion::MonoToMono);
    assert!(voice.transitional.is_some());
    voice.set_transition(MusicTransition::Instant, 0);
    assert!(voice.transitional.is_none());
}

#[test]
fn looping_music_restarts() {
    let mut voice = MusicVoice::new(MusicTransition::Instant, 0, 10_000, true);
    let clips = vec![mono(vec![1, 2, 3])];
    voice.play(0, Conversion::MonoToMono);
    let mut out = vec![0; 3];
    voice.fill(&clips, &mut out, 1);
    assert_eq!(out, vec![1, 2, 3]);
    let mut out = vec![0; 2];
    voice.fill(&clips, &mut out, 1);
    assert_eq!(out, vec![1, 2]);
    assert_eq!(voice.current.unwrap().pos, 2);
}

#[test]
fn paused_music_does_not_advance() {
    let (mut state, mut engine) = start(MusicTransition::Instant);
    let c1 = baal::music::play(&mut state, 0);
    let c2 = baal::music::pause(&mut state);
    assert_eq!(tick(&mut engine, vec![c1, c2]), vec![0, 0, 0, 0]);
    assert_eq!(engine.music.current.unwrap().pos, 0);
    assert_eq!(baal::music::status(&state), baal::music::MusicStatus::Pause);
    let c = baal::music::resume(&mut state);
    assert_eq!(tick(&mut engine, vec![c]), vec![100, 100, 100, 100]);
    assert_eq!(baal::music::status(&state), baal::music::MusicStatus::Play);
}

#[test]
fn seek_moves_the_current_music() {
    let (mut state, mut engine) = start(MusicTransition::Instant);
    let c = baal::music::play(&mut state, 0);
    assert_eq!(tick(&mut engine, vec![c, baal::music::seek(6, SeekMode::SeekSet)]), vec![100, 100, 0, 0]);
    assert_eq!(engine.music.current.unwrap().pos, 8);
    assert_eq!(tick(&mut engine, vec![baal::music::seek(-3, SeekMode::SeekEnd)]), vec![100, 100, 100, 0]);
    assert_eq!(engine.music.current.unwrap().pos, 8);
    tick(&mut engine, vec![baal::music::seek(1, SeekMode::SeekEnd)]);
    assert!(engine.music.current.is_none());
}

#[test]
fn play_or_continue_skips_the_current_music() {
    let (mut state, _engine) = start(MusicTransition::Instant);
    assert!(matches!(baal::music::play_or_continue(&mut state, 0), Some(Command::PlayMusic(0))));
    assert!(baal::music::play_or_continue(&mut state, 0).is_none());
    assert!(matches!(baal::music::play_or_continue(&mut state, 1), Some(Command::PlayMusic(1))));
    assert_eq!(baal::music::index(&state), Some(1));
}

#[test]
fn music_volume_is_music_times_global() {
    let (mut state, _engine) = start(MusicTransition::Instant);
    assert!(matches!(baal::music::set_volume(&mut state, 5_000), Command::SetMusicVolume(5_000)));
    let cmds = baal::set_global_volume(&mut state, 5_000);
    assert!(matches!(cmds[0], Command::SetMusicVolume(2_500)));
    assert_eq!(baal::music::volume(&state), 5_000);
}

#[test]
fn short_effect_persistent() {
    // the pool has two voices: a third play steals the oldest
    let mut pool = ShortPool::new(mono(vec![10; 6]), Conversion::MonoToMono, 2);
    pool.play(10_000);
    let mut out = vec![0; 2];
    pool.fill(&mut out);
    assert_eq!(out, vec![10, 10]);
    pool.play(5_000);
    assert_eq!((pool.start, pool.len), (0, 2));
    pool.play(10_000);
    assert_eq!((pool.start, pool.len), (1, 2));
    assert_eq!(pool.cursors, vec![0, 0]);
    let mut out = vec![0; 2];
    pool.fill(&mut out);
    assert_eq!(out, vec![15, 15]);
    pool.stop_all();
    let mut out = vec![0; 2];
    pool.fill(&mut out);
    assert_eq!(out, vec![0, 0]);
}

#[test]
fn pool_never_exceeds_capacity() {
    let mut pool = ShortPool::new(mono(vec![1; 4]), Conversion::MonoToMono, 3);
    for _ in 0..4 {
        pool.play(10_000);
        assert!(pool.len <= 3);
    }
    assert_eq!((pool.start, pool.len), (1, 3));
}

#[test]
fn ended_voices_leave_the_pool() {
    let mut pool = ShortPool::new(mono(vec![1; 2]), Conversion::MonoToMono, 2);
    pool.play(10_000);
    let mut out = vec![0; 2];
    pool.fill(&mut out);
    assert_eq!(pool.len, 1);
    pool.fill(&mut out);
    assert_eq!(pool.len, 0);
}

#[test]
fn short_effect_plays_at_distance_gain() {
    let (mut state, mut engine) = start(MusicTransition::Instant);
    assert!(baal::effect::short::play(&state, 0, [150, 0, 0]).is_none());
    let c = baal::effect::short::play(&state, 0, [60, 0, 0]).unwrap();
    assert!(matches!(c, Command::PlayShortEffect(0, 5_000)));
    assert_eq!(tick(&mut engine, vec![c]), vec![5, 5, 5, 5]);
    baal::effect::set_listener(&mut state, [60, 0, 0]);
    let c = baal::effect::short::play_on_listener(&state, 0).unwrap();
    assert!(matches!(c, Command::PlayShortEffect(0, 10_000)));
    assert!(matches!(baal::effect::short::stop_all(), Command::StopAllShortEffects));
}

#[test]
fn persistent_effect_persistent() {
    let (mut state, mut engine) = start(MusicTransition::Instant);
    baal::effect::persistent::add_position(&mut state, 0, [0, 0, 0]);
    baal::effect::persistent::add_position(&mut state, 0, [60, 0, 0]);
    let c = baal::effect::persistent::update_volume(&state, 0);
    assert!(matches!(c, Command::SetPersistentVolume(0, 15_000)));
    assert_eq!(tick(&mut engine, vec![c]), vec![1, 3, 4, 6]);
    baal::effect::persistent::clear_positions(&mut state, 0);
    let c = baal::effect::persistent::update_volume_for_all(&state);
    match &c {
        Command::SetPersistentVolumes(v) => assert_eq!(v, &vec![0]),
        _ => panic!("expected the gains of every persistent effect"),
    }
    // silent: the position holds over several callbacks
    for _ in 0..3 {
        assert_eq!(tick(&mut engine, vec![c.clone()]), vec![0, 0, 0, 0]);
    }
    assert_eq!(engine.persistents[0].pos, 4);
    baal::effect::persistent::add_positions(&mut state, 0, vec![[0, 0, 0]]);
    let c = baal::effect::persistent::update_volume(&state, 0);
    // resumes from the held position, then loops
    assert_eq!(tick(&mut engine, vec![c]), vec![5, 6, 0, 0]);
    assert_eq!(tick(&mut engine, vec![]), vec![1, 2, 3, 4]);
}

#[test]
fn persistent_effects_mute_and_sources_for_all() {
    let (mut state, mut engine) = start(MusicTransition::Instant);
    baal::effect::persistent::add_positions_for_all(&mut state, vec![(0, vec![[0, 0, 0]])]);
    assert_eq!(state.effect.persistent_positions[0].len(), 1);
    let c = baal::effect::update_volume(&state);
    let m = baal::effect::pause(&mut state);
    assert_eq!(tick(&mut engine, vec![c, m]), vec![0, 0, 0, 0]);
    assert_eq!(engine.persistents[0].pos, 0);
    assert!(baal::effect::is_paused(&state));
    let u = baal::effect::resume(&mut state);
    assert_eq!(tick(&mut engine, vec![u]), vec![1, 2, 3, 4]);
    baal::effect::persistent::clear_positions_for_all(&mut state);
    assert_eq!(state.effect.persistent_positions[0].len(), 0);
}

#[test]
fn silent_persistent_voice_holds_position() {
    let mut v = PersistentVoice::new(mono(vec![1, 2, 3]), Conversion::MonoToMono);
    let mut out = vec![0; 2];
    for _ in 0..5 {
        v.fill(&mut out);
    }
    assert_eq!(v.pos, 0);
    v.volume = 10_000;
    v.fill(&mut out);
    assert_eq!(out, vec![1, 2]);
}

#[test]
fn reset_test() {
    // a fresh engine built from the same setting starts silent and serves
    // the commands issued after it
    let (mut state, mut engine) = start(MusicTransition::Instant);
    let c = baal::effect::short::play(&state, 0, [0, 0, 0]).unwrap();
    tick(&mut engine, vec![c]);
    let (mut state2, mut engine2) = start(MusicTransition::Instant);
    assert_eq!(tick(&mut engine2, vec![]), vec![0, 0, 0, 0]);
    let c = baal::music::play(&mut state2, 0);
    assert_eq!(tick(&mut engine2, vec![c]), vec![100, 100, 100, 100]);
    assert!(baal::music::is_stopped(&state));
    let _ = baal::music::play(&mut state, 1);
}

#[test]
fn init_reports_each_problem() {
    let good = setting(1, MusicTransition::Instant);
    assert!(init(&good, catalog()).is_ok());
    let mut s = setting(3, MusicTransition::Instant);
    assert_eq!(init(&s, catalog()).err(), Some(InitError::ChannelCount));
    s = setting(1, MusicTransition::Instant);
    s.frames_per_buffer = 0;
    assert_eq!(init(&s, catalog()).err(), Some(InitError::FramesPerBuffer));
    s = setting(1, MusicTransition::Instant);
    s.music_volume = 10_001;
    assert_eq!(init(&s, catalog()).err(), Some(InitError::Volume));
    s = setting(1, MusicTransition::Instant);
    s.distance_model = DistanceModel::Linear(5, 5);
    assert_eq!(init(&s, catalog()).err(), Some(InitError::DistanceModel));
    s = setting(1, MusicTransition::Instant);
    s.short_effects = vec![("a.ogg".into(), 0)];
    assert_eq!(init(&s, catalog()).err(), Some(InitError::EffectCapacity(0)));
    s = setting(1, MusicTransition::Instant);
    s.musics = vec![];
    assert_eq!(init(&s, catalog()).err(), Some(InitError::CatalogSize));
    let mut c = catalog();
    c.musics[1].sample_rate = 44_100;
    assert_eq!(init(&good, c).err(), Some(InitError::Music(1, ClipError::SampleRate)));
    let mut c = catalog();
    c.short_effects[0].channels = 3;
    assert_eq!(init(&good, c).err(), Some(InitError::ShortEffect(0, ClipError::ChannelCount)));
    let mut c = catalog();
    c.persistent_effects[0] = Clip { channels: 2, sample_rate: 1000, samples: vec![1, 2, 3] };
    assert_eq!(init(&good, c).err(), Some(InitError::PersistentEffect(0, ClipError::PartialFrame)));
}

#[test]
fn stereo_output_duplicates_mono_sources() {
    let (mut state, mut engine) = match init(&setting(2, MusicTransition::Instant), catalog()) {
        Ok(r) => r,
        Err(e) => panic!("init: {:?}", e),
    };
    let c = baal::music::play(&mut state, 1);
    let mut out = vec![0; 4];
    let _ = engine.tick(&vec![c], &mut out);
    assert_eq!(out, vec![1000, 1000, 1000, 1000]);
}

#[test]
fn conversion_fixtures() {
    let zero = Clip { channels: 2, sample_rate: 1, samples: vec![0; 4] };
    let max = Clip { channels: 2, sample_rate: 1, samples: vec![i16::MAX; 4] };
    let m = Clip { channels: 1, sample_rate: 1, samples: vec![i16::MAX, -3] };
    let mut out = vec![0; 2];
    assert_eq!(mix(&mut out, Conversion::StereoToMono, &zero, 0, 10_000), 2);
    assert_eq!(out, vec![0, 0]);
    let mut out = vec![0; 2];
    mix(&mut out, Conversion::StereoToMono, &max, 0, 10_000);
    assert_eq!(out, vec![i16::MAX as i32, i16::MAX as i32]);
    let mut out = vec![0; 4];
    mix(&mut out, Conversion::MonoToStereo, &m, 0, 10_000);
    assert_eq!(out, vec![i16::MAX as i32, i16::MAX as i32, -3, -3]);
    let odd = Clip { channels: 2, sample_rate: 1, samples: vec![3, -6] };
    let mut out = vec![0; 1];
    mix(&mut out, Conversion::StereoToMono, &odd, 0, 10_000);
    assert_eq!(out, vec![-1]);
    let mut out = vec![0; 2];
    mix(&mut out, Conversion::StereoToStereo, &odd, 0, 5_000);
    assert_eq!(out, vec![1, -3]);
    let mut out = vec![i32::MAX; 1];
    mix(&mut out, Conversion::MonoToMono, &m, 1, 10_000);
    assert_eq!(out, vec![i32::MAX - 3]);
    let mut out = vec![i32::MAX; 1];
    mix(&mut out, Conversion::MonoToMono, &m, 0, 10_000);
    assert_eq!(out, vec![i32::MAX]);
    assert_eq!(Conversion::select(2, 1), Some(Conversion::StereoToMono));
    assert_eq!(Conversion::select(3, 1), None);
}

#[test]
fn clips_are_validated() {
    assert_eq!(mono(vec![1, 2]).validate(1000), None);
    assert_eq!(mono(vec![1, 2]).validate(44_100), Some(ClipError::SampleRate));
    assert_eq!(Clip { channels: 0, sample_rate: 1, samples: vec![] }.validate(1), Some(ClipError::ChannelCount));
    assert_eq!(Clip { channels: 2, sample_rate: 1, samples: vec![1, 2, 3, 4] }.frame_count(), 2);
}
