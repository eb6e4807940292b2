use vstd::prelude::*;

use crate::entities::audio_tirgger::AudioEffectType;
use crate::text::text_eq;

verus! {

/// Which of the two music tracks plays.
#[derive(Clone, Copy, Debug, PartialEq, Eq, Structural)]
pub enum Track {
    /// No music started yet.
    Unset,
    First,
    Last,
}

/// The two music players cross-faded between.
#[derive(Clone, Copy, Debug, PartialEq, Eq, Structural)]
pub enum MusicPlayer {
    Music,
    MusicBackup,
}

/// The sounds of the user interface.
#[derive(Clone, Copy, Debug, PartialEq, Eq, Structural)]
pub enum UIAudio {
    Bloop,
    Error,
    Select,
    Success,
    Woosh,
}

/// The streams of the user-interface sounds, each optional.
pub struct UiSounds<S> {
    pub ui_bloop: Option<S>,
    pub ui_error: Option<S>,
    pub ui_select: Option<S>,
    pub ui_success: Option<S>,
    pub ui_woosh: Option<S>,
}

/// The stream to play for a user-interface sound, if one is set.
pub fn ui_stream<S>(sounds: &UiSounds<S>, audio_type: UIAudio) -> (s: &Option<S>)
    ensures
        audio_type == UIAudio::Bloop ==> *s == sounds.ui_bloop,
        audio_type == UIAudio::Error ==> *s == sounds.ui_error,
        audio_type == UIAudio::Select ==> *s == sounds.ui_select,
        audio_type == UIAudio::Woosh ==> *s == sounds.ui_woosh,
        audio_type == UIAudio::Success ==> *s == sounds.ui_success,
{
    match audio_type {
        UIAudio::Bloop => &sounds.ui_bloop,
        UIAudio::Error => &sounds.ui_error,
        UIAudio::Select => &sounds.ui_select,
        UIAudio::Woosh => &sounds.ui_woosh,
        UIAudio::Success => &sounds.ui_success,
    }
}

pub open spec fn spec_next_track(track: Track) -> Track {
    match track {
        Track::First => Track::Last,
        _ => Track::First,
    }
}

pub open spec fn spec_track_player(track: Track) -> MusicPlayer {
    match track {
        Track::Unset => MusicPlayer::Music,
        Track::First => MusicPlayer::MusicBackup,
        Track::Last => MusicPlayer::Music,
    }
}

/// The track the next piece of music goes on.
pub fn get_next_track(track: Track) -> (t: Track)
    ensures
        t == spec_next_track(track),
{
    match track {
        Track::First => Track::Last,
        _ => Track::First,
    }
}

/// The player that plays `track`.
pub fn get_track_player(track: Track) -> (p: MusicPlayer)
    ensures
        p == spec_track_player(track),
{
    match track {
        Track::Unset => MusicPlayer::Music,
        Track::First => MusicPlayer::MusicBackup,
        Track::Last => MusicPlayer::Music,
    }
}

/// A cross-fade always fades between two different players, and the
/// tracks alternate once music has started.
pub proof fn lemma_crossfade_uses_both_players(track: Track)
    ensures
        spec_track_player(spec_next_track(track)) != spec_track_player(track),
        spec_next_track(spec_next_track(spec_next_track(track))) == spec_next_track(track),
        spec_next_track(track) != Track::Unset,
{
}

/// The track to switch to for a request to play `new_path`, or none when
/// the current track already plays that stream.
pub fn plan_music(track: Track, current_path: Option<&str>, new_path: &str) -> (r: Option<Track>)
    ensures
        (current_path matches Some(p) && p@ == new_path@) ==> r is None,
        !(current_path matches Some(p) && p@ == new_path@) ==> r == Some(spec_next_track(track)),
{
    if let Some(p) = current_path {
        if text_eq(p, new_path) {
            return None;
        }
    }
    Some(get_next_track(track))
}

/// How the reverb on the music bus is set.
#[derive(Clone, Copy, Debug, PartialEq, Eq, Structural)]
pub enum ReverbSetting {
    Disabled,
    /// Enabled with this room size, in percent.
    RoomSize(u32),
}

/// The reverb for an audio effect type: none, or a small, medium or large room.
pub fn reverb_setting(effect: AudioEffectType) -> (r: ReverbSetting)
    ensures
        effect == AudioEffectType::NoEffect ==> r == ReverbSetting::Disabled,
        effect == AudioEffectType::SMALL ==> r == ReverbSetting::RoomSize(20),
        effect == AudioEffectType::MEDUIM ==> r == ReverbSetting::RoomSize(50),
        effect == AudioEffectType::LARGE ==> r == ReverbSetting::RoomSize(80),
{
    match effect {
        AudioEffectType::NoEffect => ReverbSetting::Disabled,
        AudioEffectType::SMALL => ReverbSetting::RoomSize(20),
        AudioEffectType::MEDUIM => ReverbSetting::RoomSize(50),
        AudioEffectType::LARGE => ReverbSetting::RoomSize(80),
    }
}

} // verus!
