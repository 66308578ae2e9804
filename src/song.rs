use vstd::prelude::*;

verus! {

/// Loudest volume level, in percent.
pub const MAX_VOLUME: i32 = 100;

/// A playable track: its display name, its length in whole seconds and its file.
#[derive(Clone, Debug)]
pub struct SongInfo {
    pub name: String,
    pub duration: u32,
    pub file: String,
}

impl SongInfo {
    pub fn new(name: String, duration: u32, file: String) -> (r: SongInfo)
        ensures
            r.name@ == name@,
            r.duration == duration,
            r.file@ == file@,
    {
        SongInfo { name, duration, file }
    }

    /// A copy of this track.
    pub fn duplicate(&self) -> (r: SongInfo)
        ensures
            same_song(r, *self),
    {
        SongInfo { name: self.name.clone(), duration: self.duration, file: self.file.clone() }
    }
}

/// Two values that describe the same track.
pub open spec fn same_song(a: SongInfo, b: SongInfo) -> bool {
    a.name@ == b.name@ && a.duration == b.duration && a.file@ == b.file@
}

/// The command plays exactly this track.
pub open spec fn plays(a: SongAction, s: SongInfo) -> bool {
    match a {
        SongAction::AddSong(t) => same_song(t, s),
        _ => false,
    }
}

/// A command sent from the session to the audio actor.
pub enum SongAction {
    /// Stop whatever plays and play this track instead.
    AddSong(SongInfo),
    /// Set the volume, in percent.
    Volume(i32),
    /// Flip between paused and playing.
    TogglePause,
}

/// The token the audio actor sends once its output device is open.
pub struct SetupAudio;

/// One operation of the audio actor on its output sink.
#[derive(Debug)]
pub enum SinkCommand {
    /// Stop the sink, then append the decoded stream of this file.
    Replace(String),
    /// Set the sink's gain to this many hundredths.
    SetVolume(i32),
    /// Resume a paused sink.
    Play,
    /// Pause a playing sink.
    Pause,
}

/// What the audio actor does with a command, given whether its sink is paused.
pub fn match_action(action: SongAction, sink_paused: bool) -> (r: SinkCommand)
    ensures
        match action {
            SongAction::AddSong(s) => r matches SinkCommand::Replace(f) && f@ == s.file@,
            SongAction::Volume(v) => r == SinkCommand::SetVolume(if v < 0 { 0 } else if v > MAX_VOLUME { MAX_VOLUME } else { v }),
            SongAction::TogglePause => r == (if sink_paused { SinkCommand::Play } else { SinkCommand::Pause }),
        },
{
    match action {
        SongAction::AddSong(s) => SinkCommand::Replace(s.file),
        SongAction::Volume(v) => SinkCommand::SetVolume(if v < 0 { 0 } else if v > MAX_VOLUME { MAX_VOLUME } else { v }),
        SongAction::TogglePause => if sink_paused { SinkCommand::Play } else { SinkCommand::Pause },
    }
}

} // verus!
