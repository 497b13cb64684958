use vstd::prelude::*;
use crate::track::TrackController;

verus! {

/// Whether a session has a current track.
#[derive(Clone, Copy, Debug, PartialEq, Eq, Structural)]
pub enum SessionState {
    Idle,
    Playing,
}

/// The bot's connection to one voice channel of one guild, with the track
/// that currently plays there, if any.
#[derive(Clone, Copy, Debug, PartialEq, Eq, Structural)]
pub struct VoiceSession {
    pub guild: u64,
    pub channel: u64,
    pub connection: u64,
    pub track: Option<TrackController>,
}

impl VoiceSession {
    /// The current track, when there is one, has a volume in range and has
    /// not ended.
    pub open spec fn wf(&self) -> bool {
        match self.track {
            Some(t) => t.wf() && !t.ended,
            None => true,
        }
    }

    pub open spec fn spec_state(&self) -> SessionState {
        if self.track is Some {
            SessionState::Playing
        } else {
            SessionState::Idle
        }
    }

    /// A connected session with no track.
    pub fn connected(guild: u64, channel: u64, connection: u64) -> (r: VoiceSession)
        ensures
            r.wf(),
            r == (VoiceSession { guild, channel, connection, track: None }),
    {
        VoiceSession { guild, channel, connection, track: None }
    }

    pub fn state(&self) -> (r: SessionState)
        ensures
            r == self.spec_state(),
    {
        if self.track.is_some() {
            SessionState::Playing
        } else {
            SessionState::Idle
        }
    }

    /// Starts a new track with the default volume; a track that was playing
    /// is replaced. Returns whether one was.
    pub fn start_track(&mut self, id: u64, notify_channel: u64) -> (replaced: bool)
        ensures
            final(self).guild == old(self).guild,
            final(self).channel == old(self).channel,
            final(self).connection == old(self).connection,
            final(self).track == Some(TrackController::spec_create(id, notify_channel)),
            final(self).wf(),
            replaced == (old(self).track is Some),
    {
        let replaced = self.track.is_some();
        self.track = Some(TrackController::create(id, notify_channel));
        replaced
    }

    /// The current track with identifier `id` has ended: the session goes back
    /// to idle and the channel to announce the completion to is handed back.
    /// A track that is not the current one (replaced earlier) reports nothing.
    pub fn end_track(&mut self, id: u64) -> (r: Option<u64>)
        requires
            old(self).wf(),
        ensures
            final(self).wf(),
            final(self).guild == old(self).guild,
            final(self).channel == old(self).channel,
            final(self).connection == old(self).connection,
            match old(self).track {
                Some(t) if t.id == id => {
                    &&& r == Some(t.notify_channel)
                    &&& final(self).track is None
                },
                _ => r is None && final(self).track == old(self).track,
            },
    {
        match self.track {
            Some(t) => {
                if t.id == id {
                    let mut done = t;
                    let r = done.finish();
                    self.track = None;
                    r
                } else {
                    None
                }
            },
            None => None,
        }
    }

    /// Sets the volume of the current track, clamped to `0..=100`; without a
    /// track this changes nothing. Returns the volume now in effect.
    pub fn set_volume(&mut self, percent: i64) -> (r: Option<u8>)
        requires
            old(self).wf(),
        ensures
            final(self).wf(),
            final(self).guild == old(self).guild,
            final(self).channel == old(self).channel,
            final(self).connection == old(self).connection,
            match old(self).track {
                Some(t) => {
                    &&& final(self).track == Some(TrackController { volume: crate::track::clamped(percent as int) as u8, ..t })
                    &&& r == Some(crate::track::clamped(percent as int) as u8)
                },
                None => r is None && final(self).track is None,
            },
    {
        match self.track {
            Some(t) => {
                let mut t = t;
                t.set_volume(percent);
                self.track = Some(t);
                Some(t.volume)
            },
            None => None,
        }
    }
}

} // verus!
