use vstd::prelude::*;

verus! {

/// Volume of a freshly started track, in percent.
pub const DEFAULT_VOLUME: u8 = 50;

/// Full volume, in percent.
pub const MAX_VOLUME: u8 = 100;

/// A requested volume (in percent) brought into `0..=100`.
pub open spec fn clamped(percent: int) -> int {
    if percent < 0 {
        0
    } else if percent > MAX_VOLUME as int {
        MAX_VOLUME as int
    } else {
        percent
    }
}

/// Clamps a requested volume, in percent, to the range `0..=100`.
pub fn clamp_volume(percent: i64) -> (r: u8)
    ensures
        r as int == clamped(percent as int),
{
    if percent < 0 {
        0
    } else if percent > MAX_VOLUME as i64 {
        MAX_VOLUME
    } else {
        percent as u8
    }
}

/// One playing audio track: its identifier, its volume in percent, the text
/// channel its completion is announced to, and whether it has ended.
#[derive(Clone, Copy, Debug, PartialEq, Eq, Structural)]
pub struct TrackController {
    pub id: u64,
    pub volume: u8,
    pub notify_channel: u64,
    pub ended: bool,
}

impl TrackController {
    pub open spec fn spec_create(id: u64, notify_channel: u64) -> TrackController {
        TrackController { id, volume: DEFAULT_VOLUME, notify_channel, ended: false }
    }

    pub open spec fn wf(&self) -> bool {
        self.volume <= MAX_VOLUME
    }

    /// A track that has just started: default volume, not ended.
    pub fn create(id: u64, notify_channel: u64) -> (r: TrackController)
        ensures
            r.wf(),
            r == Self::spec_create(id, notify_channel),
    {
        TrackController { id, volume: DEFAULT_VOLUME, notify_channel, ended: false }
    }

    pub fn volume(&self) -> (r: u8)
        ensures
            r == self.volume,
    {
        self.volume
    }

    pub fn has_ended(&self) -> (r: bool)
        ensures
            r == self.ended,
    {
        self.ended
    }

    /// Sets the volume, clamped to `0..=100`. After the track has ended this
    /// changes nothing.
    pub fn set_volume(&mut self, percent: i64)
        ensures
            final(self).id == old(self).id,
            final(self).notify_channel == old(self).notify_channel,
            final(self).ended == old(self).ended,
            old(self).ended ==> final(self).volume == old(self).volume,
            !old(self).ended ==> final(self).volume as int == clamped(percent as int),
            old(self).wf() ==> final(self).wf(),
    {
        if !self.ended {
            self.volume = clamp_volume(percent);
        }
    }

    /// Marks the track as ended. The first call hands back the channel that
    /// the completion is announced to; every later call hands back `None`.
    pub fn finish(&mut self) -> (r: Option<u64>)
        ensures
            final(self).ended,
            final(self).id == old(self).id,
            final(self).volume == old(self).volume,
            final(self).notify_channel == old(self).notify_channel,
            r == (if old(self).ended { None } else { Some(old(self).notify_channel) }),
    {
        if self.ended {
            None
        } else {
            self.ended = true;
            Some(self.notify_channel)
        }
    }
}

} // verus!
