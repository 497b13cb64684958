use vstd::prelude::*;
use crate::command::{command_of, first_word, first_word_of, Command};
use crate::registry::{after_start, GuildVoiceRegistry};
use crate::session::VoiceSession;
use crate::track::DEFAULT_VOLUME;

verus! {

/// One inbound command: who sent it, from which guild (absent when the
/// platform gave no guild) and channel, the command's name and the text
/// after it.
pub struct CommandRequest {
    pub user: u64,
    pub guild: Option<u64>,
    pub channel: u64,
    pub name: String,
    pub args: String,
}

/// What is posted back to the channel a command came from.
#[derive(Clone, Debug, PartialEq, Eq)]
pub enum Reply {
    /// Nothing is posted.
    Silent,
    /// The command arrived without a guild to act in.
    MissingGuildContext,
    /// The user asked to join while in no voice channel.
    UserNotInVoice,
    /// The bot is connected to the user's voice channel.
    Joined,
    /// The voice connection could not be established.
    ConnectFailed,
    /// The session was ended.
    Goodbye,
    /// `leave` was asked of a guild with no session.
    NoSession,
    /// `play` was asked of a guild with no session.
    JoinFirst,
    /// `play` came without a query.
    EmptyQuery,
    /// The query is being resolved.
    Processing,
    /// The query could not be resolved to a track.
    ResolveFailed { query: String, error: String },
    /// A track started, at the given volume in percent.
    NowPlaying { volume: u8 },
    /// No identifier is left for another track.
    TracksExhausted,
}

/// What the caller must do on the outside after a step.
#[derive(Clone, Debug, PartialEq, Eq)]
pub enum Action {
    Nothing,
    /// Open a voice connection to `channel`, then report to `finish_join`.
    Connect { guild: u64, channel: u64 },
    /// Close the voice connection `connection` of `guild`.
    Disconnect { guild: u64, connection: u64 },
    /// Resolve `query` to an audio source, then report to `finish_play`.
    Resolve { guild: u64, query: String },
    /// Play the resolved source as track `track` at `volume` percent, first
    /// stopping the track it replaces, if `replaces`; report its end to
    /// `end_track`.
    Play { guild: u64, track: u64, volume: u8, replaces: bool },
}

/// The outcome of one command or one report: a reply and an action.
#[derive(Clone, Debug, PartialEq, Eq)]
pub struct Step {
    pub reply: Reply,
    pub action: Action,
}

/// `join` in guild `g` by a user in voice channel `voice`, if any: it asks to
/// connect only when the user is in a channel and the guild has no session.
/// It changes no session.
pub open spec fn join_step(m: Map<u64, VoiceSession>, g: u64, voice: Option<u64>, r: Step) -> bool {
    match voice {
        None => r == (Step { reply: Reply::UserNotInVoice, action: Action::Nothing }),
        Some(c) => if m.contains_key(g) {
            r == (Step { reply: Reply::Joined, action: Action::Nothing })
        } else {
            r == (Step { reply: Reply::Silent, action: Action::Connect { guild: g, channel: c } })
        },
    }
}

/// The sessions after a connection `h` to `channel` of guild `g` was
/// opened: a guild that already has a session keeps it.
pub open spec fn after_join(m: Map<u64, VoiceSession>, g: u64, channel: u64, h: u64) -> Map<u64, VoiceSession> {
    if m.contains_key(g) {
        m
    } else {
        m.insert(g, VoiceSession { guild: g, channel, connection: h, track: None })
    }
}

/// The sessions after `leave` in guild `g`.
pub open spec fn after_leave(m: Map<u64, VoiceSession>, g: u64) -> Map<u64, VoiceSession> {
    m.remove(g)
}

/// `leave` in guild `g`: the session, if there is one, is removed and its
/// connection closed.
pub open spec fn leave_step(m: Map<u64, VoiceSession>, g: u64) -> Step {
    if m.contains_key(g) {
        Step { reply: Reply::Goodbye, action: Action::Disconnect { guild: g, connection: m[g].connection } }
    } else {
        Step { reply: Reply::NoSession, action: Action::Nothing }
    }
}

/// `play` in guild `g` with argument text `args`: with a session and a
/// non-empty first word, that word is handed out to be resolved. It changes
/// no session.
pub open spec fn play_step(m: Map<u64, VoiceSession>, g: u64, args: Seq<char>, r: Step) -> bool {
    if !m.contains_key(g) {
        r == (Step { reply: Reply::JoinFirst, action: Action::Nothing })
    } else if first_word(args).len() == 0 {
        r == (Step { reply: Reply::EmptyQuery, action: Action::Nothing })
    } else {
        &&& r.reply == Reply::Processing
        &&& r.action matches Action::Resolve { guild, query }
        &&& guild == g
        &&& query@ == first_word(args)
    }
}

impl GuildVoiceRegistry {
    /// `join`: the user's voice channel is looked up by the caller and handed
    /// in as `voice`.
    pub fn join(&self, g: u64, voice: Option<u64>) -> (r: Step)
        requires
            self.wf(),
        ensures
            join_step(self@, g, voice, r),
    {
        match voice {
            None => Step { reply: Reply::UserNotInVoice, action: Action::Nothing },
            Some(c) => {
                if self.contains(g) {
                    Step { reply: Reply::Joined, action: Action::Nothing }
                } else {
                    Step { reply: Reply::Silent, action: Action::Connect { guild: g, channel: c } }
                }
            },
        }
    }

    /// Reports the end of a connection attempt to `channel` of guild `g`:
    /// `connection` is the new connection's handle, or `None` when it failed.
    /// A new session is added only for a guild without one; a second
    /// connection opened meanwhile for a guild that has one is handed back to
    /// be closed.
    pub fn finish_join(&mut self, g: u64, channel: u64, connection: Option<u64>) -> (r: Step)
        requires
            old(self).wf(),
        ensures
            final(self).wf(),
            final(self).spec_next_track() == old(self).spec_next_track(),
            match connection {
                None => {
                    &&& r == (Step { reply: Reply::ConnectFailed, action: Action::Nothing })
                    &&& final(self)@ == old(self)@
                },
                Some(h) => {
                    &&& r.reply == Reply::Joined
                    &&& final(self)@ == after_join(old(self)@, g, channel, h)
                    &&& r.action == (if old(self)@.contains_key(g) && old(self)@[g].connection != h {
                        Action::Disconnect { guild: g, connection: h }
                    } else {
                        Action::Nothing
                    })
                },
            },
    {
        match connection {
            None => Step { reply: Reply::ConnectFailed, action: Action::Nothing },
            Some(h) => {
                match self.get(g) {
                    Some(s) => {
                        if s.connection == h {
                            Step { reply: Reply::Joined, action: Action::Nothing }
                        } else {
                            Step { reply: Reply::Joined, action: Action::Disconnect { guild: g, connection: h } }
                        }
                    },
                    None => {
                        self.insert(VoiceSession::connected(g, channel, h));
                        Step { reply: Reply::Joined, action: Action::Nothing }
                    },
                }
            },
        }
    }

    /// `leave`: removes the guild's session, if any.
    pub fn leave(&mut self, g: u64) -> (r: Step)
        requires
            old(self).wf(),
        ensures
            final(self).wf(),
            final(self).spec_next_track() == old(self).spec_next_track(),
            final(self)@ == after_leave(old(self)@, g),
            r == leave_step(old(self)@, g),
    {
        match self.remove(g) {
            Some(s) => Step { reply: Reply::Goodbye, action: Action::Disconnect { guild: g, connection: s.connection } },
            None => Step { reply: Reply::NoSession, action: Action::Nothing },
        }
    }

    /// `play` with the text after the command name.
    pub fn play(&self, g: u64, args: &str) -> (r: Step)
        requires
            self.wf(),
        ensures
            play_step(self@, g, args@, r),
    {
        if !self.contains(g) {
            return Step { reply: Reply::JoinFirst, action: Action::Nothing };
        }
        let query = first_word_of(args);
        if query.as_str().unicode_len() == 0 {
            Step { reply: Reply::EmptyQuery, action: Action::Nothing }
        } else {
            Step { reply: Reply::Processing, action: Action::Resolve { guild: g, query } }
        }
    }

    /// Reports the resolution of `query` for guild `g`: `Ok` when a source was
    /// obtained, else the resolver's error. On success the source starts as
    /// the guild's new track, whose end is announced to `notify_channel`.
    pub fn finish_play(&mut self, g: u64, notify_channel: u64, query: String, resolved: Result<(), String>) -> (r: Step)
        requires
            old(self).wf(),
        ensures
            final(self).wf(),
            match resolved {
                Err(e) => {
                    &&& r == (Step { reply: Reply::ResolveFailed { query, error: e }, action: Action::Nothing })
                    &&& final(self)@ == old(self)@
                    &&& final(self).spec_next_track() == old(self).spec_next_track()
                },
                Ok(()) => if !old(self)@.contains_key(g) {
                    &&& r == (Step { reply: Reply::JoinFirst, action: Action::Nothing })
                    &&& final(self)@ == old(self)@
                    &&& final(self).spec_next_track() == old(self).spec_next_track()
                } else if old(self).spec_next_track() == u64::MAX {
                    &&& r == (Step { reply: Reply::TracksExhausted, action: Action::Nothing })
                    &&& final(self)@ == old(self)@
                    &&& final(self).spec_next_track() == old(self).spec_next_track()
                } else {
                    let id = old(self).spec_next_track();
                    &&& r == (Step {
                        reply: Reply::NowPlaying { volume: DEFAULT_VOLUME },
                        action: Action::Play {
                            guild: g,
                            track: id,
                            volume: DEFAULT_VOLUME,
                            replaces: old(self)@[g].track is Some,
                        },
                    })
                    &&& final(self)@ == after_start(old(self)@, g, id, notify_channel)
                    &&& final(self).spec_next_track() == id + 1
                },
            },
    {
        match resolved {
            Err(e) => Step { reply: Reply::ResolveFailed { query, error: e }, action: Action::Nothing },
            Ok(()) => {
                if !self.contains(g) {
                    return Step { reply: Reply::JoinFirst, action: Action::Nothing };
                }
                match self.start_track(g, notify_channel) {
                    Some((id, replaces)) => Step {
                        reply: Reply::NowPlaying { volume: DEFAULT_VOLUME },
                        action: Action::Play { guild: g, track: id, volume: DEFAULT_VOLUME, replaces },
                    },
                    None => Step { reply: Reply::TracksExhausted, action: Action::Nothing },
                }
            },
        }
    }

    /// Routes a command by its name. Unknown names are ignored; a known
    /// command without a guild gets `MissingGuildContext`. `voice` is the
    /// voice channel the sender is in, if any.
    pub fn dispatch(&mut self, req: &CommandRequest, voice: Option<u64>) -> (r: Step)
        requires
            old(self).wf(),
        ensures
            final(self).wf(),
            final(self).spec_next_track() == old(self).spec_next_track(),
            match command_of(req.name@) {
                None => r == (Step { reply: Reply::Silent, action: Action::Nothing }) && final(self)@ == old(self)@,
                Some(cmd) => match req.guild {
                    None => {
                        &&& r == (Step { reply: Reply::MissingGuildContext, action: Action::Nothing })
                        &&& final(self)@ == old(self)@
                    },
                    Some(g) => match cmd {
                        Command::Join => join_step(old(self)@, g, voice, r) && final(self)@ == old(self)@,
                        Command::Leave => r == leave_step(old(self)@, g) && final(self)@ == after_leave(old(self)@, g),
                        Command::Play => play_step(old(self)@, g, req.args@, r) && final(self)@ == old(self)@,
                    },
                },
            },
    {
        match Command::parse(req.name.as_str()) {
            None => Step { reply: Reply::Silent, action: Action::Nothing },
            Some(cmd) => match req.guild {
                None => Step { reply: Reply::MissingGuildContext, action: Action::Nothing },
                Some(g) => match cmd {
                    Command::Join => self.join(g, voice),
                    Command::Leave => self.leave(g),
                    Command::Play => self.play(g, req.args.as_str()),
                },
            },
        }
    }
}

} // verus!
