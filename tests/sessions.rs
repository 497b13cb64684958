use music_bot::{
    clamp_volume, first_word_of, Action, Command, CommandRequest, GuildVoiceRegistry, Reply,
    SessionState, Step, TrackController, VoiceSession, DEFAULT_VOLUME,
};

const GUILD: u64 = 7;
const VOICE: u64 = 70;
const TEXT: u64 = 700;
const USER: u64 = 1;

fn request(name: &str, guild: Option<u64>, args: &str) -> CommandRequest {
    CommandRequest {
        user: USER,
        guild,
        channel: TEXT,
        name: name.to_string(),
        args: args.to_string(),
    }
}

fn quiet() -> Step {
    Step { reply: Reply::Silent, action: Action::Nothing }
}

/// A registry with a session for `GUILD` in `VOICE`, connection handle 5.
fn joined() -> GuildVoiceRegistry {
    let mut reg = GuildVoiceRegistry::new();
    let step = reg.dispatch(&request("join", Some(GUILD), ""), Some(VOICE));
    assert_eq!(step.action, Action::Connect { guild: GUILD, channel: VOICE });
    let done = reg.finish_join(GUILD, VOICE, Some(5));
    assert_eq!(done, Step { reply: Reply::Joined, action: Action::Nothing });
    reg
}

#[test]
fn join_from_voice_channel_creates_session() {
    let mut reg = GuildVoiceRegistry::new();
    assert!(reg.get(GUILD).is_none());
    let step = reg.dispatch(&request("join", Some(GUILD), ""), Some(VOICE));
    assert_eq!(step, Step { reply: Reply::Silent, action: Action::Connect { guild: GUILD, channel: VOICE } });
    assert!(reg.get(GUILD).is_none());
    let done = reg.finish_join(GUILD, VOICE, Some(5));
    assert_eq!(done.reply, Reply::Joined);
    let s = reg.get(GUILD).unwrap();
    assert_eq!(s, VoiceSession { guild: GUILD, channel: VOICE, connection: 5, track: None });
    assert_eq!(s.state(), SessionState::Idle);
    assert_eq!(reg.len(), 1);
}

#[test]
fn join_outside_voice_channel_changes_nothing() {
    let mut reg = GuildVoiceRegistry::new();
    let step = reg.dispatch(&request("join", Some(GUILD), ""), None);
    assert_eq!(step, Step { reply: Reply::UserNotInVoice, action: Action::Nothing });
    assert_eq!(reg.len(), 0);
}

#[test]
fn join_when_connected_keeps_session() {
    let mut reg = joined();
    let step = reg.dispatch(&request("join", Some(GUILD), ""), Some(VOICE + 1));
    assert_eq!(step, Step { reply: Reply::Joined, action: Action::Nothing });
    assert_eq!(reg.get(GUILD).unwrap().channel, VOICE);
}

#[test]
fn failed_connection_adds_no_session() {
    let mut reg = GuildVoiceRegistry::new();
    let done = reg.finish_join(GUILD, VOICE, None);
    assert_eq!(done, Step { reply: Reply::ConnectFailed, action: Action::Nothing });
    assert!(!reg.contains(GUILD));
}

#[test]
fn racing_joins_keep_one_session() {
    let mut reg = GuildVoiceRegistry::new();
    let a = reg.dispatch(&request("join", Some(GUILD), ""), Some(VOICE));
    let b = reg.dispatch(&request("join", Some(GUILD), ""), Some(VOICE + 1));
    assert!(matches!(a.action, Action::Connect { .. }));
    assert!(matches!(b.action, Action::Connect { .. }));
    reg.finish_join(GUILD, VOICE, Some(5));
    let second = reg.finish_join(GUILD, VOICE + 1, Some(6));
    assert_eq!(second, Step { reply: Reply::Joined, action: Action::Disconnect { guild: GUILD, connection: 6 } });
    assert_eq!(reg.len(), 1);
    assert_eq!(reg.get(GUILD).unwrap().connection, 5);
    let same = reg.finish_join(GUILD, VOICE, Some(5));
    assert_eq!(same, Step { reply: Reply::Joined, action: Action::Nothing });
}

#[test]
fn sessions_of_guilds_are_independent() {
    let mut reg = joined();
    reg.finish_join(GUILD + 1, VOICE + 1, Some(9));
    assert_eq!(reg.len(), 2);
    reg.leave(GUILD);
    assert_eq!(reg.len(), 1);
    assert_eq!(reg.get(GUILD + 1).unwrap().connection, 9);
}

#[test]
fn leave_without_session_reports_none() {
    let mut reg = GuildVoiceRegistry::new();
    let step = reg.dispatch(&request("leave", Some(GUILD), ""), None);
    assert_eq!(step, Step { reply: Reply::NoSession, action: Action::Nothing });
    assert_eq!(reg.len(), 0);
}

#[test]
fn leave_twice_reports_none_second_time() {
    let mut reg = joined();
    let first = reg.dispatch(&request("leave", Some(GUILD), ""), None);
    assert_eq!(first, Step { reply: Reply::Goodbye, action: Action::Disconnect { guild: GUILD, connection: 5 } });
    assert!(!reg.contains(GUILD));
    let second = reg.dispatch(&request("leave", Some(GUILD), ""), None);
    assert_eq!(second, Step { reply: Reply::NoSession, action: Action::Nothing });
}

#[test]
fn play_with_empty_query_is_refused() {
    let mut reg = joined();
    for args in ["", "   ", "\t\n"] {
        let step = reg.dispatch(&request("play", Some(GUILD), args), None);
        assert_eq!(step, Step { reply: Reply::EmptyQuery, action: Action::Nothing });
    }
    assert_eq!(reg.get(GUILD).unwrap().track, None);
}

#[test]
fn play_without_session_asks_to_join() {
    let mut reg = GuildVoiceRegistry::new();
    let step = reg.dispatch(&request("play", Some(GUILD), "https://valid"), None);
    assert_eq!(step, Step { reply: Reply::JoinFirst, action: Action::Nothing });
    assert_eq!(reg.len(), 0);
    let late = reg.finish_play(GUILD, TEXT, "https://valid".to_string(), Ok(()));
    assert_eq!(late, Step { reply: Reply::JoinFirst, action: Action::Nothing });
    assert_eq!(reg.len(), 0);
}

#[test]
fn play_resolves_first_word_only() {
    let mut reg = joined();
    let step = reg.dispatch(&request("play", Some(GUILD), "lofi beats"), None);
    assert_eq!(
        step,
        Step { reply: Reply::Processing, action: Action::Resolve { guild: GUILD, query: "lofi".to_string() } }
    );
}

#[test]
fn play_resolver_failure_keeps_session_idle() {
    let mut reg = joined();
    let step = reg.dispatch(&request("play", Some(GUILD), "lofi beats"), None);
    let query = match step.action {
        Action::Resolve { query, .. } => query,
        other => panic!("unexpected action {:?}", other),
    };
    let done = reg.finish_play(GUILD, TEXT, query, Err("not found".to_string()));
    assert_eq!(done.action, Action::Nothing);
    match done.reply {
        Reply::ResolveFailed { query, error } => {
            assert_eq!(query, "lofi");
            assert!(error.contains("not found"));
        }
        other => panic!("unexpected reply {:?}", other),
    }
    let s = reg.get(GUILD).unwrap();
    assert_eq!(s.state(), SessionState::Idle);
    assert_eq!(s.track, None);
}

#[test]
fn played_track_end_is_announced_once() {
    let mut reg = joined();
    let step = reg.dispatch(&request("play", Some(GUILD), "https://valid"), None);
    assert_eq!(step.reply, Reply::Processing);
    let done = reg.finish_play(GUILD, TEXT, "https://valid".to_string(), Ok(()));
    let track = match done.action {
        Action::Play { guild, track, volume, replaces } => {
            assert_eq!(guild, GUILD);
            assert_eq!(volume, DEFAULT_VOLUME);
            assert!(!replaces);
            track
        }
        other => panic!("unexpected action {:?}", other),
    };
    assert_eq!(done.reply, Reply::NowPlaying { volume: 50 });
    assert_eq!(reg.get(GUILD).unwrap().state(), SessionState::Playing);
    assert_eq!(reg.end_track(GUILD, track), Some(TEXT));
    assert_eq!(reg.get(GUILD).unwrap().state(), SessionState::Idle);
    assert_eq!(reg.end_track(GUILD, track), None);
}

#[test]
fn track_of_left_session_is_never_announced() {
    let mut reg = joined();
    let done = reg.finish_play(GUILD, TEXT, "q".to_string(), Ok(()));
    let track = match done.action {
        Action::Play { track, .. } => track,
        other => panic!("unexpected action {:?}", other),
    };
    reg.leave(GUILD);
    assert_eq!(reg.end_track(GUILD, track), None);
    assert_eq!(reg.len(), 0);
}

#[test]
fn new_play_replaces_current_track() {
    let mut reg = joined();
    let first = reg.finish_play(GUILD, TEXT, "a".to_string(), Ok(()));
    let second = reg.finish_play(GUILD, TEXT + 1, "b".to_string(), Ok(()));
    let (old_id, new_id) = match (first.action, second.action) {
        (Action::Play { track: a, .. }, Action::Play { track: b, replaces, .. }) => {
            assert!(replaces);
            (a, b)
        }
        other => panic!("unexpected actions {:?}", other),
    };
    assert_ne!(old_id, new_id);
    assert_eq!(reg.end_track(GUILD, old_id), None);
    assert_eq!(reg.end_track(GUILD, new_id), Some(TEXT + 1));
}

#[test]
fn volume_is_clamped() {
    assert_eq!(clamp_volume(150), 100);
    assert_eq!(clamp_volume(-10), 0);
    assert_eq!(clamp_volume(30), 30);
    let from_float = |v: f32| clamp_volume((v * 100.0).round() as i64);
    assert_eq!(from_float(1.5), 100);
    assert_eq!(from_float(-0.1), 0);
    let mut t = TrackController::create(3, TEXT);
    assert_eq!(t.volume(), 50);
    t.set_volume(150);
    assert_eq!(t.volume(), 100);
    t.set_volume(-10);
    assert_eq!(t.volume(), 0);
}

#[test]
fn volume_after_track_end_is_a_no_op() {
    let mut t = TrackController::create(3, TEXT);
    t.set_volume(80);
    assert_eq!(t.finish(), Some(TEXT));
    assert!(t.has_ended());
    assert_eq!(t.finish(), None);
    t.set_volume(10);
    assert_eq!(t.volume(), 80);
}

#[test]
fn registry_volume_follows_current_track() {
    let mut reg = joined();
    assert_eq!(reg.set_volume(GUILD, 70), None);
    reg.finish_play(GUILD, TEXT, "a".to_string(), Ok(()));
    assert_eq!(reg.set_volume(GUILD, 1000), Some(100));
    assert_eq!(reg.get(GUILD).unwrap().track.unwrap().volume, 100);
}

#[test]
fn unknown_command_is_ignored() {
    let mut reg = joined();
    assert_eq!(reg.dispatch(&request("skip", Some(GUILD), ""), Some(VOICE)), quiet());
    assert_eq!(reg.dispatch(&request("Join", Some(GUILD), ""), Some(VOICE)), quiet());
    assert_eq!(reg.len(), 1);
}

#[test]
fn command_without_guild_is_reported() {
    let mut reg = GuildVoiceRegistry::new();
    for name in ["join", "leave", "play"] {
        let step = reg.dispatch(&request(name, None, "x"), Some(VOICE));
        assert_eq!(step, Step { reply: Reply::MissingGuildContext, action: Action::Nothing });
    }
}

#[test]
fn command_names_parse() {
    assert_eq!(Command::parse("join"), Some(Command::Join));
    assert_eq!(Command::parse("leave"), Some(Command::Leave));
    assert_eq!(Command::parse("play"), Some(Command::Play));
    assert_eq!(Command::parse("pla"), None);
    assert_eq!(Command::parse(""), None);
}

#[test]
fn first_word_skips_white_space() {
    assert_eq!(first_word_of("  lofi beats"), "lofi");
    assert_eq!(first_word_of("https://valid"), "https://valid");
    assert_eq!(first_word_of("\u{3000}é\u{a0}x"), "é");
    assert_eq!(first_word_of(" \t "), "");
    assert_eq!(first_word_of(""), "");
}
