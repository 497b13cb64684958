use vstd::prelude::*;
use crate::command::first_word;
use crate::dispatch::{after_join, after_leave, leave_step, play_step, Action, Reply, Step};
use crate::registry::{after_end, after_start, end_report};
use crate::session::VoiceSession;

verus! {

/// Two connections for one guild that finish in turn leave one session, the
/// one of the first: a racing second `join` adds nothing.
pub proof fn lemma_racing_joins_keep_one(
    m: Map<u64, VoiceSession>,
    g: u64,
    c1: u64,
    h1: u64,
    c2: u64,
    h2: u64,
)
    ensures
        after_join(after_join(m, g, c1, h1), g, c2, h2) == after_join(m, g, c1, h1),
        after_join(m, g, c1, h1).contains_key(g),
        !m.contains_key(g) ==> after_join(m, g, c1, h1)[g] == (VoiceSession {
            guild: g,
            channel: c1,
            connection: h1,
            track: None,
        }),
{
}

/// `leave` without a session reports so and changes nothing; with one it
/// removes it, and a second `leave` right after reports that there is none.
pub proof fn lemma_leave_idempotent(m: Map<u64, VoiceSession>, g: u64)
    ensures
        !m.contains_key(g) ==> {
            &&& leave_step(m, g) == (Step { reply: Reply::NoSession, action: Action::Nothing })
            &&& after_leave(m, g) == m
        },
        !after_leave(m, g).contains_key(g),
        leave_step(after_leave(m, g), g) == (Step { reply: Reply::NoSession, action: Action::Nothing }),
        after_leave(after_leave(m, g), g) == after_leave(m, g),
{
    assert(!m.contains_key(g) ==> after_leave(m, g) =~= m);
    assert(after_leave(after_leave(m, g), g) =~= after_leave(m, g));
}

/// `play` with no query, in a guild with a session, gets the empty-query
/// reply and hands nothing out to be resolved, so no track can start.
pub proof fn lemma_play_empty_query(m: Map<u64, VoiceSession>, g: u64, args: Seq<char>, r: Step)
    requires
        m.contains_key(g),
        first_word(args).len() == 0,
        play_step(m, g, args, r),
    ensures
        r == (Step { reply: Reply::EmptyQuery, action: Action::Nothing }),
{
}

/// `play` in a guild without a session gets the join-first reply and hands
/// nothing out, so no session comes of it.
pub proof fn lemma_play_without_session(m: Map<u64, VoiceSession>, g: u64, args: Seq<char>, r: Step)
    requires
        !m.contains_key(g),
        play_step(m, g, args, r),
    ensures
        r == (Step { reply: Reply::JoinFirst, action: Action::Nothing }),
{
}

/// The end of a started track is announced once, to the channel given when
/// it started; a second report of its end announces nothing.
pub proof fn lemma_track_end_announced_once(m: Map<u64, VoiceSession>, g: u64, id: u64, notify_channel: u64)
    requires
        m.contains_key(g),
    ensures
        end_report(after_start(m, g, id, notify_channel), g, id) == Some(notify_channel),
        after_start(m, g, id, notify_channel)[g].track is Some,
        after_end(after_start(m, g, id, notify_channel), g, id)[g].track is None,
        end_report(after_end(after_start(m, g, id, notify_channel), g, id), g, id) is None,
{
}

/// Once the guild's session is gone, the end of any of its tracks is never
/// announced.
pub proof fn lemma_no_announcement_after_leave(m: Map<u64, VoiceSession>, g: u64, id: u64)
    ensures
        end_report(after_leave(m, g), g, id) is None,
        after_end(after_leave(m, g), g, id) == after_leave(m, g),
{
}

/// A track replaced by a newer one is never announced.
pub proof fn lemma_replaced_track_not_announced(
    m: Map<u64, VoiceSession>,
    g: u64,
    old_id: u64,
    new_id: u64,
    notify_channel: u64,
)
    requires
        m.contains_key(g),
        old_id != new_id,
    ensures
        end_report(after_start(m, g, new_id, notify_channel), g, old_id) is None,
{
}

} // verus!
