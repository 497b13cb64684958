use vstd::prelude::*;
use crate::session::VoiceSession;
use crate::track::TrackController;

verus! {

/// Every guild occurs in at most one entry.
pub open spec fn guilds_distinct(s: Seq<VoiceSession>) -> bool {
    forall|i: int, j: int|
        0 <= i < s.len() && 0 <= j < s.len() && #[trigger] s[i].guild == #[trigger] s[j].guild
            ==> i == j
}

/// Some entry belongs to guild `g`.
pub open spec fn holds_guild(s: Seq<VoiceSession>, g: u64) -> bool {
    exists|i: int| 0 <= i < s.len() && #[trigger] s[i].guild == g
}

/// The entries as a map from guild to session.
pub open spec fn session_map(s: Seq<VoiceSession>) -> Map<u64, VoiceSession> {
    Map::new(
        |g: u64| holds_guild(s, g),
        |g: u64| s[choose|i: int| 0 <= i < s.len() && #[trigger] s[i].guild == g],
    )
}

/// The session of `g` with the new track `id` playing in it.
pub open spec fn after_start(m: Map<u64, VoiceSession>, g: u64, id: u64, notify_channel: u64) -> Map<u64, VoiceSession> {
    m.insert(g, VoiceSession { track: Some(TrackController::spec_create(id, notify_channel)), ..m[g] })
}

/// Whether track `id` is the one playing in the session of `g`.
pub open spec fn is_current(m: Map<u64, VoiceSession>, g: u64, id: u64) -> bool {
    &&& m.contains_key(g)
    &&& m[g].track is Some
    &&& m[g].track->Some_0.id == id
}

/// The channel that the end of track `id` in guild `g` is announced to:
/// only the current track of a live session is announced.
pub open spec fn end_report(m: Map<u64, VoiceSession>, g: u64, id: u64) -> Option<u64> {
    if is_current(m, g, id) {
        Some(m[g].track->Some_0.notify_channel)
    } else {
        None
    }
}

/// The sessions after track `id` of guild `g` has ended.
pub open spec fn after_end(m: Map<u64, VoiceSession>, g: u64, id: u64) -> Map<u64, VoiceSession> {
    if is_current(m, g, id) {
        m.insert(g, VoiceSession { track: None, ..m[g] })
    } else {
        m
    }
}

/// The process-wide map from guild to its voice session.
pub struct GuildVoiceRegistry {
    sessions: Vec<VoiceSession>,
    next_track: u64,
}

impl View for GuildVoiceRegistry {
    type V = Map<u64, VoiceSession>;

    closed spec fn view(&self) -> Map<u64, VoiceSession> {
        session_map(self.sessions@)
    }
}

proof fn lemma_entry(s: Seq<VoiceSession>, i: int)
    requires
        guilds_distinct(s),
        0 <= i < s.len(),
    ensures
        session_map(s).contains_key(s[i].guild),
        session_map(s)[s[i].guild] == s[i],
{
    assert(holds_guild(s, s[i].guild));
}

proof fn lemma_update(s: Seq<VoiceSession>, i: int, v: VoiceSession)
    requires
        guilds_distinct(s),
        0 <= i < s.len(),
        v.guild == s[i].guild,
    ensures
        guilds_distinct(s.update(i, v)),
        session_map(s.update(i, v)) == session_map(s).insert(v.guild, v),
{
    let t = s.update(i, v);
    assert forall|a: int, b: int|
        0 <= a < t.len() && 0 <= b < t.len() && #[trigger] t[a].guild == #[trigger] t[b].guild
        implies a == b by {
        assert(s[a].guild == t[a].guild && s[b].guild == t[b].guild);
    }
    let m = session_map(s).insert(v.guild, v);
    assert forall|g: u64| #[trigger] session_map(t).contains_key(g) <==> m.contains_key(g) by {
        if m.contains_key(g) && g != v.guild {
            let k = choose|k: int| 0 <= k < s.len() && #[trigger] s[k].guild == g;
            assert(t[k].guild == g);
        }
        if g == v.guild {
            assert(t[i].guild == g);
        }
        if session_map(t).contains_key(g) {
            let k = choose|k: int| 0 <= k < t.len() && #[trigger] t[k].guild == g;
            assert(s[k].guild == g);
        }
    }
    assert forall|g: u64| #[trigger] session_map(t).contains_key(g) implies session_map(t)[g] == m[g] by {
        let k = choose|k: int| 0 <= k < t.len() && #[trigger] t[k].guild == g;
        lemma_entry(t, k);
        assert(s[k].guild == g);
        lemma_entry(s, k);
    }
    assert(session_map(t) =~= m);
}

proof fn lemma_remove(s: Seq<VoiceSession>, i: int)
    requires
        guilds_distinct(s),
        0 <= i < s.len(),
    ensures
        guilds_distinct(s.remove(i)),
        session_map(s.remove(i)) == session_map(s).remove(s[i].guild),
{
    let t = s.remove(i);
    let g0 = s[i].guild;
    assert forall|a: int, b: int|
        0 <= a < t.len() && 0 <= b < t.len() && #[trigger] t[a].guild == #[trigger] t[b].guild
        implies a == b by {
        let a2 = if a < i { a } else { a + 1 };
        let b2 = if b < i { b } else { b + 1 };
        assert(s[a2].guild == t[a].guild && s[b2].guild == t[b].guild);
    }
    let m = session_map(s).remove(g0);
    assert forall|g: u64| #[trigger] session_map(t).contains_key(g) <==> m.contains_key(g) by {
        if m.contains_key(g) {
            let k = choose|k: int| 0 <= k < s.len() && #[trigger] s[k].guild == g;
            assert(k != i);
            let k2 = if k < i { k } else { k - 1 };
            assert(t[k2].guild == g);
        }
        if session_map(t).contains_key(g) {
            let k = choose|k: int| 0 <= k < t.len() && #[trigger] t[k].guild == g;
            let k2 = if k < i { k } else { k + 1 };
            assert(s[k2].guild == g);
            assert(k2 != i);
        }
    }
    assert forall|g: u64| #[trigger] session_map(t).contains_key(g) implies session_map(t)[g] == m[g] by {
        let k = choose|k: int| 0 <= k < t.len() && #[trigger] t[k].guild == g;
        lemma_entry(t, k);
        let k2 = if k < i { k } else { k + 1 };
        assert(s[k2].guild == g);
        lemma_entry(s, k2);
    }
    assert(session_map(t) =~= m);
}

impl GuildVoiceRegistry {
    /// Entries are keyed uniquely by guild, each session is well formed, and
    /// the next track identifier is above every identifier handed out.
    pub closed spec fn wf(&self) -> bool {
        &&& guilds_distinct(self.sessions@)
        &&& forall|g: u64| #[trigger] self@.contains_key(g) ==> self@[g].guild == g && self@[g].wf()
        &&& forall|g: u64| #[trigger] self@.contains_key(g) && self@[g].track is Some
            ==> self@[g].track->Some_0.id < self.next_track
    }

    /// The stored sessions, in the order they were added.
    pub closed spec fn entries(&self) -> Seq<VoiceSession> {
        self.sessions@
    }

    /// No guild has two sessions: two stored entries of one guild are the
    /// same entry, and each is the session the guild maps to.
    pub proof fn lemma_one_session_per_guild(&self, i: int, j: int)
        requires
            self.wf(),
            0 <= i < self.entries().len(),
            0 <= j < self.entries().len(),
            self.entries()[i].guild == self.entries()[j].guild,
        ensures
            i == j,
            self@.contains_key(self.entries()[i].guild),
            self@[self.entries()[i].guild] == self.entries()[i],
    {
        lemma_entry(self.sessions@, i);
    }

    /// The identifier that the next track started will get.
    pub closed spec fn spec_next_track(&self) -> u64 {
        self.next_track
    }

    pub open spec fn lookup(&self, g: u64) -> Option<VoiceSession> {
        if self@.contains_key(g) {
            Some(self@[g])
        } else {
            None
        }
    }

    /// An empty registry: no guild is connected.
    pub fn new() -> (r: GuildVoiceRegistry)
        ensures
            r.wf(),
            r@ == Map::<u64, VoiceSession>::empty(),
    {
        let r = GuildVoiceRegistry { sessions: Vec::new(), next_track: 0 };
        assert(r@ =~= Map::<u64, VoiceSession>::empty());
        r
    }

    /// Number of guilds with a session.
    pub fn len(&self) -> (r: usize)
        requires
            self.wf(),
        ensures
            r as nat == self@.dom().len(),
    {
        proof { self.lemma_len(); }
        self.sessions.len()
    }

    proof fn lemma_len(&self)
        requires
            self.wf(),
        ensures
            self.sessions@.len() == self@.dom().len(),
    {
        let s = self.sessions@;
        let f = |i: int| s[i].guild;
        let idx = Set::new(|i: int| 0 <= i < s.len());
        assert(idx =~= vstd::set_lib::set_int_range(0, s.len() as int));
        vstd::set_lib::lemma_int_range(0, s.len() as int);
        assert(self@.dom() =~= idx.map(f)) by {
            assert forall|g: u64| self@.dom().contains(g) implies #[trigger] idx.map(f).contains(g) by {
                let i = choose|i: int| 0 <= i < s.len() && #[trigger] s[i].guild == g;
                assert(idx.contains(i) && f(i) == g);
            }
        }
        assert forall|i: int, j: int| idx.contains(i) && idx.contains(j) && #[trigger] f(i) == #[trigger] f(j) implies i == j by {
            assert(s[i].guild == s[j].guild);
        }
        vstd::set_lib::lemma_map_size(idx, idx.map(f), f);
    }

    /// Position of the guild's entry, if it has one.
    fn find(&self, g: u64) -> (r: Option<usize>)
        requires
            self.wf(),
        ensures
            match r {
                Some(i) => i < self.sessions@.len() && self.sessions@[i as int].guild == g,
                None => !self@.contains_key(g),
            },
    {
        let mut i: usize = 0;
        while i < self.sessions.len()
            invariant
                i <= self.sessions@.len(),
                forall|j: int| 0 <= j < i ==> #[trigger] self.sessions@[j].guild != g,
            decreases self.sessions@.len() - i,
        {
            if self.sessions[i].guild == g {
                return Some(i);
            }
            i = i + 1;
        }
        None
    }

    /// The guild's session, if it has one. Changes nothing.
    pub fn get(&self, g: u64) -> (r: Option<VoiceSession>)
        requires
            self.wf(),
        ensures
            r == self.lookup(g),
    {
        match self.find(g) {
            Some(i) => {
                proof { lemma_entry(self.sessions@, i as int); }
                Some(self.sessions[i])
            },
            None => None,
        }
    }

    pub fn contains(&self, g: u64) -> (r: bool)
        requires
            self.wf(),
        ensures
            r == self@.contains_key(g),
    {
        match self.find(g) {
            Some(i) => {
                proof { lemma_entry(self.sessions@, i as int); }
                true
            },
            None => false,
        }
    }

    /// Adds a session for a guild that has none.
    pub fn insert(&mut self, s: VoiceSession)
        requires
            old(self).wf(),
            !old(self)@.contains_key(s.guild),
            s.wf(),
            s.track is None,
        ensures
            final(self).wf(),
            final(self)@ == old(self)@.insert(s.guild, s),
            final(self).spec_next_track() == old(self).spec_next_track(),
    {
        let ghost old_s = self.sessions@;
        self.sessions.push(s);
        let ghost new_s = self.sessions@;
        assert(new_s == old_s.push(s));
        assert forall|i: int, j: int|
            0 <= i < new_s.len() && 0 <= j < new_s.len() && #[trigger] new_s[i].guild == #[trigger] new_s[j].guild
            implies i == j by {
            if i < old_s.len() && j == old_s.len() {
                assert(holds_guild(old_s, s.guild));
            } else if j < old_s.len() && i == old_s.len() {
                assert(holds_guild(old_s, s.guild));
            }
        }
        proof { self.lemma_push_view(old_s, s); }
    }

    proof fn lemma_push_view(&self, old_s: Seq<VoiceSession>, s: VoiceSession)
        requires
            self.sessions@ == old_s.push(s),
            guilds_distinct(old_s),
            guilds_distinct(self.sessions@),
            !holds_guild(old_s, s.guild),
        ensures
            self@ == session_map(old_s).insert(s.guild, s),
    {
        let new_s = self.sessions@;
        let m = session_map(old_s).insert(s.guild, s);
        assert forall|g: u64| #[trigger] self@.contains_key(g) <==> m.contains_key(g) by {
            if m.contains_key(g) && g != s.guild {
                let i = choose|i: int| 0 <= i < old_s.len() && #[trigger] old_s[i].guild == g;
                assert(new_s[i].guild == g);
            }
            if self@.contains_key(g) && g != s.guild {
                let i = choose|i: int| 0 <= i < new_s.len() && #[trigger] new_s[i].guild == g;
                assert(old_s[i].guild == g);
            }
            if g == s.guild {
                assert(new_s[old_s.len() as int].guild == g);
            }
        }
        assert forall|g: u64| #[trigger] self@.contains_key(g) implies self@[g] == m[g] by {
            let i = choose|i: int| 0 <= i < new_s.len() && #[trigger] new_s[i].guild == g;
            lemma_entry(new_s, i);
            if g != s.guild {
                assert(i < old_s.len());
                assert(old_s[i] == new_s[i]);
                lemma_entry(old_s, i);
            } else {
                lemma_entry(new_s, old_s.len() as int);
            }
        }
        assert(self@ =~= m);
    }

    /// Removes the guild's session and hands it back; `None`, with nothing
    /// changed, when the guild has none.
    pub fn remove(&mut self, g: u64) -> (r: Option<VoiceSession>)
        requires
            old(self).wf(),
        ensures
            final(self).wf(),
            r == old(self).lookup(g),
            final(self)@ == old(self)@.remove(g),
            final(self).spec_next_track() == old(self).spec_next_track(),
    {
        match self.find(g) {
            Some(i) => {
                proof {
                    lemma_entry(self.sessions@, i as int);
                    lemma_remove(self.sessions@, i as int);
                }
                let s = self.sessions.remove(i);
                Some(s)
            },
            None => {
                assert(self@ =~= self@.remove(g));
                None
            },
        }
    }

    /// Replaces the stored session at `i` by one of the same guild.
    fn replace_at(&mut self, i: usize, v: VoiceSession)
        requires
            old(self).wf(),
            i < old(self).sessions@.len(),
            v.guild == old(self).sessions@[i as int].guild,
            v.wf(),
            v.track is Some ==> v.track->Some_0.id < old(self).next_track,
        ensures
            final(self).wf(),
            final(self)@ == old(self)@.insert(v.guild, v),
            final(self).sessions@.len() == old(self).sessions@.len(),
            final(self).sessions@[i as int] == v,
            final(self).next_track == old(self).next_track,
    {
        proof { lemma_update(self.sessions@, i as int, v); }
        self.sessions.set(i, v);
    }

    /// Starts a new track in the guild's session with the default volume,
    /// replacing the track that played there. Hands back the new track's
    /// identifier and whether a track was replaced. `None`, with nothing
    /// changed, when the guild has no session or track identifiers have run
    /// out.
    pub fn start_track(&mut self, g: u64, notify_channel: u64) -> (r: Option<(u64, bool)>)
        requires
            old(self).wf(),
        ensures
            final(self).wf(),
            !old(self)@.contains_key(g) || old(self).spec_next_track() == u64::MAX ==> {
                &&& r is None
                &&& final(self)@ == old(self)@
                &&& final(self).spec_next_track() == old(self).spec_next_track()
            },
            old(self)@.contains_key(g) && old(self).spec_next_track() < u64::MAX ==> {
                let s = old(self)@[g];
                let id = old(self).spec_next_track();
                &&& r == Some((id, s.track is Some))
                &&& final(self)@ == after_start(old(self)@, g, id, notify_channel)
                &&& final(self).spec_next_track() == id + 1
            },
    {
        if self.next_track == u64::MAX {
            return None;
        }
        match self.find(g) {
            Some(i) => {
                proof { lemma_entry(self.sessions@, i as int); }
                let id = self.next_track;
                let mut s = self.sessions[i];
                let replaced = s.start_track(id, notify_channel);
                self.next_track = id + 1;
                assert(self@ == old(self)@);
                self.replace_at(i, s);
                Some((id, replaced))
            },
            None => None,
        }
    }

    /// The track `id` of the guild's session has ended. When it is that
    /// session's current track, the session goes back to idle and the channel
    /// to announce the completion to is handed back. Otherwise (no session,
    /// or a track that was replaced) nothing changes and `None` comes back.
    pub fn end_track(&mut self, g: u64, id: u64) -> (r: Option<u64>)
        requires
            old(self).wf(),
        ensures
            final(self).wf(),
            final(self).spec_next_track() == old(self).spec_next_track(),
            r == end_report(old(self)@, g, id),
            final(self)@ == after_end(old(self)@, g, id),
    {
        match self.find(g) {
            Some(i) => {
                proof { lemma_entry(self.sessions@, i as int); }
                let mut s = self.sessions[i];
                let r = s.end_track(id);
                if r.is_some() {
                    self.replace_at(i, s);
                }
                r
            },
            None => None,
        }
    }

    /// Sets the volume of the track playing in the guild, clamped to
    /// `0..=100`, and hands back the volume now in effect; `None`, with
    /// nothing changed, when the guild has no session or no track.
    pub fn set_volume(&mut self, g: u64, percent: i64) -> (r: Option<u8>)
        requires
            old(self).wf(),
        ensures
            final(self).wf(),
            final(self).spec_next_track() == old(self).spec_next_track(),
            match old(self).lookup(g) {
                Some(s) if s.track is Some => {
                    let v = crate::track::clamped(percent as int) as u8;
                    &&& r == Some(v)
                    &&& final(self)@ == old(self)@.insert(g, VoiceSession {
                        track: Some(TrackController { volume: v, ..s.track->Some_0 }),
                        ..s
                    })
                },
                _ => r is None && final(self)@ == old(self)@,
            },
    {
        match self.find(g) {
            Some(i) => {
                proof { lemma_entry(self.sessions@, i as int); }
                let mut s = self.sessions[i];
                let r = s.set_volume(percent);
                if r.is_some() {
                    self.replace_at(i, s);
                }
                r
            },
            None => None,
        }
    }
}

} // verus!
