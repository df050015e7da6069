//! The session store: the authoritative collection of all session
//! records, keyed by identifier.
//!
//! Identifiers are drawn at random on creation; the store refuses to
//! insert a record under an identifier it already holds, so every record
//! it ever holds carries a distinct identifier. Records are never
//! deleted, and nothing ever clears the active flag, so the store's
//! length is the number of successful creations.

use vstd::prelude::*;
use crate::session::{
    GameSession, SessionView, SessionUpdate, spec_baseline, spec_apply, new_session, apply_update,
    clone_session,
};
use crate::ids::{is_canonical_id, id_value, parse_session_id, format_session_id};

verus! {

/// Relies on uuid::Uuid::new_v4 and Uuid::as_u128: a freshly drawn
/// random 128-bit identifier, with the version nibble set to 4 and the
/// RFC 4122 variant bits set; nothing else holds of its value.
#[verifier::external_body]
fn fresh_id() -> (r: u128)
    ensures
        (r >> 76) & 0xf == 4,
        (r >> 62) & 0x3 == 2,
{
    uuid::Uuid::new_v4().as_u128()
}

/// Whether some record in the sequence carries the identifier.
pub open spec fn seq_contains_id(s: Seq<SessionView>, id: u128) -> bool {
    exists|i: int| 0 <= i < s.len() && s[i].id == id
}

/// The collection of all session records.
pub struct SessionStore {
    sessions: Vec<GameSession>,
}

impl View for SessionStore {
    type V = Seq<SessionView>;

    closed spec fn view(&self) -> Seq<SessionView> {
        self.sessions@.map_values(|s: GameSession| s@)
    }
}

impl SessionStore {
    /// Well-formedness: identifiers are pairwise distinct, and every
    /// record is active (nothing ever deactivates one).
    pub open spec fn wf(self) -> bool {
        &&& forall|i: int, j: int|
            #![trigger self@[i].id, self@[j].id]
            0 <= i < j < self@.len() ==> self@[i].id != self@[j].id
        &&& forall|i: int| 0 <= i < self@.len() ==> (#[trigger] self@[i]).is_active
    }

    /// Whether the store holds a record under the identifier.
    pub open spec fn contains_id(self, id: u128) -> bool {
        seq_contains_id(self@, id)
    }

    /// Position of the record carrying the identifier.
    pub open spec fn idx_of(self, id: u128) -> int {
        choose|i: int| 0 <= i < self@.len() && self@[i].id == id
    }

    /// The record stored under the identifier, if any.
    pub open spec fn spec_get(self, id: u128) -> Option<SessionView> {
        if self.contains_id(id) {
            Some(self@[self.idx_of(id)])
        } else {
            None
        }
    }

    /// The record stored under the identifier, provided it is active;
    /// an inactive record reads as absent.
    pub open spec fn spec_active_get(self, id: u128) -> Option<SessionView> {
        match self.spec_get(id) {
            Some(v) => if v.is_active {
                Some(v)
            } else {
                None
            },
            None => None,
        }
    }

    /// An empty store.
    pub fn new() -> (r: SessionStore)
        ensures
            r@ == Seq::<SessionView>::empty(),
            r.wf(),
    {
        let r = SessionStore { sessions: Vec::new() };
        proof {
            assert(r@ =~= Seq::<SessionView>::empty());
        }
        r
    }

    /// Number of records ever created.
    pub fn len(&self) -> (r: usize)
        ensures
            r == self@.len(),
    {
        self.sessions.len()
    }

    /// Whether a record exists under the identifier.
    pub fn has_id(&self, id: u128) -> (r: bool)
        ensures
            r == self.contains_id(id),
    {
        let mut i: usize = 0;
        while i < self.sessions.len()
            invariant
                0 <= i <= self.sessions.len(),
                self@.len() == self.sessions@.len(),
                forall|j: int| 0 <= j < i ==> (#[trigger] self@[j]).id != id,
                forall|j: int| 0 <= j < self@.len() ==> self@[j] == self.sessions@[j]@,
            decreases self.sessions.len() - i,
        {
            if self.sessions[i].id == id {
                assert(self@[i as int].id == id);
                return true;
            }
            i += 1;
        }
        false
    }

    /// Looks up an active record and returns a copy of it. An unknown
    /// identifier, like an inactive record, yields nothing.
    pub fn get(&self, id: u128) -> (r: Option<GameSession>)
        requires
            self.wf(),
        ensures
            match self.spec_active_get(id) {
                Some(v) => r matches Some(s) && s@ == v,
                None => r is None,
            },
    {
        let mut i: usize = 0;
        while i < self.sessions.len()
            invariant
                0 <= i <= self.sessions.len(),
                self.wf(),
                self@.len() == self.sessions@.len(),
                forall|j: int| 0 <= j < i ==> (#[trigger] self@[j]).id != id,
                forall|j: int| 0 <= j < self@.len() ==> self@[j] == self.sessions@[j]@,
            decreases self.sessions.len() - i,
        {
            if self.sessions[i].id == id {
                proof {
                    assert(self@[i as int].id == id);
                    let j = self.idx_of(id);
                    assert(0 <= j < self@.len() && self@[j].id == id);
                    assert(j == i as int);
                }
                if self.sessions[i].is_active {
                    return Some(clone_session(&self.sessions[i]));
                } else {
                    return None;
                }
            }
            i += 1;
        }
        None
    }

    /// Inserts a record in the baseline state under the given
    /// identifier, unless that identifier is already taken; reports
    /// which by returning a copy of the new record or nothing.
    pub fn insert_new(&mut self, id: u128, user_id: u128, session_token: Vec<u8>) -> (r: Option<
        GameSession,
    >)
        requires
            old(self).wf(),
        ensures
            final(self).wf(),
            old(self).contains_id(id) ==> r is None && final(self)@ == old(self)@,
            !old(self).contains_id(id) ==> (r matches Some(s) && s@ == spec_baseline(
                id,
                user_id,
                session_token@,
            ) && final(self)@ == old(self)@.push(spec_baseline(id, user_id, session_token@))),
    {
        if self.has_id(id) {
            return None;
        }
        let s = new_session(id, user_id, session_token);
        let out = clone_session(&s);
        let ghost pre = self@;
        self.sessions.push(s);
        proof {
            assert(self@ =~= pre.push(out@));
            assert forall|i: int| 0 <= i < pre.len() implies (#[trigger] self@[i]) == pre[i] by {}
        }
        Some(out)
    }

    /// Creates a session for the user: draws a fresh random identifier
    /// and inserts a record in the baseline state under it. Yields
    /// nothing only if the drawn identifier was already taken, in which
    /// case the store is unchanged; on an empty store creation always
    /// succeeds.
    pub fn create(&mut self, user_id: u128, session_token: Vec<u8>) -> (r: Option<GameSession>)
        requires
            old(self).wf(),
        ensures
            final(self).wf(),
            r is None ==> final(self)@ == old(self)@ && old(self)@.len() > 0,
            r matches Some(s) ==> s@ == spec_baseline(s@.id, user_id, session_token@)
                && !old(self).contains_id(s@.id) && final(self)@ == old(self)@.push(s@),
    {
        let id = fresh_id();
        let r = self.insert_new(id, user_id, session_token);
        proof {
            if r is Some {
                assert(r->0@ =~= spec_baseline(r->0@.id, user_id, session_token@));
            }
        }
        r
    }

    /// Creates a session for the user with a freshly drawn random token
    /// in canonical identifier text form, as issued to plain creation
    /// requests. On an empty store creation always succeeds.
    pub fn create_with_generated_token(&mut self, user_id: u128) -> (r: Option<GameSession>)
        requires
            old(self).wf(),
        ensures
            final(self).wf(),
            r is None ==> final(self)@ == old(self)@ && old(self)@.len() > 0,
            r matches Some(s) ==> s@ == spec_baseline(s@.id, user_id, s@.session_token)
                && is_canonical_id(s@.session_token) && !old(self).contains_id(s@.id)
                && final(self)@ == old(self)@.push(s@),
    {
        let token_id = fresh_id();
        let token = format_session_id(token_id);
        let r = self.create(user_id, token);
        proof {
            if r is Some {
                assert(r->0@ =~= spec_baseline(r->0@.id, user_id, r->0@.session_token));
            }
        }
        r
    }

    /// Creates a session from an authentication payload: the caller's
    /// token becomes the session token, and the caller-supplied user
    /// identifier is used when well formed; a malformed one is replaced
    /// by a freshly drawn identifier, which carries the random draw's
    /// version and variant marks. On an empty store creation always
    /// succeeds.
    pub fn create_from_auth(&mut self, raw_user_id: &[u8], game_token: Vec<u8>) -> (r: Option<
        GameSession,
    >)
        requires
            old(self).wf(),
        ensures
            final(self).wf(),
            r is None ==> final(self)@ == old(self)@ && old(self)@.len() > 0,
            r matches Some(s) ==> s@ == spec_baseline(s@.id, s@.user_id, game_token@) && (
            is_canonical_id(raw_user_id@) ==> s@.user_id == id_value(raw_user_id@) as u128) && (
            !is_canonical_id(raw_user_id@) ==> ((s@.user_id >> 76) & 0xf == 4 && (s@.user_id >> 62)
                & 0x3 == 2)) && !old(self).contains_id(s@.id) && final(self)@ == old(self)@.push(
                s@,
            ),
    {
        let user_id: u128 = match parse_session_id(raw_user_id) {
            Some(u) => u,
            None => fresh_id(),
        };
        let r = self.create(user_id, game_token);
        proof {
            if r is Some {
                assert(r->0@ =~= spec_baseline(r->0@.id, r->0@.user_id, game_token@));
            }
        }
        r
    }

    /// Applies a partial update to the active record under the
    /// identifier and returns a copy of the updated record. An unknown
    /// identifier, like an inactive record, yields nothing and leaves
    /// the store unchanged.
    pub fn update(&mut self, id: u128, u: &SessionUpdate) -> (r: Option<GameSession>)
        requires
            old(self).wf(),
        ensures
            final(self).wf(),
            match old(self).spec_active_get(id) {
                Some(v) => r matches Some(s) && s@ == spec_apply(v, *u) && final(self)@ == old(
                    self,
                )@.update(old(self).idx_of(id), spec_apply(v, *u)),
                None => r is None && final(self)@ == old(self)@,
            },
    {
        let ghost pre = self@;
        let mut i: usize = 0;
        while i < self.sessions.len()
            invariant
                0 <= i <= self.sessions.len(),
                self.wf(),
                old(self).wf(),
                self@ == pre,
                old(self)@ == pre,
                self@.len() == self.sessions@.len(),
                forall|j: int| 0 <= j < i ==> (#[trigger] self@[j]).id != id,
                forall|j: int| 0 <= j < self@.len() ==> self@[j] == self.sessions@[j]@,
            decreases self.sessions.len() - i,
        {
            if self.sessions[i].id == id {
                proof {
                    assert(old(self)@ == pre);
                    assert(old(self)@[i as int].id == id);
                    let j = old(self).idx_of(id);
                    assert(0 <= j < old(self)@.len() && old(self)@[j].id == id);
                    assert(j == i as int);
                }
                if !self.sessions[i].is_active {
                    return None;
                }
                let mut s = clone_session(&self.sessions[i]);
                apply_update(&mut s, u);
                let out = clone_session(&s);
                let ghost applied = s@;
                self.sessions[i] = s;
                proof {
                    assert(self@ =~= pre.update(i as int, applied));
                    assert forall|a: int, b: int|
                        #![trigger self@[a].id, self@[b].id]
                        0 <= a < b < self@.len() implies self@[a].id != self@[b].id by {
                        assert(pre[a].id != pre[b].id);
                        assert(self@[a].id == pre[a].id);
                        assert(self@[b].id == pre[b].id);
                    }
                    assert forall|a: int| 0 <= a < self@.len() implies (
                    #[trigger] self@[a]).is_active by {
                        assert(pre[a].is_active);
                    }
                }
                return Some(out);
            }
            i += 1;
        }
        None
    }

    /// Returns a copy of every active record, in storage order. With the
    /// store well formed every record is active, so the roster is as
    /// long as the store itself: one entry per successful creation.
    pub fn list_active(&self) -> (r: Vec<GameSession>)
        requires
            self.wf(),
        ensures
            r@.len() == self@.len(),
            forall|i: int| 0 <= i < r@.len() ==> (#[trigger] r@[i])@ == self@[i],
    {
        let mut out: Vec<GameSession> = Vec::new();
        let mut i: usize = 0;
        while i < self.sessions.len()
            invariant
                0 <= i <= self.sessions.len(),
                self.wf(),
                self@.len() == self.sessions@.len(),
                out@.len() == i as int,
                forall|j: int| 0 <= j < i ==> (#[trigger] out@[j])@ == self@[j],
                forall|j: int| 0 <= j < self@.len() ==> self@[j] == self.sessions@[j]@,
            decreases self.sessions.len() - i,
        {
            if self.sessions[i].is_active {
                out.push(clone_session(&self.sessions[i]));
            } else {
                proof {
                    assert(self@[i as int].is_active);
                }
            }
            i += 1;
        }
        out
    }
}

/// Number of active records in a sequence of session records.
pub open spec fn count_active(s: Seq<SessionView>) -> int
    decreases s.len(),
{
    if s.len() == 0 {
        0
    } else {
        count_active(s.drop_last()) + if s.last().is_active {
            1int
        } else {
            0int
        }
    }
}

/// The active roster counts every creation: in a well-formed store no
/// record was ever deactivated or deleted, so the number of active
/// records equals the store's whole length, which grows by exactly one
/// at each successful creation.
pub proof fn lemma_active_count_is_len(store: SessionStore)
    requires
        store.wf(),
    ensures
        count_active(store@) == store@.len(),
{
    lemma_count_active_all(store@);
}

proof fn lemma_count_active_all(s: Seq<SessionView>)
    requires
        forall|i: int| 0 <= i < s.len() ==> (#[trigger] s[i]).is_active,
    ensures
        count_active(s) == s.len(),
    decreases s.len(),
{
    if s.len() > 0 {
        lemma_count_active_all(s.drop_last());
    }
}

/// In a well-formed store any two different records carry different
/// identifiers: no creation ever reuses an identifier.
pub proof fn lemma_ids_distinct(store: SessionStore, i: int, j: int)
    requires
        store.wf(),
        0 <= i < store@.len(),
        0 <= j < store@.len(),
        i != j,
    ensures
        store@[i].id != store@[j].id,
{
}

/// Two successive successful creations yield records with distinct
/// identifiers and grow the store by exactly two: no creation is lost
/// and none overwrites another.
pub proof fn lemma_two_creations_distinct(s0: Seq<SessionView>, a: SessionView, b: SessionView)
    requires
        !seq_contains_id(s0, a.id),
        !seq_contains_id(s0.push(a), b.id),
    ensures
        a.id != b.id,
        s0.push(a).push(b).len() == s0.len() + 2,
{
    assert(s0.push(a)[s0.len() as int] == a);
}

} // verus!
