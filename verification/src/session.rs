//! The session record: immutable identity plus mutable game state,
//! with partial-update semantics.
//!
//! Position and rotation components are carried as raw 64-bit patterns;
//! the transport layer converts them to and from its numeric wire form.
//! The library never computes on them, only stores and returns them.

use vstd::prelude::*;

verus! {

/// One player's live connection state.
pub struct GameSession {
    pub id: u128,
    pub user_id: u128,
    pub session_token: Vec<u8>,
    pub player_x: u64,
    pub player_y: u64,
    pub player_z: u64,
    pub rotation_x: u64,
    pub rotation_y: u64,
    pub rotation_z: u64,
    pub health: i32,
    pub score: i32,
    pub level: i32,
    pub experience: i32,
    pub is_active: bool,
}

/// Mathematical value of a session record.
#[verifier::ext_equal]
pub ghost struct SessionView {
    pub id: u128,
    pub user_id: u128,
    pub session_token: Seq<u8>,
    pub player_x: u64,
    pub player_y: u64,
    pub player_z: u64,
    pub rotation_x: u64,
    pub rotation_y: u64,
    pub rotation_z: u64,
    pub health: i32,
    pub score: i32,
    pub level: i32,
    pub experience: i32,
    pub is_active: bool,
}

impl View for GameSession {
    type V = SessionView;

    open spec fn view(&self) -> SessionView {
        SessionView {
            id: self.id,
            user_id: self.user_id,
            session_token: self.session_token@,
            player_x: self.player_x,
            player_y: self.player_y,
            player_z: self.player_z,
            rotation_x: self.rotation_x,
            rotation_y: self.rotation_y,
            rotation_z: self.rotation_z,
            health: self.health,
            score: self.score,
            level: self.level,
            experience: self.experience,
            is_active: self.is_active,
        }
    }
}

/// A partial update: only the fields present are overwritten.
pub struct SessionUpdate {
    pub player_x: Option<u64>,
    pub player_y: Option<u64>,
    pub player_z: Option<u64>,
    pub rotation_x: Option<u64>,
    pub rotation_y: Option<u64>,
    pub rotation_z: Option<u64>,
    pub health: Option<i32>,
    pub score: Option<i32>,
    pub level: Option<i32>,
    pub experience: Option<i32>,
}

impl SessionUpdate {
    /// An update that carries no field at all.
    pub fn empty() -> (r: SessionUpdate)
        ensures
            r.player_x is None,
            r.player_y is None,
            r.player_z is None,
            r.rotation_x is None,
            r.rotation_y is None,
            r.rotation_z is None,
            r.health is None,
            r.score is None,
            r.level is None,
            r.experience is None,
    {
        SessionUpdate {
            player_x: None,
            player_y: None,
            player_z: None,
            rotation_x: None,
            rotation_y: None,
            rotation_z: None,
            health: None,
            score: None,
            level: None,
            experience: None,
        }
    }
}

/// The state a freshly created session starts in: zero position and
/// rotation, full health, first level, no score, no experience, active.
pub open spec fn spec_baseline(id: u128, user_id: u128, session_token: Seq<u8>) -> SessionView {
    SessionView {
        id,
        user_id,
        session_token,
        player_x: 0,
        player_y: 0,
        player_z: 0,
        rotation_x: 0,
        rotation_y: 0,
        rotation_z: 0,
        health: 100,
        score: 0,
        level: 1,
        experience: 0,
        is_active: true,
    }
}

/// The state after a partial update: each field the update carries is
/// overwritten, every other field keeps its prior value. Identity,
/// token and the active flag are never touched by an update.
pub open spec fn spec_apply(s: SessionView, u: SessionUpdate) -> SessionView {
    SessionView {
        id: s.id,
        user_id: s.user_id,
        session_token: s.session_token,
        player_x: if u.player_x is Some { u.player_x->0 } else { s.player_x },
        player_y: if u.player_y is Some { u.player_y->0 } else { s.player_y },
        player_z: if u.player_z is Some { u.player_z->0 } else { s.player_z },
        rotation_x: if u.rotation_x is Some { u.rotation_x->0 } else { s.rotation_x },
        rotation_y: if u.rotation_y is Some { u.rotation_y->0 } else { s.rotation_y },
        rotation_z: if u.rotation_z is Some { u.rotation_z->0 } else { s.rotation_z },
        health: if u.health is Some { u.health->0 } else { s.health },
        score: if u.score is Some { u.score->0 } else { s.score },
        level: if u.level is Some { u.level->0 } else { s.level },
        experience: if u.experience is Some { u.experience->0 } else { s.experience },
        is_active: s.is_active,
    }
}

/// Builds a session record in the baseline state.
pub fn new_session(id: u128, user_id: u128, session_token: Vec<u8>) -> (r: GameSession)
    ensures
        r@ == spec_baseline(id, user_id, session_token@),
{
    let r = GameSession {
        id,
        user_id,
        session_token,
        player_x: 0,
        player_y: 0,
        player_z: 0,
        rotation_x: 0,
        rotation_y: 0,
        rotation_z: 0,
        health: 100,
        score: 0,
        level: 1,
        experience: 0,
        is_active: true,
    };
    proof {
        assert(r@ =~= spec_baseline(id, user_id, r.session_token@));
    }
    r
}

/// Overwrites exactly the fields the update carries.
pub fn apply_update(s: &mut GameSession, u: &SessionUpdate)
    ensures
        final(s)@ == spec_apply(old(s)@, *u),
{
    if let Some(x) = u.player_x {
        s.player_x = x;
    }
    if let Some(y) = u.player_y {
        s.player_y = y;
    }
    if let Some(z) = u.player_z {
        s.player_z = z;
    }
    if let Some(rx) = u.rotation_x {
        s.rotation_x = rx;
    }
    if let Some(ry) = u.rotation_y {
        s.rotation_y = ry;
    }
    if let Some(rz) = u.rotation_z {
        s.rotation_z = rz;
    }
    if let Some(h) = u.health {
        s.health = h;
    }
    if let Some(sc) = u.score {
        s.score = sc;
    }
    if let Some(lv) = u.level {
        s.level = lv;
    }
    if let Some(e) = u.experience {
        s.experience = e;
    }
    proof {
        assert(s@ =~= spec_apply(old(s)@, *u));
    }
}

/// Returns a record equal in value to the given one.
pub fn clone_session(s: &GameSession) -> (r: GameSession)
    ensures
        r@ == s@,
{
    let token = clone_bytes(&s.session_token);
    let r = GameSession {
        id: s.id,
        user_id: s.user_id,
        session_token: token,
        player_x: s.player_x,
        player_y: s.player_y,
        player_z: s.player_z,
        rotation_x: s.rotation_x,
        rotation_y: s.rotation_y,
        rotation_z: s.rotation_z,
        health: s.health,
        score: s.score,
        level: s.level,
        experience: s.experience,
        is_active: s.is_active,
    };
    proof {
        assert(r@ =~= s@);
    }
    r
}

/// Returns a byte vector equal in value to the given one.
pub fn clone_bytes(b: &Vec<u8>) -> (r: Vec<u8>)
    ensures
        r@ == b@,
{
    let r = b.clone();
    proof {
        assert(r@ =~= b@);
    }
    r
}

/// Applying one partial update twice in sequence leaves the state the
/// single application gives, and every field the update does not carry
/// keeps the value it had before the first application.
pub proof fn lemma_update_idempotent(s: SessionView, u: SessionUpdate)
    ensures
        spec_apply(spec_apply(s, u), u) == spec_apply(s, u),
        u.player_x is None ==> spec_apply(s, u).player_x == s.player_x,
        u.player_y is None ==> spec_apply(s, u).player_y == s.player_y,
        u.player_z is None ==> spec_apply(s, u).player_z == s.player_z,
        u.rotation_x is None ==> spec_apply(s, u).rotation_x == s.rotation_x,
        u.rotation_y is None ==> spec_apply(s, u).rotation_y == s.rotation_y,
        u.rotation_z is None ==> spec_apply(s, u).rotation_z == s.rotation_z,
        u.health is None ==> spec_apply(s, u).health == s.health,
        u.score is None ==> spec_apply(s, u).score == s.score,
        u.level is None ==> spec_apply(s, u).level == s.level,
        u.experience is None ==> spec_apply(s, u).experience == s.experience,
        spec_apply(s, u).id == s.id,
        spec_apply(s, u).user_id == s.user_id,
        spec_apply(s, u).session_token == s.session_token,
        spec_apply(s, u).is_active == s.is_active,
{
    assert(spec_apply(spec_apply(s, u), u) =~= spec_apply(s, u));
}

/// A freshly created session is active, at full health, first level,
/// with no score, no experience, and zero position and rotation.
pub proof fn lemma_baseline_state(id: u128, user_id: u128, token: Seq<u8>)
    ensures
        spec_baseline(id, user_id, token).is_active == true,
        spec_baseline(id, user_id, token).health == 100,
        spec_baseline(id, user_id, token).level == 1,
        spec_baseline(id, user_id, token).score == 0,
        spec_baseline(id, user_id, token).experience == 0,
        spec_baseline(id, user_id, token).player_x == 0,
        spec_baseline(id, user_id, token).player_y == 0,
        spec_baseline(id, user_id, token).player_z == 0,
        spec_baseline(id, user_id, token).rotation_x == 0,
        spec_baseline(id, user_id, token).rotation_y == 0,
        spec_baseline(id, user_id, token).rotation_z == 0,
        spec_baseline(id, user_id, token).id == id,
        spec_baseline(id, user_id, token).user_id == user_id,
        spec_baseline(id, user_id, token).session_token == token,
{
}

} // verus!
