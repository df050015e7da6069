//! The request router: a pure mapping from method and path to the store
//! operation a request asks for, and the handlers that carry the chosen
//! operation out against a store.
//!
//! A malformed identifier in the path is told apart from a well-formed
//! identifier that no active session carries: the first is the caller's
//! error, the second a missing resource.

use vstd::prelude::*;
use vstd::slice::slice_subrange;
use crate::ids::{is_canonical_id, id_value, parse_session_id};
use crate::session::{GameSession, SessionUpdate, spec_apply};
use crate::store::SessionStore;

verus! {

/// The request methods the router tells apart.
#[derive(Clone, Copy)]
pub enum HttpMethod {
    Get,
    Post,
    Put,
    Delete,
    Options,
    Other,
}

/// What a request asks for.
pub enum Route {
    /// The landing page.
    Landing,
    /// Liveness report.
    Health,
    /// Service status report.
    ApiStatus,
    /// The roster of active sessions.
    Players,
    /// Create a session from a plain creation request.
    CreateSession,
    /// Create a session from an authentication payload.
    AuthCreateSession,
    /// Read the session with this identifier.
    GetSession(u128),
    /// Apply a partial update to the session with this identifier.
    UpdateSession(u128),
    /// A session path whose identifier segment is malformed.
    InvalidSessionId,
    /// Preflight request: answered with the permissive headers alone.
    Preflight,
    /// No route matches.
    NotFound,
}

/// The path `/` as bytes.
pub open spec fn path_root() -> Seq<u8> {
    seq![47u8]
}

/// The path `/health` as bytes.
pub open spec fn path_health() -> Seq<u8> {
    seq![47u8, 104u8, 101u8, 97u8, 108u8, 116u8, 104u8]
}

/// The path `/api/status` as bytes.
pub open spec fn path_api_status() -> Seq<u8> {
    seq![47u8, 97u8, 112u8, 105u8, 47u8, 115u8, 116u8, 97u8, 116u8, 117u8, 115u8]
}

/// The path `/api/players` as bytes.
pub open spec fn path_api_players() -> Seq<u8> {
    seq![47u8, 97u8, 112u8, 105u8, 47u8, 112u8, 108u8, 97u8, 121u8, 101u8, 114u8, 115u8]
}

/// The path `/game/players` as bytes.
pub open spec fn path_game_players() -> Seq<u8> {
    seq![47u8, 103u8, 97u8, 109u8, 101u8, 47u8, 112u8, 108u8, 97u8, 121u8, 101u8, 114u8, 115u8]
}

/// The path `/game/session` as bytes.
pub open spec fn path_game_session() -> Seq<u8> {
    seq![47u8, 103u8, 97u8, 109u8, 101u8, 47u8, 115u8, 101u8, 115u8, 115u8, 105u8, 111u8, 110u8]
}

/// The path `/auth/create_session` as bytes.
pub open spec fn path_auth_create() -> Seq<u8> {
    seq![
        47u8, 97u8, 117u8, 116u8, 104u8, 47u8, 99u8, 114u8, 101u8, 97u8, 116u8, 101u8, 95u8,
        115u8, 101u8, 115u8, 115u8, 105u8, 111u8, 110u8,
    ]
}

/// The prefix `/game/session/` as bytes.
pub open spec fn path_session_prefix() -> Seq<u8> {
    seq![
        47u8, 103u8, 97u8, 109u8, 101u8, 47u8, 115u8, 101u8, 115u8, 115u8, 105u8, 111u8, 110u8,
        47u8,
    ]
}

/// The suffix `/update` as bytes.
pub open spec fn path_update_suffix() -> Seq<u8> {
    seq![47u8, 117u8, 112u8, 100u8, 97u8, 116u8, 101u8]
}

/// The routing table. Preflight requests match any path; exact paths
/// come before the session-identifier patterns; anything left is
/// unrouted.
pub open spec fn spec_route(m: HttpMethod, p: Seq<u8>) -> Route {
    if m is Options {
        Route::Preflight
    } else if m is Get && p == path_root() {
        Route::Landing
    } else if m is Get && p == path_health() {
        Route::Health
    } else if m is Get && p == path_api_status() {
        Route::ApiStatus
    } else if m is Get && (p == path_game_players() || p == path_api_players()) {
        Route::Players
    } else if m is Post && p == path_game_session() {
        Route::CreateSession
    } else if m is Post && p == path_auth_create() {
        Route::AuthCreateSession
    } else if m is Get && p.len() >= 14 && p.subrange(0, 14) == path_session_prefix() {
        if is_canonical_id(p.subrange(14, p.len() as int)) {
            Route::GetSession(id_value(p.subrange(14, p.len() as int)) as u128)
        } else {
            Route::InvalidSessionId
        }
    } else if m is Put && p.len() >= 21 && p.subrange(0, 14) == path_session_prefix()
        && p.subrange(p.len() - 7, p.len() as int) == path_update_suffix() {
        if is_canonical_id(p.subrange(14, p.len() - 7)) {
            Route::UpdateSession(id_value(p.subrange(14, p.len() - 7)) as u128)
        } else {
            Route::InvalidSessionId
        }
    } else {
        Route::NotFound
    }
}

/// Whether two byte strings hold the same bytes.
pub fn bytes_eq(a: &[u8], b: &[u8]) -> (r: bool)
    ensures
        r == (a@ == b@),
{
    if a.len() != b.len() {
        return false;
    }
    let mut i: usize = 0;
    while i < a.len()
        invariant
            0 <= i <= a@.len(),
            a@.len() == b@.len(),
            forall|j: int| 0 <= j < i ==> a@[j] == b@[j],
        decreases a@.len() - i,
    {
        if a[i] != b[i] {
            return false;
        }
        i += 1;
    }
    proof {
        assert(a@ =~= b@);
    }
    true
}

fn route_get(path: &[u8]) -> (r: Route)
    ensures
        r == spec_route(HttpMethod::Get, path@),
{
    let root: [u8; 1] = [47];
    proof {
        assert(root@ =~= path_root());
    }
    if bytes_eq(path, root.as_slice()) {
        return Route::Landing;
    }
    let health: [u8; 7] = [47, 104, 101, 97, 108, 116, 104];
    proof {
        assert(health@ =~= path_health());
    }
    if bytes_eq(path, health.as_slice()) {
        return Route::Health;
    }
    let api_status: [u8; 11] = [47, 97, 112, 105, 47, 115, 116, 97, 116, 117, 115];
    proof {
        assert(api_status@ =~= path_api_status());
    }
    if bytes_eq(path, api_status.as_slice()) {
        return Route::ApiStatus;
    }
    let game_players: [u8; 13] = [47, 103, 97, 109, 101, 47, 112, 108, 97, 121, 101, 114, 115];
    proof {
        assert(game_players@ =~= path_game_players());
    }
    if bytes_eq(path, game_players.as_slice()) {
        return Route::Players;
    }
    let api_players: [u8; 12] = [47, 97, 112, 105, 47, 112, 108, 97, 121, 101, 114, 115];
    proof {
        assert(api_players@ =~= path_api_players());
    }
    if bytes_eq(path, api_players.as_slice()) {
        return Route::Players;
    }
    let prefix: [u8; 14] = [47, 103, 97, 109, 101, 47, 115, 101, 115, 115, 105, 111, 110, 47];
    proof {
        assert(prefix@ =~= path_session_prefix());
    }
    if path.len() >= 14 {
        let head = slice_subrange(path, 0, 14);
        if bytes_eq(head, prefix.as_slice()) {
            let idpart = slice_subrange(path, 14, path.len());
            return match parse_session_id(idpart) {
                Some(v) => Route::GetSession(v),
                None => Route::InvalidSessionId,
            };
        }
    }
    Route::NotFound
}

fn route_post(path: &[u8]) -> (r: Route)
    ensures
        r == spec_route(HttpMethod::Post, path@),
{
    let game_session: [u8; 13] = [47, 103, 97, 109, 101, 47, 115, 101, 115, 115, 105, 111, 110];
    proof {
        assert(game_session@ =~= path_game_session());
    }
    if bytes_eq(path, game_session.as_slice()) {
        return Route::CreateSession;
    }
    let auth_create: [u8; 20] = [
        47, 97, 117, 116, 104, 47, 99, 114, 101, 97, 116, 101, 95, 115, 101, 115, 115, 105, 111,
        110,
    ];
    proof {
        assert(auth_create@ =~= path_auth_create());
    }
    if bytes_eq(path, auth_create.as_slice()) {
        return Route::AuthCreateSession;
    }
    Route::NotFound
}

fn route_put(path: &[u8]) -> (r: Route)
    ensures
        r == spec_route(HttpMethod::Put, path@),
{
    let prefix: [u8; 14] = [47, 103, 97, 109, 101, 47, 115, 101, 115, 115, 105, 111, 110, 47];
    let suffix: [u8; 7] = [47, 117, 112, 100, 97, 116, 101];
    proof {
        assert(prefix@ =~= path_session_prefix());
        assert(suffix@ =~= path_update_suffix());
    }
    if path.len() >= 21 {
        let head = slice_subrange(path, 0, 14);
        let tail = slice_subrange(path, path.len() - 7, path.len());
        if bytes_eq(head, prefix.as_slice()) && bytes_eq(tail, suffix.as_slice()) {
            let mid = slice_subrange(path, 14, path.len() - 7);
            return match parse_session_id(mid) {
                Some(v) => Route::UpdateSession(v),
                None => Route::InvalidSessionId,
            };
        }
    }
    Route::NotFound
}

/// Maps a request's method and path to what it asks for.
pub fn route(m: HttpMethod, path: &[u8]) -> (r: Route)
    ensures
        r == spec_route(m, path@),
{
    match m {
        HttpMethod::Options => Route::Preflight,
        HttpMethod::Get => route_get(path),
        HttpMethod::Post => route_post(path),
        HttpMethod::Put => route_put(path),
        _ => Route::NotFound,
    }
}

/// What a read or update of a single session came to.
pub enum SessionOutcome {
    /// The active session, read or updated.
    Found(GameSession),
    /// The identifier is well formed but no active session carries it.
    NotFound,
    /// The identifier is malformed; the store was not consulted.
    InvalidId,
}

/// Reads the session named by a raw identifier segment. A malformed
/// segment is the caller's error; a well-formed one that names no
/// active session is a missing resource; neither ever fails any other
/// way.
pub fn get_session(store: &SessionStore, raw_id: &[u8]) -> (r: SessionOutcome)
    requires
        store.wf(),
    ensures
        !is_canonical_id(raw_id@) ==> r is InvalidId,
        is_canonical_id(raw_id@) ==> match store.spec_active_get(id_value(raw_id@) as u128) {
            Some(v) => r matches SessionOutcome::Found(s) && s@ == v,
            None => r is NotFound,
        },
{
    match parse_session_id(raw_id) {
        Some(id) => match store.get(id) {
            Some(s) => SessionOutcome::Found(s),
            None => SessionOutcome::NotFound,
        },
        None => SessionOutcome::InvalidId,
    }
}

/// Applies a partial update to the session named by a raw identifier
/// segment, returning the updated record. A malformed segment or an
/// unknown identifier leaves the store unchanged.
pub fn update_session(store: &mut SessionStore, raw_id: &[u8], u: &SessionUpdate) -> (r:
    SessionOutcome)
    requires
        old(store).wf(),
    ensures
        final(store).wf(),
        !is_canonical_id(raw_id@) ==> r is InvalidId && final(store)@ == old(store)@,
        is_canonical_id(raw_id@) ==> match old(store).spec_active_get(id_value(raw_id@) as u128) {
            Some(v) => r matches SessionOutcome::Found(s) && s@ == spec_apply(v, *u)
                && final(store)@ == old(store)@.update(
                old(store).idx_of(id_value(raw_id@) as u128),
                spec_apply(v, *u),
            ),
            None => r is NotFound && final(store)@ == old(store)@,
        },
{
    match parse_session_id(raw_id) {
        Some(id) => match store.update(id, u) {
            Some(s) => SessionOutcome::Found(s),
            None => SessionOutcome::NotFound,
        },
        None => SessionOutcome::InvalidId,
    }
}

/// The status code each outcome is reported with: a read or updated
/// session with the payload, a missing resource, or a client error.
pub fn outcome_status(r: &SessionOutcome) -> (code: u16)
    ensures
        r is Found ==> code == 200,
        r is NotFound ==> code == 404,
        r is InvalidId ==> code == 400,
{
    match r {
        SessionOutcome::Found(_) => 200,
        SessionOutcome::NotFound => 404,
        SessionOutcome::InvalidId => 400,
    }
}

} // verus!
