//! The request-facing authentication protocol: classify the route,
//! extract the bearer credential, resolve it to a session and, when the
//! session is bound, to a user. A strict linear decision tree with two
//! rejecting and three accepting terminal states.

use vstd::prelude::*;
use crate::errors::DataError;
use crate::id::IdGen;
use crate::session::{Session, opt_view, session_at, session_key};
use crate::id::ID_LEN;
use crate::store::{EntityStore, Index};
use crate::text::{spec_starts_with, starts_with, str_eq};
use crate::user::{User, user_at};

verus! {

/// The injected route-classification table: path prefixes that
/// anonymous clients may reach with read-only requests.
pub struct RouteTable {
    pub prefixes: Vec<String>,
}

/// Some prefix of the table covers the path.
pub open spec fn route_allows(t: RouteTable, path: Seq<char>) -> bool {
    exists|i: int| 0 <= i < t.prefixes@.len() && spec_starts_with(path, t.prefixes@[i]@)
}

/// The request may proceed without a credential: an allowed prefix and
/// a read-only method.
pub open spec fn spec_public(t: RouteTable, path: Seq<char>, method: Seq<char>) -> bool {
    method == "GET"@ && route_allows(t, path)
}

/// The bearer credential carried by an authorization header value, if
/// any; a malformed header counts as no credential.
pub open spec fn spec_bearer(h: Option<Seq<char>>) -> Option<Seq<char>> {
    match h {
        Some(v) => if spec_starts_with(v, "Bearer "@) {
            Some(v.subrange("Bearer "@.len() as int, v.len() as int))
        } else {
            None
        },
        None => None,
    }
}

/// A request as the middleware sees it.
pub struct AuthRequest {
    pub path: String,
    pub method: String,
    pub authorization: Option<String>,
}

/// The credential a request carries, at spec level.
pub open spec fn spec_token(req: AuthRequest) -> Option<Seq<char>> {
    spec_bearer(opt_view(req.authorization))
}

/// How the middleware leaves a request: rejected, or accepted with the
/// identity context handed downstream. Only `AcceptedNewAnonymous`
/// mutates the outgoing response (the fresh session id is attached for
/// the client to adopt).
pub enum AuthOutcome {
    Unauthorized,
    AcceptedNewAnonymous { session: Session },
    AcceptedAnonymous { session: Session },
    AcceptedUser { session: Session, user: User },
}

/// First decision: what to do before touching the store.
pub enum CredentialCheck {
    CreateAnonymous,
    Reject,
    Resolve { token: String },
}

/// Second decision: what a resolution attempt means.
pub enum SessionCheck {
    Reject,
    Anonymous { session: Session },
    Bound { session: Session, user_id: String },
}

/// Third decision: what a user load means for a bound session.
pub enum UserCheck {
    Reject,
    Accept { session: Session, user: User },
}

/// Exec test of `spec_public`.
pub fn is_public(t: &RouteTable, path: &str, method: &str) -> (r: bool)
    ensures
        r == spec_public(*t, path@, method@),
{
    if !str_eq(method, "GET") {
        return false;
    }
    let n = t.prefixes.len();
    let mut i: usize = 0;
    while i < n
        invariant
            n == t.prefixes@.len(),
            i <= n,
            method@ == "GET"@,
            forall|j: int| 0 <= j < i ==> !spec_starts_with(path@, t.prefixes@[j]@),
        decreases n - i,
    {
        if starts_with(path, t.prefixes[i].as_str()) {
            proof {
                assert(spec_starts_with(path@, t.prefixes@[i as int]@));
            }
            return true;
        }
        i += 1;
    }
    false
}

/// Exec extraction of the bearer credential.
pub fn bearer_token(h: Option<&String>) -> (r: Option<String>)
    ensures
        match r {
            Some(t) => spec_bearer(
                match h {
                    Some(v) => Some(v@),
                    None => None,
                },
            ) == Some(t@),
            None => spec_bearer(
                match h {
                    Some(v) => Some(v@),
                    None => None,
                },
            ) is None,
        },
{
    match h {
        None => None,
        Some(v) => {
            if starts_with(v.as_str(), "Bearer ") {
                proof {
                    reveal_strlit("Bearer ");
                }
                let len = v.as_str().unicode_len();
                Some(String::from_str(v.as_str().substring_char(7, len)))
            } else {
                None
            }
        },
    }
}

/// Classify a request: no credential on a public route mints an
/// anonymous session; no credential elsewhere rejects; a credential is
/// resolved.
pub fn classify_request(routes: &RouteTable, req: &AuthRequest) -> (r: CredentialCheck)
    ensures
        match r {
            CredentialCheck::CreateAnonymous => spec_token(*req) is None && spec_public(
                *routes,
                req.path@,
                req.method@,
            ),
            CredentialCheck::Reject => spec_token(*req) is None && !spec_public(
                *routes,
                req.path@,
                req.method@,
            ),
            CredentialCheck::Resolve { token } => spec_token(*req) == Some(token@),
        },
{
    let tok = bearer_token(
        match &req.authorization {
            Some(v) => Some(v),
            None => None,
        },
    );
    match tok {
        Some(token) => CredentialCheck::Resolve { token },
        None => {
            if is_public(routes, req.path.as_str(), req.method.as_str()) {
                CredentialCheck::CreateAnonymous
            } else {
                CredentialCheck::Reject
            }
        },
    }
}

/// Interpret a resolution attempt: any failure rejects; a session with
/// no bound user is a valid anonymous session; a bound session still
/// needs its user.
pub fn check_session(resolved: Result<Session, DataError>) -> (r: SessionCheck)
    ensures
        match r {
            SessionCheck::Reject => resolved is Err,
            SessionCheck::Anonymous { session } => (resolved matches Ok(s) && s@ == session@)
                && session@.user_id is None,
            SessionCheck::Bound { session, user_id } => (resolved matches Ok(s) && s@ == session@)
                && session@.user_id == Some(user_id@),
        },
{
    match resolved {
        Err(_) => SessionCheck::Reject,
        Ok(s) => {
            let user_id = match &s.user_id {
                Some(u) => Some(u.clone()),
                None => None,
            };
            match user_id {
                Some(user_id) => SessionCheck::Bound { session: s, user_id },
                None => SessionCheck::Anonymous { session: s },
            }
        },
    }
}

/// Interpret a user load for a bound session: a vanished user rejects
/// (the session record has drifted from the user store).
pub fn check_user(session: Session, loaded: Result<User, DataError>) -> (r: UserCheck)
    ensures
        match r {
            UserCheck::Reject => loaded is Err,
            UserCheck::Accept { session: s, user } => s@ == session@ && (loaded matches Ok(u) && u@
                == user@),
        },
{
    match loaded {
        Err(_) => UserCheck::Reject,
        Ok(user) => UserCheck::Accept { session, user },
    }
}

/// The middleware's whole decision for one request, against the store.
///
/// No credential on a public read-only route mints a fresh anonymous
/// session, never seen before. No credential elsewhere rejects. A
/// credential that resolves to no stored session rejects. One that
/// resolves to an anonymous session accepts without touching the store.
/// One bound to a stored user accepts with exactly that session and
/// user as the downstream identity; one bound to a vanished user
/// rejects.
pub fn auth(store: &mut EntityStore, ids: &mut IdGen, routes: &RouteTable, req: &AuthRequest) -> (r:
    AuthOutcome)
    requires
        old(ids).wf(),
        old(ids).counter < u64::MAX - 1,
    ensures
        final(ids).wf(),
        old(ids).issued@.subset_of(final(ids).issued@),
        (spec_token(*req) is None && spec_public(*routes, req.path@, req.method@)) ==> (r matches
            AuthOutcome::AcceptedNewAnonymous { session } && session@.user_id is None && session.id@.len()
            == ID_LEN && !old(ids).issued@.contains(session.id@) && final(ids).issued@.contains(session.id@) && session_at(final(store).kv(), session.id@) == Some(session@) && final(ids).counter == old(ids).counter + 2 && final(store).kv().dom() == old(store).kv().dom().insert(
            session_key(session.id@),
        ) && final(store).idx(Index::Gsi1) == old(store).idx(Index::Gsi1) && final(store).idx(
            Index::Gsi2,
        ) == old(store).idx(Index::Gsi2) && ((forall|sid: Seq<char>|
            old(store).kv().contains_key(session_key(sid)) ==> old(ids).issued@.contains(sid))
            ==> !old(store).kv().contains_key(session_key(session.id@))) && forall|k: Seq<char>|
            k != session_key(session.id@) && old(store).kv().contains_key(k) ==> final(store).kv()[k] == old(store).kv()[k]),
        (spec_token(*req) is None && !spec_public(*routes, req.path@, req.method@)) ==> (r
            == AuthOutcome::Unauthorized && final(store).kv() == old(store).kv() && final(store).idx(
            Index::Gsi1,
        ) == old(store).idx(Index::Gsi1) && final(store).idx(Index::Gsi2) == old(store).idx(
            Index::Gsi2,
        ) && final(ids).issued@ == old(ids).issued@ && final(ids).counter == old(ids).counter),
        (match spec_token(*req) {
            Some(t) => {
                final(store).kv() == old(store).kv() && final(store).idx(Index::Gsi1) == old(
                    store,
                ).idx(Index::Gsi1) && final(store).idx(Index::Gsi2) == old(store).idx(Index::Gsi2)
                    && final(ids).issued@ == old(ids).issued@
                    && final(ids).counter == old(ids).counter && (match session_at(old(store).kv(), t) {
                    None => r == AuthOutcome::Unauthorized,
                    Some(sess) => match sess.user_id {
                        None => r matches AuthOutcome::AcceptedAnonymous { session } && session@
                            == sess,
                        Some(uid) => match user_at(old(store).kv(), uid) {
                            None => r == AuthOutcome::Unauthorized,
                            Some(u) => r matches AuthOutcome::AcceptedUser { session, user }
                                && session@ == sess && user@ == u,
                        },
                    },
                })
            },
            None => true,
        }),
{
    match classify_request(routes, req) {
        CredentialCheck::Reject => AuthOutcome::Unauthorized,
        CredentialCheck::CreateAnonymous => {
            let session = Session::create(store, ids, None);
            AuthOutcome::AcceptedNewAnonymous { session }
        },
        CredentialCheck::Resolve { token } => {
            match check_session(Session::from_id(store, token.as_str())) {
                SessionCheck::Reject => AuthOutcome::Unauthorized,
                SessionCheck::Anonymous { session } => AuthOutcome::AcceptedAnonymous { session },
                SessionCheck::Bound { session, user_id } => {
                    match check_user(session, User::from_id(store, user_id.as_str())) {
                        UserCheck::Reject => AuthOutcome::Unauthorized,
                        UserCheck::Accept { session, user } => AuthOutcome::AcceptedUser {
                            session,
                            user,
                        },
                    }
                },
            }
        },
    }
}

} // verus!
