use authcore::auth::{auth, AuthOutcome, AuthRequest, RouteTable};
use authcore::id::IdGen;
use authcore::session::Session;
use authcore::store::EntityStore;
use authcore::user;
use authcore::user::User;

fn routes() -> RouteTable {
    RouteTable { prefixes: vec!["/datasets".to_string()] }
}

fn request(path: &str, method: &str, authorization: Option<String>) -> AuthRequest {
    AuthRequest { path: path.to_string(), method: method.to_string(), authorization }
}

#[test]
fn post_to_orgs_without_header_rejects() {
    let mut store = EntityStore::new();
    let mut ids = IdGen::new();
    let r = auth(&mut store, &mut ids, &routes(), &request("/orgs", "POST", None));
    assert!(matches!(r, AuthOutcome::Unauthorized));
}

#[test]
fn write_method_rejects_even_on_public_prefix() {
    let mut store = EntityStore::new();
    let mut ids = IdGen::new();
    let r = auth(&mut store, &mut ids, &routes(), &request("/datasets", "POST", None));
    assert!(matches!(r, AuthOutcome::Unauthorized));
    let r = auth(&mut store, &mut ids, &routes(), &request("/datasets", "DELETE", None));
    assert!(matches!(r, AuthOutcome::Unauthorized));
}

#[test]
fn get_datasets_without_header_mints_fresh_anonymous_sessions() {
    let mut store = EntityStore::new();
    let mut ids = IdGen::new();
    let first = match auth(&mut store, &mut ids, &routes(), &request("/datasets", "GET", None)) {
        AuthOutcome::AcceptedNewAnonymous { session } => session,
        _ => panic!("expected a new anonymous session"),
    };
    assert!(first.user_id.is_none());
    let second = match auth(&mut store, &mut ids, &routes(), &request("/datasets", "GET", None)) {
        AuthOutcome::AcceptedNewAnonymous { session } => session,
        _ => panic!("expected a new anonymous session"),
    };
    assert_ne!(first.id, second.id);
}

#[test]
fn anonymous_session_id_is_usable_again_without_new_header() {
    let mut store = EntityStore::new();
    let mut ids = IdGen::new();
    let minted = match auth(&mut store, &mut ids, &routes(), &request("/datasets", "GET", None)) {
        AuthOutcome::AcceptedNewAnonymous { session } => session,
        _ => panic!("expected a new anonymous session"),
    };
    let bearer = format!("Bearer {}", minted.id);
    let reused = match auth(
        &mut store,
        &mut ids,
        &routes(),
        &request("/datasets", "GET", Some(bearer)),
    ) {
        AuthOutcome::AcceptedAnonymous { session } => session,
        _ => panic!("expected the existing anonymous session to be accepted"),
    };
    assert_eq!(reused.id, minted.id);
}

#[test]
fn unresolvable_token_rejects() {
    let mut store = EntityStore::new();
    let mut ids = IdGen::new();
    let r = auth(
        &mut store,
        &mut ids,
        &routes(),
        &request("/datasets", "GET", Some("Bearer not-a-session".to_string())),
    );
    assert!(matches!(r, AuthOutcome::Unauthorized));
}

#[test]
fn malformed_header_counts_as_no_credential() {
    let mut store = EntityStore::new();
    let mut ids = IdGen::new();
    let r = auth(
        &mut store,
        &mut ids,
        &routes(),
        &request("/orgs", "GET", Some("Basic abc".to_string())),
    );
    assert!(matches!(r, AuthOutcome::Unauthorized));
    let r = auth(
        &mut store,
        &mut ids,
        &routes(),
        &request("/datasets", "GET", Some("Basic abc".to_string())),
    );
    assert!(matches!(r, AuthOutcome::AcceptedNewAnonymous { .. }));
}

#[test]
fn session_bound_to_vanished_user_rejects() {
    let mut store = EntityStore::new();
    let mut ids = IdGen::new();
    let session = Session::create(&mut store, &mut ids, Some("gone".to_string()));
    let r = auth(
        &mut store,
        &mut ids,
        &routes(),
        &request("/datasets", "GET", Some(format!("Bearer {}", session.id))),
    );
    assert!(matches!(r, AuthOutcome::Unauthorized));
}

#[test]
fn bound_session_of_existing_user_accepts_with_that_identity() {
    let mut store = EntityStore::new();
    let mut ids = IdGen::new();
    let input = user::Create {
        email: "a@b.c".to_string(),
        first_name: "Ada".to_string(),
        last_name: "L".to_string(),
        user_type: "standard".to_string(),
        hash: "h".to_string(),
    };
    let created = User::create(&mut store, &mut ids, &input);
    let session = Session::create(&mut store, &mut ids, Some(created.id.clone()));
    match auth(
        &mut store,
        &mut ids,
        &routes(),
        &request("/anything", "POST", Some(format!("Bearer {}", session.id))),
    ) {
        AuthOutcome::AcceptedUser { session: s, user } => {
            assert_eq!(s.id, session.id);
            assert_eq!(user.id, created.id);
            assert_eq!(user.email, "a@b.c");
            assert_eq!(user.first_name, "Ada");
        },
        _ => panic!("expected an authenticated acceptance"),
    }
}
