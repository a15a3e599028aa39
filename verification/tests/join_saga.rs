use trivia_arena::join::{JoinAction, JoinEvent, JoinSaga, JoinStage, SESSION_TTL_SECS};
use trivia_arena::messages::{JoinRequest, JoinResponse, RpcCode, RpcError};

const KNOWN_PASSWORD: &str = "correctbatteryhorsestapler";
const KNOWN_HASH: &str = "$2b$04$EGdrhbKUv8Oc9vGiXX0HQOxSg445d458Muh7DAHskb6QbtCvdxcie";

fn request(username: &str, password: &str) -> JoinRequest {
    JoinRequest { username: username.to_string(), password: password.to_string() }
}

fn reply(action: JoinAction) -> Result<JoinResponse, RpcError> {
    match action {
        JoinAction::Reply(r) => r,
        _ => panic!("expected a reply"),
    }
}

fn found(id: &str) -> JoinEvent {
    JoinEvent::UserFound { id: id.to_string(), password_hash: KNOWN_HASH.to_string() }
}

#[test]
fn start_looks_the_user_up() {
    let (saga, action) = JoinSaga::start(request("ana", "pw"));
    assert!(matches!(saga.stage, JoinStage::LookingUp));
    assert_eq!(saga.user_id, "");
    match action {
        JoinAction::LookupUser { username } => assert_eq!(username, "ana"),
        _ => panic!("expected a lookup"),
    }
}

#[test]
fn lookup_failure_is_an_internal_error() {
    let (saga, _) = JoinSaga::start(request("ana", "pw"));
    let (saga, action) = saga.advance(JoinEvent::LookupFailed);
    assert!(matches!(saga.stage, JoinStage::Finished));
    let err = reply(action).unwrap_err();
    assert_eq!(err.code, RpcCode::Internal);
    assert_eq!(err.message, "Error al consultar la base de datos");
}

#[test]
fn login_with_right_password_grants_access() {
    let (saga, _) = JoinSaga::start(request("ana", KNOWN_PASSWORD));
    let (saga, action) = saga.advance(found("id-42"));
    assert!(matches!(action, JoinAction::ConnectSessionStore));
    assert_eq!(saga.user_id, "id-42");
    let (saga, action) = saga.advance(JoinEvent::SessionStoreReached { ok: true });
    match action {
        JoinAction::StoreSession { key, username, ttl_secs } => {
            assert_eq!(key, "session:id-42");
            assert_eq!(username, "ana");
            assert_eq!(ttl_secs, 7200);
            assert_eq!(SESSION_TTL_SECS, 7200);
        }
        _ => panic!("expected the session to be stored"),
    }
    let (saga, action) = saga.advance(JoinEvent::SessionWritten { ok: true });
    assert!(matches!(saga.stage, JoinStage::Finished));
    let resp = reply(action).unwrap();
    assert!(resp.success);
    assert_eq!(resp.user_id, "id-42");
    assert_eq!(resp.message, "Acceso concedido. Esperando al moderador...");
}

#[test]
fn login_with_wrong_password_is_refused() {
    let (saga, _) = JoinSaga::start(request("ana", "wrong"));
    let (saga, action) = saga.advance(found("id-42"));
    assert!(matches!(saga.stage, JoinStage::Finished));
    let resp = reply(action).unwrap();
    assert!(!resp.success);
    assert_eq!(resp.user_id, "");
    assert_eq!(resp.message, "Contraseña incorrecta.");
}

#[test]
fn unparsable_stored_hash_is_refused_as_wrong_password() {
    let (saga, _) = JoinSaga::start(request("ana", KNOWN_PASSWORD));
    let (_, action) = saga.advance(JoinEvent::UserFound { id: "x".to_string(), password_hash: "not-a-hash".to_string() });
    let resp = reply(action).unwrap();
    assert!(!resp.success);
    assert_eq!(resp.message, "Contraseña incorrecta.");
}

#[test]
fn registration_inserts_a_hashed_password_under_a_fresh_id() {
    let (saga, _) = JoinSaga::start(request("bob", "hunter2"));
    let (saga, action) = saga.advance(JoinEvent::UserNotFound);
    assert!(matches!(saga.stage, JoinStage::Registering));
    let (id, username, password_hash) = match action {
        JoinAction::InsertUser { id, username, password_hash } => (id, username, password_hash),
        _ => panic!("expected an insert"),
    };
    assert_eq!(id.len(), 36);
    for (i, c) in id.chars().enumerate() {
        if [8, 13, 18, 23].contains(&i) {
            assert_eq!(c, '-');
        } else {
            assert!(c.is_ascii_digit() || ('a'..='f').contains(&c));
        }
    }
    assert_eq!(id.as_bytes()[14], b'4');
    assert!([b'8', b'9', b'a', b'b'].contains(&id.as_bytes()[19]));
    assert_eq!(id, saga.user_id);
    assert!(saga.registered);
    assert_eq!(password_hash.len(), 60);
    assert!(password_hash.starts_with("$2b$12$"));
    assert_eq!(username, "bob");
    assert_ne!(password_hash, "hunter2");
    assert!(bcrypt::verify("hunter2", &password_hash).unwrap());
    assert!(!bcrypt::verify("hunter3", &password_hash).unwrap());
    let (saga, action) = saga.advance(JoinEvent::InsertFinished { ok: true });
    assert!(matches!(action, JoinAction::ConnectSessionStore));
    let (saga, action) = saga.advance(JoinEvent::SessionStoreReached { ok: true });
    match action {
        JoinAction::StoreSession { key, .. } => assert_eq!(key, format!("session:{}", id)),
        _ => panic!("expected the session to be stored"),
    }
    let (_, action) = saga.advance(JoinEvent::SessionWritten { ok: true });
    let resp = reply(action).unwrap();
    assert!(resp.success);
    assert_eq!(resp.user_id, id);
}

#[test]
fn failed_insert_is_an_internal_error() {
    let (saga, _) = JoinSaga::start(request("bob", "hunter2"));
    let saga = JoinSaga { stage: JoinStage::Registering, user_id: "new-id".to_string(), registered: true, ..saga };
    let (saga, action) = saga.advance(JoinEvent::InsertFinished { ok: false });
    assert!(matches!(saga.stage, JoinStage::Finished));
    let err = reply(action).unwrap_err();
    assert_eq!(err.code, RpcCode::Internal);
    assert_eq!(err.message, "Error al registrar el nuevo usuario");
}

fn registering(username: &str, id: &str) -> JoinSaga {
    let (saga, _) = JoinSaga::start(request(username, "hunter2"));
    let (saga, _) = saga.register_with(id.to_string(), Ok(format!("$2b$12${}", "a".repeat(53))));
    saga
}

#[test]
fn register_with_inserts_the_given_id_and_hash() {
    let (saga, _) = JoinSaga::start(request("bob", "hunter2"));
    let (saga, action) = saga.register_with("id-new".to_string(), Ok("hash-value".to_string()));
    assert!(saga.registered);
    assert!(matches!(saga.stage, JoinStage::Registering));
    assert_eq!(saga.user_id, "id-new");
    match action {
        JoinAction::InsertUser { id, username, password_hash } => {
            assert_eq!(id, "id-new");
            assert_eq!(username, "bob");
            assert_eq!(password_hash, "hash-value");
        }
        _ => panic!("expected an insert"),
    }
}

#[test]
fn register_with_failed_hash_is_a_registration_error() {
    let (saga, _) = JoinSaga::start(request("bob", "hunter2"));
    let (saga, action) = saga.register_with("id-new".to_string(), Err(bcrypt::BcryptError::CostNotAllowed(3)));
    assert!(matches!(saga.stage, JoinStage::Finished));
    let err = reply(action).unwrap_err();
    assert_eq!(err.code, RpcCode::Internal);
    assert_eq!(err.message, "Error al registrar el nuevo usuario");
}

#[test]
fn login_with_unreachable_session_store_keeps_the_account() {
    let (saga, _) = JoinSaga::start(request("ana", KNOWN_PASSWORD));
    let (saga, _) = saga.advance(found("id-7"));
    assert!(!saga.registered);
    let (saga, action) = saga.advance(JoinEvent::SessionStoreReached { ok: false });
    assert!(matches!(saga.stage, JoinStage::Finished));
    let err = reply(action).unwrap_err();
    assert_eq!(err.code, RpcCode::Unavailable);
    assert_eq!(err.message, "Servicio de sesiones no disponible.");
}

#[test]
fn login_with_failed_session_write_keeps_the_account() {
    let (saga, _) = JoinSaga::start(request("ana", KNOWN_PASSWORD));
    let (saga, _) = saga.advance(found("id-9"));
    let (saga, _) = saga.advance(JoinEvent::SessionStoreReached { ok: true });
    let (saga, action) = saga.advance(JoinEvent::SessionWritten { ok: false });
    assert!(matches!(saga.stage, JoinStage::Finished));
    let resp = reply(action).unwrap();
    assert!(!resp.success);
    assert_eq!(resp.user_id, "");
    assert_eq!(resp.message, "Error interno al iniciar sesión.");
}

#[test]
fn unreachable_session_store_rolls_back_a_registration() {
    let saga = registering("bob", "id-7");
    let (saga, _) = saga.advance(JoinEvent::InsertFinished { ok: true });
    let (saga, action) = saga.advance(JoinEvent::SessionStoreReached { ok: false });
    match action {
        JoinAction::DeleteUnscoredUser { id } => assert_eq!(id, "id-7"),
        _ => panic!("expected the compensation"),
    }
    let (saga, action) = saga.advance(JoinEvent::CompensationDone);
    assert!(matches!(saga.stage, JoinStage::Finished));
    let err = reply(action).unwrap_err();
    assert_eq!(err.code, RpcCode::Unavailable);
    assert_eq!(err.message, "Servicio de sesiones no disponible.");
}

#[test]
fn failed_session_write_rolls_back_a_registration() {
    let saga = registering("bob", "id-9");
    let (saga, _) = saga.advance(JoinEvent::InsertFinished { ok: true });
    let (saga, _) = saga.advance(JoinEvent::SessionStoreReached { ok: true });
    let (saga, action) = saga.advance(JoinEvent::SessionWritten { ok: false });
    match action {
        JoinAction::DeleteUnscoredUser { id } => assert_eq!(id, "id-9"),
        _ => panic!("expected the compensation"),
    }
    let (_, action) = saga.advance(JoinEvent::CompensationDone);
    let resp = reply(action).unwrap();
    assert!(!resp.success);
    assert_eq!(resp.user_id, "");
    assert_eq!(resp.message, "Error interno al iniciar sesión.");
}
