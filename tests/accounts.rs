use rustfit::account::{account_with_session, AccountCtrlTrait};
use rustfit::account_session::AccountSessionCtrlTrait;
use rustfit::hasher::{
    hash_password, hash_password_with_salt, verdict_result, verify_password, Verdict,
};
use rustfit::{
    AccountController, AccountSessionController, AccountSessionCreate, AccountSessionDTO,
    ApiContext, Config, Error,
    LoginCredentials, NewAccount, Store, StoreTrait,
};

fn new_account(name: &str, email: &str, password: &str) -> NewAccount {
    NewAccount {
        name: name.to_string(),
        email: email.to_string(),
        password: password.to_string(),
    }
}

fn credentials(email: &str, password: &str) -> LoginCredentials {
    LoginCredentials {
        email: email.to_string(),
        password: password.to_string(),
    }
}

#[test]
fn hash_then_verify_round_trip() {
    let hash = hash_password("secret1").unwrap();
    assert_ne!(hash, "secret1");
    assert!(hash.starts_with("$argon2id$"));
    assert_eq!(verify_password("secret1", &hash), Ok(()));
}

#[test]
fn verify_rejects_hash_of_other_password() {
    let hash = hash_password("other").unwrap();
    assert_eq!(verify_password("secret1", &hash), Err(Error::Unauthorized));
}

#[test]
fn verify_reports_malformed_hash() {
    assert_eq!(verify_password("secret1", "not a hash"), Err(Error::MalformedHash));
    assert_eq!(verify_password("secret1", ""), Err(Error::MalformedHash));
}

#[test]
fn hashing_under_fixed_salt_is_deterministic() {
    let salt = "c2FsdHNhbHRzYWx0c2FsdA";
    let a = hash_password_with_salt("secret1", salt).unwrap();
    let b = hash_password_with_salt("secret1", salt).unwrap();
    assert_eq!(a, b);
    assert!(a.contains(salt));
    assert_eq!(verify_password("secret1", &a), Ok(()));
}

#[test]
fn hashing_with_invalid_salt_is_internal_error() {
    assert_eq!(hash_password_with_salt("secret1", "!!"), Err(Error::Internal));
}

#[test]
fn random_salts_differ() {
    let a = hash_password("secret1").unwrap();
    let b = hash_password("secret1").unwrap();
    assert_ne!(a, b);
}

#[test]
fn verdicts_map_to_errors() {
    assert_eq!(verdict_result(Verdict::Match), Ok(()));
    assert_eq!(verdict_result(Verdict::Mismatch), Err(Error::Unauthorized));
    assert_eq!(verdict_result(Verdict::Malformed), Err(Error::MalformedHash));
    assert_eq!(verdict_result(Verdict::Failed), Err(Error::Internal));
}

#[test]
fn error_status_codes() {
    assert_eq!(Error::Conflict.status_code(), 409);
    assert_eq!(Error::Unauthorized.status_code(), 401);
    assert_eq!(Error::NotFound.status_code(), 404);
    assert_eq!(Error::MalformedHash.status_code(), 500);
    assert_eq!(Error::Internal.status_code(), 500);
    assert!(Error::Conflict.is_client_error());
    assert!(!Error::MalformedHash.is_client_error());
    assert!(!Error::Internal.is_client_error());
}

#[test]
fn error_messages_hide_details() {
    assert_eq!(Error::Conflict.message(), "email already registered");
    assert_eq!(Error::Unauthorized.message(), "invalid email or password");
    assert_eq!(Error::NotFound.message(), "not found");
    assert_eq!(Error::MalformedHash.message(), "internal server error");
    assert_eq!(Error::Internal.message(), "internal server error");
}

#[test]
fn signup_with_fresh_email_succeeds() {
    let mut store = Store::new();
    let dto = store
        .account()
        .create_account(new_account("Ada", "ada@x.com", "secret1"))
        .unwrap();
    assert_eq!(dto.name, "Ada");
    assert_eq!(dto.email, "ada@x.com");
    assert_eq!(dto.inserted_at, dto.updated_at);
    let row = store
        .account()
        .get_account_by_email("ada@x.com".to_string())
        .unwrap();
    assert_eq!(row.id, dto.id);
    assert_ne!(row.password_hash, "secret1");
    assert_eq!(verify_password("secret1", &row.password_hash), Ok(()));
}

#[test]
fn signup_twice_with_same_email_conflicts() {
    let mut store = Store::new();
    let ctrl = store.account();
    assert!(ctrl.create_account(new_account("Ada", "ada@x.com", "secret1")).is_ok());
    assert_eq!(
        ctrl.create_account(new_account("Eve", "ada@x.com", "other")),
        Err(Error::Conflict)
    );
    assert_eq!(ctrl.len(), 1);
}

#[test]
fn signup_with_used_id_is_internal_error() {
    let mut ctrl = AccountController::new();
    let first = ctrl.create_account_with(new_account("Ada", "ada@x.com", "p"), 7, "h1".to_string(), 100);
    assert_eq!(first.unwrap().id, 7);
    assert_eq!(
        ctrl.create_account_with(new_account("Bob", "bob@x.com", "p"), 7, "h2".to_string(), 200),
        Err(Error::Internal)
    );
    assert_eq!(
        ctrl.create_account_with(new_account("Eve", "ada@x.com", "p"), 8, "h3".to_string(), 300),
        Err(Error::Conflict)
    );
    assert_eq!(ctrl.len(), 1);
}

#[test]
fn lookup_of_unknown_email_is_not_found() {
    let ctrl = AccountController::new();
    assert_eq!(ctrl.get_account_by_email("nobody@x.com".to_string()), Err(Error::NotFound));
}

#[test]
fn login_with_correct_password_issues_fresh_sessions() {
    let mut store = Store::new();
    let ctrl = store.account();
    let dto = ctrl.create_account(new_account("Ada", "ada@x.com", "secret1")).unwrap();
    let first = ctrl.login_account(credentials("ada@x.com", "secret1")).unwrap();
    let second = ctrl.login_account(credentials("ada@x.com", "secret1")).unwrap();
    assert_eq!(first.id, dto.id);
    assert_eq!(second.id, dto.id);
    assert_ne!(first.account_session_id, second.account_session_id);
    assert_eq!(store.account_session().len(), 2);
}

#[test]
fn wrong_password_and_unknown_email_fail_alike() {
    let mut store = Store::new();
    let ctrl = store.account();
    ctrl.create_account(new_account("Ada", "ada@x.com", "secret1")).unwrap();
    let wrong = ctrl.login_account(credentials("ada@x.com", "wrong"));
    let unknown = ctrl.login_account(credentials("bob@x.com", "secret1"));
    assert_eq!(wrong, Err(Error::Unauthorized));
    assert_eq!(unknown, Err(Error::Unauthorized));
    assert_eq!(store.account_session().len(), 0);
}

#[test]
fn login_with_malformed_stored_hash_is_not_unauthorized() {
    let mut ctrl = AccountController::new();
    ctrl.create_account_with(new_account("Ada", "ada@x.com", "p"), 1, "garbage".to_string(), 0)
        .unwrap();
    assert_eq!(
        ctrl.login_account_with(credentials("ada@x.com", "p"), 9, 10),
        Err(Error::MalformedHash)
    );
}

#[test]
fn session_expires_after_configured_lifetime() {
    let hash = hash_password("pw").unwrap();
    let mut ctrl = AccountController::with_session_lifetime(1_000);
    ctrl.create_account_with(new_account("Ada", "ada@x.com", "pw"), 1, hash, 5).unwrap();
    let joined = ctrl.login_account_with(credentials("ada@x.com", "pw"), 42, 500).unwrap();
    assert_eq!(joined.account_session_id, 42);
    assert_eq!(joined.inserted_at, 5);
    assert!(ctrl.account_sessions().contains_id(42));
    assert_eq!(
        ctrl.login_account_with(credentials("ada@x.com", "pw"), 42, 600),
        Err(Error::Internal)
    );
    assert_eq!(
        ctrl.login_account_with(credentials("ada@x.com", "pw"), 43, i128::MAX),
        Err(Error::Internal)
    );
    assert_eq!(ctrl.account_sessions().len(), 1);
}

#[test]
fn session_issuer_stamps_rows() {
    let mut sessions = AccountSessionController::new();
    let create = AccountSessionCreate { account_id: 3, expires_at: 90 };
    assert_eq!(sessions.create_account_session_with(create, 11, 80), Err(Error::NotFound));
    assert_eq!(sessions.create_account_session(create), Err(Error::NotFound));
    sessions.register_account(3);
    assert!(sessions.knows_account(3));
    let s = sessions.create_account_session_with(create, 11, 80).unwrap();
    assert_eq!(s.id, 11);
    assert_eq!(s.account_id, 3);
    assert_eq!(s.expires_at, 90);
    assert_eq!(s.active, 1);
    assert_eq!(s.inserted_at, 80);
    assert_eq!(s.updated_at, 80);
    assert_eq!(sessions.create_account_session_with(create, 11, 81), Err(Error::Internal));
    let t = sessions.create_account_session(create).unwrap();
    assert_ne!(t.id, 11);
    assert_eq!(sessions.len(), 2);
}

#[test]
fn signup_then_login_scenario() {
    let config = Config { database_url: "sqlite::memory:".to_string(), port: 8080 };
    let mut ctx = ApiContext::new(config, 0);
    let ctrl = ctx.store.account();
    let created = ctrl
        .create_account(new_account("Ada", "ada@x.com", "secret1"))
        .unwrap();
    assert_eq!(created.name, "Ada");
    assert_eq!(created.email, "ada@x.com");
    let joined = ctrl.login_account(credentials("ada@x.com", "secret1")).unwrap();
    assert_eq!(joined.id, created.id);
    assert_eq!(joined.name, "Ada");
    assert!(ctx.store.account_session().contains_id(joined.account_session_id));
    let ctrl = ctx.store.account();
    assert_eq!(
        ctrl.login_account(credentials("ada@x.com", "wrong")),
        Err(Error::Unauthorized)
    );
}

#[test]
fn hash_names_algorithm_parameters_and_salt() {
    let salt = "c2FsdHNhbHRzYWx0c2FsdA";
    let h = hash_password_with_salt("secret1", salt).unwrap();
    let prefix = format!("$argon2id$v=19$m=19456,t=2,p=1${}$", salt);
    assert!(h.starts_with(&prefix));
    assert!(h.len() > prefix.len());
}

#[test]
fn hashes_under_different_salts_differ() {
    let a = hash_password_with_salt("secret1", "c2FsdHNhbHRzYWx0c2FsdA").unwrap();
    let b = hash_password_with_salt("secret1", "b3RoZXJzYWx0b3RoZXJzYQ").unwrap();
    assert_ne!(a, b);
    assert_eq!(verify_password("secret1", &b), Ok(()));
}

#[test]
fn drawn_salt_has_twenty_two_characters() {
    let h = hash_password("pw").unwrap();
    let parts: Vec<&str> = h.split('$').collect();
    assert_eq!(parts.len(), 6);
    assert_eq!(parts[4].len(), 22);
}

#[test]
fn sessions_are_issued_only_for_stored_accounts() {
    let mut ctrl = AccountController::new();
    assert_eq!(ctrl.issue_account_session(5), Err(Error::NotFound));
    ctrl.create_account_with(new_account("Ada", "ada@x.com", "p"), 5, "h".to_string(), 0)
        .unwrap();
    let s = ctrl.issue_account_session(5).unwrap();
    assert_eq!(s.account_id, 5);
    assert_eq!(s.active, 1);
    assert_eq!(s.expires_at, s.inserted_at);
    assert_eq!(ctrl.issue_account_session_with(6, 99, 0), Err(Error::NotFound));
    assert_eq!(ctrl.account_sessions().len(), 1);
}

#[test]
fn restored_sessions_keep_their_fields() {
    let mut ctrl = AccountController::new();
    ctrl.create_account_with(new_account("Ada", "ada@x.com", "p"), 5, "h".to_string(), 0)
        .unwrap();
    let row = AccountSessionDTO {
        id: 77,
        account_id: 5,
        expires_at: 300,
        active: 0,
        inserted_at: 100,
        updated_at: 200,
    };
    assert_eq!(ctrl.restore_account_session(row), Ok(()));
    assert_eq!(ctrl.account_sessions().get_account_session(77), Some(row));
    assert_eq!(ctrl.restore_account_session(row), Err(Error::Internal));
    let orphan = AccountSessionDTO { id: 78, account_id: 6, ..row };
    assert_eq!(ctrl.restore_account_session(orphan), Err(Error::NotFound));
    assert_eq!(ctrl.account_sessions().get_account_session(78), None);
}

#[test]
fn session_table_inserts_rows_as_given() {
    let mut sessions = AccountSessionController::new();
    sessions.register_account(2);
    let row = AccountSessionDTO {
        id: 1,
        account_id: 2,
        expires_at: 3,
        active: 0,
        inserted_at: 4,
        updated_at: 5,
    };
    assert_eq!(sessions.insert_account_session(row), Ok(()));
    assert_eq!(sessions.insert_account_session(row), Err(Error::Internal));
    assert_eq!(sessions.get_account_session(1), Some(row));
    assert_eq!(sessions.len(), 1);
}

#[test]
fn login_lookup_hides_unknown_emails() {
    let mut ctrl = AccountController::new();
    assert_eq!(ctrl.login_lookup("ada@x.com".to_string()), Err(Error::Unauthorized));
    ctrl.create_account_with(new_account("Ada", "ada@x.com", "p"), 5, "h".to_string(), 9)
        .unwrap();
    let row = ctrl.login_lookup("ada@x.com".to_string()).unwrap();
    assert_eq!(row.id, 5);
    assert_eq!(row.password_hash, "h");
}

#[test]
fn create_with_hash_stores_the_given_hash() {
    let mut ctrl = AccountController::new();
    let dto = ctrl
        .create_account_with_hash(new_account("Ada", "ada@x.com", "p"), "stored".to_string())
        .unwrap();
    let row = ctrl.get_account_by_email("ada@x.com".to_string()).unwrap();
    assert_eq!(row.password_hash, "stored");
    assert_eq!(row.id, dto.id);
    assert_eq!(
        ctrl.create_account_with_hash(new_account("Eve", "ada@x.com", "q"), "x".to_string()),
        Err(Error::Conflict)
    );
}

#[test]
fn joined_view_takes_account_and_session() {
    let mut ctrl = AccountController::new();
    ctrl.create_account_with(new_account("Ada", "ada@x.com", "p"), 5, "h".to_string(), 9)
        .unwrap();
    let row = ctrl.get_account_by_email("ada@x.com".to_string()).unwrap();
    let s = ctrl.issue_account_session_with(5, 12, 20).unwrap();
    let j = account_with_session(&row, &s);
    assert_eq!(j.id, 5);
    assert_eq!(j.name, "Ada");
    assert_eq!(j.email, "ada@x.com");
    assert_eq!(j.account_session_id, 12);
    assert_eq!(j.inserted_at, 9);
    assert_eq!(j.updated_at, 9);
}

#[test]
fn accounts_without_sessions_can_be_removed() {
    let mut ctrl = AccountController::new();
    assert_eq!(ctrl.remove_account(5).map(|r| r.id), Err(Error::NotFound));
    ctrl.create_account_with(new_account("Ada", "ada@x.com", "p"), 5, "h".to_string(), 0)
        .unwrap();
    ctrl.create_account_with(new_account("Bob", "bob@x.com", "p"), 6, "h".to_string(), 0)
        .unwrap();
    ctrl.issue_account_session_with(6, 40, 1).unwrap();
    assert_eq!(ctrl.remove_account(6).map(|r| r.id), Err(Error::Conflict));
    let removed = ctrl.remove_account(5).unwrap();
    assert_eq!(removed.email, "ada@x.com");
    assert_eq!(ctrl.len(), 1);
    assert_eq!(ctrl.get_account_by_email("ada@x.com".to_string()), Err(Error::NotFound));
    assert!(ctrl
        .create_account_with(new_account("Ada", "ada@x.com", "p"), 5, "h".to_string(), 2)
        .is_ok());
}

#[test]
fn store_issuer_writes_into_the_store() {
    let mut store = Store::new();
    let create = AccountSessionCreate { account_id: 1, expires_at: 0 };
    assert_eq!(store.account_session().create_account_session(create), Err(Error::NotFound));
    let dto = store
        .account()
        .create_account_with(new_account("Ada", "ada@x.com", "p"), 1, "h".to_string(), 0)
        .unwrap();
    let s = store
        .account_session()
        .create_account_session(AccountSessionCreate { account_id: dto.id, expires_at: 7 })
        .unwrap();
    assert_eq!(s.expires_at, 7);
    assert!(store.account().account_sessions().contains_id(s.id));
    assert_eq!(store.account_session().remove_account_session(s.id), Ok(s));
    assert_eq!(store.account_session().remove_account_session(s.id), Err(Error::NotFound));
}

#[test]
fn injected_issuer_is_used_for_logins() {
    let hash = hash_password("pw").unwrap();
    let mut ctrl = AccountController::with_parts(AccountSessionController::new(), 10);
    ctrl.create_account_with(new_account("Ada", "ada@x.com", "pw"), 1, hash, 0).unwrap();
    assert!(ctrl.account_sessions().knows_account(1));
    let joined = ctrl.login_account_with(credentials("ada@x.com", "pw"), 3, 100).unwrap();
    let s = ctrl.account_sessions().get_account_session(3).unwrap();
    assert_eq!(s.account_id, 1);
    assert_eq!(s.expires_at, 110);
    assert_eq!(joined.account_session_id, 3);
}

#[test]
fn complete_login_issues_only_after_a_passed_check() {
    let mut ctrl = AccountController::new();
    ctrl.create_account_with(new_account("Ada", "ada@x.com", "p"), 1, "h".to_string(), 4)
        .unwrap();
    let row = ctrl.login_lookup("ada@x.com".to_string()).unwrap();
    assert_eq!(ctrl.complete_login(&row, Err(Error::Unauthorized)), Err(Error::Unauthorized));
    assert_eq!(ctrl.complete_login(&row, Err(Error::Internal)), Err(Error::Internal));
    assert_eq!(ctrl.account_sessions().len(), 0);
    let joined = ctrl.complete_login(&row, Ok(())).unwrap();
    assert_eq!(joined.id, 1);
    assert_eq!(joined.inserted_at, 4);
    assert!(ctrl.account_sessions().contains_id(joined.account_session_id));
    let mut other = row.clone();
    other.id = 2;
    assert_eq!(ctrl.complete_login(&other, Ok(())), Err(Error::NotFound));
}

#[test]
fn restored_accounts_keep_their_times() {
    let mut ctrl = AccountController::new();
    let row = rustfit::AccountWithPasswordHashDTO {
        id: 9,
        email: "ada@x.com".to_string(),
        name: "Ada".to_string(),
        password_hash: "h".to_string(),
        inserted_at: 10,
        updated_at: 20,
    };
    assert_eq!(ctrl.restore_account(row.clone()), Ok(()));
    assert_eq!(ctrl.get_account_by_email("ada@x.com".to_string()), Ok(row.clone()));
    assert_eq!(ctrl.restore_account(row.clone()), Err(Error::Conflict));
    let mut same_id = row.clone();
    same_id.email = "bob@x.com".to_string();
    assert_eq!(ctrl.restore_account(same_id), Err(Error::Internal));
}

#[test]
fn hash_with_unknown_algorithm_is_internal_error() {
    let foreign = "$pbkdf2-sha256$i=1000$c2FsdHNhbHRzYWx0c2FsdA$YWJjZGVmZ2hpamtsbW5vcHFyc3R1dnd4eXoxMjM0NTY";
    assert_eq!(verify_password("pw", foreign), Err(Error::Internal));
}
