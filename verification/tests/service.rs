use auth_core::error::{
    STATUS_CONFLICT, STATUS_CREATED, STATUS_INTERNAL_ERROR, STATUS_OK, STATUS_UNAUTHORIZED,
};
use auth_core::password::hash_password_with_cost;
use auth_core::token::read_claims;
use auth_core::{
    check_credentials, login, login_at, login_status, login_with_clock, me, me_at, me_status,
    me_with_clock, register, register_outcome, register_status, AuthError, Claims, StoreFault,
    UserRecord,
};

const SECRET: &str = "an-example-signing-secret";
const NOON: u64 = 1_700_000_000;

/// Stands for the credential store: rows with a unique username.
struct Table {
    rows: Vec<UserRecord>,
}

impl Table {
    fn new() -> Table {
        Table { rows: Vec::new() }
    }

    fn insert(&mut self, record: UserRecord) -> Result<(), StoreFault> {
        if self.rows.iter().any(|row| row.username == record.username) {
            return Err(StoreFault::UniqueViolation);
        }
        self.rows.push(record);
        Ok(())
    }

    fn find(&self, username: &str) -> Result<Option<String>, StoreFault> {
        Ok(self
            .rows
            .iter()
            .find(|row| row.username == username)
            .map(|row| row.password_hash.clone()))
    }

    fn register(&mut self, username: &str, password: &str) -> Result<(), AuthError> {
        let record = register(username, password)?;
        register_outcome(self.insert(record))
    }
}

fn unix_now() -> u64 {
    std::time::SystemTime::now().duration_since(std::time::UNIX_EPOCH).unwrap().as_secs()
}

fn quick_record(username: &str, password: &str) -> UserRecord {
    UserRecord {
        username: username.to_string(),
        password_hash: hash_password_with_cost(password, 4).unwrap(),
    }
}

#[test]
fn status_codes_of_the_failures() {
    assert_eq!(AuthError::Conflict.status_code(), 409);
    assert_eq!(AuthError::Unauthorized.status_code(), 401);
    assert_eq!(AuthError::InternalError.status_code(), 500);
    assert_eq!(STATUS_OK, 200);
    assert_eq!(STATUS_CREATED, 201);
    assert_eq!(STATUS_UNAUTHORIZED, 401);
    assert_eq!(STATUS_CONFLICT, 409);
    assert_eq!(STATUS_INTERNAL_ERROR, 500);
}

#[test]
fn register_returns_the_record_to_insert() {
    let record = register("alice", "secret123").unwrap();
    assert_eq!(record.username, "alice");
    assert_ne!(record.password_hash, "secret123");
    assert!(record.password_hash.starts_with("$2b$12$"));
    assert_eq!(record.password_hash.len(), 60);
    assert!(bcrypt::verify("secret123", &record.password_hash).unwrap());
}

#[test]
fn register_outcome_follows_the_store() {
    assert_eq!(register_outcome(Ok(())), Ok(()));
    assert_eq!(register_outcome(Err(StoreFault::UniqueViolation)), Err(AuthError::Conflict));
    assert_eq!(register_outcome(Err(StoreFault::Other)), Err(AuthError::InternalError));
}

#[test]
fn register_status_is_201_409_or_500() {
    assert_eq!(register_status(&Ok(())), 201);
    assert_eq!(register_status(&Err(AuthError::Conflict)), 409);
    assert_eq!(register_status(&Err(AuthError::InternalError)), 500);
    assert_eq!(register_status(&register_outcome(Err(StoreFault::UniqueViolation))), 409);
}

#[test]
fn registering_twice_gives_success_then_conflict() {
    let mut table = Table::new();
    assert_eq!(table.register("alice", "secret123"), Ok(()));
    assert_eq!(table.register("alice", "secret123"), Err(AuthError::Conflict));
    assert_eq!(table.rows.len(), 1);
}

#[test]
fn usernames_are_case_sensitive() {
    let mut table = Table::new();
    assert_eq!(register_outcome(table.insert(quick_record("alice", "a"))), Ok(()));
    assert_eq!(register_outcome(table.insert(quick_record("Alice", "b"))), Ok(()));
    assert_eq!(
        register_outcome(table.insert(quick_record("alice", "c"))),
        Err(AuthError::Conflict)
    );
    assert!(login_at(table.find("Alice"), "Alice", "b", SECRET, NOON).is_ok());
    assert_eq!(
        login_at(table.find("ALICE"), "ALICE", "b", SECRET, NOON),
        Err(AuthError::Unauthorized)
    );
}

#[test]
fn login_after_register_returns_a_token() {
    let mut table = Table::new();
    assert_eq!(table.register("alice", "secret123"), Ok(()));
    let outcome = login_at(table.find("alice"), "alice", "secret123", SECRET, NOON);
    let token = outcome.unwrap();
    assert!(!token.is_empty());
    assert_eq!(token.split('.').count(), 3);
}

#[test]
fn login_with_a_wrong_password_is_unauthorized() {
    let mut table = Table::new();
    assert_eq!(table.register("alice", "secret123"), Ok(()));
    assert_eq!(
        login_at(table.find("alice"), "alice", "wrong", SECRET, NOON),
        Err(AuthError::Unauthorized)
    );
}

#[test]
fn login_of_an_unknown_user_looks_like_a_wrong_password() {
    let mut table = Table::new();
    assert_eq!(register_outcome(table.insert(quick_record("alice", "secret123"))), Ok(()));
    let unknown = login_at(table.find("mallory"), "mallory", "secret123", SECRET, NOON);
    let wrong = login_at(table.find("alice"), "alice", "wrong", SECRET, NOON);
    assert_eq!(unknown, Err(AuthError::Unauthorized));
    assert_eq!(unknown, wrong);
    assert_eq!(login_status(&unknown), 401);
    assert_eq!(login_status(&unknown), login_status(&wrong));
}

#[test]
fn login_on_a_store_fault_is_an_internal_error() {
    let outcome = login_at(Err(StoreFault::Other), "alice", "secret123", SECRET, NOON);
    assert_eq!(outcome, Err(AuthError::InternalError));
    assert_eq!(login_status(&outcome), 500);
    assert_eq!(
        login_at(Err(StoreFault::UniqueViolation), "alice", "secret123", SECRET, NOON),
        Err(AuthError::InternalError)
    );
}

#[test]
fn login_with_an_unreadable_stored_hash_is_an_internal_error() {
    let outcome = login_at(Ok(Some("secret123".to_string())), "alice", "secret123", SECRET, NOON);
    assert_eq!(outcome, Err(AuthError::InternalError));
    assert_eq!(login_status(&outcome), 500);
    assert_eq!(
        login_at(Ok(Some(String::new())), "alice", "", SECRET, NOON),
        Err(AuthError::InternalError)
    );
    assert_eq!(
        login(Ok(Some("$2b$12$cut-short".to_string())), "alice", "secret123", SECRET),
        Err(AuthError::InternalError)
    );
}

#[test]
fn login_token_expires_24_hours_later() {
    let record = quick_record("alice", "secret123");
    let token =
        login_at(Ok(Some(record.password_hash)), "alice", "secret123", SECRET, NOON).unwrap();
    assert_eq!(
        read_claims(&token, SECRET),
        Some(Claims { sub: "alice".to_string(), exp: 1_700_086_400 })
    );
}

#[test]
fn login_fails_when_the_expiry_overflows() {
    let record = quick_record("alice", "secret123");
    assert_eq!(
        login_at(Ok(Some(record.password_hash.clone())), "alice", "secret123", SECRET, u64::MAX),
        Err(AuthError::InternalError)
    );
    assert_eq!(
        login_at(Ok(Some(record.password_hash)), "alice", "wrong", SECRET, u64::MAX),
        Err(AuthError::Unauthorized)
    );
}

#[test]
fn login_status_is_200_401_or_500() {
    assert_eq!(login_status(&Ok("a.b.c".to_string())), 200);
    assert_eq!(login_status(&Err(AuthError::Unauthorized)), 401);
    assert_eq!(login_status(&Err(AuthError::InternalError)), 500);
}

#[test]
fn token_resolves_to_the_user_who_logged_in() {
    let alice = quick_record("alice", "secret123");
    let bob = quick_record("bob", "secret123");
    let for_alice =
        login_at(Ok(Some(alice.password_hash)), "alice", "secret123", SECRET, NOON).unwrap();
    let for_bob = login_at(Ok(Some(bob.password_hash)), "bob", "secret123", SECRET, NOON).unwrap();
    assert_eq!(me_at(Some(&for_alice), SECRET, NOON), Ok("alice".to_string()));
    assert_eq!(me_at(Some(&for_bob), SECRET, NOON), Ok("bob".to_string()));
    assert_eq!(me_at(Some(&for_alice), SECRET, NOON + 3_600), Ok("alice".to_string()));
}

#[test]
fn token_resolves_for_unusual_usernames() {
    for name in ["", " ", "a.b.c", "J\u{fc}rgen", "\u{1f980}", "x\"y\\z", "line\nbreak"] {
        let record = quick_record(name, "pw");
        let token = login_at(Ok(Some(record.password_hash)), name, "pw", SECRET, NOON).unwrap();
        assert_eq!(me_at(Some(&token), SECRET, NOON), Ok(name.to_string()));
    }
}

#[test]
fn expired_token_is_unauthorized() {
    let record = quick_record("alice", "secret123");
    let token =
        login_at(Ok(Some(record.password_hash)), "alice", "secret123", SECRET, NOON).unwrap();
    assert_eq!(me_at(Some(&token), SECRET, NOON + 86_400), Ok("alice".to_string()));
    assert_eq!(me_at(Some(&token), SECRET, NOON + 86_401), Err(AuthError::Unauthorized));
    assert_eq!(me_at(Some(&token), SECRET, u64::MAX), Err(AuthError::Unauthorized));
    assert_eq!(read_claims(&token, SECRET).map(|c| c.sub), Some("alice".to_string()));
}

#[test]
fn token_signed_with_another_secret_is_unauthorized() {
    let record = quick_record("alice", "secret123");
    let token =
        login_at(Ok(Some(record.password_hash)), "alice", "secret123", "another-secret", NOON)
            .unwrap();
    assert_eq!(me_at(Some(&token), SECRET, NOON), Err(AuthError::Unauthorized));
    assert_eq!(me_at(Some(&token), "another-secret", NOON), Ok("alice".to_string()));
}

#[test]
fn missing_or_malformed_token_is_unauthorized() {
    assert_eq!(me_at(None, SECRET, NOON), Err(AuthError::Unauthorized));
    assert_eq!(me_at(Some(""), SECRET, NOON), Err(AuthError::Unauthorized));
    assert_eq!(me_at(Some("not-a-token"), SECRET, NOON), Err(AuthError::Unauthorized));
    assert_eq!(me_at(Some("a.b.c"), SECRET, NOON), Err(AuthError::Unauthorized));
    assert_eq!(me(None, SECRET), Err(AuthError::Unauthorized));
    assert_eq!(me(Some("a.b.c"), SECRET), Err(AuthError::Unauthorized));
}

#[test]
fn me_status_is_200_or_401() {
    assert_eq!(me_status(&Ok("alice".to_string())), 200);
    assert_eq!(me_status(&Err(AuthError::Unauthorized)), 401);
    assert_eq!(me_status(&me_at(None, SECRET, NOON)), 401);
}

#[test]
fn login_and_me_by_the_clock() {
    let record = quick_record("alice", "secret123");
    let before = unix_now();
    let token = login(Ok(Some(record.password_hash)), "alice", "secret123", SECRET).unwrap();
    let after = unix_now();
    let claims = read_claims(&token, SECRET).unwrap();
    assert_eq!(claims.sub, "alice");
    assert!(before + 86_400 <= claims.exp && claims.exp <= after + 86_400);
    assert_eq!(me(Some(&token), SECRET), Ok("alice".to_string()));
    assert_eq!(me(Some(&token), "another-secret"), Err(AuthError::Unauthorized));
}

#[test]
fn me_by_the_clock_rejects_a_token_of_last_week() {
    let record = quick_record("alice", "secret123");
    let last_week = unix_now() - 7 * 86_400;
    let token =
        login_at(Ok(Some(record.password_hash)), "alice", "secret123", SECRET, last_week).unwrap();
    assert_eq!(me(Some(&token), SECRET), Err(AuthError::Unauthorized));
    assert_eq!(me_at(Some(&token), SECRET, last_week), Ok("alice".to_string()));
}

#[test]
fn two_users_with_one_password_get_different_hashes() {
    let first = register("alice", "secret123").unwrap();
    let second = register("bob", "secret123").unwrap();
    assert_ne!(first.password_hash, second.password_hash);
}

#[test]
fn of_two_registrations_of_one_name_one_wins() {
    for a_goes_first in [true, false] {
        let mut table = Table::new();
        let a = quick_record("alice", "password-a");
        let b = quick_record("alice", "password-b");
        let (first, second, winner) =
            if a_goes_first { (a, b, "password-a") } else { (b, a, "password-b") };
        let outcomes = [register_outcome(table.insert(first)), register_outcome(table.insert(second))];
        assert_eq!(outcomes, [Ok(()), Err(AuthError::Conflict)]);
        assert_eq!(table.rows.len(), 1);
        assert!(login_at(table.find("alice"), "alice", winner, SECRET, NOON).is_ok());
    }
}

#[test]
fn check_credentials_has_four_ways_to_fail() {
    let record = quick_record("alice", "secret123");
    assert_eq!(check_credentials(Ok(Some(record.password_hash.clone())), "secret123"), Ok(()));
    assert_eq!(
        check_credentials(Ok(Some(record.password_hash)), "wrong"),
        Err(AuthError::Unauthorized)
    );
    assert_eq!(check_credentials(Ok(None), "secret123"), Err(AuthError::Unauthorized));
    assert_eq!(
        check_credentials(Ok(Some("no hash".to_string())), "secret123"),
        Err(AuthError::InternalError)
    );
    assert_eq!(
        check_credentials(Err(StoreFault::Other), "secret123"),
        Err(AuthError::InternalError)
    );
}

#[test]
fn login_with_a_reading_is_login_at_that_moment() {
    let record = quick_record("alice", "secret123");
    let hash = record.password_hash;
    assert_eq!(
        login_with_clock(Ok(Some(hash.clone())), "alice", "secret123", SECRET, Some(NOON)),
        login_at(Ok(Some(hash.clone())), "alice", "secret123", SECRET, NOON)
    );
    let token =
        login_with_clock(Ok(Some(hash.clone())), "alice", "secret123", SECRET, Some(0)).unwrap();
    assert_eq!(
        read_claims(&token, SECRET),
        Some(Claims { sub: "alice".to_string(), exp: 86_400 })
    );
    assert_eq!(
        login_with_clock(Ok(Some(hash)), "alice", "wrong", SECRET, Some(NOON)),
        Err(AuthError::Unauthorized)
    );
}

#[test]
fn login_without_a_reading_is_an_internal_error() {
    let record = quick_record("alice", "secret123");
    let hash = record.password_hash;
    let outcome = login_with_clock(Ok(Some(hash.clone())), "alice", "secret123", SECRET, None);
    assert_eq!(outcome, Err(AuthError::InternalError));
    assert_eq!(login_status(&outcome), 500);
    assert_eq!(
        login_with_clock(Ok(Some(hash)), "alice", "wrong", SECRET, None),
        Err(AuthError::Unauthorized)
    );
    assert_eq!(
        login_with_clock(Ok(None), "mallory", "secret123", SECRET, None),
        Err(AuthError::Unauthorized)
    );
    assert_eq!(
        login_with_clock(Err(StoreFault::Other), "alice", "secret123", SECRET, None),
        Err(AuthError::InternalError)
    );
}

#[test]
fn me_with_a_reading_is_me_at_that_moment() {
    let record = quick_record("alice", "secret123");
    let token =
        login_at(Ok(Some(record.password_hash)), "alice", "secret123", SECRET, NOON).unwrap();
    assert_eq!(me_with_clock(Some(&token), SECRET, Some(NOON)), Ok("alice".to_string()));
    assert_eq!(me_with_clock(Some(&token), SECRET, Some(NOON + 86_400)), Ok("alice".to_string()));
    assert_eq!(
        me_with_clock(Some(&token), SECRET, Some(NOON + 86_401)),
        Err(AuthError::Unauthorized)
    );
    assert_eq!(me_with_clock(None, SECRET, Some(NOON)), Err(AuthError::Unauthorized));
}

#[test]
fn me_without_a_reading_is_unauthorized() {
    let record = quick_record("alice", "secret123");
    let token =
        login_at(Ok(Some(record.password_hash)), "alice", "secret123", SECRET, NOON).unwrap();
    let outcome = me_with_clock(Some(&token), SECRET, None);
    assert_eq!(outcome, Err(AuthError::Unauthorized));
    assert_eq!(me_status(&outcome), 401);
    assert_eq!(me_with_clock(None, SECRET, None), Err(AuthError::Unauthorized));
    assert_eq!(me_with_clock(Some("a.b.c"), SECRET, None), Err(AuthError::Unauthorized));
}
