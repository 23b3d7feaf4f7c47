use base64::Engine;
use securegrade::database::auth::validate::{
    validate, validate_admin, validate_instructor, validate_student, validate_token,
};
use securegrade::database::auth::{
    issue_session, open_session, session_exists_and_valid, session_hash, session_is_admin,
    session_is_instructor, session_is_student, Session, SessionFacts, SESSION_SECONDS,
};
use securegrade::database::user::{
    create_hash, get_user_from_session, login_user, register_user, LoginError,
};
use securegrade::model::add_to_class_object::AddToClassObject;
use securegrade::model::new_class_object::NewClassObject;
use securegrade::model::request::ClientRequest;
use securegrade::model::validation_object::{
    validation, ValidationObject, ValidationRequest, ValidationResponse,
};
use securegrade::time::Timestamp;
use sha2::Digest;

fn hex(bytes: &[u8]) -> String {
    bytes.iter().map(|b| format!("{:02x}", b)).collect()
}

fn sixteen() -> [u8; 16] {
    [0, 1, 2, 3, 4, 5, 6, 7, 8, 9, 10, 11, 12, 13, 14, 15]
}

const SIXTEEN_HASH: &str = "daa295beed4e2ee94c24015b56af626b4f21ef9f44f2b3d40fc41c90900a6bf1b4867c43c57cda54d1b6fd4869b3f23ced5e0ba3c05d0b1680df4ec7d0762403";

fn facts(expiration: Option<Timestamp>, is_admin: bool, enrollment: Option<bool>) -> SessionFacts {
    SessionFacts { expiration, is_admin, enrollment }
}

const NOW: Timestamp = Timestamp { secs: 1000, nanos: 500 };
const LATER: Timestamp = Timestamp { secs: 1000, nanos: 501 };
const EARLIER: Timestamp = Timestamp { secs: 999, nanos: 900 };

#[test]
fn credential_hash_uses_the_split_salt() {
    // user "ab", password "p": SHA-512 of "a" + "p" + "b"
    assert_eq!(
        hex(&create_hash(b"ab", b"p")),
        "80b561c1575e1a3572674032b8689831fe6ea7effd937ea9d30812111ea0267048b2a2267e5577d76d89ec89c03f377517fdc10bb0f6bd4b1bd199e9f2fa4523"
    );
}

#[test]
fn odd_user_name_has_the_shorter_half_in_front() {
    // user "alice": "al" + "secret" + "ice"
    assert_eq!(
        hex(&create_hash(b"alice", b"secret")),
        "b6e54180d9ccae7c7d7b273fb6fc47999784957fdb0e426fbb2c375f218c7f88775dfdb697465132b0ef6112d98a755033e98065e45f73e7d40d0504b8abffad"
    );
}

#[test]
fn empty_user_name_leaves_the_password() {
    assert_eq!(
        hex(&create_hash(b"", b"hunter2")),
        "6b97ed68d14eb3f1aa959ce5d49c7dc612e1eb1dafd73b1e705847483fd6a6c809f2ceb4e8df6ff9984c6298ff0285cace6614bf8daa9f0070101b6c89899e22"
    );
}

#[test]
fn credential_hash_is_deterministic() {
    assert_eq!(create_hash(b"carol", b"pw"), create_hash(b"carol", b"pw"));
    assert_ne!(create_hash(b"carol", b"pw"), create_hash(b"carol", b"pw2"));
    assert_ne!(create_hash(b"carol", b"pw"), create_hash(b"carlo", b"pw"));
    assert_eq!(create_hash(b"carol", b"pw").len(), 64);
}

#[test]
fn credential_hash_agrees_with_sha512_of_the_salted_bytes() {
    let expected = sha2::Sha512::digest(b"user-pass-name").to_vec();
    assert_eq!(create_hash(b"user-name", b"-pass"), expected);
    let other = sha2::Sha512::digest(b"userpass--name").to_vec();
    assert_eq!(create_hash(b"user-name", b"pass-"), other);
}

#[test]
fn login_needs_user_name_and_password() {
    let mut request = ClientRequest::default();
    assert_eq!(login_user(&request), Err(LoginError::MissingFields));
    request.user_name = Some("ab".to_string());
    assert_eq!(login_user(&request), Err(LoginError::MissingFields));
    assert_eq!(register_user(&request), Err(LoginError::MissingFields));
    request.pass = Some("p".to_string());
    assert_eq!(login_user(&request), Ok(create_hash(b"ab", b"p")));
}

#[test]
fn registration_and_login_derive_the_same_hash() {
    let mut request = ClientRequest::default();
    request.user_name = Some("ab".to_string());
    request.pass = Some("p".to_string());
    request.first_name = Some("A".to_string());
    request.last_name = Some("B".to_string());
    request.email = Some("a@b".to_string());
    assert_eq!(register_user(&request), login_user(&request));
}

#[test]
fn session_token_is_the_base64_of_the_session_id() {
    let session = Session::new(sixteen());
    assert_eq!(session.session_base(), "AAECAwQFBgcICQoLDA0ODw==");
}

#[test]
fn session_token_round_trip() {
    let (row, session) = issue_session(sixteen(), 7, NOW);
    assert_eq!(hex(&row.session_hash), SIXTEEN_HASH);
    assert_eq!(session_hash(session.session_base()), Some(row.session_hash.clone()));
    assert_eq!(get_user_from_session(session.session_base()), Some(row.session_hash));
}

#[test]
fn session_lasts_one_hour() {
    assert_eq!(SESSION_SECONDS, 3600);
    let (row, _) = issue_session(sixteen(), 7, NOW);
    assert_eq!(row.user_id, 7);
    assert_eq!(row.expiration, Timestamp { secs: 4600, nanos: 500 });
}

#[test]
fn fresh_sessions_differ() {
    let (first_row, first) = open_session(3, NOW).unwrap();
    let (second_row, second) = open_session(3, NOW).unwrap();
    assert_ne!(first.session_base(), second.session_base());
    assert_ne!(first_row.session_hash, second_row.session_hash);
    assert_eq!(first.session_base().len(), 24);
    assert_eq!(first.session_base().trim_end_matches('=').len(), 22);
    assert_eq!(session_hash(first.session_base()), Some(first_row.session_hash));
    assert_eq!(first_row.expiration, Timestamp { secs: 4600, nanos: 500 });
    assert_eq!(second_row.user_id, 3);
}

#[test]
fn no_session_at_the_end_of_time() {
    assert!(open_session(1, Timestamp::new(i64::MAX, 0)).is_none());
    assert!(open_session(1, Timestamp::new(i64::MAX - 3599, 0)).is_none());
    assert!(open_session(1, Timestamp::new(i64::MAX - 3600, 0)).is_some());
}

#[test]
fn malformed_token_has_no_hash() {
    assert_eq!(session_hash("not base64!"), None);
    assert_eq!(session_hash("AAECAwQFBgcICQoLDA0ODw"), None);
    assert_eq!(get_user_from_session("****"), None);
    let decoded = base64::engine::general_purpose::STANDARD.decode("aGVsbG8=").unwrap();
    assert_eq!(session_hash("aGVsbG8="), Some(sha2::Sha512::digest(decoded).to_vec()));
}

#[test]
fn session_is_valid_until_it_expires() {
    let session = facts(Some(NOW), false, None);
    assert!(session_exists_and_valid(&session, &EARLIER));
    assert!(!session_exists_and_valid(&session, &NOW));
    assert!(!session_exists_and_valid(&session, &LATER));
    assert!(!session_exists_and_valid(&facts(None, true, Some(true)), &EARLIER));
}

#[test]
fn roles_need_a_valid_session() {
    let expired = facts(Some(EARLIER), true, Some(true));
    assert!(!session_is_admin(&expired, &NOW));
    assert!(!session_is_instructor(&expired, &NOW));
    assert!(!session_is_student(&expired, &NOW));
    let live = facts(Some(LATER), true, Some(true));
    assert!(session_is_admin(&live, &NOW));
    assert!(session_is_instructor(&live, &NOW));
    assert!(!session_is_student(&live, &NOW));
}

#[test]
fn instructors_are_not_students() {
    let instructor = facts(Some(LATER), false, Some(true));
    let student = facts(Some(LATER), false, Some(false));
    let stranger = facts(Some(LATER), false, None);
    assert!(session_is_instructor(&instructor, &NOW) && !session_is_student(&instructor, &NOW));
    assert!(session_is_student(&student, &NOW) && !session_is_instructor(&student, &NOW));
    assert!(!session_is_student(&stranger, &NOW) && !session_is_instructor(&stranger, &NOW));
    assert!(!session_is_admin(&student, &NOW));
}

#[test]
fn validation_hashes_the_token() {
    let object = validation(Some("CS101".to_string()), "AAECAwQFBgcICQoLDA0ODw==").unwrap();
    assert_eq!(object.class, Some("CS101".to_string()));
    assert_eq!(hex(&object.session_hash), SIXTEEN_HASH);
    assert!(validation(None, "?").is_none());
}

#[test]
fn requests_turn_into_validations() {
    let request = ValidationRequest { class: None, session_base: "aGVsbG8=".to_string() };
    let object = request.into_validation().unwrap();
    assert_eq!(object.class, None);
    assert_eq!(object.session_hash, sha2::Sha512::digest(b"hello").to_vec());
    let new_class = NewClassObject {
        session_base: "aGVsbG8=".to_string(),
        class_number: "CS1".to_string(),
        instructor_user_name: "i".to_string(),
    };
    assert_eq!(new_class.into_validation().unwrap().class, Some("CS1".to_string()));
    let add = AddToClassObject {
        session_hash: "aGVsbG8".to_string(),
        class_name: "CS1".to_string(),
        user_name: "u".to_string(),
    };
    assert!(add.into_validation().is_none());
}

#[test]
fn validation_answers_for_the_class() {
    let with_class = ValidationObject { class: Some("CS1".to_string()), session_hash: vec![] };
    let without = ValidationObject { class: None, session_hash: vec![] };
    let student = facts(Some(LATER), false, Some(false));
    let instructor = facts(Some(LATER), true, Some(true));
    assert!(validate_token(&student, &NOW));
    assert!(validate_student(&with_class, &student, &NOW));
    assert!(!validate_student(&without, &student, &NOW));
    assert!(!validate_instructor(&with_class, &student, &NOW));
    assert!(validate_instructor(&with_class, &instructor, &NOW));
    assert!(!validate_instructor(&without, &instructor, &NOW));
    assert!(validate_admin(&instructor, &NOW));
    assert!(!validate_admin(&student, &NOW));
    assert_eq!(
        validate(&with_class, &instructor, &NOW),
        ValidationResponse { is_valid: true, is_admin: true, is_instructor: true, is_student: false }
    );
    assert_eq!(
        validate(&with_class, &student, &LATER),
        ValidationResponse {
            is_valid: false,
            is_admin: false,
            is_instructor: false,
            is_student: false
        }
    );
}
