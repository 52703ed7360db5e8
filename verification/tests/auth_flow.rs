use rscms::handler::auth::{
    login_checked,
    login, login_at, logout, register, register_finish, register_with, token_secret_bytes,
    RegisterStep,
};
use rscms::handler::ApiResult;
use rscms::model::auth::{LoginRequest, RegisterRequest, User};

fn register_form(email: &str, password: &str) -> RegisterRequest {
    RegisterRequest { email: email.to_string(), password: password.to_string() }
}

fn login_form(email: &str, password: &str) -> LoginRequest {
    LoginRequest { email: email.to_string(), password: password.to_string() }
}

fn registered_user(email: &str, password: &str) -> User {
    match register(Ok(None), &register_form(email, password)) {
        RegisterStep::Insert(u) => u,
        RegisterStep::Reply(r) => panic!("registration refused: {}", r.msg),
    }
}

fn decode_claims(token: &str) -> serde_json::Value {
    let mut validation = jsonwebtoken::Validation::default();
    validation.validate_exp = false;
    let key = jsonwebtoken::DecodingKey::from_secret(b"secret");
    jsonwebtoken::decode::<serde_json::Value>(token, &key, &validation).unwrap().claims
}

#[test]
fn test_default_password_match() {
    let passwd = "rscms";
    let user = registered_user("admin@example.com", passwd);
    let hashed = user.password_hash.clone();
    println!("hashed: {}", hashed);

    let valid = bcrypt::verify(passwd, &hashed).unwrap();
    assert!(valid);
}

#[test]
fn registration_stores_a_bcrypt_hash() {
    let user = registered_user("test@example.com", "password");
    assert_eq!(user.email, "test@example.com");
    assert!(user.id.is_none());
    assert_eq!(user.created_at, user.updated_at);
    assert_eq!(user.password_hash.len(), 60);
    assert!(user.password_hash.starts_with("$2b$12$"));
    assert_ne!(user.password_hash, "password");
    assert!(!bcrypt::verify("other", &user.password_hash).unwrap());
}

#[test]
fn registration_refuses_a_taken_email() {
    let existing = registered_user("taken@example.com", "pw");
    match register(Ok(Some(existing)), &register_form("taken@example.com", "pw2")) {
        RegisterStep::Reply(r) => {
            assert_eq!(r.code, 1);
            assert_eq!(r.msg, "用户已存在");
            assert!(r.data.is_none());
        },
        RegisterStep::Insert(_) => panic!("a taken e-mail was registered again"),
    }
}

#[test]
fn registration_goes_on_when_the_lookup_fails() {
    match register(Err("connection reset".to_string()), &register_form("a@b.c", "pw")) {
        RegisterStep::Insert(u) => assert_eq!(u.email, "a@b.c"),
        RegisterStep::Reply(r) => panic!("unexpected reply {}", r.msg),
    }
}

#[test]
fn registration_with_given_hash_and_time() {
    let form = register_form("x@y.z", "pw");
    match register_with(Ok(None), &form, Ok("$2b$12$abc".to_string()), 1234) {
        RegisterStep::Insert(u) => {
            assert_eq!(u.email, "x@y.z");
            assert_eq!(u.password_hash, "$2b$12$abc");
            assert_eq!(u.created_at, 1234);
            assert_eq!(u.updated_at, 1234);
        },
        RegisterStep::Reply(_) => panic!("expected an insertion"),
    }
    match register_with(Ok(None), &form, Err("no randomness".to_string()), 1234) {
        RegisterStep::Reply(r) => {
            assert_eq!(r.code, 1);
            assert_eq!(r.msg, "no randomness");
        },
        RegisterStep::Insert(_) => panic!("expected a reply"),
    }
}

#[test]
fn registration_reply_after_insert() {
    let ok = register_finish(Ok(()));
    assert_eq!(ok.code, 0);
    assert_eq!(ok.msg, "success");
    assert_eq!(ok.data.unwrap().message, "注册成功");
    let err = register_finish(Err("duplicate key".to_string()));
    assert_eq!(err.code, 1);
    assert_eq!(err.msg, "duplicate key");
    assert!(err.data.is_none());
}

#[test]
fn login_with_the_registered_password_issues_a_token() {
    let user = registered_user("test2@example.com", "password");
    let now: i64 = 1_700_000_000_123;
    let res = login_at(Ok(Some(user)), &login_form("test2@example.com", "password"), now);
    assert_eq!(res.code, 0);
    assert_eq!(res.msg, "success");
    let data = res.data.unwrap();
    assert_eq!(data.user.email, "test2@example.com");
    assert_eq!(data.token.expires_in, 86400);
    let claims = decode_claims(&data.token.token);
    assert_eq!(claims["sub"], "test2@example.com");
    assert_eq!(claims["exp"], 1_700_000_000u64 + 86400);
}

#[test]
fn login_token_expiry_rounds_down_to_the_second() {
    let user = registered_user("neg@example.com", "pw");
    let res = login_at(Ok(Some(user)), &login_form("neg@example.com", "pw"), -1500);
    let claims = decode_claims(&res.data.unwrap().token.token);
    assert_eq!(claims["exp"], 86398u64);
}

#[test]
fn login_now_issues_an_unexpired_token() {
    let user = registered_user("now@example.com", "pw");
    let res = login(Ok(Some(user)), &login_form("now@example.com", "pw"));
    assert_eq!(res.code, 0);
    let token = res.data.unwrap().token.token;
    let key = jsonwebtoken::DecodingKey::from_secret(&token_secret_bytes());
    let decoded = jsonwebtoken::decode::<serde_json::Value>(
        &token,
        &key,
        &jsonwebtoken::Validation::default(),
    );
    assert!(decoded.is_ok());
}

#[test]
fn login_with_a_wrong_password_is_refused() {
    let user = registered_user("w@example.com", "right");
    let res = login_at(Ok(Some(user)), &login_form("w@example.com", "wrong"), 0);
    assert_eq!(res.code, 1);
    assert_eq!(res.msg, "密码错误");
    assert!(res.data.is_none());
}

#[test]
fn login_against_a_malformed_hash_is_refused() {
    let user = User {
        id: None,
        email: "m@example.com".to_string(),
        password_hash: "not a hash".to_string(),
        created_at: 0,
        updated_at: 0,
    };
    let res = login_at(Ok(Some(user)), &login_form("m@example.com", "pw"), 0);
    assert_eq!(res.code, 1);
    assert_eq!(res.msg, "密码错误");
}

#[test]
fn login_of_an_unknown_user_is_refused() {
    let res = login_at(Ok(None), &login_form("nobody@example.com", "pw"), 0);
    assert_eq!(res.code, 1);
    assert_eq!(res.msg, "用户不存在");
    assert!(res.data.is_none());
}

#[test]
fn login_reports_a_failed_lookup() {
    let res = login_at(Err("server selection timeout".to_string()), &login_form("a", "b"), 0);
    assert_eq!(res.code, 1);
    assert_eq!(res.msg, "server selection timeout");
}

#[test]
fn logout_always_succeeds() {
    let res = logout();
    assert_eq!(res.code, 0);
    assert_eq!(res.msg, "success");
    assert_eq!(res.data.unwrap().message, "登出成功");
}

#[test]
fn envelopes() {
    let ok: ApiResult<u32> = ApiResult::success(7);
    assert_eq!(ok.code, 0);
    assert_eq!(ok.msg, "success");
    assert_eq!(ok.data, Some(7));
    let err: ApiResult<u32> = ApiResult::error("boom");
    assert_eq!(err.code, 1);
    assert_eq!(err.msg, "boom");
    assert_eq!(err.data, None);
    let num: ApiResult<u32> = ApiResult::error(&42u8);
    assert_eq!(num.msg, "42");
}

#[test]
fn secret_is_the_word_secret() {
    assert_eq!(&token_secret_bytes(), b"secret");
}

#[test]
fn login_token_names_a_stored_user_by_identifier() {
    let mut user = registered_user("id@example.com", "pw");
    user.id = Some(rscms::model::object_id::DocId::parse_hex("507f1f77bcf86cd799439011").unwrap());
    let res = login_at(Ok(Some(user)), &login_form("id@example.com", "pw"), 0);
    let claims = decode_claims(&res.data.unwrap().token.token);
    assert_eq!(claims["sub"], "507f1f77bcf86cd799439011");
}

#[test]
fn identifier_hex_form() {
    let id = rscms::model::object_id::DocId { bytes: [0, 1, 0x0f, 0x10, 0xab, 0xff, 2, 3, 4, 5, 6, 7] };
    assert_eq!(id.to_hex(), "00010f10abff020304050607");
    assert_eq!(rscms::model::object_id::DocId::parse_hex(&id.to_hex()).unwrap().bytes, id.bytes);
}

fn plain_user() -> User {
    User {
        id: Some(rscms::model::object_id::DocId { bytes: [1; 12] }),
        email: "v@example.com".to_string(),
        password_hash: "plaintext".to_string(),
        created_at: 0,
        updated_at: 0,
    }
}

#[test]
fn login_decision_from_the_verdict() {
    let refused = login_checked(plain_user(), Some(false), 0);
    assert_eq!(refused.code, 1);
    assert_eq!(refused.msg, "密码错误");
    let malformed = login_checked(plain_user(), None, 0);
    assert_eq!(malformed.msg, "密码错误");
    assert!(malformed.data.is_none());
    let ok = login_checked(plain_user(), Some(true), 5_000);
    assert_eq!(ok.code, 0);
    let data = ok.data.unwrap();
    assert_eq!(data.user.email, "v@example.com");
    let claims = decode_claims(&data.token.token);
    assert_eq!(claims["sub"], "010101010101010101010101");
    assert_eq!(claims["exp"], 5u64 + 86400);
}
