use rscms::handler::app::{get_user_id_from_token, get_user_id_from_token_at, user_id_from_decoded};
use rscms::handler::auth::{login_at, register, RegisterStep};
use rscms::middleware::auth::{
    bearer_token, decoded_token, decoded_token_at, Admission, AuthMiddleware, Claims,
};
use rscms::model::auth::{LoginRequest, RegisterRequest, User};
use rscms::model::object_id::DocId;

fn claims(sub: &str) -> Claims {
    Claims { sub: sub.to_string(), exp: 0 }
}

const USER_HEX: &str = "507f1f77bcf86cd799439011";

fn stored_user() -> User {
    let form = RegisterRequest { email: "a@example.com".to_string(), password: "pw".to_string() };
    let mut u = match register(Ok(None), &form) {
        RegisterStep::Insert(u) => u,
        RegisterStep::Reply(r) => panic!("{}", r.msg),
    };
    u.id = Some(DocId::parse_hex(USER_HEX).unwrap());
    u
}

/// The `Authorization` header of a login made at `issued_millis`.
fn login_header(issued_millis: i64) -> Vec<u8> {
    let form = LoginRequest { email: "a@example.com".to_string(), password: "pw".to_string() };
    let res = login_at(Ok(Some(stored_user())), &form, issued_millis);
    format!("Bearer {}", res.data.unwrap().token.token).into_bytes()
}

fn now_seconds() -> i64 {
    std::time::SystemTime::now().duration_since(std::time::UNIX_EPOCH).unwrap().as_secs() as i64
}

#[test]
fn bearer_token_is_the_rest_of_the_header() {
    assert_eq!(bearer_token(Some(b"Bearer abc.def.ghi")), Some(b"abc.def.ghi".to_vec()));
    assert_eq!(bearer_token(Some(b"Bearer ")), Some(Vec::new()));
    assert_eq!(bearer_token(Some(b"Bearer a\tb")), Some(b"a\tb".to_vec()));
}

#[test]
fn bearer_token_needs_the_exact_prefix() {
    assert_eq!(bearer_token(None), None);
    assert_eq!(bearer_token(Some(b"")), None);
    assert_eq!(bearer_token(Some(b"Bearer")), None);
    assert_eq!(bearer_token(Some(b"bearer abc")), None);
    assert_eq!(bearer_token(Some(b"Basic abc")), None);
    assert_eq!(bearer_token(Some(b" Bearer abc")), None);
}

#[test]
fn bearer_token_needs_a_textual_header() {
    assert_eq!(bearer_token(Some(b"Bearer abc\n")), None);
    assert_eq!(bearer_token(Some(&[66, 101, 97, 114, 101, 114, 32, 0xC3, 0xA9])), None);
    assert_eq!(bearer_token(Some(&[66, 101, 97, 114, 101, 114, 32, 127])), None);
}

#[test]
fn login_token_decodes_to_its_claims() {
    let issued: i64 = 1_700_000_000_500;
    let header = login_header(issued);
    let decoded = decoded_token_at(Some(&header), b"secret", 1_700_000_000).unwrap().ok().unwrap();
    assert_eq!(decoded.sub, USER_HEX);
    assert_eq!(decoded.exp, 1_700_000_000 + 86400);
}

#[test]
fn token_expiry_allows_a_minute_of_leeway() {
    let header = login_header(0);
    // The token expires at 86400.
    assert!(decoded_token_at(Some(&header), b"secret", 86400 + 60).unwrap().is_ok());
    let late = decoded_token_at(Some(&header), b"secret", 86400 + 61).unwrap();
    assert_eq!(late.err().unwrap(), "ExpiredSignature");
}

#[test]
fn token_under_another_secret_is_invalid() {
    let header = login_header(1_700_000_000_000);
    let other = decoded_token_at(Some(&header), b"another", 1_700_000_000).unwrap();
    assert_eq!(other.err().unwrap(), "InvalidSignature");
    let garbage = decoded_token_at(Some(b"Bearer not-a-token"), b"secret", 0).unwrap();
    assert!(garbage.is_err());
    assert!(decoded_token_at(Some(b"Token abc"), b"secret", 0).is_none());
    assert!(decoded_token_at(None, b"secret", 0).is_none());
}

#[test]
fn token_decoded_at_the_current_time() {
    let fresh = login_header(now_seconds() * 1000);
    assert!(decoded_token(Some(&fresh), b"secret").unwrap().is_ok());
    let stale = login_header(0);
    assert_eq!(decoded_token(Some(&stale), b"secret").unwrap().err().unwrap(), "ExpiredSignature");
}

#[test]
fn middleware_admits_by_token() {
    let service = AuthMiddleware.new_transform(17u32);
    assert_eq!(*service.service(), 17);
    match service.call(None, b"secret") {
        Admission::Reject(m) => assert_eq!(m, "缺少认证token"),
        Admission::Forward => panic!("admitted without token"),
    }
    match service.call(Some(b"Basic abc"), b"secret") {
        Admission::Reject(m) => assert_eq!(m, "缺少认证token"),
        Admission::Forward => panic!("admitted without bearer token"),
    }
    let fresh = login_header(now_seconds() * 1000);
    match service.call(Some(&fresh), b"other secret") {
        Admission::Reject(m) => assert_eq!(m, "无效的token"),
        Admission::Forward => panic!("admitted with a bad token"),
    }
    match service.call(Some(&login_header(0)), b"secret") {
        Admission::Reject(m) => assert_eq!(m, "无效的token"),
        Admission::Forward => panic!("admitted with an expired token"),
    }
    assert!(matches!(service.call(Some(&fresh), b"secret"), Admission::Forward));
}

#[test]
fn middleware_decision_from_an_outcome() {
    let service = AuthMiddleware.new_transform(());
    assert!(matches!(service.decide(None), Admission::Reject(ref m) if m == "缺少认证token"));
    assert!(matches!(service.decide(Some(Err("x".to_string()))), Admission::Reject(ref m) if m == "无效的token"));
    assert!(matches!(service.decide(Some(Ok(claims("u")))), Admission::Forward));
}

#[test]
fn claims_from_request() {
    assert_eq!(Claims::from_request(None, b"secret").err().unwrap(), "缺少认证token");
    assert_eq!(Claims::from_request(Some(b"Bearer x.y.z"), b"secret").err().unwrap(), "无效的token");
    let fresh = login_header(now_seconds() * 1000);
    let c = Claims::from_request(Some(&fresh), b"secret").ok().unwrap();
    assert_eq!(c.sub, USER_HEX);
    assert_eq!(Claims::from_decoded(None).err().unwrap(), "缺少认证token");
    let c = Claims::from_decoded(Some(Ok(Claims { sub: "me".to_string(), exp: 5 }))).ok().unwrap();
    assert_eq!(c.sub, "me");
    assert_eq!(c.exp, 5);
}

#[test]
fn login_token_authenticates_its_user() {
    let header = login_header(1_700_000_000_000);
    let id = get_user_id_from_token_at(Some(&header), 1_700_000_100).unwrap();
    assert_eq!(id.bytes, DocId::parse_hex(USER_HEX).unwrap().bytes);
    let late = get_user_id_from_token_at(Some(&header), 1_800_000_000).err().unwrap();
    assert_eq!(late, "ExpiredSignature");
    let fresh = login_header(now_seconds() * 1000);
    assert!(get_user_id_from_token(Some(&fresh)).is_ok());
}

#[test]
fn user_id_errors() {
    assert_eq!(get_user_id_from_token(None).err().unwrap(), "Missing or invalid Authorization header");
    assert_eq!(
        get_user_id_from_token(Some(b"Bearer")).err().unwrap(),
        "Missing or invalid Authorization header"
    );
    assert_eq!(
        user_id_from_decoded(Some(Err("InvalidSignature".to_string()))).err().unwrap(),
        "InvalidSignature"
    );
    let short = user_id_from_decoded(Some(Ok(claims("507f1f77")))).err().unwrap();
    assert!(short.contains("12 bytes"));
    let bad = user_id_from_decoded(Some(Ok(claims("zz7f1f77bcf86cd799439011")))).err().unwrap();
    assert!(bad.contains("invalid character"));
}

#[test]
fn user_id_from_subject() {
    let id = user_id_from_decoded(Some(Ok(claims(USER_HEX)))).unwrap();
    assert_eq!(id.bytes, [0x50, 0x7f, 0x1f, 0x77, 0xbc, 0xf8, 0x6c, 0xd7, 0x99, 0x43, 0x90, 0x11]);
    let upper = user_id_from_decoded(Some(Ok(claims("507F1F77BCF86CD799439011")))).unwrap();
    assert_eq!(upper.bytes, id.bytes);
}

#[test]
fn parse_hex_identifier() {
    let id = DocId::parse_hex("000000000000000000000001").unwrap();
    assert_eq!(id.bytes, [0, 0, 0, 0, 0, 0, 0, 0, 0, 0, 0, 1]);
    assert!(DocId::parse_hex("00000000000000000000000g").is_err());
    assert!(DocId::parse_hex("0000000000000000000000001").is_err());
}
