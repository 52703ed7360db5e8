//! Registration, login and logout.
use vstd::prelude::*;

use crate::clock::{is_clock_millis, now_millis};
use crate::crypto::{
    ascii_bytes, bcrypt_hash, bcrypt_verdict, bcrypt_verify, encode_hs256, hs256_claims, hs256_token,
    is_token_text,
};
use crate::handler::{is_error_of, ApiResult};
use crate::middleware::auth::Claims;
use crate::model::auth::{LoginRequest, LoginResponse, Message, RegisterRequest, TokenResponse, User};
use crate::model::object_id::{hex_form_round_trips, hex_of_bytes, is_object_id_hex, object_id_bytes};

verus! {

/// The HMAC secret with which login signs its tokens: the bytes of `"secret"`.
pub open spec fn token_secret() -> Seq<u8> {
    seq![115u8, 101u8, 99u8, 114u8, 101u8, 116u8]
}

/// The secret of `token_secret`, for the code that decodes the tokens.
pub fn token_secret_bytes() -> (res: [u8; 6])
    ensures
        res@ == token_secret(),
{
    let s: [u8; 6] = [115u8, 101u8, 99u8, 114u8, 101u8, 116u8];
    assert(s@ =~= token_secret());
    s
}

/// How long a token lives, in seconds: 24 hours.
pub open spec fn token_lifetime() -> i64 {
    86400
}

/// The expiry written into a token issued at `now_millis` (milliseconds since
/// the epoch): the whole second of issue plus 24 hours, as a `usize`.
pub open spec fn login_expiry(now_millis: i64) -> usize {
    (now_millis / 1000 + 86400) as usize
}

/// The subject of the tokens issued to `u`: the hexadecimal form of its
/// identifier, which is how the application endpoints read it back; the
/// e-mail for a user that has no identifier.
pub open spec fn login_subject(u: User) -> Seq<char> {
    match u.id {
        Some(id) => hex_of_bytes(id.bytes@),
        None => u.email@,
    }
}

/// Whether bcrypt accepts `password` against the stored `hash`; a malformed
/// hash accepts nothing.
pub open spec fn password_accepted(password: Seq<char>, hash: Seq<char>) -> bool {
    bcrypt_verdict(password, hash) == Some(true)
}

/// Whether `res` is the reply to a login with `password`, given what the
/// lookup of the user by e-mail gave, for a token issued at `now`.
pub open spec fn is_login_reply(
    found: Result<Option<User>, String>,
    password: Seq<char>,
    res: ApiResult<LoginResponse>,
    now: i64,
) -> bool {
    match found {
        Err(e) => is_error_of(res, e@),
        Ok(None) => is_error_of(res, "用户不存在"@),
        Ok(Some(u)) => is_verdict_reply(u, bcrypt_verdict(password, u.password_hash@), res, now),
    }
}

/// Whether `res` is the reply to a login of the found user `u` once bcrypt
/// has judged the password against its stored hash (`verdict`, `None` for a
/// malformed hash), for a token issued at `now`: only `Some(true)` logs in.
pub open spec fn is_verdict_reply(
    u: User,
    verdict: Option<bool>,
    res: ApiResult<LoginResponse>,
    now: i64,
) -> bool {
    if verdict == Some(true) {
        &&& res.code == 0
        &&& res.msg@ == "success"@
        &&& res.data matches Some(d)
        &&& d.user == u
        &&& d.token.expires_in == token_lifetime()
        &&& d.token.token@ == hs256_token(login_subject(u), login_expiry(now) as int, token_secret())
        &&& is_token_text(d.token.token@)
        &&& hs256_claims(ascii_bytes(d.token.token@), token_secret()) == Some(
            (login_subject(u), login_expiry(now) as int),
        )
    } else {
        is_error_of(res, "密码错误"@)
    }
}

fn expiry_at(now: i64) -> (res: usize)
    ensures
        res == login_expiry(now),
{
    let secs = now.checked_div_euclid(1000).unwrap();
    assert(i64::MIN / 1000 <= secs <= i64::MAX / 1000);
    let exp = secs + 86400;
    exp as usize
}

/// The login decision at the time `now` (milliseconds since the epoch), once
/// the user with the request's e-mail has been looked up.
pub fn login_at(found: Result<Option<User>, String>, form: &LoginRequest, now: i64) -> (res:
    ApiResult<LoginResponse>)
    ensures
        is_login_reply(found, form.password@, res, now),
{
    proof {
        reveal_strlit("success");
        reveal_strlit("用户不存在");
        reveal_strlit("密码错误");
    }
    match found {
        Err(e) => ApiResult::error(e.as_str()),
        Ok(None) => ApiResult::error("用户不存在"),
        Ok(Some(user)) => {
            let verdict = bcrypt_verify(form.password.as_str(), user.password_hash.as_str());
            login_checked(user, verdict, now)
        },
    }
}

/// The login decision for the found user `user` once bcrypt has judged the
/// password (`verdict`: `Some(b)` for `bcrypt::verify`'s `Ok(b)`, `None` for
/// its error), at the time `now` (milliseconds since the epoch): a token
/// for the user when the verdict is `Some(true)`, "密码错误" otherwise.
pub fn login_checked(user: User, verdict: Option<bool>, now: i64) -> (res: ApiResult<LoginResponse>)
    ensures
        is_verdict_reply(user, verdict, res, now),
{
    proof {
        reveal_strlit("success");
        reveal_strlit("密码错误");
    }
    let accepted = match verdict {
        Some(b) => b,
        None => false,
    };
    if !accepted {
        return ApiResult::error("密码错误");
    }
    let sub = match user.id {
        Some(id) => id.to_hex(),
        None => user.email.clone(),
    };
    let claims = Claims { sub, exp: expiry_at(now) };
    let secret = token_secret_bytes();
    let token = encode_hs256(&claims, &secret).unwrap();
    let response = LoginResponse { user, token: TokenResponse { token, expires_in: 86400 } };
    ApiResult::success(response)
}

/// Logs in: checks the password against the user found by e-mail and, when
/// bcrypt accepts it, issues a token for the user (see `login_subject`) that
/// expires 24 hours after the current time.  The reply is `login_at`'s for a
/// time that the clock can read; which one is not stated (see `now_millis`).
pub fn login(found: Result<Option<User>, String>, form: &LoginRequest) -> (res: ApiResult<
    LoginResponse,
>)
    ensures
        exists|now: i64|
            is_clock_millis(now as int) && #[trigger] is_login_reply(found, form.password@, res, now),
{
    let now = now_millis();
    login_at(found, form, now)
}

/// The reply to a logout: success with the message `"登出成功"`.
pub fn logout() -> (res: ApiResult<Message>)
    ensures
        res.code == 0,
        res.msg@ == "success"@,
        res.data matches Some(m) && m.message@ == "登出成功"@,
{
    ApiResult::success(Message { message: String::from_str("登出成功") })
}

/// What registration does next.
pub enum RegisterStep {
    /// Answer with this envelope; nothing is stored.
    Reply(ApiResult<Message>),
    /// Store this user, then answer with `register_finish`.
    Insert(User),
}

/// Whether `u` is the user that registration stores for `form`, with the
/// bcrypt hash `hash`, at the time `now`.
pub open spec fn is_new_user(u: User, form: RegisterRequest, hash: Seq<char>, now: i64) -> bool {
    &&& u.id is None
    &&& u.email == form.email
    &&& u.password_hash@ == hash
    &&& u.created_at == now
    &&& u.updated_at == now
}

/// The registration decision once the user with the request's e-mail has been
/// looked up, the password hashed (`hashed`) and the time read (`now`).  A
/// found user refuses the request; an error of the lookup does not.
pub fn register_with(
    existing: Result<Option<User>, String>,
    form: &RegisterRequest,
    hashed: Result<String, String>,
    now: i64,
) -> (res: RegisterStep)
    ensures
        match existing {
            Ok(Some(_)) => res matches RegisterStep::Reply(r) && is_error_of(r, "用户已存在"@),
            _ => match hashed {
                Err(e) => res matches RegisterStep::Reply(r) && is_error_of(r, e@),
                Ok(h) => res matches RegisterStep::Insert(u) && is_new_user(u, *form, h@, now),
            },
        },
{
    proof {
        reveal_strlit("用户已存在");
    }
    if let Ok(Some(_)) = existing {
        return RegisterStep::Reply(ApiResult::error("用户已存在"));
    }
    match hashed {
        Err(e) => RegisterStep::Reply(ApiResult::error(e.as_str())),
        Ok(password_hash) => RegisterStep::Insert(
            User {
                id: None,
                email: form.email.clone(),
                password_hash,
                created_at: now,
                updated_at: now,
            },
        ),
    }
}

/// Registers: refuses an e-mail that is already taken, else hashes the
/// password with bcrypt (cost 12) and yields the user to store.  The stored
/// hash accepts the registered password, so a later login with it succeeds.
pub fn register(existing: Result<Option<User>, String>, form: &RegisterRequest) -> (res:
    RegisterStep)
    ensures
        existing matches Ok(Some(_)) ==> res matches RegisterStep::Reply(r) && is_error_of(
            r,
            "用户已存在"@,
        ),
        !(existing matches Ok(Some(_))) ==> match res {
            RegisterStep::Reply(r) => {
                &&& r.code == 1
                &&& r.data is None
                &&& r.msg@ != "用户已存在"@
                &&& r.msg@.len() >= 12
                &&& r.msg@.subrange(0, 12) == "Rand error: "@
            },
            RegisterStep::Insert(u) => {
                &&& u.id is None
                &&& u.email == form.email
                &&& u.created_at == u.updated_at
                &&& is_clock_millis(u.created_at as int)
                &&& password_accepted(form.password@, u.password_hash@)
                &&& u.password_hash@.len() == 60
                &&& u.password_hash@.subrange(0, 7) == "$2b$12$"@
            },
        },
{
    proof {
        reveal_strlit("用户已存在");
    }
    if let Ok(Some(_)) = existing {
        return RegisterStep::Reply(ApiResult::error("用户已存在"));
    }
    let hashed = bcrypt_hash(form.password.as_str());
    let now = now_millis();
    proof {
        reveal_strlit("Rand error: ");
    }
    register_with(existing, form, hashed, now)
}

/// The reply once the new user has been stored (`Ok`) or not (`Err`).
pub fn register_finish(inserted: Result<(), String>) -> (res: ApiResult<Message>)
    ensures
        match inserted {
            Ok(_) => {
                &&& res.code == 0
                &&& res.msg@ == "success"@
                &&& res.data matches Some(m) && m.message@ == "注册成功"@
            },
            Err(e) => is_error_of(res, e@),
        },
{
    match inserted {
        Ok(_) => ApiResult::success(Message { message: String::from_str("注册成功") }),
        Err(e) => ApiResult::error(e.as_str()),
    }
}

/// A user whose stored hash accepts the password (as registration makes it,
/// see `register`) logs in with that password: the reply is a success that
/// carries the user and a token for the user's subject.
pub proof fn registered_password_logs_in(
    u: User,
    password: Seq<char>,
    res: ApiResult<LoginResponse>,
    now: i64,
)
    requires
        password_accepted(password, u.password_hash@),
        is_login_reply(Ok(Some(u)), password, res, now),
    ensures
        res.code == 0,
        res.data matches Some(d) && d.user == u && d.token.token@ == hs256_token(
            login_subject(u),
            login_expiry(now) as int,
            token_secret(),
        ),
{
}

/// The subject of a token issued to a stored user (one with an identifier)
/// is read back by the application endpoints (`get_user_id_from_token`) as
/// that user's identifier.
pub proof fn login_subject_names_the_user(u: User)
    requires
        u.id is Some,
    ensures
        is_object_id_hex(login_subject(u)),
        object_id_bytes(login_subject(u)) == u.id->0.bytes@,
{
    hex_form_round_trips(u.id->0);
}

/// A login issues no token unless a user was found whose stored hash
/// accepts the password: every other reply is a failure without data.
pub proof fn only_accepted_passwords_get_tokens(
    found: Result<Option<User>, String>,
    password: Seq<char>,
    res: ApiResult<LoginResponse>,
    now: i64,
)
    requires
        is_login_reply(found, password, res, now),
        !(found matches Ok(Some(u)) && password_accepted(password, u.password_hash@)),
    ensures
        res.code == 1,
        res.data is None,
{
}

/// Whether no two users of `users` share an e-mail.
pub open spec fn emails_unique(users: Seq<User>) -> bool {
    forall|i: int, j: int|
        0 <= i < users.len() && 0 <= j < users.len() && i != j ==> #[trigger] users[i].email@
            != #[trigger] users[j].email@
}

/// Registration keeps e-mails unique: when the lookup by the request's e-mail
/// answered that no stored user has it, the user that `register` stores
/// (whose e-mail is the request's) joins the stored users without sharing an
/// e-mail with any of them.
pub proof fn registration_keeps_emails_unique(users: Seq<User>, form: RegisterRequest, u: User)
    requires
        emails_unique(users),
        forall|i: int| 0 <= i < users.len() ==> #[trigger] users[i].email@ != form.email@,
        u.email == form.email,
    ensures
        emails_unique(users.push(u)),
{
    let all = users.push(u);
    assert forall|i: int, j: int|
        0 <= i < all.len() && 0 <= j < all.len() && i != j implies #[trigger] all[i].email@
        != #[trigger] all[j].email@ by {
        if i < users.len() && j < users.len() {
            assert(all[i] == users[i] && all[j] == users[j]);
        } else if i < users.len() {
            assert(all[i] == users[i]);
        } else {
            assert(all[j] == users[j]);
        }
    }
}

/// A token issued at a time after the epoch expires 86400 seconds after the
/// whole second of issue, when that fits in a `usize`.
pub proof fn tokens_expire_a_day_after_issue(now: i64)
    requires
        now >= 0,
        now / 1000 + 86400 <= usize::MAX,
    ensures
        login_expiry(now) as int == now / 1000 + 86400,
{
}

} // verus!
