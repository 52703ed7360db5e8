//! Bearer tokens: finding them in the `Authorization` header, and what a
//! request is answered once its token has been decoded.
use vstd::prelude::*;

use crate::clock::{is_clock_second, now_seconds};
use crate::crypto::{decode_hs256, hs256_claims, hs256_decode_error};

verus! {

/// The claims of a token: the subject and the expiry (seconds since the
/// Unix epoch).
pub struct Claims {
    pub sub: String,
    pub exp: usize,
}

/// Whether a header byte is visible ASCII or a tab: the bytes that a header
/// value may hold to be read as text.
pub open spec fn is_visible_header_byte(b: u8) -> bool {
    (32 <= b && b < 127) || b == 9
}

/// The bytes of `"Bearer "`.
pub open spec fn bearer_prefix() -> Seq<u8> {
    seq![66u8, 101u8, 97u8, 114u8, 101u8, 114u8, 32u8]
}

/// The token that an `Authorization` header value carries: the header must be
/// text (visible ASCII or tabs) and start with `"Bearer "`; the token is the
/// rest of it.
pub open spec fn bearer_token_of(header: Seq<u8>) -> Option<Seq<u8>> {
    if (forall|i: int| 0 <= i < header.len() ==> is_visible_header_byte(#[trigger] header[i]))
        && header.len() >= 7 && header.subrange(0, 7) == bearer_prefix() {
        Some(header.subrange(7, header.len() as int))
    } else {
        None
    }
}

/// The bytes that an optional buffer holds.
pub open spec fn bytes_of(v: Option<Vec<u8>>) -> Option<Seq<u8>> {
    match v {
        Some(b) => Some(b@),
        None => None,
    }
}

/// The bearer token of a request whose `Authorization` header value is
/// `header` (`None` when the request has no such header).
pub fn bearer_token(header: Option<&[u8]>) -> (res: Option<Vec<u8>>)
    ensures
        bytes_of(res) == match header {
            None => None,
            Some(h) => bearer_token_of(h@),
        },
{
    let h = match header {
        None => {
            return None;
        },
        Some(h) => h,
    };
    let n = h.len();
    let mut i: usize = 0;
    while i < n
        invariant
            header == Some(h),
            n == h@.len(),
            i <= n,
            forall|j: int| 0 <= j < i ==> is_visible_header_byte(#[trigger] h@[j]),
        decreases n - i,
    {
        let b = h[i];
        if !((32 <= b && b < 127) || b == 9) {
            assert(!is_visible_header_byte(h@[i as int]));
            assert(bearer_token_of(h@) is None);
            return None;
        }
        i = i + 1;
    }
    let prefix: [u8; 7] = [66u8, 101u8, 97u8, 114u8, 101u8, 114u8, 32u8];
    if n < 7 {
        return None;
    }
    let mut k: usize = 0;
    while k < 7
        invariant
            header == Some(h),
            n == h@.len(),
            n >= 7,
            k <= 7,
            prefix@ == bearer_prefix(),
            forall|j: int| 0 <= j < k ==> h@[j] == #[trigger] bearer_prefix()[j],
        decreases 7 - k,
    {
        if h[k] != prefix[k] {
            assert(h@.subrange(0, 7)[k as int] != bearer_prefix()[k as int]);
            assert(h@.subrange(0, 7) != bearer_prefix());
            assert(bearer_token_of(h@) is None);
            return None;
        }
        k = k + 1;
    }
    assert(h@.subrange(0, 7) =~= bearer_prefix());
    let mut token: Vec<u8> = Vec::new();
    let mut m: usize = 7;
    while m < n
        invariant
            n == h@.len(),
            7 <= m <= n,
            token@ == h@.subrange(7, m as int),
        decreases n - m,
    {
        token.push(h[m]);
        m = m + 1;
        assert(token@ =~= h@.subrange(7, m as int));
    }
    Some(token)
}

/// A header value made of `"Bearer "` and a token of visible characters
/// carries exactly that token.
pub proof fn bearer_header_carries_its_token(token: Seq<u8>)
    requires
        forall|i: int| 0 <= i < token.len() ==> is_visible_header_byte(#[trigger] token[i]),
    ensures
        bearer_token_of(bearer_prefix() + token) == Some(token),
{
    let h = bearer_prefix() + token;
    assert forall|i: int| 0 <= i < h.len() implies is_visible_header_byte(#[trigger] h[i]) by {
        if i >= 7 {
            assert(h[i] == token[i - 7]);
        }
    }
    assert(h.subrange(0, 7) =~= bearer_prefix());
    assert(h.subrange(7, h.len() as int) =~= token);
}

/// The bytes of an optional header value.
pub open spec fn header_view(header: Option<&[u8]>) -> Option<Seq<u8>> {
    match header {
        Some(h) => Some(h@),
        None => None,
    }
}

/// Whether a token that expires at `exp` has expired at `now` (both in
/// seconds since the epoch): the default validation of jsonwebtoken allows
/// 60 seconds of leeway.
pub open spec fn token_expired(exp: int, now: int) -> bool {
    exp < now - 60
}

/// The text of the error for an expired token (as jsonwebtoken displays it).
pub open spec fn expired_message() -> Seq<char> {
    "ExpiredSignature"@
}

/// What decoding the bearer token of a request with the `Authorization`
/// header value `header` gives under `secret` at the time `now` (seconds):
/// `None` when there is no bearer token, the claims' subject and expiry, or
/// the text of the failure.
pub open spec fn token_outcome(header: Option<Seq<u8>>, secret: Seq<u8>, now: int) -> Option<
    Result<(Seq<char>, int), Seq<char>>,
> {
    match header {
        None => None,
        Some(h) => match bearer_token_of(h) {
            None => None,
            Some(t) => match hs256_claims(t, secret) {
                None => Some(Err(hs256_decode_error(t, secret))),
                Some(claims) => if token_expired(claims.1, now) {
                    Some(Err(expired_message()))
                } else {
                    Some(Ok(claims))
                },
            },
        },
    }
}

/// The subject, expiry or error text that a decoding outcome holds.
pub open spec fn outcome_view(decoded: Option<Result<Claims, String>>) -> Option<
    Result<(Seq<char>, int), Seq<char>>,
> {
    match decoded {
        None => None,
        Some(Ok(c)) => Some(Ok((c.sub@, c.exp as int))),
        Some(Err(m)) => Some(Err(m@)),
    }
}

proof fn lemma_bearer_token_is_ascii(h: Seq<u8>)
    requires
        bearer_token_of(h) is Some,
    ensures
        forall|i: int|
            0 <= i < bearer_token_of(h)->0.len() ==> #[trigger] bearer_token_of(h)->0[i] < 128,
{
    let t = bearer_token_of(h)->0;
    assert forall|i: int| 0 <= i < t.len() implies #[trigger] t[i] < 128 by {
        assert(t[i] == h[i + 7]);
        assert(is_visible_header_byte(h[i + 7]));
    }
}

/// Decodes the bearer token of a request, at the time `now` (seconds since
/// the epoch): the signature must hold under `secret` and the token must not
/// have expired.
pub fn decoded_token_at(header: Option<&[u8]>, secret: &[u8], now: i64) -> (res: Option<
    Result<Claims, String>,
>)
    ensures
        outcome_view(res) == token_outcome(header_view(header), secret@, now as int),
{
    proof {
        reveal_strlit("ExpiredSignature");
    }
    let token = match bearer_token(header) {
        None => {
            return None;
        },
        Some(t) => t,
    };
    proof {
        lemma_bearer_token_is_ascii(header->0@);
    }
    match decode_hs256(token.as_slice(), secret) {
        Err(m) => Some(Err(m)),
        Ok(c) => {
            if (c.exp as i128) < (now as i128) - 60 {
                Some(Err(String::from_str("ExpiredSignature")))
            } else {
                Some(Ok(c))
            }
        },
    }
}

/// Decodes the bearer token of a request at the current time: the outcome is
/// `decoded_token_at`'s for a second that the clock can read; which one is
/// not stated (see `now_millis`).
pub fn decoded_token(header: Option<&[u8]>, secret: &[u8]) -> (res: Option<Result<Claims, String>>)
    ensures
        exists|now: i64|
            is_clock_second(now as int) && outcome_view(res) == #[trigger] token_outcome(
                header_view(header),
                secret@,
                now as int,
            ),
{
    let now = now_seconds();
    decoded_token_at(header, secret, now)
}

/// A correctly signed bearer token is judged by its expiry alone: at the time
/// `now` (seconds since the epoch) a request that carries it is refused as
/// invalid, its decoding failing with "ExpiredSignature", when the expiry lies
/// more than 60 seconds back, and admitted with the token's claims otherwise.
pub proof fn signed_tokens_are_judged_by_expiry(
    header: Seq<u8>,
    secret: Seq<u8>,
    sub: Seq<char>,
    exp: int,
    now: int,
)
    requires
        bearer_token_of(header) matches Some(t) && hs256_claims(t, secret) == Some((sub, exp)),
    ensures
        exp < now - 60 ==> token_outcome(Some(header), secret, now) == Some(
            Err::<(Seq<char>, int), Seq<char>>(expired_message()),
        ),
        exp < now - 60 ==> rejection_of(token_outcome(Some(header), secret, now)) == Some(
            invalid_token_message(),
        ),
        exp >= now - 60 ==> token_outcome(Some(header), secret, now) == Some(
            Ok::<(Seq<char>, int), Seq<char>>((sub, exp)),
        ),
        exp >= now - 60 ==> rejection_of(token_outcome(Some(header), secret, now)) is None,
{
}

/// The text with which a request without a bearer token is refused.
pub open spec fn missing_token_message() -> Seq<char> {
    "缺少认证token"@
}

/// The text with which a request whose token does not decode is refused.
pub open spec fn invalid_token_message() -> Seq<char> {
    "无效的token"@
}

/// The text with which a request is refused, from the outcome of decoding
/// its bearer token (`None` when it has none); `None` when it is admitted.
/// The middleware and the `Claims` extractor both decide by it, so they
/// admit and refuse the same requests with the same texts.
pub open spec fn rejection_of(decoded: Option<Result<(Seq<char>, int), Seq<char>>>) -> Option<
    Seq<char>,
> {
    match decoded {
        None => Some(missing_token_message()),
        Some(Err(_)) => Some(invalid_token_message()),
        Some(Ok(_)) => None,
    }
}

/// What the middleware does with a request.
pub enum Admission {
    /// Hand the request on to the wrapped service.
    Forward,
    /// Answer `401 Unauthorized` with this text.
    Reject(String),
}

/// The middleware factory that guards the application routes.
pub struct AuthMiddleware;

/// The middleware in place around the service `service`.
pub struct AuthMiddlewareService<S> {
    service: S,
}

impl AuthMiddleware {
    /// Wraps `service` so that its requests are admitted by token.
    pub fn new_transform<S>(&self, service: S) -> (res: AuthMiddlewareService<S>)
        ensures
            res.inner() == service,
    {
        AuthMiddlewareService { service }
    }
}

impl<S> AuthMiddlewareService<S> {
    /// The wrapped service.
    pub closed spec fn inner(&self) -> S {
        self.service
    }

    /// The wrapped service, to which admitted requests go.
    pub fn service(&self) -> (res: &S)
        ensures
            *res == self.inner(),
    {
        &self.service
    }

    /// Decides a request from the outcome of decoding its bearer token:
    /// `None` when it has none, else the result of the decoding.
    pub fn decide(&self, decoded: Option<Result<Claims, String>>) -> (res: Admission)
        ensures
            match rejection_of(outcome_view(decoded)) {
                Some(text) => res matches Admission::Reject(m) && m@ == text,
                None => res is Forward,
            },
    {
        proof {
            reveal_strlit("缺少认证token");
            reveal_strlit("无效的token");
        }
        match decoded {
            None => Admission::Reject(String::from_str("缺少认证token")),
            Some(Err(_)) => Admission::Reject(String::from_str("无效的token")),
            Some(Ok(_)) => Admission::Forward,
        }
    }

    /// Decides a request with the `Authorization` header value `header`
    /// (`None` when it has none): it is handed on when its bearer token
    /// decodes under `secret` and has not expired, and refused otherwise.
    pub fn call(&self, header: Option<&[u8]>, secret: &[u8]) -> (res: Admission)
        ensures
            exists|now: i64|
                is_clock_second(now as int) && match #[trigger] rejection_of(
                    token_outcome(header_view(header), secret@, now as int),
                ) {
                    Some(text) => res matches Admission::Reject(m) && m@ == text,
                    None => res is Forward,
                },
    {
        let decoded = decoded_token(header, secret);
        self.decide(decoded)
    }
}

impl Claims {
    /// The claims that a request carries, from the outcome of decoding its
    /// bearer token; the error is the text of a `401 Unauthorized` answer.
    pub fn from_decoded(decoded: Option<Result<Claims, String>>) -> (res: Result<Claims, String>)
        ensures
            match rejection_of(outcome_view(decoded)) {
                Some(text) => res matches Err(m) && m@ == text,
                None => decoded matches Some(Ok(c)) && res == Ok::<Claims, String>(c),
            },
    {
        proof {
            reveal_strlit("缺少认证token");
            reveal_strlit("无效的token");
        }
        match decoded {
            None => Err(String::from_str("缺少认证token")),
            Some(Err(_)) => Err(String::from_str("无效的token")),
            Some(Ok(c)) => Ok(c),
        }
    }

    /// The claims of a request with the `Authorization` header value
    /// `header`, decoded under `secret` at the current time; the error is the
    /// text of a `401 Unauthorized` answer.
    pub fn from_request(header: Option<&[u8]>, secret: &[u8]) -> (res: Result<Claims, String>)
        ensures
            exists|now: i64|
                is_clock_second(now as int) && match #[trigger] token_outcome(
                    header_view(header),
                    secret@,
                    now as int,
                ) {
                    Some(Ok(claims)) => res matches Ok(c) && c.sub@ == claims.0 && c.exp as int
                        == claims.1,
                    outcome => res matches Err(m) && Some(m@) == rejection_of(outcome),
                },
    {
        let decoded = decoded_token(header, secret);
        Claims::from_decoded(decoded)
    }
}

} // verus!
