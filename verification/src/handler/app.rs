//! The decisions of the application endpoints.  Each endpoint authenticates
//! the caller from the token, then takes one or two steps against the `apps`
//! collection; the functions here say what to ask the collection and what to
//! answer from what it returned.
use vstd::prelude::*;

use crate::clock::{is_clock_millis, is_clock_second, now_millis, now_seconds};
use crate::crypto::{ascii_bytes, hs256_claims, is_token_char};
use crate::handler::auth::{
    is_login_reply, login_expiry, login_subject, login_subject_names_the_user, password_accepted,
    token_secret, token_secret_bytes,
};
use crate::handler::ApiResult;
use crate::middleware::auth::{
    bearer_header_carries_its_token, bearer_prefix, bearer_token_of, decoded_token_at,
    expired_message, header_view, invalid_token_message, is_visible_header_byte, outcome_view,
    rejection_of, signed_tokens_are_judged_by_expiry, token_expired, token_outcome, Claims,
};
use crate::model::auth::{LoginResponse, User};
use crate::model::app::{App, AppFilter, AppUpdate, CreateAppRequest, UpdateAppRequest};
use crate::model::object_id::{is_object_id_hex, object_id_bytes, object_id_parse_error, DocId};

verus! {

/// The status of an HTTP answer.
#[derive(PartialEq, Eq, Structural, Clone, Copy, Debug)]
pub enum Status {
    Success,
    Unauthorized,
    NotFound,
    InternalServerError,
}

/// The JSON body of an HTTP answer.
pub enum ReplyBody {
    App(App),
    Apps(Vec<App>),
    /// JSON `null`.
    Null,
    /// A JSON string.
    Text(String),
}

/// An HTTP answer: its status and JSON body.
pub struct HttpReply {
    pub status: Status,
    pub body: ReplyBody,
}

/// Whether `r` has the status `status` and the JSON string `text` as body.
pub open spec fn is_text_reply(r: HttpReply, status: Status, text: Seq<char>) -> bool {
    &&& r.status == status
    &&& r.body matches ReplyBody::Text(t) && t@ == text
}

fn text_reply(status: Status, text: String) -> (res: HttpReply)
    ensures
        is_text_reply(res, status, text@),
{
    HttpReply { status, body: ReplyBody::Text(text) }
}

/// The text with which a request without a usable `Authorization` header is
/// refused.
pub open spec fn missing_header_message() -> Seq<char> {
    "Missing or invalid Authorization header"@
}

/// The text with which an owner-scoped lookup that found nothing is answered.
pub open spec fn not_owned_message() -> Seq<char> {
    "App not found or not owned by user"@
}

/// The caller's user identifier, or the text of a `401` answer, from the
/// outcome of decoding its bearer token (see `token_outcome`): the token's
/// subject read as the hexadecimal form of an identifier.
pub open spec fn user_id_of(outcome: Option<Result<(Seq<char>, int), Seq<char>>>) -> Result<
    Seq<u8>,
    Seq<char>,
> {
    match outcome {
        None => Err(missing_header_message()),
        Some(Err(m)) => Err(m),
        Some(Ok(claims)) => if is_object_id_hex(claims.0) {
            Ok(object_id_bytes(claims.0))
        } else {
            Err(object_id_parse_error(claims.0))
        },
    }
}

/// The identifier bytes or error text that a result holds.
pub open spec fn id_result_view(r: Result<DocId, String>) -> Result<Seq<u8>, Seq<char>> {
    match r {
        Ok(id) => Ok(id.bytes@),
        Err(m) => Err(m@),
    }
}

/// The caller's user identifier, from the outcome of decoding the bearer
/// token (`None` when the request has none).
pub fn user_id_from_decoded(decoded: Option<Result<Claims, String>>) -> (res: Result<DocId, String>)
    ensures
        id_result_view(res) == user_id_of(outcome_view(decoded)),
{
    proof {
        reveal_strlit("Missing or invalid Authorization header");
    }
    match decoded {
        None => Err(String::from_str("Missing or invalid Authorization header")),
        Some(Err(e)) => Err(e),
        Some(Ok(claims)) => DocId::parse_hex(claims.sub.as_str()),
    }
}

/// The caller's user identifier at the time `now` (seconds since the epoch),
/// from the `Authorization` header value `header`: its bearer token must be
/// signed with `token_secret`, unexpired, and name the user by the
/// hexadecimal form of its identifier.
pub fn get_user_id_from_token_at(header: Option<&[u8]>, now: i64) -> (res: Result<DocId, String>)
    ensures
        id_result_view(res) == user_id_of(
            token_outcome(header_view(header), token_secret(), now as int),
        ),
{
    let secret = token_secret_bytes();
    let decoded = decoded_token_at(header, &secret, now);
    user_id_from_decoded(decoded)
}

/// The caller's user identifier at the current time (see
/// `get_user_id_from_token_at`).
pub fn get_user_id_from_token(header: Option<&[u8]>) -> (res: Result<DocId, String>)
    ensures
        exists|now: i64|
            is_clock_second(now as int) && id_result_view(res) == user_id_of(
                #[trigger] token_outcome(header_view(header), token_secret(), now as int),
            ),
{
    let now = now_seconds();
    get_user_id_from_token_at(header, now)
}

proof fn lemma_login_token_header(u: User, password: Seq<char>, res: ApiResult<LoginResponse>, issued: i64)
    requires
        password_accepted(password, u.password_hash@),
        is_login_reply(Ok(Some(u)), password, res, issued),
    ensures
        res.data matches Some(d) && bearer_token_of(bearer_prefix() + ascii_bytes(d.token.token@))
            == Some(ascii_bytes(d.token.token@)),
{
    let d = res.data->0;
    let t = d.token.token@;
    let b = ascii_bytes(t);
    assert forall|i: int| 0 <= i < b.len() implies is_visible_header_byte(#[trigger] b[i]) by {
        assert(is_token_char(t[i]));
        assert((t[i] as u8) as int == t[i] as int);
    }
    bearer_header_carries_its_token(b);
}

/// The token that a successful login issues admits its holder through the
/// middleware (with the secret `"secret"`) at every time up to 60 seconds
/// after its expiry: a request that presents it as `Bearer <token>` is
/// handed on, not refused.
pub proof fn login_token_is_admitted(
    u: User,
    password: Seq<char>,
    res: ApiResult<LoginResponse>,
    issued: i64,
    now: int,
)
    requires
        password_accepted(password, u.password_hash@),
        is_login_reply(Ok(Some(u)), password, res, issued),
        now <= login_expiry(issued) as int + 60,
    ensures
        res.data matches Some(d) && rejection_of(
            token_outcome(Some(bearer_prefix() + ascii_bytes(d.token.token@)), token_secret(), now),
        ) is None,
{
    lemma_login_token_header(u, password, res, issued);
}

/// The token that login issues is read back, until it expires, as the
/// identifier of the user it was issued to: a request that presents it as
/// `Bearer <token>` is authenticated as that user.
pub proof fn login_token_authenticates_its_user(
    u: User,
    password: Seq<char>,
    res: ApiResult<LoginResponse>,
    issued: i64,
    now: int,
)
    requires
        u.id is Some,
        password_accepted(password, u.password_hash@),
        is_login_reply(Ok(Some(u)), password, res, issued),
        !token_expired(login_expiry(issued) as int, now),
    ensures
        res.data matches Some(d) && user_id_of(
            token_outcome(
                Some(bearer_prefix() + ascii_bytes(d.token.token@)),
                token_secret(),
                now,
            ),
        ) == Ok::<Seq<u8>, Seq<char>>(u.id->0.bytes@),
{
    lemma_login_token_header(u, password, res, issued);
    login_subject_names_the_user(u);
}

/// A bearer token correctly signed with `token_secret` whose expiry lies more
/// than 60 seconds before the time `now` (seconds since the epoch)
/// authenticates nobody: the caller is refused with "ExpiredSignature",
/// whatever user the token names.
pub proof fn expired_tokens_do_not_authenticate(
    header: Seq<u8>,
    sub: Seq<char>,
    exp: int,
    now: int,
)
    requires
        bearer_token_of(header) matches Some(t) && hs256_claims(t, token_secret()) == Some(
            (sub, exp),
        ),
        exp < now - 60,
    ensures
        user_id_of(token_outcome(Some(header), token_secret(), now)) == Err::<Seq<u8>, Seq<char>>(
            expired_message(),
        ),
{
    signed_tokens_are_judged_by_expiry(header, token_secret(), sub, exp, now);
}

/// The token that a login at the time `issued` (milliseconds since the epoch)
/// issues expires 24 hours after the whole second of the login: its expiry
/// claim is that second plus 86400, and at every time more than 60 seconds
/// past it a request that presents the token is refused by the middleware
/// ("无效的token") and by the application endpoints ("ExpiredSignature").
/// (A login before 1969-12-31 would give an expiry below zero, which does not
/// fit the `usize` claim; such times are left out.)
pub proof fn login_tokens_expire_a_day_after_login(
    u: User,
    password: Seq<char>,
    res: ApiResult<LoginResponse>,
    issued: i64,
    now: int,
)
    requires
        password_accepted(password, u.password_hash@),
        is_login_reply(Ok(Some(u)), password, res, issued),
        0 <= issued / 1000 + 86400 <= usize::MAX,
        now > issued / 1000 + 86400 + 60,
    ensures
        res.data matches Some(d) && hs256_claims(ascii_bytes(d.token.token@), token_secret())
            == Some((login_subject(u), issued / 1000 + 86400)),
        res.data matches Some(d) && rejection_of(
            token_outcome(
                Some(bearer_prefix() + ascii_bytes(d.token.token@)),
                token_secret(),
                now,
            ),
        ) == Some(invalid_token_message()),
        res.data matches Some(d) && user_id_of(
            token_outcome(
                Some(bearer_prefix() + ascii_bytes(d.token.token@)),
                token_secret(),
                now,
            ),
        ) == Err::<Seq<u8>, Seq<char>>(expired_message()),
{
    lemma_login_token_header(u, password, res, issued);
    let d = res.data->0;
    let h = bearer_prefix() + ascii_bytes(d.token.token@);
    assert(login_expiry(issued) as int == issued / 1000 + 86400);
    signed_tokens_are_judged_by_expiry(
        h,
        token_secret(),
        login_subject(u),
        issued / 1000 + 86400,
        now,
    );
}

/// The answer to a caller that could not be authenticated: `401` with the
/// reason as text.
pub fn unauthorized(reason: String) -> (res: HttpReply)
    ensures
        is_text_reply(res, Status::Unauthorized, reason@),
{
    text_reply(Status::Unauthorized, reason)
}

/// The answer to a failed call of the collection: `500` with its error.
pub fn internal_error(error: String) -> (res: HttpReply)
    ensures
        is_text_reply(res, Status::InternalServerError, error@),
{
    text_reply(Status::InternalServerError, error)
}

/// The selection of all applications of `owner`.
pub open spec fn owned_by(owner: DocId) -> AppFilter {
    AppFilter { id: None, owner_id: Some(owner) }
}

/// The selection of the application `id`, provided `owner` owns it.
pub open spec fn owned_app(id: DocId, owner: DocId) -> AppFilter {
    AppFilter { id: Some(id), owner_id: Some(owner) }
}

/// The selection of the application `id`, whoever owns it.
pub open spec fn by_id(id: DocId) -> AppFilter {
    AppFilter { id: Some(id), owner_id: None }
}

/// What an endpoint does next when it has one lookup to make.
pub enum LookupStep {
    /// Answer now.
    Reply(HttpReply),
    /// Look up with this selection.
    Find(AppFilter),
}

/// What creating an application does after authentication.
pub enum CreateStep {
    Reply(HttpReply),
    /// Insert this application, then go on with `create_app_inserted`.
    Insert(App),
}

/// The first step of creating an application at the times `created_at` and
/// `updated_at` (milliseconds since the epoch): the new application belongs
/// to the caller and has no identifier yet.
pub fn create_app_with(
    user: Result<DocId, String>,
    payload: &CreateAppRequest,
    created_at: i64,
    updated_at: i64,
) -> (res: CreateStep)
    ensures
        match user {
            Err(e) => res matches CreateStep::Reply(r) && is_text_reply(r, Status::Unauthorized, e@),
            Ok(owner) => res == CreateStep::Insert(
                App {
                    id: None,
                    name: payload.name,
                    description: payload.description,
                    owner_id: owner,
                    created_at,
                    updated_at,
                },
            ),
        },
{
    match user {
        Err(e) => CreateStep::Reply(unauthorized(e)),
        Ok(owner) => CreateStep::Insert(
            App {
                id: None,
                name: payload.name.clone(),
                description: payload.description.clone(),
                owner_id: owner,
                created_at,
                updated_at,
            },
        ),
    }
}

/// The first step of creating an application, stamped with the current time.
pub fn create_app(user: Result<DocId, String>, payload: &CreateAppRequest) -> (res: CreateStep)
    ensures
        match user {
            Err(e) => res matches CreateStep::Reply(r) && is_text_reply(r, Status::Unauthorized, e@),
            Ok(owner) => res matches CreateStep::Insert(app) && {
                &&& app.id is None
                &&& app.name == payload.name
                &&& app.description == payload.description
                &&& app.owner_id == owner
                &&& is_clock_millis(app.created_at as int)
                &&& is_clock_millis(app.updated_at as int)
            },
        },
{
    let created_at = now_millis();
    let updated_at = now_millis();
    create_app_with(user, payload, created_at, updated_at)
}

/// After the insertion: on success, look the new application up by the
/// identifier that the collection gave it; on failure, answer `500`.
pub fn create_app_inserted(inserted: Result<DocId, String>) -> (res: LookupStep)
    ensures
        match inserted {
            Err(e) => res matches LookupStep::Reply(r) && is_text_reply(
                r,
                Status::InternalServerError,
                e@,
            ),
            Ok(id) => res == LookupStep::Find(by_id(id)),
        },
{
    match inserted {
        Err(e) => LookupStep::Reply(internal_error(e)),
        Ok(id) => LookupStep::Find(AppFilter { id: Some(id), owner_id: None }),
    }
}

/// The answer once the new application has been looked up.
pub fn create_app_found(found: Result<Option<App>, String>) -> (res: HttpReply)
    ensures
        match found {
            Ok(Some(app)) => res == (HttpReply { status: Status::Success, body: ReplyBody::App(app) }),
            Ok(None) => is_text_reply(res, Status::NotFound, "App not found"@),
            Err(e) => is_text_reply(res, Status::InternalServerError, e@),
        },
{
    proof {
        reveal_strlit("App not found");
    }
    match found {
        Ok(Some(app)) => HttpReply { status: Status::Success, body: ReplyBody::App(app) },
        Ok(None) => text_reply(Status::NotFound, String::from_str("App not found")),
        Err(e) => internal_error(e),
    }
}

/// The query of a list request: the page (from 1) and the page size.
pub struct ListAppsQuery {
    pub page: Option<u64>,
    pub page_size: Option<u64>,
}

/// The number of documents skipped before page `page` of `size` documents.
pub open spec fn page_skip(page: int, size: int) -> int {
    (page - 1) * size
}

impl ListAppsQuery {
    /// The page asked for; the first when none is given.
    pub open spec fn page_number(self) -> u64 {
        match self.page {
            Some(p) => p,
            None => 1,
        }
    }

    /// The page size asked for; 10 when none is given.
    pub open spec fn page_length(self) -> u64 {
        match self.page_size {
            Some(s) => s,
            None => 10,
        }
    }

    /// Whether the number of documents to skip is a `u64`: the page is at
    /// least 1 and `(page - 1) * size` does not overflow.
    pub open spec fn has_window(self) -> bool {
        &&& self.page_number() >= 1
        &&& page_skip(self.page_number() as int, self.page_length() as int) <= u64::MAX
    }

    /// Tells whether `window` may be called on this query.
    pub fn window_defined(&self) -> (res: bool)
        ensures
            res == self.has_window(),
    {
        let page = match self.page {
            Some(p) => p,
            None => 1,
        };
        let size = match self.page_size {
            Some(s) => s,
            None => 10,
        };
        if page < 1 {
            return false;
        }
        (page - 1).checked_mul(size).is_some()
    }

    /// The documents to skip and the number to return for this page: the
    /// size is passed on as a signed limit, as the driver takes it.
    pub fn window(&self) -> (res: (u64, i64))
        requires
            self.has_window(),
        ensures
            res.0 == page_skip(self.page_number() as int, self.page_length() as int),
            res.1 == self.page_length() as i64,
    {
        let page = match self.page {
            Some(p) => p,
            None => 1,
        };
        let size = match self.page_size {
            Some(s) => s,
            None => 10,
        };
        let skip = (page - 1) * size;
        (skip, size as i64)
    }
}

/// What listing does after authentication.
pub enum ListStep {
    Reply(HttpReply),
    /// Find the applications that the selection selects, skipping `skip` of
    /// them and returning at most `limit`.
    Find { filter: AppFilter, skip: u64, limit: i64 },
}

/// The first step of listing the caller's applications.
pub fn list_apps(user: Result<DocId, String>, query: &ListAppsQuery) -> (res: ListStep)
    requires
        user is Ok ==> query.has_window(),
    ensures
        match user {
            Err(e) => res matches ListStep::Reply(r) && is_text_reply(r, Status::Unauthorized, e@),
            Ok(owner) => res matches ListStep::Find { filter, skip, limit } && {
                &&& filter == owned_by(owner)
                &&& skip == page_skip(query.page_number() as int, query.page_length() as int)
                &&& limit == query.page_length() as i64
            },
        },
{
    match user {
        Err(e) => ListStep::Reply(unauthorized(e)),
        Ok(owner) => {
            let (skip, limit) = query.window();
            ListStep::Find { filter: AppFilter { id: None, owner_id: Some(owner) }, skip, limit }
        },
    }
}

/// The answer once the find of the list has been issued: none when it
/// succeeded (the documents are then read from its cursor), `500` with the
/// error's text when it failed.
pub fn list_apps_opened(opened: Result<(), String>) -> (res: Option<HttpReply>)
    ensures
        match opened {
            Ok(_) => res is None,
            Err(e) => res matches Some(r) && is_text_reply(r, Status::InternalServerError, e@),
        },
{
    match opened {
        Ok(_) => None,
        Err(e) => Some(internal_error(e)),
    }
}

/// Whether to read another document from the cursor, given what advancing
/// it gave: only a successful advance onto a document goes on.
pub fn keep_reading(advanced: &Result<bool, String>) -> (res: bool)
    ensures
        res == (*advanced matches Ok(true)),
{
    match advanced {
        Ok(b) => *b,
        Err(_) => false,
    }
}

/// Adds the current document to the list when it could be read as an
/// application; a document that could not is passed over.
pub fn collect_document(apps: &mut Vec<App>, doc: Result<App, String>)
    ensures
        final(apps)@ == match doc {
            Ok(app) => old(apps)@.push(app),
            Err(_) => old(apps)@,
        },
{
    match doc {
        Ok(app) => apps.push(app),
        Err(_) => {},
    }
}

/// The answer with the applications read: `200` with the list.
pub fn list_apps_found(apps: Vec<App>) -> (res: HttpReply)
    ensures
        res == (HttpReply { status: Status::Success, body: ReplyBody::Apps(apps) }),
{
    HttpReply { status: Status::Success, body: ReplyBody::Apps(apps) }
}

/// The first step of an endpoint that reads or deletes one of the caller's
/// applications: select it by identifier and owner.
pub fn owned_app_lookup(user: Result<DocId, String>, app_id: DocId) -> (res: LookupStep)
    ensures
        match user {
            Err(e) => res matches LookupStep::Reply(r) && is_text_reply(r, Status::Unauthorized, e@),
            Ok(owner) => res == LookupStep::Find(owned_app(app_id, owner)),
        },
{
    match user {
        Err(e) => LookupStep::Reply(unauthorized(e)),
        Ok(owner) => LookupStep::Find(AppFilter { id: Some(app_id), owner_id: Some(owner) }),
    }
}

/// The first step of reading one of the caller's applications.
pub fn get_app(user: Result<DocId, String>, app_id: DocId) -> (res: LookupStep)
    ensures
        match user {
            Err(e) => res matches LookupStep::Reply(r) && is_text_reply(r, Status::Unauthorized, e@),
            Ok(owner) => res == LookupStep::Find(owned_app(app_id, owner)),
        },
{
    owned_app_lookup(user, app_id)
}

/// The answer to reading or updating one of the caller's applications, from
/// what the owner-scoped lookup gave.
pub fn owned_app_found(found: Result<Option<App>, String>) -> (res: HttpReply)
    ensures
        match found {
            Ok(Some(app)) => res == (HttpReply { status: Status::Success, body: ReplyBody::App(app) }),
            Ok(None) => is_text_reply(res, Status::NotFound, not_owned_message()),
            Err(e) => is_text_reply(res, Status::InternalServerError, e@),
        },
{
    proof {
        reveal_strlit("App not found or not owned by user");
    }
    match found {
        Ok(Some(app)) => HttpReply { status: Status::Success, body: ReplyBody::App(app) },
        Ok(None) => text_reply(
            Status::NotFound,
            String::from_str("App not found or not owned by user"),
        ),
        Err(e) => internal_error(e),
    }
}

/// What updating does after authentication.
pub enum UpdateStep {
    Reply(HttpReply),
    /// Apply the update to the application that the selection selects and
    /// answer with the result (`owned_app_found`).
    Update(AppFilter, AppUpdate),
}

/// The first step of updating one of the caller's applications at the time
/// `now`: the update sets the fields given and the time of the update.
pub fn update_app_with(
    user: Result<DocId, String>,
    app_id: DocId,
    payload: &UpdateAppRequest,
    now: i64,
) -> (res: UpdateStep)
    ensures
        match user {
            Err(e) => res matches UpdateStep::Reply(r) && is_text_reply(r, Status::Unauthorized, e@),
            Ok(owner) => res == UpdateStep::Update(
                owned_app(app_id, owner),
                AppUpdate { name: payload.name, description: payload.description, updated_at: now },
            ),
        },
{
    match user {
        Err(e) => UpdateStep::Reply(unauthorized(e)),
        Ok(owner) => {
            let name = match &payload.name {
                Some(n) => Some(n.clone()),
                None => None,
            };
            let description = match &payload.description {
                Some(d) => Some(d.clone()),
                None => None,
            };
            UpdateStep::Update(
                AppFilter { id: Some(app_id), owner_id: Some(owner) },
                AppUpdate { name, description, updated_at: now },
            )
        },
    }
}

/// The first step of updating one of the caller's applications, stamped with
/// the current time.
pub fn update_app(user: Result<DocId, String>, app_id: DocId, payload: &UpdateAppRequest) -> (res:
    UpdateStep)
    ensures
        match user {
            Err(e) => res matches UpdateStep::Reply(r) && is_text_reply(r, Status::Unauthorized, e@),
            Ok(owner) => res matches UpdateStep::Update(filter, update) && {
                &&& filter == owned_app(app_id, owner)
                &&& update.name == payload.name
                &&& update.description == payload.description
                &&& is_clock_millis(update.updated_at as int)
            },
        },
{
    let now = now_millis();
    update_app_with(user, app_id, payload, now)
}

/// The first step of deleting one of the caller's applications.
pub fn delete_app(user: Result<DocId, String>, app_id: DocId) -> (res: LookupStep)
    ensures
        match user {
            Err(e) => res matches LookupStep::Reply(r) && is_text_reply(r, Status::Unauthorized, e@),
            Ok(owner) => res == LookupStep::Find(owned_app(app_id, owner)),
        },
{
    owned_app_lookup(user, app_id)
}

/// The answer once the deletion has run: `200` with `null` when a document
/// was deleted, `404` when none was.
pub fn delete_app_done(deleted: Result<u64, String>) -> (res: HttpReply)
    ensures
        match deleted {
            Ok(n) => if n > 0 {
                res == (HttpReply { status: Status::Success, body: ReplyBody::Null })
            } else {
                is_text_reply(res, Status::NotFound, not_owned_message())
            },
            Err(e) => is_text_reply(res, Status::InternalServerError, e@),
        },
{
    proof {
        reveal_strlit("App not found or not owned by user");
    }
    match deleted {
        Ok(n) => if n > 0 {
            HttpReply { status: Status::Success, body: ReplyBody::Null }
        } else {
            text_reply(Status::NotFound, String::from_str("App not found or not owned by user"))
        },
        Err(e) => internal_error(e),
    }
}

/// The selections made for an authenticated caller select only that
/// caller's applications; the one by identifier selects at most the
/// application with that identifier, and only when the caller owns it.
pub proof fn owner_scoped_selections_select_only_owned_apps(owner: DocId, id: DocId, app: App)
    ensures
        owned_by(owner).selects(app) ==> app.owner_id == owner,
        owned_app(id, owner).selects(app) ==> app.owner_id == owner && app.id == Some(id),
        owned_app(id, owner).selects(app) ==> owned_by(owner).selects(app),
{
}

/// No application is selected for two different callers.
pub proof fn owners_never_share_an_app(a: DocId, b: DocId, app: App)
    requires
        owned_by(a).selects(app),
        owned_by(b).selects(app),
    ensures
        a == b,
{
}

/// Pages follow one another without gap or overlap: page 1 starts at the
/// first document, and page `p + 1` starts where page `p` ends.
pub proof fn consecutive_pages_are_contiguous(page: int, size: int)
    requires
        page >= 1,
    ensures
        page_skip(1, size) == 0,
        page_skip(page + 1, size) == page_skip(page, size) + size,
{
    assert(page * size == (page - 1) * size + size) by (nonlinear_arith);
}

} // verus!
