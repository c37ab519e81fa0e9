//! Authentication: users, JWT claims, registration and login rules, and the
//! bearer-token check that guards the API.

use vstd::prelude::*;
use vstd::std_specs::convert::FromSpecImpl;
use crate::errors::{AppError, AppErrorView, DbError, ErrorResponse};
use crate::text::{chars_of, push_char, spec_lowercase, spec_is_alphanumeric};

verus! {

/// A user row.
#[derive(Debug)]
pub struct User {
    pub id: u128,
    pub tenant_id: u128,
    pub email: String,
    /// Argon2 PHC string; never sent to clients.
    pub password_hash: String,
    pub full_name: String,
    pub is_active: bool,
    pub is_superadmin: bool,
    pub created_at: i64,
    pub updated_at: i64,
}

/// The payload of a JWT.
#[derive(Debug)]
pub struct Claims {
    /// The user's id.
    pub sub: u128,
    /// The user's tenant: isolates tenants from each other.
    pub tenant_id: u128,
    pub email: String,
    /// Expiry (UNIX seconds).
    pub exp: u64,
    /// Issue time (UNIX seconds).
    pub iat: u64,
}

/// Body of `POST /auth/register`.
#[derive(Debug)]
pub struct RegisterRequest {
    pub email: String,
    pub password: String,
    pub full_name: String,
    /// Name of the tenant created along with the user.
    pub tenant_name: String,
}

/// Body of `POST /auth/login`.
#[derive(Debug)]
pub struct LoginRequest {
    pub email: String,
    pub password: String,
}

/// What a client learns about a user (never the password hash).
#[derive(Debug)]
pub struct UserInfo {
    pub id: u128,
    pub tenant_id: u128,
    pub email: String,
    pub full_name: String,
    pub is_superadmin: bool,
}

/// Answer to a successful registration or login.
#[derive(Debug)]
pub struct AuthResponse {
    pub token: String,
    pub user: UserInfo,
}

/// Who is calling, as established by the bearer token.
#[derive(Debug, Clone, Copy, PartialEq, Eq, Structural)]
pub struct AuthContext {
    pub user_id: u128,
    pub tenant_id: u128,
}

impl From<User> for UserInfo {
    fn from(u: User) -> (r: UserInfo) {
        UserInfo {
            id: u.id,
            tenant_id: u.tenant_id,
            email: u.email,
            full_name: u.full_name,
            is_superadmin: u.is_superadmin,
        }
    }
}

impl FromSpecImpl<User> for UserInfo {
    open spec fn obeys_from_spec() -> bool {
        true
    }

    open spec fn from_spec(u: User) -> UserInfo {
        UserInfo {
            id: u.id,
            tenant_id: u.tenant_id,
            email: u.email,
            full_name: u.full_name,
            is_superadmin: u.is_superadmin,
        }
    }
}

/// Lifetime of a token: 24 hours, in seconds.
pub const JWT_LIFETIME_SECS: u64 = 86400;

/// The claims of a token issued to `user` at `now` (UNIX seconds): valid for 24 hours.
pub fn build_claims(user: &User, now: u64) -> (c: Claims)
    requires
        now + JWT_LIFETIME_SECS <= u64::MAX,
    ensures
        c.sub == user.id,
        c.tenant_id == user.tenant_id,
        c.email@ == user.email@,
        c.iat == now,
        c.exp == now + JWT_LIFETIME_SECS,
{
    Claims {
        sub: user.id,
        tenant_id: user.tenant_id,
        email: user.email.clone(),
        iat: now,
        exp: now + JWT_LIFETIME_SECS,
    }
}

/// The requester a token's claims stand for.
pub fn auth_context_of(claims: &Claims) -> (a: AuthContext)
    ensures
        a.user_id == claims.sub,
        a.tenant_id == claims.tenant_id,
{
    AuthContext { user_id: claims.sub, tenant_id: claims.tenant_id }
}

/// The validation rule of a registration: every field filled in, and a
/// password of at least 8 bytes.
pub open spec fn spec_validate_registration(req: RegisterRequest) -> Result<(), AppErrorView> {
    if req.email@.len() == 0 || req.password@.len() == 0 || req.full_name@.len() == 0 {
        Err(AppErrorView::BadRequest("All fields are required"@))
    } else if (vstd::utf8::encode_utf8(req.password@).len() as usize) < 8 {
        Err(AppErrorView::BadRequest("Password must be at least 8 characters"@))
    } else {
        Ok(())
    }
}

/// The mathematical form of a validation result.
pub open spec fn unit_result_view(r: Result<(), AppError>) -> Result<(), AppErrorView> {
    match r {
        Ok(()) => Ok(()),
        Err(e) => Err(e@),
    }
}

/// Checks a registration request.
pub fn validate_registration(req: &RegisterRequest) -> (r: Result<(), AppError>)
    ensures
        unit_result_view(r) == spec_validate_registration(*req),
{
    if req.email.as_str().is_empty() || req.password.as_str().is_empty()
        || req.full_name.as_str().is_empty() {
        return Err(AppError::BadRequest(String::from_str("All fields are required")));
    }
    if req.password.as_str().len() < 8 {
        return Err(AppError::BadRequest(String::from_str("Password must be at least 8 characters")));
    }
    Ok(())
}

/// Whether a character is kept in a tenant code.
pub open spec fn code_char(c: char) -> bool {
    spec_is_alphanumeric(c) || c == '-'
}

/// The characters of `s` that are kept in a tenant code, spaces first turned
/// into hyphens.
pub open spec fn code_chars(s: Seq<char>) -> Seq<char>
    decreases s.len(),
{
    if s.len() == 0 {
        Seq::empty()
    } else {
        let c = if s.last() == ' ' {
            '-'
        } else {
            s.last()
        };
        if code_char(c) {
            code_chars(s.drop_last()).push(c)
        } else {
            code_chars(s.drop_last())
        }
    }
}

/// The code of a tenant: its name lower-cased, spaces turned into hyphens,
/// and only alphanumeric characters and hyphens kept.
pub open spec fn spec_tenant_code(name: Seq<char>) -> Seq<char> {
    code_chars(spec_lowercase(name))
}

/// The code of a new tenant, derived from its name.
pub fn tenant_code(name: &str) -> (r: String)
    ensures
        r@ == spec_tenant_code(name@),
{
    let lower = crate::text::to_lowercase(name);
    let cs = chars_of(lower.as_str());
    let mut r = String::new();
    let mut i: usize = 0;
    while i < cs.len()
        invariant
            i <= cs@.len(),
            cs@ == spec_lowercase(name@),
            r@ == code_chars(cs@.take(i as int)),
        decreases cs@.len() - i,
    {
        let c = if cs[i] == ' ' {
            '-'
        } else {
            cs[i]
        };
        assert(cs@.take(i + 1).drop_last() =~= cs@.take(i as int));
        if crate::text::is_alphanumeric(c) || c == '-' {
            push_char(&mut r, c);
        }
        i = i + 1;
    }
    assert(cs@.take(cs@.len() as int) =~= cs@);
    r
}

/// The error a failed tenant insert becomes: a duplicate tenant is a
/// conflict naming it, anything else as for any database error.
pub fn tenant_insert_error(e: DbError, tenant_name: &str) -> (r: AppError)
    ensures
        r@ == if crate::errors::is_unique_violation(e) {
            AppErrorView::Conflict("Tenant '"@ + tenant_name@ + "' already exists"@)
        } else {
            crate::errors::app_error_of_db(e)
        },
{
    if crate::errors::db_error_is_unique_violation(&e) {
        let mut m = String::from_str("Tenant '");
        m.append(tenant_name);
        m.append("' already exists");
        AppError::Conflict(m)
    } else {
        AppError::from_db(e)
    }
}

/// The error a failed user insert becomes: a duplicate e-mail is a conflict
/// naming it, anything else as for any database error.
pub fn user_insert_error(e: DbError, email: &str) -> (r: AppError)
    ensures
        r@ == if crate::errors::is_unique_violation(e) {
            AppErrorView::Conflict("Email '"@ + email@ + "' is already registered"@)
        } else {
            crate::errors::app_error_of_db(e)
        },
{
    if crate::errors::db_error_is_unique_violation(&e) {
        let mut m = String::from_str("Email '");
        m.append(email);
        m.append("' is already registered");
        AppError::Conflict(m)
    } else {
        AppError::from_db(e)
    }
}

/// What a login attempt gives, knowing the active user with that e-mail (if
/// any): the user when the password matches the stored hash; the same
/// refusal for an unknown e-mail and for a wrong password; an internal error
/// for a malformed stored hash.
pub open spec fn spec_login(user: Option<User>, password: Seq<char>) -> Result<User, AppErrorView> {
    match user {
        None => Err(AppErrorView::Unauthorized("Invalid email or password"@)),
        Some(u) => match crate::password::spec_verify_password(password, u.password_hash@) {
            Err(e) => Err(e),
            Ok(false) => Err(AppErrorView::Unauthorized("Invalid email or password"@)),
            Ok(true) => Ok(u),
        },
    }
}

/// The mathematical form of a login result.
pub open spec fn user_result_view(r: Result<User, AppError>) -> Result<User, AppErrorView> {
    match r {
        Ok(u) => Ok(u),
        Err(e) => Err(e@),
    }
}

/// Checks a login: the password against the stored hash of the user found.
pub fn check_login(user: Option<User>, password: &str) -> (r: Result<User, AppError>)
    ensures
        user_result_view(r) == spec_login(user, password@),
{
    match user {
        None => Err(AppError::Unauthorized(String::from_str("Invalid email or password"))),
        Some(u) => {
            let ok = crate::password::verify_password(password, u.password_hash.as_str())?;
            if !ok {
                return Err(AppError::Unauthorized(String::from_str("Invalid email or password")));
            }
            Ok(u)
        },
    }
}

/// The current user, or a 404 when the token's user no longer exists.
pub fn current_user(user: Option<User>) -> (r: Result<UserInfo, AppError>)
    ensures
        match user {
            Some(u) => r matches Ok(i) && i == <UserInfo as vstd::std_specs::convert::FromSpec<User>>::from_spec(u),
            None => (r matches Err(e) && e@ == AppErrorView::NotFound("User not found"@)),
        },
{
    match user {
        Some(u) => Ok(UserInfo::from(u)),
        None => Err(AppError::NotFound(String::from_str("User not found"))),
    }
}

/// Why a token was refused by the JWT library.
#[derive(Debug, Clone, Copy, PartialEq, Eq, Structural)]
pub enum TokenErrorKind {
    ExpiredSignature,
    InvalidToken,
    Other,
}

/// The token in an `Authorization` header value, when it has the form `Bearer <token>`.
pub open spec fn spec_bearer_token(header: Option<Seq<char>>) -> Option<Seq<char>> {
    match header {
        Some(h) => if h.len() >= 7 && h.subrange(0, 7) == "Bearer "@ {
            Some(h.subrange(7, h.len() as int))
        } else {
            None
        },
        None => None,
    }
}

/// The mathematical form of an optional header value.
pub open spec fn opt_str_view(h: Option<&str>) -> Option<Seq<char>> {
    match h {
        Some(s) => Some(s@),
        None => None,
    }
}

/// The mathematical form of an optional string.
pub open spec fn opt_string_view(h: Option<String>) -> Option<Seq<char>> {
    match h {
        Some(s) => Some(s@),
        None => None,
    }
}

/// Extracts the bearer token of an `Authorization` header value.
pub fn extract_bearer_token(header: Option<&str>) -> (r: Option<String>)
    ensures
        opt_string_view(r) == spec_bearer_token(opt_str_view(header)),
{
    match header {
        None => None,
        Some(h) => {
            let cs = chars_of(h);
            proof {
                reveal_strlit("Bearer ");
            }
            if cs.len() >= 7 && cs[0] == 'B' && cs[1] == 'e' && cs[2] == 'a' && cs[3] == 'r'
                && cs[4] == 'e' && cs[5] == 'r' && cs[6] == ' ' {
                assert(cs@.subrange(0, 7) =~= "Bearer "@);
                Some(crate::text::substring(cs.as_slice(), 7, cs.len()))
            } else {
                proof {
                    if cs@.len() >= 7 && cs@.subrange(0, 7) == "Bearer "@ {
                        assert(cs@[0] == cs@.subrange(0, 7)[0]);
                        assert(cs@[1] == cs@.subrange(0, 7)[1]);
                        assert(cs@[2] == cs@.subrange(0, 7)[2]);
                        assert(cs@[3] == cs@.subrange(0, 7)[3]);
                        assert(cs@[4] == cs@.subrange(0, 7)[4]);
                        assert(cs@[5] == cs@.subrange(0, 7)[5]);
                        assert(cs@[6] == cs@.subrange(0, 7)[6]);
                    }
                }
                None
            }
        },
    }
}

/// The message of a refused token.
pub open spec fn spec_token_error_message(kind: TokenErrorKind) -> Seq<char> {
    match kind {
        TokenErrorKind::ExpiredSignature => "Token has expired"@,
        TokenErrorKind::InvalidToken => "Invalid token format"@,
        TokenErrorKind::Other => "Token validation failed"@,
    }
}

/// A 401 answer with the given message.
fn unauthorized(message: &str) -> (r: ErrorResponse)
    ensures
        r.status == 401,
        r.error@ == "unauthorized"@,
        r.message@ == message@,
{
    ErrorResponse {
        status: 401,
        error: String::from_str("unauthorized"),
        message: String::from_str(message),
    }
}

/// The answer to a request without a usable bearer token.
pub fn missing_token_response() -> (r: ErrorResponse)
    ensures
        r.status == 401,
        r.error@ == "unauthorized"@,
        r.message@ == "Missing or invalid Authorization header. Expected: Bearer <token>"@,
{
    unauthorized("Missing or invalid Authorization header. Expected: Bearer <token>")
}

/// What the bearer-token check gives once the token is decoded (or
/// refused): the requester a valid token's claims stand for, or a 401 with
/// the refusal's message.
pub open spec fn spec_authenticate(decoded: Result<Claims, TokenErrorKind>) -> Result<AuthContext, (u16, Seq<char>, Seq<char>)> {
    match decoded {
        Ok(c) => Ok(AuthContext { user_id: c.sub, tenant_id: c.tenant_id }),
        Err(k) => Err((401, "unauthorized"@, spec_token_error_message(k))),
    }
}

/// The mathematical form of the bearer-token check's outcome.
pub open spec fn auth_outcome_view(r: Result<AuthContext, ErrorResponse>) -> Result<AuthContext, (u16, Seq<char>, Seq<char>)> {
    match r {
        Ok(a) => Ok(a),
        Err(resp) => Err((resp.status, resp.error@, resp.message@)),
    }
}

/// The outcome of the bearer-token check, once the JWT library has decoded
/// (or refused) the token: the requester of a valid token, or a 401.
pub fn authenticate(decoded: Result<Claims, TokenErrorKind>) -> (r: Result<AuthContext, ErrorResponse>)
    ensures
        auth_outcome_view(r) == spec_authenticate(decoded),
        match decoded {
            Ok(c) => r == Ok::<AuthContext, ErrorResponse>(AuthContext { user_id: c.sub, tenant_id: c.tenant_id }),
            Err(k) => (r matches Err(resp) && resp.status == 401 && resp.error@ == "unauthorized"@
                && resp.message@ == spec_token_error_message(k)),
        },
{
    match decoded {
        Ok(c) => Ok(auth_context_of(&c)),
        Err(TokenErrorKind::ExpiredSignature) => Err(unauthorized("Token has expired")),
        Err(TokenErrorKind::InvalidToken) => Err(unauthorized("Invalid token format")),
        Err(TokenErrorKind::Other) => Err(unauthorized("Token validation failed")),
    }
}

/// A login with an unknown e-mail and one with a wrong password get the same
/// refusal, so the answer does not tell which e-mails are registered.
pub proof fn law_login_refusal_reveals_nothing(u: User, password: Seq<char>)
    requires
        crate::password::spec_phc_parse_error(u.password_hash@) is None,
        !crate::password::spec_argon2_verifies(password, u.password_hash@),
    ensures
        spec_login(Some(u), password) == spec_login(None, password),
{
}

/// A login succeeds exactly when the password matches the stored hash of the user found.
pub proof fn law_login_succeeds_iff_password_matches(u: User, password: Seq<char>)
    requires
        crate::password::spec_phc_parse_error(u.password_hash@) is None,
    ensures
        (spec_login(Some(u), password) is Ok) == crate::password::spec_argon2_verifies(
            password,
            u.password_hash@,
        ),
{
}

/// The claims issued to a user (as `build_claims` makes them, at any time)
/// pass the bearer-token check as that user, in that user's tenant, once the
/// token carrying them decodes.
pub proof fn law_issued_claims_authenticate_their_user(u: User, c: Claims)
    requires
        c.sub == u.id,
        c.tenant_id == u.tenant_id,
    ensures
        spec_authenticate(Ok(c)) == Ok::<AuthContext, (u16, Seq<char>, Seq<char>)>(
            AuthContext { user_id: u.id, tenant_id: u.tenant_id },
        ),
{
}

/// A registration with the e-mail, password and full name filled in is
/// accepted exactly when the password has at least 8 bytes; a shorter one
/// gets the password error. (A string's byte length fits in `usize`.)
pub proof fn law_registration_password_rule(req: RegisterRequest)
    requires
        req.email@.len() > 0,
        req.password@.len() > 0,
        req.full_name@.len() > 0,
        vstd::utf8::encode_utf8(req.password@).len() <= usize::MAX,
    ensures
        vstd::utf8::encode_utf8(req.password@).len() >= 8 ==> spec_validate_registration(req) is Ok,
        vstd::utf8::encode_utf8(req.password@).len() < 8 ==> spec_validate_registration(req) == Err::<
            (),
            AppErrorView,
        >(AppErrorView::BadRequest("Password must be at least 8 characters"@)),
{
}

/// A registration with an empty e-mail, password or full name is refused
/// with the fields error, whatever else it holds.
pub proof fn law_registration_fields_required(req: RegisterRequest)
    requires
        req.email@.len() == 0 || req.password@.len() == 0 || req.full_name@.len() == 0,
    ensures
        spec_validate_registration(req) == Err::<(), AppErrorView>(
            AppErrorView::BadRequest("All fields are required"@),
        ),
{
}

/// The bearer token is what follows `Bearer ` in the header: putting the
/// prefix back in front of it gives the header again; a header without that
/// prefix (or no header) gives no token.
pub proof fn law_bearer_token_follows_prefix(header: Option<Seq<char>>)
    ensures
        spec_bearer_token(header) matches Some(t) ==> header == Some("Bearer "@ + t),
        header matches Some(h) && h.len() >= 7 && h.subrange(0, 7) == "Bearer "@ ==> spec_bearer_token(
            header,
        ) is Some,
        header is None ==> spec_bearer_token(header) is None,
{
    if let Some(h) = header {
        if h.len() >= 7 && h.subrange(0, 7) == "Bearer "@ {
            reveal_strlit("Bearer ");
            assert(h =~= "Bearer "@ + h.subrange(7, h.len() as int));
        }
    }
}

} // verus!
