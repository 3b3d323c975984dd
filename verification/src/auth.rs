//! What the account handlers decide: which names and passwords have an
//! acceptable form, how a failure is reported to the client, and when a
//! token runs out.
//!
//! Reading the database, hashing passwords and signing tokens happen outside
//! the engine; this module takes their answers and decides what follows.

use vstd::prelude::*;
use vstd::string::*;

verus! {

/// Seconds for which a token is good: two days.
pub const TOKEN_LIFETIME_SECS: i64 = 172_800;

/// What a client sends to log in.
#[derive(Debug)]
pub struct LoginPayload {
    pub username: String,
    pub password: String,
}

/// What a client sends to register.
#[derive(Debug)]
pub struct RegisterPayload {
    pub username: String,
    pub password: String,
}

/// The request to the account store to register a user.
#[derive(Debug)]
pub struct RegisterMessage {
    pub username: String,
    pub password: String,
}

/// The request to the account store to check a login.
#[derive(Debug)]
pub struct LoginMessage {
    pub username: String,
    pub password: String,
}

/// What a token says of its bearer.
#[derive(Debug)]
pub struct Claims {
    pub username: String,
    /// The second, counted from 1970, at which the token runs out.
    pub exp: usize,
    /// The bearer's identifier.
    pub sub: i32,
}

/// How a failed login is reported to the client.
#[derive(Debug)]
pub struct LoginRouteError {
    pub message: String,
    pub status: i32,
    pub variant: String,
}

/// How a failed registration is reported to the client.
#[derive(Debug)]
pub struct RegisterRouteError {
    pub message: String,
    pub status: i32,
    pub variant: String,
}

/// Why a registration failed.
#[derive(Debug)]
pub enum RegisterError {
    /// The name or the password has a form that is not accepted.
    ForbiddenFormat,
    /// The name is taken.
    UsernameAlreadyRegistered,
    /// The password could not be hashed.
    InternalError,
    /// The account store has failed; the text is its own account of why.
    DieselError(String),
}

/// Why a login failed.
#[derive(Debug)]
pub enum LoginError {
    /// No such user, or the wrong password.
    InvalidCredentials,
    /// The password could not be checked.
    InternalError,
    /// The account store has failed; the text is its own account of why.
    DatabaseError(String),
}

/// Whether the regular expression `pattern` matches somewhere in `text`;
/// `None` where `pattern` is not a regular expression that the engine takes.
pub uninterp spec fn regex_match(pattern: Seq<char>, text: Seq<char>) -> Option<bool>;

/// `regex::Regex::new` on `pattern`, then `is_match` on `text`: whether the
/// pattern matches somewhere in the text. A pattern that does not compile
/// gives `None`.
#[verifier::external_body]
fn regex_is_match(pattern: &str, text: &str) -> (verdict: Option<bool>)
    ensures
        verdict == regex_match(pattern@, text@),
{
    match regex::Regex::new(pattern) {
        Ok(compiled) => Some(compiled.is_match(text)),
        Err(_) => None,
    }
}

/// The pattern of an acceptable user name: letters, digits and underscores,
/// at least one.
pub open spec fn username_pattern() -> Seq<char> {
    "^[a-zA-Z0-9_]+$"@
}

/// The pattern of an acceptable e-mail address.
pub open spec fn email_pattern() -> Seq<char> {
    "^[a-zA-Z0-9._%+-]+@[a-zA-Z0-9.-]+\\.[a-zA-Z]{2,}$"@
}

/// The pattern of a text without the characters that markup and queries
/// give a meaning to: `<`, `>`, `'`, `"` and `&`.
pub open spec fn generic_pattern() -> Seq<char> {
    "^[^<>'\"&]+$"@
}

/// Whether a verdict of the pattern matcher accepts the text: only a plain
/// yes does.
pub open spec fn accepted(verdict: Option<bool>) -> bool {
    verdict == Some(true)
}

/// Whether a verdict of the pattern matcher accepts the text.
pub fn accepts(verdict: Option<bool>) -> (ok: bool)
    ensures
        ok == accepted(verdict),
{
    match verdict {
        Some(matched) => matched,
        None => false,
    }
}

/// Whether `username` has the form of a user name.
pub fn validate_username(username: &str) -> (ok: bool)
    ensures
        ok == accepted(regex_match(username_pattern(), username@)),
{
    accepts(regex_is_match("^[a-zA-Z0-9_]+$", username))
}

/// Whether `email` has the form of an e-mail address.
pub fn validate_email(email: &str) -> (ok: bool)
    ensures
        ok == accepted(regex_match(email_pattern(), email@)),
{
    accepts(regex_is_match("^[a-zA-Z0-9._%+-]+@[a-zA-Z0-9.-]+\\.[a-zA-Z]{2,}$", email))
}

/// Whether `input` is free of the characters `<`, `>`, `'`, `"` and `&`, and
/// not empty.
pub fn validate_generic(input: &str) -> (ok: bool)
    ensures
        ok == accepted(regex_match(generic_pattern(), input@)),
{
    accepts(regex_is_match("^[^<>'\"&]+$", input))
}

/// Whether a registration has an acceptable form: the name as a user name,
/// the password as a plain text.
pub open spec fn has_valid_form(username: Seq<char>, password: Seq<char>) -> bool {
    &&& accepted(regex_match(username_pattern(), username))
    &&& accepted(regex_match(generic_pattern(), password))
}

/// Checks the form of a registration before the account store is asked.
pub fn check_registration(msg: &RegisterMessage) -> (outcome: Result<(), RegisterError>)
    ensures
        outcome is Ok <==> has_valid_form(msg.username@, msg.password@),
        outcome is Err ==> outcome->Err_0 is ForbiddenFormat,
{
    if !validate_username(msg.username.as_str()) || !validate_generic(msg.password.as_str()) {
        Err(RegisterError::ForbiddenFormat)
    } else {
        Ok(())
    }
}

/// What a registration comes to once the form is known to be good: a name
/// that is taken is refused, and a password that could not be hashed is an
/// internal error.
pub fn registration_outcome(available: bool, hashed: bool) -> (outcome: Result<
    (),
    RegisterError,
>)
    ensures
        outcome is Ok <==> available && hashed,
        !available ==> outcome is Err && outcome->Err_0 is UsernameAlreadyRegistered,
        available && !hashed ==> outcome is Err && outcome->Err_0 is InternalError,
{
    if !available {
        Err(RegisterError::UsernameAlreadyRegistered)
    } else if !hashed {
        Err(RegisterError::InternalError)
    } else {
        Ok(())
    }
}

/// What a login comes to: `found` says whether the user exists, and
/// `password_matches` what the check of the password has given, `None` where
/// the check itself has failed.
pub fn login_outcome(found: bool, password_matches: Option<bool>) -> (outcome: Result<
    (),
    LoginError,
>)
    ensures
        outcome is Ok <==> found && password_matches == Some(true),
        !found ==> outcome is Err && outcome->Err_0 is InvalidCredentials,
        found && password_matches is None ==> outcome is Err && outcome->Err_0 is InternalError,
        found && password_matches == Some(false) ==> outcome is Err
            && outcome->Err_0 is InvalidCredentials,
{
    if !found {
        Err(LoginError::InvalidCredentials)
    } else {
        match password_matches {
            Some(true) => Ok(()),
            Some(false) => Err(LoginError::InvalidCredentials),
            None => Err(LoginError::InternalError),
        }
    }
}

/// The second at which a token issued at `now_secs` runs out: two days
/// later. `None` where that second cannot be held, which is the case before
/// 1970 and at the far end of the clock.
pub fn token_expiry(now_secs: i64) -> (expiry: Option<usize>)
    ensures
        match expiry {
            Some(second) => second == now_secs + TOKEN_LIFETIME_SECS,
            None => now_secs + TOKEN_LIFETIME_SECS < 0 || now_secs + TOKEN_LIFETIME_SECS
                > usize::MAX,
        },
{
    let second: i128 = now_secs as i128 + TOKEN_LIFETIME_SECS as i128;
    if second < 0 {
        return None;
    }
    if second > usize::MAX as i128 {
        return None;
    }
    Some(second as usize)
}

/// The claims of a token for the user `id` named `username`, good until
/// `exp`.
pub fn new_claims(username: &str, id: i32, exp: usize) -> (claims: Claims)
    ensures
        claims.username@ == username@,
        claims.sub == id,
        claims.exp == exp,
{
    Claims { username: String::from_str(username), exp, sub: id }
}

/// The text of a failed login.
pub open spec fn login_failure_text(err: LoginError) -> (Seq<char>, int, Seq<char>) {
    match err {
        LoginError::InvalidCredentials => ("Invalid credentials"@, 401, "ValidationError"@),
        _ => ("Internal server error"@, 500, "InternalError"@),
    }
}

/// How a failed login is reported: wrong credentials as such, with the
/// status 401, and everything else as an internal error, with the status
/// 500.
pub fn login_failure(err: &LoginError) -> (report: LoginRouteError)
    ensures
        (report.message@, report.status as int, report.variant@) == login_failure_text(*err),
{
    match err {
        LoginError::InvalidCredentials => LoginRouteError {
            message: String::from_str("Invalid credentials"),
            status: 401,
            variant: String::from_str("ValidationError"),
        },
        _ => LoginRouteError {
            message: String::from_str("Internal server error"),
            status: 500,
            variant: String::from_str("InternalError"),
        },
    }
}

/// How it is reported that no token could be made for a user who has logged
/// in.
pub fn token_failure() -> (report: LoginRouteError)
    ensures
        report.message@ == "Failed to generate token"@,
        report.status == 500,
        report.variant@ == "InternalError"@,
{
    LoginRouteError {
        message: String::from_str("Failed to generate token"),
        status: 500,
        variant: String::from_str("InternalError"),
    }
}

/// The text of a failed registration.
pub open spec fn register_failure_text(err: RegisterError) -> (Seq<char>, int, Seq<char>) {
    match err {
        RegisterError::ForbiddenFormat => ("Invalid format"@, 400, "ValidationError"@),
        RegisterError::UsernameAlreadyRegistered => (
            "Username already registered"@,
            409,
            "FieldTaken"@,
        ),
        RegisterError::DieselError(reason) => (
            "Database error: "@ + reason@,
            500,
            "InternalServerError"@,
        ),
        RegisterError::InternalError => ("Something went wrong"@, 500, "InternalServerError"@),
    }
}

/// How a failed registration is reported: a bad form with the status 400, a
/// name that is taken with 409, and a failure of the store or of the engine
/// with 500.
pub fn register_failure(err: &RegisterError) -> (report: RegisterRouteError)
    ensures
        (report.message@, report.status as int, report.variant@) == register_failure_text(*err),
{
    match err {
        RegisterError::ForbiddenFormat => RegisterRouteError {
            message: String::from_str("Invalid format"),
            status: 400,
            variant: String::from_str("ValidationError"),
        },
        RegisterError::UsernameAlreadyRegistered => RegisterRouteError {
            message: String::from_str("Username already registered"),
            status: 409,
            variant: String::from_str("FieldTaken"),
        },
        RegisterError::DieselError(reason) => {
            let mut message = String::from_str("Database error: ");
            message.append(reason.as_str());
            RegisterRouteError {
                message,
                status: 500,
                variant: String::from_str("InternalServerError"),
            }
        },
        RegisterError::InternalError => RegisterRouteError {
            message: String::from_str("Something went wrong"),
            status: 500,
            variant: String::from_str("InternalServerError"),
        },
    }
}

impl RegisterError {
    /// A sentence that names the error.
    pub fn describe(&self) -> (text: &'static str)
        ensures
            text@ == match *self {
                RegisterError::ForbiddenFormat => "Forbidden format"@,
                RegisterError::UsernameAlreadyRegistered => "Username already registered"@,
                RegisterError::InternalError => "Internal error"@,
                RegisterError::DieselError(_) => "Diesel error"@,
            },
    {
        match self {
            RegisterError::ForbiddenFormat => "Forbidden format",
            RegisterError::UsernameAlreadyRegistered => "Username already registered",
            RegisterError::InternalError => "Internal error",
            RegisterError::DieselError(_) => "Diesel error",
        }
    }
}

impl LoginError {
    /// A sentence that names the error.
    pub fn describe(&self) -> (text: &'static str)
        ensures
            text@ == match *self {
                LoginError::InvalidCredentials => "Invalid credentials"@,
                LoginError::InternalError => "Internal error"@,
                LoginError::DatabaseError(_) => "Database error"@,
            },
    {
        match self {
            LoginError::InvalidCredentials => "Invalid credentials",
            LoginError::InternalError => "Internal error",
            LoginError::DatabaseError(_) => "Database error",
        }
    }
}

/// The longest beginning of `text` that is free of `stop`.
pub open spec fn until(text: Seq<char>, stop: char) -> Seq<char>
    decreases text.len(),
{
    if text.len() == 0 || text[0] == stop {
        Seq::empty()
    } else {
        seq![text[0]] + until(text.drop_first(), stop)
    }
}

/// The name with which the parameter of the token begins.
pub open spec fn token_key() -> Seq<char> {
    seq!['t', 'o', 'k', 'e', 'n', '=']
}

/// The token that a query string carries. The query is a list of parameters
/// with `&` between them; the first parameter that begins with `token=`
/// counts, and the token is what follows up to the next `=` or to the end of
/// the parameter. A query without such a parameter carries no token.
pub open spec fn token_of(query: Seq<char>) -> Option<Seq<char>>
    decreases query.len(),
{
    let parameter = until(query, '&');
    if token_key().is_prefix_of(parameter) {
        Some(until(parameter.skip(6), '='))
    } else if parameter.len() < query.len() {
        token_of(query.skip(parameter.len() as int + 1))
    } else {
        None
    }
}

/// A beginning that is free of `stop` and ends at `stop` or at the end of
/// the text is the longest such beginning.
pub proof fn lemma_until_is_take(text: Seq<char>, stop: char, end: int)
    requires
        0 <= end <= text.len(),
        forall|k: int| 0 <= k < end ==> text[k] != stop,
        end == text.len() || text[end] == stop,
    ensures
        until(text, stop) == text.take(end),
        until(text, stop).len() <= text.len(),
    decreases end,
{
    if end == 0 {
        assert(text.take(0) =~= Seq::<char>::empty());
    } else {
        let rest = text.drop_first();
        assert forall|k: int| 0 <= k < end - 1 implies rest[k] != stop by {
            assert(rest[k] == text[k + 1]);
        }
        lemma_until_is_take(rest, stop, end - 1);
        assert(text.take(end) =~= seq![text[0]] + rest.take(end - 1));
    }
}

/// Whether the parameter that begins at `start` and ends before `end`
/// begins with `token=`.
fn begins_with_token_key(query: &str, start: usize, end: usize) -> (found: bool)
    requires
        start <= end <= query@.len(),
    ensures
        found == token_key().is_prefix_of(query@.subrange(start as int, end as int)),
{
    let ghost parameter = query@.subrange(start as int, end as int);
    if end - start < 6 {
        return false;
    }
    let found = query.get_char(start) == 't' && query.get_char(start + 1) == 'o' && query.get_char(
        start + 2,
    ) == 'k' && query.get_char(start + 3) == 'e' && query.get_char(start + 4) == 'n'
        && query.get_char(start + 5) == '=';
    proof {
        let head = parameter.subrange(0, 6);
        assert(head[0] == query@[start as int]);
        assert(head[1] == query@[start + 1]);
        assert(head[2] == query@[start + 2]);
        assert(head[3] == query@[start + 3]);
        assert(head[4] == query@[start + 4]);
        assert(head[5] == query@[start + 5]);
        if found {
            assert(head =~= token_key());
        } else {
            assert(head != token_key()) by {
                if head == token_key() {
                    assert(token_key()[0] == 't');
                    assert(token_key()[1] == 'o');
                    assert(token_key()[2] == 'k');
                    assert(token_key()[3] == 'e');
                    assert(token_key()[4] == 'n');
                    assert(token_key()[5] == '=');
                }
            }
        }
    }
    found
}

/// The place of the first `stop` at or after `start` and before `end`, or
/// `end` where there is none.
fn find_from(query: &str, start: usize, end: usize, stop: char) -> (place: usize)
    requires
        start <= end <= query@.len(),
    ensures
        start <= place <= end,
        forall|k: int| start <= k < place ==> query@[k] != stop,
        place == end || query@[place as int] == stop,
{
    let mut place = start;
    while place < end
        invariant
            start <= place <= end <= query@.len(),
            forall|k: int| start <= k < place ==> query@[k] != stop,
        decreases end - place,
    {
        if query.get_char(place) == stop {
            return place;
        }
        place += 1;
    }
    place
}

/// The token that the query string `query` carries, if it carries one.
pub fn token_from_query(query: &str) -> (token: Option<String>)
    ensures
        match token {
            Some(text) => token_of(query@) == Some(text@),
            None => token_of(query@) is None,
        },
{
    let length = query.unicode_len();
    let mut start: usize = 0;
    assert(query@.skip(0) =~= query@);
    loop
        invariant
            start <= length == query@.len(),
            token_of(query@) == token_of(query@.skip(start as int)),
        decreases length - start,
    {
        let ghost rest = query@.skip(start as int);
        let end = find_from(query, start, length, '&');
        proof {
            assert forall|k: int| 0 <= k < end - start implies rest[k] != '&' by {
                assert(rest[k] == query@[start + k]);
            }
            lemma_until_is_take(rest, '&', end - start);
            assert(rest.take(end - start) =~= query@.subrange(start as int, end as int));
        }
        if begins_with_token_key(query, start, end) {
            let stop = find_from(query, start + 6, end, '=');
            proof {
                let parameter = query@.subrange(start as int, end as int);
                let value = parameter.skip(6);
                assert forall|k: int| 0 <= k < stop - start - 6 implies value[k] != '=' by {
                    assert(value[k] == query@[start + 6 + k]);
                }
                lemma_until_is_take(value, '=', stop - start - 6);
                assert(value.take(stop - start - 6) =~= query@.subrange(
                    start + 6,
                    stop as int,
                ));
            }
            let found = query.substring_char(start + 6, stop);
            return Some(String::from_str(found));
        }
        if end >= length {
            return None;
        }
        proof {
            assert(rest.skip(end - start + 1) =~= query@.skip(end + 1));
        }
        start = end + 1;
    }
}

} // verus!
