//! The rules of signing in: the `Authorization` header, the two-factor methods a
//! sign-in asks for, the session cookies, and what each HTTP status means.
use vstd::prelude::*;
use base64::engine::general_purpose::STANDARD;
use base64::Engine;
use crate::decode::opt_str;
use crate::models::users::User;
use crate::text::{
    lemma_utf8_append, lemma_utf8_ascii, lemma_utf8_len, utf8,
    chars_of, concat, copy_string, owned, split_exec, split_on, split_once, split_once_exec,
    str_eq, string_of, strs, trim, trim_exec,
};

verus! {

// ---------------------------------------------------------------------------
// Encodings
// ---------------------------------------------------------------------------
/// An uppercase hexadecimal digit.
pub open spec fn hex_digit(d: int) -> char {
    if d < 10 {
        (48 + d) as char
    } else {
        (55 + d) as char
    }
}

/// The bytes that percent-encoding leaves as they are: ASCII letters, digits and
/// `-`, `_`, `.`, `~`.
pub open spec fn url_unreserved(b: u8) -> bool {
    (48 <= b <= 57) || (65 <= b <= 90) || (97 <= b <= 122) || b == 45 || b == 95 || b == 46 || b
        == 126
}

/// Every byte percent-encoded but the unreserved ones.
pub open spec fn percent_encoded(bytes: Seq<u8>) -> Seq<char>
    decreases bytes.len(),
{
    if bytes.len() == 0 {
        Seq::empty()
    } else {
        let b = bytes.last();
        percent_encoded(bytes.drop_last()) + if url_unreserved(b) {
            seq![b as char]
        } else {
            seq!['%', hex_digit(b as int / 16), hex_digit(b as int % 16)]
        }
    }
}

/// The character of a six-bit value in the standard base64 alphabet.
pub open spec fn base64_char(n: int) -> char {
    if n < 26 {
        (65 + n) as char
    } else if n < 52 {
        (71 + n) as char
    } else if n < 62 {
        (n - 4) as char
    } else if n == 62 {
        '+'
    } else {
        '/'
    }
}

/// Standard base64 with `=` padding.
pub open spec fn base64(bytes: Seq<u8>) -> Seq<char>
    decreases bytes.len(),
{
    if bytes.len() == 0 {
        Seq::empty()
    } else if bytes.len() == 1 {
        let b0 = bytes[0] as int;
        seq![base64_char(b0 / 4), base64_char((b0 % 4) * 16), '=', '=']
    } else if bytes.len() == 2 {
        let b0 = bytes[0] as int;
        let b1 = bytes[1] as int;
        seq![base64_char(b0 / 4), base64_char((b0 % 4) * 16 + b1 / 16), base64_char((b1 % 16) * 4), '=']
    } else {
        let b0 = bytes[0] as int;
        let b1 = bytes[1] as int;
        let b2 = bytes[2] as int;
        seq![
            base64_char(b0 / 4),
            base64_char((b0 % 4) * 16 + b1 / 16),
            base64_char((b1 % 16) * 4 + b2 / 64),
            base64_char(b2 % 64),
        ] + base64(bytes.skip(3))
    }
}

/// `urlencoding::encode`: percent-encodes the UTF-8 bytes of `s`, every byte but
/// ASCII letters, digits and `-`, `_`, `.`, `~`, with uppercase hexadecimal digits.
#[verifier::external_body]
fn url_encode(s: &str) -> (r: String)
    ensures
        r@ == percent_encoded(utf8(s@)),
{
    urlencoding::encode(s).into_owned()
}

/// `base64::engine::general_purpose::STANDARD.encode`: the standard base64 encoding,
/// with padding, of the UTF-8 bytes of `s`. The crate panics where the length of
/// the encoding overflows a `usize`; the bound leaves that out.
#[verifier::external_body]
fn base64_encode(s: &str) -> (r: String)
    requires
        utf8(s@).len() <= usize::MAX / 2,
    ensures
        r@ == base64(utf8(s@)),
{
    STANDARD.encode(s)
}

/// Percent-encoded text is ASCII, at most three characters per byte.
proof fn lemma_percent_encoded(bytes: Seq<u8>)
    ensures
        percent_encoded(bytes).len() <= 3 * bytes.len(),
        forall|i: int| 0 <= i < percent_encoded(bytes).len() ==> (#[trigger] percent_encoded(bytes)[i] as int) < 128,
    decreases bytes.len(),
{
    if bytes.len() > 0 {
        let prev = bytes.drop_last();
        lemma_percent_encoded(prev);
        let b = bytes.last();
        let head = percent_encoded(prev);
        let whole = percent_encoded(bytes);
        assert forall|i: int| 0 <= i < whole.len() implies (#[trigger] whole[i] as int) < 128 by {
            if i < head.len() {
                assert(whole[i] == head[i]);
            } else if url_unreserved(b) {
                assert(whole[i] == b as char);
            } else {
                assert((hex_digit(b as int / 16) as int) < 128);
                assert((hex_digit(b as int % 16) as int) < 128);
            }
        }
    }
}

/// The `Authorization` header of a password sign-in: both parts percent-encoded,
/// joined by `:`, then base64.
pub open spec fn basic_auth(username: Seq<char>, password: Seq<char>) -> Seq<char> {
    "Basic "@ + base64(
        utf8(percent_encoded(utf8(username)) + ":"@ + percent_encoded(utf8(password))),
    )
}

/// The `Authorization` header of a password sign-in.
pub fn build_basic_auth(username: &str, password: &str) -> (r: String)
    requires
        username@.len() + password@.len() <= usize::MAX / 32,
    ensures
        r@ == basic_auth(username@, password@),
{
    let user = url_encode(username);
    let pass = url_encode(password);
    let raw = concat(&user, ":");
    let raw = concat(&raw, pass.as_str());
    proof {
        reveal_strlit(":");
        lemma_utf8_len(username@);
        lemma_utf8_len(password@);
        lemma_percent_encoded(utf8(username@));
        lemma_percent_encoded(utf8(password@));
        lemma_utf8_ascii(user@);
        lemma_utf8_ascii(pass@);
        lemma_utf8_ascii(":"@);
        lemma_utf8_append(user@, ":"@);
        lemma_utf8_append(user@ + ":"@, pass@);
    }
    let encoded = base64_encode(raw.as_str());
    concat(&owned("Basic "), encoded.as_str())
}

// ---------------------------------------------------------------------------
// Two-factor authentication
// ---------------------------------------------------------------------------
/// A second factor a sign-in may ask for.
#[derive(Debug, Clone, PartialEq, Eq)]
pub enum TwoFactorMethod {
    Totp,
    EmailOtp,
    RecoveryCode,
    Unknown(String),
}

/// The abstract value of a [`TwoFactorMethod`].
pub enum TwoFactorMethodView {
    Totp,
    EmailOtp,
    RecoveryCode,
    Unknown(Seq<char>),
}

impl View for TwoFactorMethod {
    type V = TwoFactorMethodView;

    open spec fn view(&self) -> TwoFactorMethodView {
        match self {
            TwoFactorMethod::Totp => TwoFactorMethodView::Totp,
            TwoFactorMethod::EmailOtp => TwoFactorMethodView::EmailOtp,
            TwoFactorMethod::RecoveryCode => TwoFactorMethodView::RecoveryCode,
            TwoFactorMethod::Unknown(s) => TwoFactorMethodView::Unknown(s@),
        }
    }
}

/// The method the service names `name`.
pub open spec fn method_named(name: Seq<char>) -> TwoFactorMethodView {
    if name == "totp"@ {
        TwoFactorMethodView::Totp
    } else if name == "emailOtp"@ {
        TwoFactorMethodView::EmailOtp
    } else if name == "otp"@ {
        TwoFactorMethodView::RecoveryCode
    } else {
        TwoFactorMethodView::Unknown(name)
    }
}

/// The method the service names `name`.
pub fn two_factor_method(name: &str) -> (r: TwoFactorMethod)
    ensures
        r@ == method_named(name@),
{
    if str_eq(name, "totp") {
        TwoFactorMethod::Totp
    } else if str_eq(name, "emailOtp") {
        TwoFactorMethod::EmailOtp
    } else if str_eq(name, "otp") {
        TwoFactorMethod::RecoveryCode
    } else {
        TwoFactorMethod::Unknown(owned(name))
    }
}

/// The second factors a signed-in user record asks for, in the order it lists them;
/// none where it lists none.
pub fn detect_two_factor_methods(user: &User) -> (r: Vec<TwoFactorMethod>)
    ensures
        r@.map_values(|m: TwoFactorMethod| m@) == match user.requires_two_factor_auth {
            Some(names) => strs(names@).map_values(|n: Seq<char>| method_named(n)),
            None => Seq::empty(),
        },
{
    let mut out: Vec<TwoFactorMethod> = Vec::new();
    match &user.requires_two_factor_auth {
        Some(names) => {
            let n = names.len();
            for i in 0..n
                invariant
                    n == names@.len(),
                    out@.len() == i,
                    forall|j: int| 0 <= j < i ==> #[trigger] out@[j]@ == method_named(names@[j]@),
            {
                out.push(two_factor_method(names[i].as_str()));
            }
            assert(out@.map_values(|m: TwoFactorMethod| m@) =~= strs(names@).map_values(
                |n: Seq<char>| method_named(n),
            ));
        },
        None => {
            assert(out@.map_values(|m: TwoFactorMethod| m@) =~= Seq::<TwoFactorMethodView>::empty());
        },
    }
    out
}

/// The endpoint that checks a code of the method; none for a method the client does
/// not know.
pub open spec fn verify_path(method: TwoFactorMethodView) -> Option<Seq<char>> {
    match method {
        TwoFactorMethodView::Totp => Some("auth/twofactorauth/totp/verify"@),
        TwoFactorMethodView::EmailOtp => Some("auth/twofactorauth/emailotp/verify"@),
        TwoFactorMethodView::RecoveryCode => Some("auth/twofactorauth/otp/verify"@),
        TwoFactorMethodView::Unknown(_) => None,
    }
}

pub fn two_factor_endpoint(method: &TwoFactorMethod) -> (r: Option<String>)
    ensures
        opt_str(r) == verify_path(method@),
{
    match method {
        TwoFactorMethod::Totp => Some(owned("auth/twofactorauth/totp/verify")),
        TwoFactorMethod::EmailOtp => Some(owned("auth/twofactorauth/emailotp/verify")),
        TwoFactorMethod::RecoveryCode => Some(owned("auth/twofactorauth/otp/verify")),
        TwoFactorMethod::Unknown(_) => None,
    }
}

// ---------------------------------------------------------------------------
// Cookies
// ---------------------------------------------------------------------------
/// The value of the cookie `name` in one `name=value` item.
pub open spec fn cookie_value(item: Seq<char>, name: Seq<char>) -> Option<Seq<char>> {
    match split_once(trim(item), '=') {
        Some((n, v)) => if n == name {
            Some(v)
        } else {
            None
        },
        None => None,
    }
}

/// The value of the first item of `items` that sets the cookie `name`.
pub open spec fn first_cookie(items: Seq<Seq<char>>, name: Seq<char>) -> Option<Seq<char>>
    decreases items.len(),
{
    if items.len() == 0 {
        None
    } else {
        match cookie_value(items[0], name) {
            Some(v) => Some(v),
            None => first_cookie(items.drop_first(), name),
        }
    }
}

/// The value of the cookie `name` in a `Cookie` header.
pub fn find_cookie(cookie_header: &str, name: &str) -> (r: Option<String>)
    ensures
        opt_str(r) == first_cookie(split_on(cookie_header@, ';'), name@),
{
    let items = split_exec(&chars_of(cookie_header), ';');
    let ghost all = items@.map_values(|v: Vec<char>| v@);
    let n = items.len();
    assert(all.skip(0) =~= all);
    for i in 0..n
        invariant
            n == items@.len(),
            all == items@.map_values(|v: Vec<char>| v@),
            all == split_on(cookie_header@, ';'),
            first_cookie(all, name@) == first_cookie(all.skip(i as int), name@),
    {
        let ghost rest = all.skip(i as int);
        assert(rest[0] == items@[i as int]@);
        assert(rest.drop_first() =~= all.skip(i + 1));
        let item = trim_exec(&items[i]);
        match split_once_exec(&item, '=') {
            Some((cookie_name, cookie_value)) => {
                if str_eq(string_of(&cookie_name).as_str(), name) {
                    return Some(string_of(&cookie_value));
                }
            },
            None => {},
        }
    }
    assert(all.skip(n as int) =~= Seq::<Seq<char>>::empty());
    None
}

/// A session cookie as the client sets it.
pub open spec fn session_cookie_text(name: Seq<char>, value: Seq<char>) -> Seq<char> {
    name + "="@ + value + "; Path=/; Secure; HttpOnly"@
}

pub fn session_cookie(name: &str, value: &str) -> (r: String)
    ensures
        r@ == session_cookie_text(name@, value@),
{
    let s = concat(&owned(name), "=");
    let s = concat(&s, value);
    concat(&s, "; Path=/; Secure; HttpOnly")
}

/// A cookie that expires the session cookie `name`.
pub fn expired_cookie(name: &str) -> (r: String)
    ensures
        r@ == name@ + "=; Path=/; Max-Age=0; Secure; HttpOnly"@,
{
    concat(&owned(name), "=; Path=/; Max-Age=0; Secure; HttpOnly")
}

// ---------------------------------------------------------------------------
// What a response status means
// ---------------------------------------------------------------------------
/// A 2xx status.
pub open spec fn is_success(status: u16) -> bool {
    200 <= status <= 299
}

/// How a password sign-in was answered, before its body is read.
#[derive(Debug, Clone, Copy, PartialEq, Eq, Structural)]
pub enum LoginStatus {
    Accepted,
    InvalidCredentials,
    HttpError(u16),
}

pub fn login_status(status: u16) -> (r: LoginStatus)
    ensures
        r == (if status == 401 {
            LoginStatus::InvalidCredentials
        } else if !is_success(status) {
            LoginStatus::HttpError(status)
        } else {
            LoginStatus::Accepted
        }),
{
    if status == 401 {
        LoginStatus::InvalidCredentials
    } else if !(200 <= status && status <= 299) {
        LoginStatus::HttpError(status)
    } else {
        LoginStatus::Accepted
    }
}

/// How a two-factor code was answered: refused outright, failed, or accepted where
/// the body says it was verified.
#[derive(Debug, Clone, Copy, PartialEq, Eq, Structural)]
pub enum VerifyStatus {
    Accepted,
    InvalidCode,
    HttpError(u16),
}

pub fn verify_status(status: u16) -> (r: VerifyStatus)
    ensures
        r == (if status == 401 || status == 403 {
            VerifyStatus::InvalidCode
        } else if !is_success(status) {
            VerifyStatus::HttpError(status)
        } else {
            VerifyStatus::Accepted
        }),
{
    if status == 401 || status == 403 {
        VerifyStatus::InvalidCode
    } else if !(200 <= status && status <= 299) {
        VerifyStatus::HttpError(status)
    } else {
        VerifyStatus::Accepted
    }
}

/// A verification body counts only where it says `verified: true`.
pub fn code_verified(verified: Option<bool>) -> (r: bool)
    ensures
        r == (verified == Some(true)),
{
    match verified {
        Some(v) => v,
        None => false,
    }
}

/// How restoring a saved session ends when the service refuses the current user:
/// the session is invalid, and the saved copy is forgotten where the status says the
/// credentials are no good.
pub fn restore_refused_clears_saved(status: u16) -> (r: bool)
    ensures
        r == (status == 401 || status == 403),
{
    status == 401 || status == 403
}

/// How signing out was answered.
#[derive(Debug, Clone, Copy, PartialEq, Eq, Structural)]
pub enum LogoutStatus {
    Success,
    AlreadyLoggedOut,
    HttpError(u16),
}

pub fn logout_status(status: u16) -> (r: LogoutStatus)
    ensures
        r == (if is_success(status) {
            LogoutStatus::Success
        } else if status == 401 {
            LogoutStatus::AlreadyLoggedOut
        } else {
            LogoutStatus::HttpError(status)
        }),
{
    if 200 <= status && status <= 299 {
        LogoutStatus::Success
    } else if status == 401 {
        LogoutStatus::AlreadyLoggedOut
    } else {
        LogoutStatus::HttpError(status)
    }
}

} // verus!
