//! OAuth settings and the local callback of the browser sign-in: which of
//! a flag and two environment variables supplies a value, what the callback
//! request carries, and what it is answered.

use vstd::prelude::*;
use crate::text::{opt_view, chars_of, decimal, push_decimal, push_str, string_of, words};

verus! {

/// A value that is `Some` and not empty.
pub open spec fn non_empty(v: Option<Seq<char>>) -> bool {
    v matches Some(s) && s.len() > 0
}

/// The first of a flag value, the value of the primary environment variable
/// and the value of the legacy one that is present and not empty.
pub open spec fn first_non_empty(
    flag: Option<Seq<char>>,
    env: Option<Seq<char>>,
    legacy: Option<Seq<char>>,
) -> Option<Seq<char>> {
    if non_empty(flag) {
        flag
    } else if non_empty(env) {
        env
    } else if non_empty(legacy) {
        legacy
    } else {
        None
    }
}

/// A required OAuth setting that none of its sources supplies.
#[derive(Debug, Clone, PartialEq, Eq)]
pub struct MissingOAuthValue {
    message: String,
}

impl MissingOAuthValue {
    /// The text that tells the user how to supply the setting.
    pub closed spec fn text(&self) -> Seq<char> {
        self.message@
    }

    /// The message of this error.
    pub fn message(&self) -> (s: String)
        ensures
            s@ == self.text(),
    {
        self.message.clone()
    }
}

fn usable(v: &Option<String>) -> (r: bool)
    ensures
        r == non_empty(opt_view(*v)),
{
    match v {
        Some(s) => !s.as_str().is_empty(),
        None => false,
    }
}

/// The value that an optional OAuth setting takes: the flag, else the
/// primary environment variable, else the legacy one; empty values count as
/// absent.
pub fn resolve_optional_oauth_value(
    flag_value: Option<String>,
    env_value: Option<String>,
    legacy_env_value: Option<String>,
) -> (r: Option<String>)
    ensures
        opt_view(r) == first_non_empty(
            opt_view(flag_value),
            opt_view(env_value),
            opt_view(legacy_env_value),
        ),
{
    if usable(&flag_value) {
        flag_value
    } else if usable(&env_value) {
        env_value
    } else if usable(&legacy_env_value) {
        legacy_env_value
    } else {
        None
    }
}

/// The value that a required OAuth setting takes, chosen as
/// [`resolve_optional_oauth_value`] chooses it; an error that carries
/// `missing_message` when no source supplies one.
pub fn resolve_required_oauth_value(
    flag_value: Option<String>,
    env_value: Option<String>,
    legacy_env_value: Option<String>,
    missing_message: &str,
) -> (r: Result<String, MissingOAuthValue>)
    ensures
        match first_non_empty(
            opt_view(flag_value),
            opt_view(env_value),
            opt_view(legacy_env_value),
        ) {
            Some(v) => r matches Ok(s) && s@ == v,
            None => r matches Err(e) && e.text() == missing_message@,
        },
{
    match resolve_optional_oauth_value(flag_value, env_value, legacy_env_value) {
        Some(v) => Ok(v),
        None => Err(MissingOAuthValue { message: String::from_str(missing_message) }),
    }
}

/// What the user is told when no Dropbox app key is supplied.
pub open spec fn dropbox_app_key_missing_text() -> Seq<char> {
    "Dropbox app key not provided. Use --app-key or set AXIOM_DROPBOX_APP_KEY (legacy: AXIOMVAULT_DROPBOX_APP_KEY)"@
}

/// What the user is told when no Google client ID is supplied.
pub open spec fn gdrive_client_id_missing_text() -> Seq<char> {
    "Google OAuth2 client ID not provided. Use --client-id or set AXIOM_GOOGLE_CLIENT_ID (legacy: AXIOMVAULT_GOOGLE_CLIENT_ID)"@
}

/// The Dropbox app key: `--app-key`, else `AXIOM_DROPBOX_APP_KEY`, else
/// `AXIOMVAULT_DROPBOX_APP_KEY`.
pub fn resolve_dropbox_app_key(
    app_key: Option<String>,
    env_value: Option<String>,
    legacy_env_value: Option<String>,
) -> (r: Result<String, MissingOAuthValue>)
    ensures
        match first_non_empty(opt_view(app_key), opt_view(env_value), opt_view(legacy_env_value)) {
            Some(v) => r matches Ok(s) && s@ == v,
            None => r matches Err(e) && e.text() == dropbox_app_key_missing_text(),
        },
{
    resolve_required_oauth_value(
        app_key,
        env_value,
        legacy_env_value,
        "Dropbox app key not provided. Use --app-key or set AXIOM_DROPBOX_APP_KEY (legacy: AXIOMVAULT_DROPBOX_APP_KEY)",
    )
}

/// The Dropbox app secret: `--app-secret`, else `AXIOM_DROPBOX_APP_SECRET`,
/// else `AXIOMVAULT_DROPBOX_APP_SECRET`, if any.
pub fn resolve_dropbox_app_secret(
    app_secret: Option<String>,
    env_value: Option<String>,
    legacy_env_value: Option<String>,
) -> (r: Option<String>)
    ensures
        opt_view(r) == first_non_empty(
            opt_view(app_secret),
            opt_view(env_value),
            opt_view(legacy_env_value),
        ),
{
    resolve_optional_oauth_value(app_secret, env_value, legacy_env_value)
}

/// The Google client ID: `--client-id`, else `AXIOM_GOOGLE_CLIENT_ID`, else
/// `AXIOMVAULT_GOOGLE_CLIENT_ID`.
pub fn resolve_gdrive_client_id(
    client_id: Option<String>,
    env_value: Option<String>,
    legacy_env_value: Option<String>,
) -> (r: Result<String, MissingOAuthValue>)
    ensures
        match first_non_empty(opt_view(client_id), opt_view(env_value), opt_view(legacy_env_value)) {
            Some(v) => r matches Ok(s) && s@ == v,
            None => r matches Err(e) && e.text() == gdrive_client_id_missing_text(),
        },
{
    resolve_required_oauth_value(
        client_id,
        env_value,
        legacy_env_value,
        "Google OAuth2 client ID not provided. Use --client-id or set AXIOM_GOOGLE_CLIENT_ID (legacy: AXIOMVAULT_GOOGLE_CLIENT_ID)",
    )
}

/// The Google client secret: `--client-secret`, else
/// `AXIOM_GOOGLE_CLIENT_SECRET`, else `AXIOMVAULT_GOOGLE_CLIENT_SECRET`, if any.
pub fn resolve_gdrive_client_secret(
    client_secret: Option<String>,
    env_value: Option<String>,
    legacy_env_value: Option<String>,
) -> (r: Option<String>)
    ensures
        opt_view(r) == first_non_empty(
            opt_view(client_secret),
            opt_view(env_value),
            opt_view(legacy_env_value),
        ),
{
    resolve_optional_oauth_value(client_secret, env_value, legacy_env_value)
}

/// A resolved setting is never empty, and resolution finds nothing only when
/// every source is absent or empty.
pub proof fn law_resolved_values_are_never_empty(
    flag: Option<Seq<char>>,
    env: Option<Seq<char>>,
    legacy: Option<Seq<char>>,
)
    ensures
        first_non_empty(flag, env, legacy) is None <==> (!non_empty(flag) && !non_empty(env)
            && !non_empty(legacy)),
        first_non_empty(flag, env, legacy) matches Some(v) ==> v.len() > 0,
{
}

/// Where the first line of `s` ends: the index of its first `'\n'`, or its
/// length when it has none.
pub open spec fn line_end(s: Seq<char>) -> int {
    if exists|i: int| 0 <= i < s.len() && s[i] == '\n' {
        choose|i: int| 0 <= i < s.len() && s[i] == '\n' && forall|j: int| 0 <= j < i ==> s[j] != '\n'
    } else {
        s.len() as int
    }
}

/// The first line of `s`, as `str::lines` yields it: up to the first
/// `'\n'`, without a `'\r'` just before it; all of `s` when it has no `'\n'`.
pub open spec fn first_line(s: Seq<char>) -> Seq<char> {
    let l = s.take(line_end(s));
    if line_end(s) < s.len() && l.len() > 0 && l.last() == '\r' {
        l.drop_last()
    } else {
        l
    }
}

/// The request target of an HTTP request: the second word of its first
/// line, or `/` when there is none.
pub open spec fn request_target(request: Seq<char>) -> Seq<char> {
    let ws = words(first_line(request));
    if ws.len() > 1 {
        ws[1]
    } else {
        "/"@
    }
}

/// The address at which the browser reaches the local callback server.
pub open spec fn callback_base() -> Seq<char> {
    "http://localhost:8080"@
}

/// The URL that a callback request was made to.
pub open spec fn callback_url(request: Seq<char>) -> Seq<char> {
    callback_base() + request_target(request)
}

fn first_line_bounds(v: &Vec<char>) -> (r: usize)
    ensures
        r <= v@.len(),
        r == first_line(v@).len(),
        v@.take(r as int) == first_line(v@),
{
    let n = v.len();
    let mut i: usize = 0;
    while i < n && v[i] != '\n'
        invariant
            i <= n == v@.len(),
            forall|j: int| 0 <= j < i ==> v@[j] != '\n',
        decreases n - i,
    {
        i = i + 1;
    }
    proof {
        if i < n {
            assert(exists|k: int| 0 <= k < v@.len() && v@[k] == '\n');
            let c = choose|k: int|
                0 <= k < v@.len() && v@[k] == '\n' && forall|j: int| 0 <= j < k ==> v@[j] != '\n';
            assert(c == i) by {
                if c < i {
                } else if c > i {
                }
            }
        } else {
            assert(!exists|k: int| 0 <= k < v@.len() && v@[k] == '\n');
        }
    }
    assert(line_end(v@) == i);
    if i < n && i > 0 && v[i - 1] == '\r' {
        assert(v@.take(i - 1) =~= v@.take(i as int).drop_last());
        i - 1
    } else {
        i
    }
}

/// The request target of the HTTP request `request` (the second word of its
/// first line, or `/`).
pub fn callback_request_target(request: &str) -> (t: String)
    ensures
        t@ == request_target(request@),
{
    let v = chars_of(request);
    let end = first_line_bounds(&v);
    let line = string_of(&v, 0, end);
    assert(v@.subrange(0, end as int) =~= v@.take(end as int));
    let ws = crate::text::split_whitespace_str(line.as_str());
    if ws.len() > 1 {
        assert(ws@.map_values(|w: String| w@)[1] == ws@[1]@);
        ws[1].clone()
    } else {
        String::from_str("/")
    }
}

/// `URL::parse` accepts the text.
pub uninterp spec fn url_accepts(text: Seq<char>) -> bool;

/// The message of the error with which `URL::parse` rejects the text.
pub uninterp spec fn url_error_text(text: Seq<char>) -> Seq<char>;

/// The decoded name-value pairs of the query of the URL that the text is,
/// in order, as `Url::query_pairs` yields them.
pub uninterp spec fn url_query_pairs(text: Seq<char>) -> Seq<(Seq<char>, Seq<char>)>;

/// The view of name-value pairs.
pub open spec fn pairs_view(p: Seq<(String, String)>) -> Seq<(Seq<char>, Seq<char>)> {
    p.map_values(|kv: (String, String)| (kv.0@, kv.1@))
}

/// Calls `url::Url::parse` on the text and, if it is accepted,
/// `Url::query_pairs` on the result, each pair made owned strings; a
/// `url::ParseError` is turned into its message. Claimed: it fails exactly
/// when the parser rejects the text, with that error's message, and the
/// pairs are the ones that the URL's query decodes to; all three are named,
/// not spelled out.
#[verifier::external_body]
fn query_pairs_of_url(text: &str) -> (r: Result<Vec<(String, String)>, String>)
    ensures
        r is Ok <==> url_accepts(text@),
        r matches Ok(p) ==> pairs_view(p@) == url_query_pairs(text@),
        r matches Err(m) ==> m@ == url_error_text(text@),
{
    match url::Url::parse(text) {
        Ok(parsed) => {
            let mut pairs = Vec::new();
            for (name, value) in parsed.query_pairs() {
                pairs.push((name.into_owned(), value.into_owned()));
            }
            Ok(pairs)
        },
        Err(e) => Err(e.to_string()),
    }
}

/// The value of the last pair named `key`, if any.
pub open spec fn last_value(pairs: Seq<(Seq<char>, Seq<char>)>, key: Seq<char>) -> Option<
    Seq<char>,
>
    decreases pairs.len(),
{
    if pairs.len() == 0 {
        None
    } else if pairs.last().0 == key {
        Some(pairs.last().1)
    } else {
        last_value(pairs.drop_last(), key)
    }
}

/// Why a callback request does not carry a usable authorization.
#[derive(Debug, Clone, PartialEq, Eq)]
pub enum CallbackError {
    /// The callback URL does not parse; the parser's message.
    InvalidUrl(String),
    /// The query has no `code`.
    NoCode,
    /// The query has no `state`.
    NoState,
    /// The `state` is not the CSRF token that the sign-in was started with.
    CsrfMismatch,
}

/// The text of a [`CallbackError`].
pub open spec fn callback_error_text(e: CallbackError) -> Seq<char> {
    match e {
        CallbackError::InvalidUrl(_) => "Failed to parse callback URL"@,
        CallbackError::NoCode => "No authorization code received"@,
        CallbackError::NoState => "No state parameter received"@,
        CallbackError::CsrfMismatch => "CSRF token mismatch - possible security issue"@,
    }
}

impl CallbackError {
    /// The message of this error.
    pub fn message(&self) -> (s: String)
        ensures
            s@ == callback_error_text(*self),
    {
        match self {
            CallbackError::InvalidUrl(_) => String::from_str("Failed to parse callback URL"),
            CallbackError::NoCode => String::from_str("No authorization code received"),
            CallbackError::NoState => String::from_str("No state parameter received"),
            CallbackError::CsrfMismatch => String::from_str(
                "CSRF token mismatch - possible security issue",
            ),
        }
    }
}

/// What the decoded query pairs of a callback yield: the last `code` when
/// there is a `code` and a `state` and the last `state` is the CSRF token.
pub open spec fn pairs_outcome(pairs: Seq<(Seq<char>, Seq<char>)>, csrf_token: Seq<char>) -> Result<
    Seq<char>,
    CallbackError,
> {
    match last_value(pairs, "code"@) {
        None => Err(CallbackError::NoCode),
        Some(code) => match last_value(pairs, "state"@) {
            None => Err(CallbackError::NoState),
            Some(state) => if state == csrf_token {
                Ok(code)
            } else {
                Err(CallbackError::CsrfMismatch)
            },
        },
    }
}

/// The authorization code that the decoded query pairs of a callback carry,
/// checked against the CSRF token that the sign-in was started with.
pub fn code_from_pairs(pairs: &Vec<(String, String)>, csrf_token: &str) -> (r: Result<
    String,
    CallbackError,
>)
    ensures
        match pairs_outcome(pairs_view(pairs@), csrf_token@) {
            Ok(code) => r matches Ok(c) && c@ == code,
            Err(e) => r == Err::<String, CallbackError>(e),
        },
{
    let ghost pv = pairs_view(pairs@);
    let code_key = String::from_str("code");
    let state_key = String::from_str("state");
    let mut code: Option<String> = None;
    let mut state: Option<String> = None;
    let n = pairs.len();
    let mut i: usize = 0;
    while i < n
        invariant
            i <= n == pairs@.len(),
            pv == pairs_view(pairs@),
            code_key@ == "code"@,
            state_key@ == "state"@,
            match code {
                Some(c) => last_value(pv.take(i as int), "code"@) == Some(c@),
                None => last_value(pv.take(i as int), "code"@) is None,
            },
            match state {
                Some(c) => last_value(pv.take(i as int), "state"@) == Some(c@),
                None => last_value(pv.take(i as int), "state"@) is None,
            },
        decreases n - i,
    {
        let (name, value) = &pairs[i];
        proof {
            reveal_strlit("code");
            reveal_strlit("state");
            assert("code"@ != "state"@) by {
                assert("code"@.len() != "state"@.len());
            }
        }
        assert(pv.take(i + 1).drop_last() =~= pv.take(i as int));
        assert(pv[i as int] == (name@, value@));
        if *name == code_key {
            code = Some(value.clone());
        } else if *name == state_key {
            state = Some(value.clone());
        }
        i = i + 1;
    }
    assert(pv.take(n as int) =~= pv);
    let code = match code {
        Some(c) => c,
        None => {
            return Err(CallbackError::NoCode);
        },
    };
    let state = match state {
        Some(s) => s,
        None => {
            return Err(CallbackError::NoState);
        },
    };
    let csrf = String::from_str(csrf_token);
    if state != csrf {
        return Err(CallbackError::CsrfMismatch);
    }
    Ok(code)
}

/// The authorization code that the callback request `request` carries,
/// checked against the CSRF token that the sign-in was started with: when
/// the callback URL does not parse, the parser's message; otherwise what its
/// query pairs yield (see [`code_from_pairs`]).
pub fn authorization_code(request: &str, csrf_token: &str) -> (r: Result<String, CallbackError>)
    ensures
        ({
            let url = callback_url(request@);
            if !url_accepts(url) {
                r matches Err(CallbackError::InvalidUrl(m)) && m@ == url_error_text(url)
            } else {
                match pairs_outcome(url_query_pairs(url), csrf_token@) {
                    Ok(code) => r matches Ok(c) && c@ == code,
                    Err(e) => r == Err::<String, CallbackError>(e),
                }
            }
        }),
{
    let mut url = String::from_str("http://localhost:8080");
    let target = callback_request_target(request);
    push_str(&mut url, target.as_str());
    let pairs = match query_pairs_of_url(url.as_str()) {
        Ok(p) => p,
        Err(m) => {
            return Err(CallbackError::InvalidUrl(m));
        },
    };
    code_from_pairs(&pairs, csrf_token)
}

/// An HTML response: the status line, the content type, the byte length of
/// the page and the page.
pub open spec fn html_response(status: Seq<char>, html: Seq<char>) -> Seq<char> {
    status + "\r\nContent-Type: text/html\r\nContent-Length: "@ + decimal(
        vstd::utf8::encode_utf8(html).len(),
    ) + "\r\n\r\n"@ + html
}

/// The page that tells the user the sign-in was refused.
pub open spec fn rejection_page() -> Seq<char> {
    "<!DOCTYPE html>\n<html>\n<head><title>Authentication Failed</title></head>\n<body style=\"font-family: sans-serif; text-align: center; padding: 50px;\">\n<h1 style=\"color: #d32f2f;\">Authentication Failed</h1>\n<p>Security validation failed. Please try again.</p>\n</body>\n</html>"@
}

/// The page that tells the user the sign-in with `provider` succeeded.
pub open spec fn success_page(provider: Seq<char>) -> Seq<char> {
    "<!DOCTYPE html>\n<html>\n<head><title>Authentication Successful</title></head>\n<body style=\"font-family: sans-serif; text-align: center; padding: 50px;\">\n<h1 style=\"color: #4caf50;\">Authentication Successful!</h1>\n<p>You have successfully authorized AxiomVault to access your "@
        + provider
        + ".</p>\n<p>You can close this window and return to the terminal.</p>\n</body>\n</html>"@
}

fn html_response_of(status: &str, html: String) -> (r: String)
    requires
        vstd::utf8::encode_utf8(html@).len() <= usize::MAX,
    ensures
        r@ == html_response(status@, html@),
{
    let len = html.as_str().len();
    let mut r = String::from_str(status);
    push_str(&mut r, "\r\nContent-Type: text/html\r\nContent-Length: ");
    push_decimal(&mut r, len as u128);
    push_str(&mut r, "\r\n\r\n");
    push_str(&mut r, html.as_str());
    assert(r@ =~= html_response(status@, html@));
    r
}

/// The answer to a callback whose CSRF token does not match.
pub fn callback_rejection_response() -> (r: String)
    ensures
        r@ == html_response("HTTP/1.1 400 Bad Request"@, rejection_page()),
{
    let html = String::from_str(
        "<!DOCTYPE html>\n<html>\n<head><title>Authentication Failed</title></head>\n<body style=\"font-family: sans-serif; text-align: center; padding: 50px;\">\n<h1 style=\"color: #d32f2f;\">Authentication Failed</h1>\n<p>Security validation failed. Please try again.</p>\n</body>\n</html>",
    );
    proof {
        reveal_strlit(
            "<!DOCTYPE html>\n<html>\n<head><title>Authentication Failed</title></head>\n<body style=\"font-family: sans-serif; text-align: center; padding: 50px;\">\n<h1 style=\"color: #d32f2f;\">Authentication Failed</h1>\n<p>Security validation failed. Please try again.</p>\n</body>\n</html>",
        );
        assert(vstd::utf8::is_ascii_chars(html@));
        vstd::utf8::is_ascii_chars_encode_utf8(html@);
    }
    html_response_of("HTTP/1.1 400 Bad Request", html)
}

/// The answer to a callback that carries a valid authorization for
/// `provider_name`.
pub fn callback_success_response(provider_name: &str) -> (r: String)
    requires
        vstd::utf8::encode_utf8(success_page(provider_name@)).len() <= usize::MAX,
    ensures
        r@ == html_response("HTTP/1.1 200 OK"@, success_page(provider_name@)),
{
    let mut html = String::from_str(
        "<!DOCTYPE html>\n<html>\n<head><title>Authentication Successful</title></head>\n<body style=\"font-family: sans-serif; text-align: center; padding: 50px;\">\n<h1 style=\"color: #4caf50;\">Authentication Successful!</h1>\n<p>You have successfully authorized AxiomVault to access your ",
    );
    push_str(&mut html, provider_name);
    push_str(
        &mut html,
        ".</p>\n<p>You can close this window and return to the terminal.</p>\n</body>\n</html>",
    );
    html_response_of("HTTP/1.1 200 OK", html)
}

/// The sign-in yields a code only for a callback whose last `state` is the
/// CSRF token it was started with, and the code is the last `code` given.
pub proof fn law_code_only_with_matching_state(
    pairs: Seq<(Seq<char>, Seq<char>)>,
    csrf_token: Seq<char>,
)
    ensures
        pairs_outcome(pairs, csrf_token) matches Ok(code) ==> {
            &&& last_value(pairs, "state"@) == Some(csrf_token)
            &&& last_value(pairs, "code"@) == Some(code)
        },
        last_value(pairs, "state"@) matches Some(state) && state != csrf_token ==> !(pairs_outcome(
            pairs,
            csrf_token,
        ) is Ok),
{
}

} // verus!
