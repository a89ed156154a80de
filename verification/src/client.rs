//! The control API of the proxy engine: which request each operation sends,
//! and what is taken from an answer.
//!
//! Nothing here sends anything. An operation gives the request as a value:
//! method, address, credential and body. The caller sends it and reads the
//! answer.

use crate::session::{FetchError, FetchErrorKind};
use crate::text::{
    append_chars, drop_trailing, from_chars, skip_leading, to_chars, trim, trimmed,
    without_leading, without_trailing,
};
use vstd::prelude::*;
use vstd::string::StringExecFns;
use vstd::utf8::encode_utf8;

verus! {

/// Whether a byte stands for itself in a percent-encoded string: an ASCII
/// letter or digit, or one of `-`, `.`, `_`, `~`.
pub open spec fn is_unreserved(b: u8) -> bool {
    ||| 0x30 <= b <= 0x39
    ||| 0x41 <= b <= 0x5a
    ||| 0x61 <= b <= 0x7a
    ||| b == 0x2d
    ||| b == 0x2e
    ||| b == 0x5f
    ||| b == 0x7e
}

/// The digit for a value below sixteen, with capital letters from ten on.
pub open spec fn hex_digit(d: int) -> char {
    if d < 10 {
        (0x30 + d) as char
    } else {
        (0x41 + d - 10) as char
    }
}

/// What one byte becomes: itself where it is unreserved, else a percent
/// sign and its two hexadecimal digits.
pub open spec fn encoded_byte(b: u8) -> Seq<char> {
    if is_unreserved(b) {
        seq![b as char]
    } else {
        seq!['%', hex_digit(b as int / 16), hex_digit(b as int % 16)]
    }
}

/// The percent-encoding of a sequence of bytes.
pub open spec fn percent_encoded(bytes: Seq<u8>) -> Seq<char>
    decreases bytes.len(),
{
    if bytes.len() == 0 {
        Seq::empty()
    } else {
        encoded_byte(bytes[0]) + percent_encoded(bytes.drop_first())
    }
}

/// The percent-encoding of a text: that of its UTF-8 bytes.
pub open spec fn url_encoded(text: Seq<char>) -> Seq<char> {
    percent_encoded(encode_utf8(text))
}

/// Percent-encodes a string by calling `urlencoding::encode`. The contract
/// claims what the crate documents and its source shows: every byte of the
/// string's UTF-8 form stays as it is where it is an ASCII letter or digit
/// or one of `-`, `.`, `_`, `~`, and else becomes a percent sign followed by
/// its two hexadecimal digits, in capitals.
#[verifier::external_body]
fn percent_encode(data: &str) -> (encoded: String)
    ensures
        encoded@ == url_encoded(data@),
{
    urlencoding::encode(data).into_owned()
}

/// The character of a decimal digit.
pub open spec fn digit_char(d: int) -> char {
    (0x30 + d) as char
}

/// The decimal digits of `n`, without leading zeros.
pub open spec fn decimal(n: nat) -> Seq<char>
    decreases n,
{
    if n < 10 {
        seq![digit_char(n as int)]
    } else {
        decimal(n / 10).push(digit_char((n % 10) as int))
    }
}

/// The decimal digits of `n`.
pub fn decimal_digits(n: u64) -> (digits: Vec<char>)
    ensures
        digits@ == decimal(n as nat),
    decreases n,
{
    let last = ((0x30 + n % 10) as u8) as char;
    if n < 10 {
        let mut digits: Vec<char> = Vec::new();
        digits.push(last);
        assert(digits@ =~= seq![digit_char(n as int)]);
        digits
    } else {
        let mut digits = decimal_digits(n / 10);
        digits.push(last);
        digits
    }
}

/// How a request asks.
#[derive(Debug, Clone, Copy, PartialEq, Eq, Structural)]
pub enum Method {
    Get,
    Put,
}

/// One member of the JSON object that a request carries: a name and a
/// string.
#[derive(Debug)]
pub struct BodyField {
    pub name: String,
    pub value: String,
}

/// A request to the control endpoint.
#[derive(Debug)]
pub struct ApiRequest {
    pub method: Method,
    /// The full address.
    pub url: String,
    /// The value of the `Authorization` header.
    pub authorization: String,
    /// The members of the JSON object sent as the body, in order; a request
    /// without members has no body.
    pub body: Vec<BodyField>,
}

/// A request as mathematical values.
pub struct RequestView {
    pub method: Method,
    pub url: Seq<char>,
    pub authorization: Seq<char>,
    pub body: Seq<(Seq<char>, Seq<char>)>,
}

/// The members of a body as pairs of texts.
pub open spec fn body_view(body: Seq<BodyField>) -> Seq<(Seq<char>, Seq<char>)> {
    Seq::new(body.len(), |i: int| (body[i].name@, body[i].value@))
}

impl View for ApiRequest {
    type V = RequestView;

    open spec fn view(&self) -> RequestView {
        RequestView {
            method: self.method,
            url: self.url@,
            authorization: self.authorization@,
            body: body_view(self.body@),
        }
    }
}

/// The request for `path` at an endpoint: the address is the base, a slash
/// and the path without the slashes at its start; the credential goes into
/// the `Authorization` header as a bearer token.
pub open spec fn request_to(
    base: Seq<char>,
    secret: Seq<char>,
    method: Method,
    path: Seq<char>,
    body: Seq<(Seq<char>, Seq<char>)>,
) -> RequestView {
    RequestView {
        method,
        url: base + seq!['/'] + without_leading(path, '/'),
        authorization: "Bearer "@ + secret,
        body,
    }
}

/// The path of one proxy or group.
pub open spec fn proxy_path(name: Seq<char>) -> Seq<char> {
    "/proxies/"@ + url_encoded(name)
}

/// The path that reloads the configuration.
pub open spec fn reload_path(force: bool) -> Seq<char> {
    if force {
        "/configs?force=true"@
    } else {
        "/configs?force=false"@
    }
}

/// The members of the body of a reload: the path where one is given, then
/// the payload where one is given.
pub open spec fn reload_body(
    path: Option<Seq<char>>,
    payload: Option<Seq<char>>,
) -> Seq<(Seq<char>, Seq<char>)> {
    let first = match path {
        Some(p) => seq![("path"@, p)],
        None => Seq::empty(),
    };
    match payload {
        Some(p) => first.push(("payload"@, p)),
        None => first,
    }
}

/// The path of a delay probe, with the address to probe and the time limit
/// in milliseconds as its query.
pub open spec fn delay_path(name: Seq<char>, url: Seq<char>, timeout: u64) -> Seq<char> {
    proxy_path(name) + "/delay"@ + "?url="@ + url_encoded(url) + "&timeout="@ + decimal(
        timeout as nat,
    )
}

/// The path of the log stream, with the level as its query where one is
/// given.
pub open spec fn logs_path(level: Option<Seq<char>>) -> Seq<char> {
    match level {
        Some(l) => "/logs"@ + "?level="@ + url_encoded(l),
        None => "/logs"@,
    }
}

/// The view of an optional string slice.
pub open spec fn slice_text(s: Option<&str>) -> Option<Seq<char>> {
    match s {
        Some(t) => Some(t@),
        None => None,
    }
}

/// The control endpoint of one proxy engine: its base address and the
/// credential that every request carries.
#[derive(Debug)]
pub struct MihomoClient {
    base_url: String,
    secret: String,
}

impl Clone for MihomoClient {
    fn clone(&self) -> (copy: Self)
        ensures
            copy == *self,
    {
        MihomoClient { base_url: self.base_url.clone(), secret: self.secret.clone() }
    }
}

impl MihomoClient {
    /// The base address, without a slash at its end.
    pub closed spec fn base(&self) -> Seq<char> {
        self.base_url@
    }

    /// The credential.
    pub closed spec fn token(&self) -> Seq<char> {
        self.secret@
    }

    /// The request that this client sends for `path`.
    pub open spec fn spec_request(
        &self,
        method: Method,
        path: Seq<char>,
        body: Seq<(Seq<char>, Seq<char>)>,
    ) -> RequestView {
        request_to(self.base(), self.token(), method, path, body)
    }

    /// A client for the endpoint at `base_url`. Slashes at the end of the
    /// address are dropped.
    pub fn new(base_url: &str, secret: &str) -> (client: MihomoClient)
        ensures
            client.base() == without_trailing(base_url@, '/'),
            client.token() == secret@,
    {
        let base = drop_trailing(to_chars(base_url), '/');
        MihomoClient { base_url: from_chars(&base), secret: String::from_str(secret) }
    }

    /// The base address.
    pub fn base_url(&self) -> (base: &str)
        ensures
            base@ == self.base(),
    {
        self.base_url.as_str()
    }

    /// The credential.
    pub fn secret(&self) -> (secret: &str)
        ensures
            secret@ == self.token(),
    {
        self.secret.as_str()
    }

    /// The request for `path` with `body`.
    fn request(&self, method: Method, path: &Vec<char>, body: Vec<BodyField>) -> (r: ApiRequest)
        ensures
            r@ == self.spec_request(method, path@, body_view(body@)),
    {
        let mut url = to_chars(self.base_url.as_str());
        url.push('/');
        append_chars(&mut url, &skip_leading(path, '/'));
        assert(url@ =~= self.base() + seq!['/'] + without_leading(path@, '/'));
        let mut authorization = String::from_str("Bearer ");
        authorization.append(self.secret.as_str());
        ApiRequest { method, url: from_chars(&url), authorization, body }
    }

    /// Asks for the current configuration.
    pub fn get_configs(&self) -> (r: ApiRequest)
        ensures
            r@ == self.spec_request(Method::Get, "/configs"@, Seq::empty()),
    {
        self.request(Method::Get, &to_chars("/configs"), no_body())
    }

    /// Asks the engine to load a configuration: from the file at `path`,
    /// from the text `payload`, or again from where it last did. With
    /// `force` the engine reloads even what it holds already.
    pub fn reload_config(&self, path: Option<&str>, payload: Option<&str>, force: bool) -> (r:
        ApiRequest)
        ensures
            r@ == self.spec_request(
                Method::Put,
                reload_path(force),
                reload_body(slice_text(path), slice_text(payload)),
            ),
    {
        let mut body: Vec<BodyField> = Vec::new();
        if let Some(p) = path {
            body.push(BodyField { name: String::from_str("path"), value: String::from_str(p) });
        }
        if let Some(p) = payload {
            body.push(
                BodyField { name: String::from_str("payload"), value: String::from_str(p) },
            );
        }
        assert(body_view(body@) =~= reload_body(slice_text(path), slice_text(payload)));
        let target = if force {
            to_chars("/configs?force=true")
        } else {
            to_chars("/configs?force=false")
        };
        self.request(Method::Put, &target, body)
    }

    /// Asks for all proxies and groups.
    pub fn get_proxies(&self) -> (r: ApiRequest)
        ensures
            r@ == self.spec_request(Method::Get, "/proxies"@, Seq::empty()),
    {
        self.request(Method::Get, &to_chars("/proxies"), no_body())
    }

    /// Asks for one proxy or group.
    pub fn get_proxy(&self, name: &str) -> (r: ApiRequest)
        ensures
            r@ == self.spec_request(Method::Get, proxy_path(name@), Seq::empty()),
    {
        self.request(Method::Get, &path_of_proxy(name), no_body())
    }

    /// Asks the group `group` to use the proxy `target_proxy`.
    pub fn select_proxy(&self, group: &str, target_proxy: &str) -> (r: ApiRequest)
        ensures
            r@ == self.spec_request(
                Method::Put,
                proxy_path(group@),
                seq![("name"@, target_proxy@)],
            ),
    {
        let mut body: Vec<BodyField> = Vec::new();
        body.push(
            BodyField { name: String::from_str("name"), value: String::from_str(target_proxy) },
        );
        assert(body_view(body@) =~= seq![("name"@, target_proxy@)]);
        self.request(Method::Put, &path_of_proxy(group), body)
    }

    /// Asks how long the proxy `name` takes to reach `url`, giving up after
    /// `timeout` milliseconds.
    pub fn test_proxy_delay(&self, name: &str, url: &str, timeout: u64) -> (r: ApiRequest)
        ensures
            r@ == self.spec_request(Method::Get, delay_path(name@, url@, timeout), Seq::empty()),
    {
        let mut path = path_of_proxy(name);
        append_chars(&mut path, &to_chars("/delay"));
        append_chars(&mut path, &to_chars("?url="));
        append_chars(&mut path, &to_chars(percent_encode(url).as_str()));
        append_chars(&mut path, &to_chars("&timeout="));
        append_chars(&mut path, &decimal_digits(timeout));
        self.request(Method::Get, &path, no_body())
    }

    /// Asks for the rules.
    pub fn get_rules(&self) -> (r: ApiRequest)
        ensures
            r@ == self.spec_request(Method::Get, "/rules"@, Seq::empty()),
    {
        self.request(Method::Get, &to_chars("/rules"), no_body())
    }

    /// Asks for the engine's version.
    pub fn get_version(&self) -> (r: ApiRequest)
        ensures
            r@ == self.spec_request(Method::Get, "/version"@, Seq::empty()),
    {
        self.request(Method::Get, &to_chars("/version"), no_body())
    }

    /// Asks for the log stream, of the given level where one is given.
    pub fn get_logs(&self, level: Option<&str>) -> (r: ApiRequest)
        ensures
            r@ == self.spec_request(Method::Get, logs_path(slice_text(level)), Seq::empty()),
    {
        let mut path = to_chars("/logs");
        if let Some(l) = level {
            append_chars(&mut path, &to_chars("?level="));
            append_chars(&mut path, &to_chars(percent_encode(l).as_str()));
        }
        self.request(Method::Get, &path, no_body())
    }
}

/// A body without members.
fn no_body() -> (body: Vec<BodyField>)
    ensures
        body_view(body@) == Seq::<(Seq<char>, Seq<char>)>::empty(),
{
    let body: Vec<BodyField> = Vec::new();
    assert(body_view(body@) =~= Seq::<(Seq<char>, Seq<char>)>::empty());
    body
}

/// The path of the proxy or group `name`.
fn path_of_proxy(name: &str) -> (path: Vec<char>)
    ensures
        path@ == proxy_path(name@),
{
    let mut path = to_chars("/proxies/");
    append_chars(&mut path, &to_chars(percent_encode(name).as_str()));
    path
}

/// The version that the body of an answer names: the body without white
/// space at either end.
pub fn version_of(body: &str) -> (version: String)
    ensures
        version@ == trimmed(body@),
{
    from_chars(&trim(&to_chars(body)))
}

/// The delay that an answer reports, where `found` is what the answer holds
/// under `delay`. An answer without it is a protocol error.
pub fn delay_of(found: Option<u64>) -> (delay: Result<u64, FetchError>)
    ensures
        match found {
            Some(d) => delay == Ok::<u64, FetchError>(d),
            None => delay is Err && delay->Err_0.kind == FetchErrorKind::Protocol
                && delay->Err_0.cause is Some && delay->Err_0.cause->0@
                == "delay field not found"@,
        },
{
    match found {
        Some(d) => Ok(d),
        None => Err(
            FetchError {
                kind: FetchErrorKind::Protocol,
                cause: Some(String::from_str("delay field not found")),
            },
        ),
    }
}

} // verus!
