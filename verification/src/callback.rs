//! The web address at which the local Kiro CLI waits for the end of a login.
use crate::decimal;
use crate::text;
use crate::text::{same_text, trim};
use crate::words;
use vstd::prelude::*;
use vstd::string::*;

verus! {

// ---------------------------------------------------------------------------
// URLs
// ---------------------------------------------------------------------------

/// A parsed URL, as the `reqwest` crate hands it on from the `url` crate.
#[verifier::external_type_specification]
#[verifier::external_body]
pub struct ExUrl(reqwest::Url);

/// The serialization that a parsed URL holds. URLs are the same when their serializations are.
pub uninterp spec fn url_text(url: reqwest::Url) -> Seq<char>;

/// What `reqwest::Url::parse` makes of a text: the serialization of the URL, or the message that
/// says why there is none.
pub uninterp spec fn url_parsed(input: Seq<char>) -> Result<Seq<char>, Seq<char>>;

/// The host of the URL with the serialization `url`.
pub uninterp spec fn url_host(url: Seq<char>) -> Option<Seq<char>>;

/// The port of the URL with the serialization `url`, given or known from the scheme.
pub uninterp spec fn url_port(url: Seq<char>) -> Option<u16>;

/// The path of the URL with the serialization `url`.
pub uninterp spec fn url_path(url: Seq<char>) -> Seq<char>;

/// The serialization `url` after `reqwest::Url::set_host` with `host`.
pub uninterp spec fn url_with_host(url: Seq<char>, host: Seq<char>) -> Seq<char>;

/// The scheme of the URL with the serialization `url`: what stands before its first colon.
pub open spec fn url_scheme(url: Seq<char>) -> Seq<char> {
    url.take(words::span(url, text::CharClass::Colon.member()) as int)
}

/// `scheme` is that of web pages.
pub open spec fn web_scheme(scheme: Seq<char>) -> bool {
    scheme == "http"@ || scheme == "https"@
}

/// The port of web pages of the scheme `scheme`.
pub open spec fn default_port(scheme: Seq<char>) -> u16 {
    if scheme == "http"@ {
        80
    } else {
        443
    }
}

/// `s` is an IPv4 address in dotted decimal notation.
pub open spec fn ipv4_text(s: Seq<char>) -> bool {
    exists|a: u8, b: u8, c: u8, d: u8| s == #[trigger] dotted(a, b, c, d)
}

/// The IPv4 address of four bytes in dotted decimal notation.
pub open spec fn dotted(a: u8, b: u8, c: u8, d: u8) -> Seq<char> {
    decimal::decimal(a as nat) + seq!['.'] + decimal::decimal(b as nat) + seq!['.']
        + decimal::decimal(c as nat) + seq!['.'] + decimal::decimal(d as nat)
}

/// `next` is `url` with `host` in place of its host.
pub open spec fn host_replaced(url: Seq<char>, host: Seq<char>, next: Seq<char>) -> bool {
    exists|at: int|
        {
            &&& #[trigger] text::occurs_at(url, url_host(url)->0, at)
            &&& next == url.take(at) + host + url.skip(at + url_host(url)->0.len())
        }
}

/// Parses `input` with `reqwest::Url::parse`. The URL, or the message of the error, depends on
/// the text alone.
#[verifier::external_body]
fn parse_url(input: &str) -> (r: Result<reqwest::Url, String>)
    ensures
        match r {
            Ok(url) => url_parsed(input@) == Ok::<Seq<char>, Seq<char>>(url_text(url)),
            Err(message) => url_parsed(input@) == Err::<Seq<char>, Seq<char>>(message@),
        },
{
    reqwest::Url::parse(input).map_err(|error| error.to_string())
}

/// `reqwest::Url::scheme` gives the part of the serialization before the first colon. There always
/// is one.
pub assume_specification[ reqwest::Url::scheme ](url: &reqwest::Url) -> (r: &str)
    ensures
        r@ == url_scheme(url_text(*url)),
        r@.len() < url_text(*url).len(),
;

/// `reqwest::Url::host_str` gives the host as it stands in the serialization. A host has a colon
/// only between square brackets, so that it never begins with one. Where there is a host, a colon
/// and two slashes stand behind the scheme.
pub assume_specification[ reqwest::Url::host_str ](url: &reqwest::Url) -> (r: Option<&str>)
    ensures
        text::opt_str(r) == url_host(url_text(*url)),
        r matches Some(host) ==> !(host@.len() > 0 && host@[0] == ':'),
        r is Some ==> text::begins_with(
            url_text(*url).skip(url_scheme(url_text(*url)).len() as int),
            "://"@,
        ),
;

/// `reqwest::Url::port_or_known_default` gives the port of the URL or else that of its scheme.
pub assume_specification[ reqwest::Url::port_or_known_default ](url: &reqwest::Url) -> (r: Option<
    u16,
>)
    ensures
        r == url_port(url_text(*url)),
;

/// `reqwest::Url::path` gives the part of the serialization between the authority and the query.
pub assume_specification[ reqwest::Url::path ](url: &reqwest::Url) -> (r: &str)
    ensures
        r@ == url_path(url_text(*url)),
;

/// `reqwest::Url::set_scheme` puts another scheme in front of the serialization. Between the
/// schemes of web pages it succeeds, and it leaves the rest alone when the port is not the usual
/// one of the new scheme. A scheme that is no longer than the old one keeps every position in the
/// serialization within range.
pub assume_specification[ reqwest::Url::set_scheme ](
    url: &mut reqwest::Url,
    scheme: &str,
) -> (r: Result<(), ()>)
    requires
        web_scheme(scheme@),
        web_scheme(url_scheme(url_text(*old(url)))),
        scheme@.len() <= url_scheme(url_text(*old(url))).len(),
        url_host(url_text(*old(url))) is Some,
        url_port(url_text(*old(url))) is Some,
        url_port(url_text(*old(url)))->0 != default_port(url_scheme(url_text(*old(url)))),
        url_port(url_text(*old(url)))->0 != default_port(scheme@),
    ensures
        r is Ok,
        url_text(*final(url)) == scheme@ + url_text(*old(url)).skip(
            url_scheme(url_text(*old(url))).len() as int,
        ),
        url_scheme(url_text(*final(url))) == scheme@,
        url_host(url_text(*final(url))) == url_host(url_text(*old(url))),
        url_port(url_text(*final(url))) == url_port(url_text(*old(url))),
        url_path(url_text(*final(url))) == url_path(url_text(*old(url))),
;

/// Puts an IPv4 address in place of the host with `reqwest::Url::set_host` and tells whether that
/// was possible. For the URL of a web page it is: the address is written as it is given, and what
/// stands before and after the host stays, so that doing it again changes nothing. A host that is
/// no longer than the old one keeps every position in the serialization within range.
#[verifier::external_body]
fn set_ipv4_host(url: &mut reqwest::Url, host: &str) -> (r: bool)
    requires
        ipv4_text(host@),
        web_scheme(url_scheme(url_text(*old(url)))),
        url_host(url_text(*old(url))) is Some,
        host@.len() <= url_host(url_text(*old(url)))->0.len(),
    ensures
        r,
        url_text(*final(url)) == url_with_host(url_text(*old(url)), host@),
        url_with_host(url_text(*final(url)), host@) == url_text(*final(url)),
        host_replaced(url_text(*old(url)), host@, url_text(*final(url))),
        url_scheme(url_text(*final(url))) == url_scheme(url_text(*old(url))),
        url_host(url_text(*final(url))) == Some(host@),
        url_port(url_text(*final(url))) == url_port(url_text(*old(url))),
        url_path(url_text(*final(url))) == url_path(url_text(*old(url))),
{
    url.set_host(Some(host)).is_ok()
}

/// `reqwest::Url::set_port` with the port that the URL of a web page has already changes nothing.
pub assume_specification[ reqwest::Url::set_port ](
    url: &mut reqwest::Url,
    port: Option<u16>,
) -> (r: Result<(), ()>)
    requires
        web_scheme(url_scheme(url_text(*old(url)))),
        url_host(url_text(*old(url))) is Some,
        url_host(url_text(*old(url)))->0.len() > 0,
        url_port(url_text(*old(url))) == port,
    ensures
        r is Ok,
        url_text(*final(url)) == url_text(*old(url)),
;

/// Writes `url` down with its `to_string`, which gives the serialization. That of a callback to the
/// local Kiro CLI holds no white space, which is percent-encoded wherever it may stand, and
/// `reqwest::Url::parse` makes the same URL of it again.
#[verifier::external_body]
fn url_string(url: &reqwest::Url) -> (r: String)
    ensures
        r@ == url_text(*url),
        reaches_local_cli(r@) ==> {
            &&& url_parsed(r@) == Ok::<Seq<char>, Seq<char>>(r@)
            &&& forall|i: int| 0 <= i < r@.len() ==> !text::white_space(#[trigger] r@[i])
        },
{
    url.to_string()
}

// ---------------------------------------------------------------------------
// Callbacks
// ---------------------------------------------------------------------------

/// Why a text is not the address of a callback.
#[derive(Debug, Clone, PartialEq, Eq)]
pub enum CallbackUrlError {
    /// It is no URL at all, for this reason.
    NotAUrl(String),
    /// It is not that of a web page.
    Scheme,
    /// It is not on this machine.
    Host,
    /// It has another port.
    Port,
    /// It has another path.
    Path,
}

/// The contents of a [`CallbackUrlError`].
pub ghost enum CallbackErrorView {
    NotAUrl(Seq<char>),
    Scheme,
    Host,
    Port,
    Path,
}

impl View for CallbackUrlError {
    type V = CallbackErrorView;

    open spec fn view(&self) -> CallbackErrorView {
        match self {
            CallbackUrlError::NotAUrl(message) => CallbackErrorView::NotAUrl(message@),
            CallbackUrlError::Scheme => CallbackErrorView::Scheme,
            CallbackUrlError::Host => CallbackErrorView::Host,
            CallbackUrlError::Port => CallbackErrorView::Port,
            CallbackUrlError::Path => CallbackErrorView::Path,
        }
    }
}

/// The message for a callback that is refused.
pub open spec fn callback_error_text(error: CallbackErrorView) -> Seq<char> {
    match error {
        CallbackErrorView::NotAUrl(message) => message,
        CallbackErrorView::Scheme => "callback URL 必须是 http/https"@,
        CallbackErrorView::Host => "callback URL 必须指向 localhost"@,
        CallbackErrorView::Port => "callback URL 端口必须是 3128"@,
        CallbackErrorView::Path => "callback URL 路径必须是 /oauth/callback"@,
    }
}

impl CallbackUrlError {
    /// The message for this error.
    pub fn message(&self) -> (r: String)
        ensures
            r@ == callback_error_text(self@),
    {
        match self {
            CallbackUrlError::NotAUrl(message) => message.clone(),
            CallbackUrlError::Scheme => "callback URL 必须是 http/https".to_string(),
            CallbackUrlError::Host => "callback URL 必须指向 localhost".to_string(),
            CallbackUrlError::Port => "callback URL 端口必须是 3128".to_string(),
            CallbackUrlError::Path => "callback URL 路径必须是 /oauth/callback".to_string(),
        }
    }
}

/// The port at which the Kiro CLI waits.
pub const CALLBACK_PORT: u16 = 3128;

/// `host` is this machine.
pub open spec fn local_host(host: Option<Seq<char>>) -> bool {
    host == Some("localhost"@) || host == Some("127.0.0.1"@) || host == Some("::1"@)
}

/// What is wrong with a URL of these parts as the address of a callback, if anything is.
pub open spec fn callback_fault(
    scheme: Seq<char>,
    host: Option<Seq<char>>,
    port: Option<u16>,
    path: Seq<char>,
) -> Option<CallbackErrorView> {
    if !web_scheme(scheme) {
        Some(CallbackErrorView::Scheme)
    } else if !local_host(host) {
        Some(CallbackErrorView::Host)
    } else if port != Some(CALLBACK_PORT) {
        Some(CallbackErrorView::Port)
    } else if path != "/oauth/callback"@ {
        Some(CallbackErrorView::Path)
    } else {
        None
    }
}

/// Checks the parts of a URL that is to be the address of a callback.
pub fn check_callback_url(
    scheme: &str,
    host: Option<&str>,
    port: Option<u16>,
    path: &str,
) -> (r: Result<(), CallbackUrlError>)
    ensures
        match r {
            Ok(_) => callback_fault(scheme@, text::opt_str(host), port, path@) is None,
            Err(error) => callback_fault(scheme@, text::opt_str(host), port, path@) == Some(error@),
        },
{
    if !(same_text(scheme, "http") || same_text(scheme, "https")) {
        return Err(CallbackUrlError::Scheme);
    }
    let is_local = match host {
        Some(host) => same_text(host, "localhost") || same_text(host, "127.0.0.1") || same_text(
            host,
            "::1",
        ),
        None => false,
    };
    if !is_local {
        return Err(CallbackUrlError::Host);
    }
    match port {
        Some(port) if port == CALLBACK_PORT => {},
        _ => {
            return Err(CallbackUrlError::Port);
        },
    }
    if !same_text(path, "/oauth/callback") {
        return Err(CallbackUrlError::Path);
    }
    Ok(())
}

/// The URL `url` with the scheme of web pages without encryption.
pub open spec fn with_http(url: Seq<char>) -> Seq<char> {
    "http"@ + url.skip(url_scheme(url).len() as int)
}

/// The address to which a callback to the URL `url` is sent: the same on the loopback interface,
/// without encryption.
pub open spec fn local_callback(url: Seq<char>) -> Seq<char> {
    url_with_host(with_http(url), "127.0.0.1"@)
}

/// The address to which the callback `input` is sent, or the reason why it is refused.
pub open spec fn callback_target(input: Seq<char>) -> Result<Seq<char>, CallbackErrorView> {
    match url_parsed(text::trimmed(input)) {
        Err(message) => Err(CallbackErrorView::NotAUrl(message)),
        Ok(url) => match callback_fault(
            url_scheme(url),
            url_host(url),
            url_port(url),
            url_path(url),
        ) {
            Some(error) => Err(error),
            None => Ok(local_callback(url)),
        },
    }
}

/// `target` is a place where the local Kiro CLI waits for a callback.
pub open spec fn reaches_local_cli(target: Seq<char>) -> bool {
    &&& url_scheme(target) == "http"@
    &&& url_host(target) == Some("127.0.0.1"@)
    &&& url_port(target) == Some(CALLBACK_PORT)
    &&& url_path(target) == "/oauth/callback"@
}

/// Finds the address to which the callback `input` is sent. It always reaches the local Kiro CLI,
/// only the scheme and the host differ from the URL that was given, and the address of a callback
/// to that address is the same again.
pub fn normalize_kiro_callback_url(input: &str) -> (r: Result<String, CallbackUrlError>)
    ensures
        match r {
            Ok(target) => {
                &&& callback_target(input@) == Ok::<Seq<char>, CallbackErrorView>(target@)
                &&& reaches_local_cli(target@)
                &&& text::begins_with(target@, "http://"@)
                &&& callback_target(target@) == Ok::<Seq<char>, CallbackErrorView>(target@)
                &&& url_parsed(text::trimmed(input@)) matches Ok(url) && url_host(
                    with_http(url),
                ) == url_host(url) && host_replaced(with_http(url), "127.0.0.1"@, target@)
            },
            Err(error) => callback_target(input@) == Err::<Seq<char>, CallbackErrorView>(error@),
        },
        r is Ok <==> (url_parsed(text::trimmed(input@)) matches Ok(url) && (url_scheme(url)
            == "http"@ || url_scheme(url) == "https"@) && (url_host(url) == Some("localhost"@)
            || url_host(url) == Some("127.0.0.1"@) || url_host(url) == Some("::1"@)) && url_port(url)
            == Some(3128u16) && url_path(url) == "/oauth/callback"@),
{
    let mut url = match parse_url(trim(input)) {
        Ok(url) => url,
        Err(message) => {
            return Err(CallbackUrlError::NotAUrl(message));
        },
    };
    if let Err(error) = check_callback_url(
        url.scheme(),
        url.host_str(),
        url.port_or_known_default(),
        url.path(),
    ) {
        return Err(error);
    }
    proof {
        reveal_strlit("http");
        reveal_strlit("https");
        reveal_strlit("localhost");
        reveal_strlit("127.0.0.1");
        reveal_strlit("::1");
        loopback_is_ipv4();
    }
    let ghost given = url_text(url);
    let _ = url.set_scheme("http");
    let _ = set_ipv4_host(&mut url, "127.0.0.1");
    let _ = url.set_port(Some(CALLBACK_PORT));
    let target = url_string(&url);
    proof {
        host_is_behind_slashes(given, target@);
        target_is_its_own_target(target@);
    }
    Ok(target)
}

/// Putting the loopback address in place of a local host leaves the beginning of the URL alone.
proof fn host_is_behind_slashes(given: Seq<char>, target: Seq<char>)
    requires
        text::begins_with(given.skip(url_scheme(given).len() as int), "://"@),
        url_host(with_http(given)) == Some("localhost"@) || url_host(with_http(given)) == Some(
            "127.0.0.1"@,
        ),
        host_replaced(with_http(given), "127.0.0.1"@, target),
    ensures
        text::begins_with(target, "http://"@),
{
    reveal_strlit("http");
    reveal_strlit("://");
    reveal_strlit("http://");
    reveal_strlit("localhost");
    reveal_strlit("127.0.0.1");
    let rest = given.skip(url_scheme(given).len() as int);
    let url = with_http(given);
    let host = url_host(url)->0;
    let at = choose|at: int|
        {
            &&& #[trigger] text::occurs_at(url, host, at)
            &&& target == url.take(at) + "127.0.0.1"@ + url.skip(at + host.len())
        };
    assert(url[at] == host[0]) by {
        assert(url.subrange(at, at + host.len())[0] == url[at]);
    }
    assert(rest.subrange(0, 3) == "://"@);
    assert(rest[0] == rest.subrange(0, 3)[0]);
    assert(rest[1] == rest.subrange(0, 3)[1]);
    assert(rest[2] == rest.subrange(0, 3)[2]);
    assert(url[0] == 'h' && url[1] == 't' && url[2] == 't' && url[3] == 'p');
    assert(url[4] == rest[0] && url[5] == rest[1] && url[6] == rest[2]);
    assert(at >= 7);
    assert(target.subrange(0, 7) =~= "http://"@);
}

/// An address that was found for a callback is found for itself.
proof fn target_is_its_own_target(target: Seq<char>)
    requires
        reaches_local_cli(target),
        text::begins_with(target, "http://"@),
        url_parsed(target) == Ok::<Seq<char>, Seq<char>>(target),
        url_with_host(target, "127.0.0.1"@) == target,
        forall|i: int| 0 <= i < target.len() ==> !text::white_space(#[trigger] target[i]),
    ensures
        callback_target(target) == Ok::<Seq<char>, CallbackErrorView>(target),
{
    reveal_strlit("http");
    reveal_strlit("http://");
    assert(target.subrange(0, 7) == "http://"@);
    assert(text::trimmed(target) == target);
    assert forall|i: int| 0 <= i < 4 implies #[trigger] target[i] == "http"@[i] by {
        assert(target.subrange(0, 7)[i] == target[i]);
    }
    assert(with_http(target) =~= target);
}

/// The loopback address is an IPv4 address.
proof fn loopback_is_ipv4()
    ensures
        ipv4_text("127.0.0.1"@),
{
    reveal_strlit("127.0.0.1");
    reveal_with_fuel(decimal::decimal, 3);
    assert("127.0.0.1"@ =~= dotted(127, 0, 0, 1));
}

// ---------------------------------------------------------------------------
// Part by part
// ---------------------------------------------------------------------------

/// The scheme of a URL is what stands before its first colon.
pub proof fn scheme_ends_at_the_first_colon(scheme: Seq<char>, rest: Seq<char>)
    requires
        forall|i: int| 0 <= i < scheme.len() ==> #[trigger] scheme[i] != ':',
    ensures
        url_scheme(scheme + seq![':'] + rest) == scheme,
        url_scheme(scheme) == scheme,
{
    let stop = text::CharClass::Colon.member();
    let url = scheme + seq![':'] + rest;
    words::span_is_first(url, stop);
    let n = words::span(url, stop) as int;
    assert(url[scheme.len() as int] == ':');
    if n < scheme.len() {
        assert(url[n] == scheme[n]);
    }
    if n > scheme.len() {
        assert(!stop(url[scheme.len() as int]));
    }
    assert(url.take(n) =~= scheme);
    words::span_is_first(scheme, stop);
    let m = words::span(scheme, stop) as int;
    if m < scheme.len() {
        assert(stop(scheme[m]));
    }
    assert(scheme.take(m) =~= scheme);
}

/// Every text that parses to a URL of a web page on this machine, at the port and the path of
/// callbacks, is accepted, whatever its query, its fragment and everything else in it. It is sent to
/// the loopback address without encryption, with everything else as given.
pub proof fn every_local_callback_is_accepted(input: Seq<char>, url: Seq<char>)
    requires
        url_parsed(text::trimmed(input)) == Ok::<Seq<char>, Seq<char>>(url),
        url_scheme(url) == "http"@ || url_scheme(url) == "https"@,
        url_host(url) == Some("localhost"@) || url_host(url) == Some("127.0.0.1"@) || url_host(url)
            == Some("::1"@),
        url_port(url) == Some(3128u16),
        url_path(url) == "/oauth/callback"@,
    ensures
        callback_target(input) == Ok::<Seq<char>, CallbackErrorView>(
            url_with_host(
                "http"@ + url.skip(url_scheme(url).len() as int),
                "127.0.0.1"@,
            ),
        ),
{
}

/// A text is refused only for what is wrong with it: because it is no URL, or because of the first
/// of its scheme, host, port and path that is not the one of a callback.
pub proof fn refused_callbacks_differ_in_that_part(input: Seq<char>)
    ensures
        url_parsed(text::trimmed(input)) matches Err(message) ==> callback_target(input) == Err::<
            Seq<char>,
            CallbackErrorView,
        >(CallbackErrorView::NotAUrl(message)),
        url_parsed(text::trimmed(input)) matches Ok(url) ==> {
            let web = url_scheme(url) == "http"@ || url_scheme(url) == "https"@;
            let local = url_host(url) == Some("localhost"@) || url_host(url) == Some("127.0.0.1"@)
                || url_host(url) == Some("::1"@);
            let port = url_port(url) == Some(3128u16);
            let path = url_path(url) == "/oauth/callback"@;
            &&& callback_target(input) == Err::<Seq<char>, CallbackErrorView>(
                CallbackErrorView::Scheme,
            ) <==> !web
            &&& callback_target(input) == Err::<Seq<char>, CallbackErrorView>(
                CallbackErrorView::Host,
            ) <==> web && !local
            &&& callback_target(input) == Err::<Seq<char>, CallbackErrorView>(
                CallbackErrorView::Port,
            ) <==> web && local && !port
            &&& callback_target(input) == Err::<Seq<char>, CallbackErrorView>(
                CallbackErrorView::Path,
            ) <==> web && local && port && !path
            &&& callback_target(input) is Ok <==> web && local && port && path
            &&& !(callback_target(input) matches Err(CallbackErrorView::NotAUrl(message)))
        },
{
}

/// The parts of a URL are found fault with one after the other.
pub proof fn parts_are_checked_in_turn(
    scheme: Seq<char>,
    host: Option<Seq<char>>,
    port: Option<u16>,
    path: Seq<char>,
)
    ensures
        ({
            let web = scheme == "http"@ || scheme == "https"@;
            let local = host == Some("localhost"@) || host == Some("127.0.0.1"@) || host == Some(
                "::1"@,
            );
            let fault = callback_fault(scheme, host, port, path);
            &&& fault == Some(CallbackErrorView::Scheme) <==> !web
            &&& fault == Some(CallbackErrorView::Host) <==> web && !local
            &&& fault == Some(CallbackErrorView::Port) <==> web && local && port != Some(3128u16)
            &&& fault == Some(CallbackErrorView::Path) <==> web && local && port == Some(3128u16)
                && path != "/oauth/callback"@
            &&& fault is None <==> web && local && port == Some(3128u16) && path
                == "/oauth/callback"@
        }),
        callback_error_text(CallbackErrorView::Scheme) == "callback URL 必须是 http/https"@,
        callback_error_text(CallbackErrorView::Host) == "callback URL 必须指向 localhost"@,
        callback_error_text(CallbackErrorView::Port) == "callback URL 端口必须是 3128"@,
        callback_error_text(CallbackErrorView::Path) == "callback URL 路径必须是 /oauth/callback"@,
        callback_error_text(CallbackErrorView::NotAUrl(path)) == path,
{
}

/// What reaches the local Kiro CLI goes without encryption to the loopback address, to its port and
/// the path of callbacks, and everything that does so reaches it.
pub proof fn local_cli_is_at_one_address(target: Seq<char>)
    ensures
        reaches_local_cli(target) <==> {
            &&& url_scheme(target) == "http"@
            &&& url_host(target) == Some("127.0.0.1"@)
            &&& url_port(target) == Some(3128u16)
            &&& url_path(target) == "/oauth/callback"@
        },
{
}

/// The reason for which a callback is refused is told as it is.
pub proof fn refusals_are_told_as_they_are(message: String)
    ensures
        CallbackUrlError::NotAUrl(message)@ == CallbackErrorView::NotAUrl(message@),
        CallbackUrlError::Scheme@ == CallbackErrorView::Scheme,
        CallbackUrlError::Host@ == CallbackErrorView::Host,
        CallbackUrlError::Port@ == CallbackErrorView::Port,
        CallbackUrlError::Path@ == CallbackErrorView::Path,
{
}

} // verus!
