use vstd::prelude::*;
use crate::text::{contains_char, has_prefix, str_equals, strip_prefix};

verus! {

#[verifier::external_type_specification]
#[verifier::external_body]
pub struct ExUrlParseError(url::ParseError);

/// The parts of a parsed URL that decide which app-server endpoint it names.
#[derive(Clone, Debug)]
pub struct ParsedUrl {
    /// The whole URL, as the parser serialized it.
    pub serialization: String,
    pub scheme: String,
    pub username: String,
    pub password: Option<String>,
    pub has_host: bool,
    pub port: Option<u16>,
    pub query: Option<String>,
    pub fragment: Option<String>,
}

/// The value of a [`ParsedUrl`].
pub struct ParsedUrlView {
    pub serialization: Seq<char>,
    pub scheme: Seq<char>,
    pub username: Seq<char>,
    pub password: Option<Seq<char>>,
    pub has_host: bool,
    pub port: Option<u16>,
    pub query: Option<Seq<char>>,
    pub fragment: Option<Seq<char>>,
}

pub open spec fn text_of(text: Option<String>) -> Option<Seq<char>> {
    match text {
        Some(text) => Some(text@),
        None => None,
    }
}

impl View for ParsedUrl {
    type V = ParsedUrlView;

    open spec fn view(&self) -> ParsedUrlView {
        ParsedUrlView {
            serialization: self.serialization@,
            scheme: self.scheme@,
            username: self.username@,
            password: text_of(self.password),
            has_host: self.has_host,
            port: self.port,
            query: text_of(self.query),
            fragment: text_of(self.fragment),
        }
    }
}

/// What `url::Url::parse` makes of a string: `None` where it fails.
pub uninterp spec fn url_parse(input: Seq<char>) -> Option<ParsedUrlView>;

/// Calls `url::Url::parse` and reads the serialization, scheme, username, password, host
/// presence, port, query and fragment of the URL it returns. The contract claims only that the
/// result is a function of the input: it is `url_parse(input)`. What the parser accepts and how it
/// splits a URL is not stated, nor which `ParseError` it returns.
#[verifier::external_body]
fn parse_url(input: &str) -> (parsed: Result<ParsedUrl, url::ParseError>)
    ensures
        parsed is Ok <==> url_parse(input@) is Some,
        parsed matches Ok(url) ==> url_parse(input@) == Some(url@),
{
    match url::Url::parse(input) {
        Ok(url) => Ok(ParsedUrl {
            serialization: url.as_str().to_string(),
            scheme: url.scheme().to_string(),
            username: url.username().to_string(),
            password: url.password().map(|text| text.to_string()),
            has_host: url.has_host(),
            port: url.port(),
            query: url.query().map(|text| text.to_string()),
            fragment: url.fragment().map(|text| text.to_string()),
        }),
        Err(error) => Err(error),
    }
}

/// Calls `std::path::Path::is_absolute` on `path`. Whether a path is absolute depends on the
/// platform (a root on Unix, a prefix and a root on Windows), so the contract claims only what
/// holds on every platform: an empty path, which has neither, is not absolute.
#[verifier::external_body]
fn path_is_absolute(path: &str) -> (absolute: bool)
    ensures
        path@.len() == 0 ==> !absolute,
{
    std::path::Path::new(path).is_absolute()
}

/// An app-server that CRS can connect to.
#[derive(Clone, Debug)]
pub enum RemoteAppServerEndpoint {
    WebSocket { websocket_url: String, auth_token: Option<String> },
    /// A Unix socket, at a path that `Path::is_absolute` accepted.
    UnixSocket { socket_path: String },
}

#[derive(Debug)]
pub enum ParseRemoteAppServerEndpointError {
    /// invalid app-server URL
    ParseFailed { source: url::ParseError, input: String },
    /// app-server URL credentials are not supported
    CredentialsInvalid {},
    /// app-server URL must not contain a fragment
    FragmentInvalid { url: ParsedUrl },
    /// Unix app-server locator must have an absolute path and no authority or query
    UnixLocatorInvalid { url: ParsedUrl },
    /// unsupported app-server URL; expected ws://, wss://, or unix://
    SchemeInvalid { url: ParsedUrl },
}

/// What a URL names, or why it names no endpoint.
pub enum EndpointOutcome {
    WebSocket(Seq<char>),
    UnixSocket(Seq<char>),
    ParseFailed(Seq<char>),
    CredentialsInvalid,
    FragmentInvalid,
    UnixLocatorInvalid,
    SchemeInvalid,
}

pub open spec fn unix_prefix() -> Seq<char> {
    seq!['u', 'n', 'i', 'x', ':', '/', '/']
}

/// The locator of a `unix://` input: everything after the prefix.
pub open spec fn unix_locator(input: Seq<char>) -> Seq<char> {
    input.subrange(unix_prefix().len() as int, input.len() as int)
}

/// The outcome for a URL that parsed, given whether the Unix locator path is absolute.
pub open spec fn spec_endpoint_outcome(input: Seq<char>, url: ParsedUrlView, unix_path_is_absolute: bool) -> EndpointOutcome {
    if url.username.len() > 0 || url.password is Some {
        EndpointOutcome::CredentialsInvalid
    } else if url.fragment is Some {
        EndpointOutcome::FragmentInvalid
    } else if url.scheme == seq!['w', 's'] || url.scheme == seq!['w', 's', 's'] {
        EndpointOutcome::WebSocket(url.serialization)
    } else if url.scheme == seq!['u', 'n', 'i', 'x'] {
        if !has_prefix(input, unix_prefix()) || url.has_host || url.port is Some || url.query is Some
            || !unix_path_is_absolute || unix_locator(input).contains('\0') {
            EndpointOutcome::UnixLocatorInvalid
        } else {
            EndpointOutcome::UnixSocket(unix_locator(input))
        }
    } else {
        EndpointOutcome::SchemeInvalid
    }
}

/// The outcome that a result reports.
pub open spec fn outcome_of(result: Result<RemoteAppServerEndpoint, ParseRemoteAppServerEndpointError>) -> EndpointOutcome {
    match result {
        Ok(RemoteAppServerEndpoint::WebSocket { websocket_url, .. }) => EndpointOutcome::WebSocket(websocket_url@),
        Ok(RemoteAppServerEndpoint::UnixSocket { socket_path }) => EndpointOutcome::UnixSocket(socket_path@),
        Err(ParseRemoteAppServerEndpointError::ParseFailed { input, .. }) => EndpointOutcome::ParseFailed(input@),
        Err(ParseRemoteAppServerEndpointError::CredentialsInvalid {}) => EndpointOutcome::CredentialsInvalid,
        Err(ParseRemoteAppServerEndpointError::FragmentInvalid { .. }) => EndpointOutcome::FragmentInvalid,
        Err(ParseRemoteAppServerEndpointError::UnixLocatorInvalid { .. }) => EndpointOutcome::UnixLocatorInvalid,
        Err(ParseRemoteAppServerEndpointError::SchemeInvalid { .. }) => EndpointOutcome::SchemeInvalid,
    }
}

/// The URL that an error carries, where it carries one.
pub open spec fn reported_url(result: Result<RemoteAppServerEndpoint, ParseRemoteAppServerEndpointError>) -> Option<ParsedUrlView> {
    match result {
        Err(ParseRemoteAppServerEndpointError::FragmentInvalid { url }) => Some(url@),
        Err(ParseRemoteAppServerEndpointError::UnixLocatorInvalid { url }) => Some(url@),
        Err(ParseRemoteAppServerEndpointError::SchemeInvalid { url }) => Some(url@),
        _ => None,
    }
}

/// The web socket endpoints that this function returns carry no auth token.
pub open spec fn no_auth_token(result: Result<RemoteAppServerEndpoint, ParseRemoteAppServerEndpointError>) -> bool {
    result matches Ok(RemoteAppServerEndpoint::WebSocket { auth_token, .. }) ==> auth_token is None
}

/// Decides which endpoint a parsed URL names: `ws://` and `wss://` URLs name a web socket, and
/// `unix://` inputs with an absolute path, no host, port or query, and no NUL character name a Unix
/// socket; credentials, fragments and other schemes are refused.
pub fn endpoint_from_url(input: &str, url: ParsedUrl, unix_path_is_absolute: bool) -> (endpoint: Result<RemoteAppServerEndpoint, ParseRemoteAppServerEndpointError>)
    ensures
        outcome_of(endpoint) == spec_endpoint_outcome(input@, url@, unix_path_is_absolute),
        reported_url(endpoint) matches Some(reported) ==> reported == url@,
        no_auth_token(endpoint),
        endpoint matches Ok(RemoteAppServerEndpoint::WebSocket { .. }) ==> (url.scheme@ == seq!['w', 's']
            || url.scheme@ == seq!['w', 's', 's']),
        endpoint matches Ok(RemoteAppServerEndpoint::UnixSocket { .. }) ==> url.scheme@ == seq!['u', 'n', 'i', 'x'],
        url.username@.len() == 0 && url.password is None && url.fragment is None && url.scheme@ != seq!['w', 's']
            && url.scheme@ != seq!['w', 's', 's'] && url.scheme@ != seq!['u', 'n', 'i', 'x'] ==> endpoint matches Err(
            ParseRemoteAppServerEndpointError::SchemeInvalid { .. }),
{
    if url.username.unicode_len() != 0 || url.password.is_some() {
        return Err(ParseRemoteAppServerEndpointError::CredentialsInvalid {});
    }
    if url.fragment.is_some() {
        return Err(ParseRemoteAppServerEndpointError::FragmentInvalid { url });
    }
    let scheme = url.scheme.as_str();
    proof {
        reveal_strlit("ws");
        reveal_strlit("wss");
        reveal_strlit("unix");
        reveal_strlit("unix://");
    }
    assert("ws"@ =~= seq!['w', 's']);
    assert("wss"@ =~= seq!['w', 's', 's']);
    assert("unix"@ =~= seq!['u', 'n', 'i', 'x']);
    assert("unix://"@ =~= unix_prefix());
    if str_equals(scheme, "ws") || str_equals(scheme, "wss") {
        Ok(RemoteAppServerEndpoint::WebSocket { websocket_url: url.serialization, auth_token: None })
    } else if str_equals(scheme, "unix") {
        match strip_prefix(input, "unix://") {
            None => Err(ParseRemoteAppServerEndpointError::UnixLocatorInvalid { url }),
            Some(path) => {
                if url.has_host || url.port.is_some() || url.query.is_some() || !unix_path_is_absolute
                    || contains_char(path, '\0') {
                    Err(ParseRemoteAppServerEndpointError::UnixLocatorInvalid { url })
                } else {
                    Ok(RemoteAppServerEndpoint::UnixSocket { socket_path: path.to_owned() })
                }
            },
        }
    } else {
        Err(ParseRemoteAppServerEndpointError::SchemeInvalid { url })
    }
}

/// Parses an app-server locator: a `ws://` or `wss://` URL, or `unix://` followed by an
/// absolute socket path. Where `url::Url::parse` refuses the input, the error is `ParseFailed`
/// with the input; otherwise the outcome is that of [`endpoint_from_url`] for the parsed URL and
/// what `Path::is_absolute` said of the socket path, which is never absolute when it is empty.
pub fn parse_remote_app_server_endpoint(input: &str) -> (endpoint: Result<RemoteAppServerEndpoint, ParseRemoteAppServerEndpointError>)
    ensures
        url_parse(input@) is None <==> outcome_of(endpoint) == EndpointOutcome::ParseFailed(input@),
        url_parse(input@) matches Some(url) ==> {
            &&& exists|unix_path_is_absolute: bool|
                (unix_locator(input@).len() == 0 ==> !unix_path_is_absolute)
                && outcome_of(endpoint) == spec_endpoint_outcome(input@, url, unix_path_is_absolute)
            &&& reported_url(endpoint) matches Some(reported) ==> reported == url
        },
        no_auth_token(endpoint),
{
    let url = match parse_url(input) {
        Ok(url) => url,
        Err(source) => {
            return Err(ParseRemoteAppServerEndpointError::ParseFailed { source, input: input.to_owned() });
        },
    };
    proof {
        reveal_strlit("unix://");
    }
    let unix_path_is_absolute = match strip_prefix(input, "unix://") {
        Some(path) => path_is_absolute(path),
        None => false,
    };
    endpoint_from_url(input, url, unix_path_is_absolute)
}

/// Only `ws` and `wss` URLs name a web socket, and only `unix` URLs a Unix socket; a URL without
/// credentials or fragment under any other scheme (`http`, `https`, ...) is refused for its scheme.
/// A web socket keeps the URL as the parser serialized it.
pub proof fn lemma_endpoint_kind_follows_scheme(input: Seq<char>, url: ParsedUrlView, unix_path_is_absolute: bool)
    ensures
        spec_endpoint_outcome(input, url, unix_path_is_absolute) is WebSocket ==> (url.scheme == seq!['w', 's']
            || url.scheme == seq!['w', 's', 's']),
        spec_endpoint_outcome(input, url, unix_path_is_absolute) matches EndpointOutcome::WebSocket(kept)
            ==> kept == url.serialization,
        spec_endpoint_outcome(input, url, unix_path_is_absolute) is UnixSocket ==> url.scheme == seq!['u', 'n', 'i', 'x'],
        url.username.len() == 0 && url.password is None && url.fragment is None && url.scheme != seq!['w', 's']
            && url.scheme != seq!['w', 's', 's'] && url.scheme != seq!['u', 'n', 'i', 'x']
            ==> spec_endpoint_outcome(input, url, unix_path_is_absolute) == EndpointOutcome::SchemeInvalid,
        url.username.len() == 0 && url.password is None && url.fragment is None && (url.scheme == seq!['w', 's']
            || url.scheme == seq!['w', 's', 's']) ==> spec_endpoint_outcome(input, url, unix_path_is_absolute)
            == EndpointOutcome::WebSocket(url.serialization),
{
}

} // verus!
