//! Reverse-proxy decisions of the dev servers: which rule rewrites a request,
//! the rewritten URI and `Host` header, and where other requests go.
use vstd::prelude::*;
use crate::config::Proxy;
use crate::text::{chars_of, decimal, decimal_chars, has_prefix, push_chars, push_str, starts_with, string_of};

verus! {

/// What a URI parser found in a URI: scheme, host and explicit port.
#[derive(Debug)]
pub struct UriParts {
    pub scheme: Option<String>,
    pub host: Option<String>,
    pub port: Option<u16>,
}

pub open spec fn opt_view(s: Option<String>) -> Option<Seq<char>> {
    match s {
        Some(v) => Some(v@),
        None => None,
    }
}

pub open spec fn parts_view(p: UriParts) -> (Option<Seq<char>>, Option<Seq<char>>, Option<u16>) {
    (opt_view(p.scheme), opt_view(p.host), p.port)
}

/// Scheme, host and port of `s` parsed as a URI, or `None` when it is not one.
pub uninterp spec fn uri_parts(s: Seq<char>) -> Option<(Option<Seq<char>>, Option<Seq<char>>, Option<u16>)>;

/// Relies on `hyper::Uri: TryFrom<&str>` (the `http` crate's URI) and on the
/// parsed URI's `scheme_str`, `host` and `port_u16`; the parse depends on the
/// text alone.
#[verifier::external_body]
fn parse_uri(s: &str) -> (r: Option<UriParts>)
    ensures
        match r {
            Some(p) => uri_parts(s@) == Some(parts_view(p)),
            None => uri_parts(s@) is None,
        },
{
    match hyper::Uri::try_from(s) {
        Ok(u) => Some(UriParts {
            scheme: u.scheme_str().map(|x| x.to_string()),
            host: u.host().map(|x| x.to_string()),
            port: u.port_u16(),
        }),
        Err(_) => None,
    }
}

/// Whether `port` has to be written out for `scheme`: not for 80 with http
/// and ws, nor for 443 with https and wss.
pub open spec fn port_required(scheme: Seq<char>, port: u16) -> bool {
    if scheme == "http"@ || scheme == "ws"@ {
        port != 80
    } else if scheme == "https"@ || scheme == "wss"@ {
        port != 443
    } else {
        port != 0
    }
}

/// The `Host` header value for a URI with these parts.
pub open spec fn host_value(p: (Option<Seq<char>>, Option<Seq<char>>, Option<u16>)) -> Option<
    Seq<char>,
> {
    match p.1 {
        None => None,
        Some(h) => match (p.0, p.2) {
            (Some(scheme), Some(port)) => if port_required(scheme, port) {
                Some(h + seq![':'] + decimal(port as nat))
            } else {
                Some(h)
            },
            _ => Some(h),
        },
    }
}

fn is(s: &String, lit: &str) -> (r: bool)
    ensures
        r == (s@ == lit@),
{
    *s == lit.to_owned()
}

/// The `Host` header value for a parsed URI: its host, with the port unless
/// it is the scheme's standard one.
pub fn host(p: &UriParts) -> (r: Option<String>)
    ensures
        opt_view(r) == host_value(parts_view(*p)),
{
    match &p.host {
        None => None,
        Some(h) => match (&p.scheme, p.port) {
            (Some(scheme), Some(port)) => {
                let required = if is(scheme, "http") || is(scheme, "ws") {
                    port != 80
                } else if is(scheme, "https") || is(scheme, "wss") {
                    port != 443
                } else {
                    port != 0
                };
                if required {
                    let mut out = chars_of(h.as_str());
                    out.push(':');
                    let digits = decimal_chars(port as u32);
                    push_chars(&mut out, &digits);
                    Some(string_of(&out))
                } else {
                    Some(h.clone())
                }
            },
            _ => Some(h.clone()),
        },
    }
}

/// The first rule, from index `i` on, whose prefix starts `path` and whose
/// rewritten URI parses; rules whose URI does not parse are passed over.
pub open spec fn rule_from(proxies: Seq<Proxy>, path: Seq<char>, pq: Seq<char>, i: int) -> Option<
    int,
>
    decreases proxies.len() - i,
{
    if i < 0 || i >= proxies.len() {
        None
    } else if has_prefix(path, proxies[i].proxy@) && uri_parts(proxies[i].target@ + pq) is Some {
        Some(i)
    } else {
        rule_from(proxies, path, pq, i + 1)
    }
}

/// A request sent on by a proxy rule.
#[derive(Debug)]
pub struct Rewrite {
    /// The index of the rule.
    pub rule: usize,
    /// The rule's target followed by the request's path and query.
    pub uri: String,
    /// The `Host` header to set, when the rule changes the origin.
    pub host: Option<String>,
}

/// The rule that takes the request with `path` and `path_and_query`, and
/// what it sends on: `None` sends the request to the server itself.
pub fn rewrite_request(proxies: &Vec<Proxy>, path: &str, path_and_query: &str) -> (r: Option<
    Rewrite,
>)
    ensures
        proxies@.len() == 0 ==> r is None,
        match rule_from(proxies@, path@, path_and_query@, 0) {
            None => r is None,
            Some(i) => r matches Some(w) && w.rule == i && w.uri@ == proxies@[i].target@
                + path_and_query@ && opt_view(w.host) == if proxies@[i].change_origin {
                host_value(uri_parts(w.uri@).unwrap())
            } else {
                None
            },
        },
{
    let path_chars = chars_of(path);
    let mut i: usize = 0;
    while i < proxies.len()
        invariant
            i <= proxies@.len(),
            path_chars@ == path@,
            rule_from(proxies@, path@, path_and_query@, 0) == rule_from(
                proxies@,
                path@,
                path_and_query@,
                i as int,
            ),
        decreases proxies@.len() - i,
    {
        let rule = &proxies[i];
        let prefix = chars_of(rule.proxy.as_str());
        if starts_with(&path_chars, &prefix) {
            let mut uri_chars = chars_of(rule.target.as_str());
            push_str(&mut uri_chars, path_and_query);
            let uri = string_of(&uri_chars);
            match parse_uri(uri.as_str()) {
                Some(parts) => {
                    let host = if rule.change_origin {
                        host(&parts)
                    } else {
                        None
                    };
                    return Some(Rewrite { rule: i, uri, host });
                },
                None => {},
            }
        }
        i = i + 1;
    }
    None
}

/// The backend that server-side rendering proxies to by default.
pub fn default_backend_url() -> (r: String)
    ensures
        r@ == "http://127.0.0.1:3000"@,
{
    "http://127.0.0.1:3000".to_owned()
}

/// Why a proxied request got no response from upstream.
#[derive(Debug, Clone, Copy, PartialEq, Eq, Structural)]
pub enum ProxyError {
    /// The target URI does not parse.
    InvalidUri,
    /// The upstream connection failed.
    Unavailable,
}

impl ProxyError {
    /// The HTTP status answered for the error.
    pub fn status(&self) -> (r: u16)
        ensures
            *self == ProxyError::InvalidUri ==> r == 400,
            *self == ProxyError::Unavailable ==> r == 502,
    {
        match self {
            ProxyError::InvalidUri => 400,
            ProxyError::Unavailable => 502,
        }
    }

    /// The body answered for the error.
    pub fn message(&self) -> (r: String)
        ensures
            *self == ProxyError::InvalidUri ==> r@ == "Invalid backend URL"@,
            *self == ProxyError::Unavailable ==> r@ == "Backend service unavailable"@,
    {
        match self {
            ProxyError::InvalidUri => "Invalid backend URL".to_owned(),
            ProxyError::Unavailable => "Backend service unavailable".to_owned(),
        }
    }
}

/// The URI a request is forwarded to on the backend: the backend URL followed
/// by the request's path and query; an error when that does not parse.
pub fn backend_uri(backend_url: &str, path_and_query: &str) -> (r: Result<String, ProxyError>)
    ensures
        uri_parts(backend_url@ + path_and_query@) is Some ==> (r matches Ok(u) && u@
            == backend_url@ + path_and_query@),
        uri_parts(backend_url@ + path_and_query@) is None ==> r == Err::<String, ProxyError>(
            ProxyError::InvalidUri,
        ),
{
    let mut uri_chars = chars_of(backend_url);
    push_str(&mut uri_chars, path_and_query);
    let uri = string_of(&uri_chars);
    match parse_uri(uri.as_str()) {
        Some(_) => Ok(uri),
        None => Err(ProxyError::InvalidUri),
    }
}

/// Where the server-side-rendering dev server answers a request from.
#[derive(Debug, Clone, Copy, PartialEq, Eq, Structural)]
pub enum Route {
    /// A file of the built client.
    ClientFile,
    /// A file of the public directory.
    PublicFile,
    /// The backend, through the proxy.
    Backend,
}

/// `GET` requests for an existing client file, else an existing public file,
/// are served from disk; everything else goes to the backend.
pub fn route(is_get: bool, client_file: bool, public_file: bool) -> (r: Route)
    ensures
        r == if is_get && client_file {
            Route::ClientFile
        } else if is_get && public_file {
            Route::PublicFile
        } else {
            Route::Backend
        },
{
    if is_get && client_file {
        Route::ClientFile
    } else if is_get && public_file {
        Route::PublicFile
    } else {
        Route::Backend
    }
}

/// A request path relative to a served directory: without its leading `/`.
pub fn relative_path(path: &str) -> (r: String)
    ensures
        path@.len() > 0 && path@[0] == '/' ==> r@ == path@.drop_first(),
        !(path@.len() > 0 && path@[0] == '/') ==> r@ == path@,
{
    let c = chars_of(path);
    if c.len() > 0 && c[0] == '/' {
        let rest = crate::text::slice(&c, 1, c.len());
        string_of(&rest)
    } else {
        path.to_owned()
    }
}

} // verus!
