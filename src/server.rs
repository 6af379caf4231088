//! Dev-server startup: the address, the browser to open, and where the tool
//! keeps its own files.
use vstd::prelude::*;
use crate::env::in_dir;
use crate::text::{chars_of, decimal, decimal_chars, push_chars, push_str, string_of};

verus! {

/// `s` in lower case.
pub uninterp spec fn lowercase_of(s: Seq<char>) -> Seq<char>;

/// Relies on `str::to_lowercase`: the lower-case form depends on the text alone.
#[verifier::external_body]
fn lowercase(s: &str) -> (r: String)
    ensures
        r@ == lowercase_of(s@),
{
    s.to_lowercase()
}

/// Relies on `dirs::data_local_dir`, as UTF-8 text; it depends on the
/// machine, so nothing is promised of it.
#[verifier::external_body]
fn data_local_dir() -> (r: Option<String>) {
    dirs::data_local_dir().and_then(|p| p.into_os_string().into_string().ok())
}

/// Relies on `dirs::home_dir`, as UTF-8 text; it depends on the machine, so
/// nothing is promised of it.
#[verifier::external_body]
fn home_dir() -> (r: Option<String>) {
    dirs::home_dir().and_then(|p| p.into_os_string().into_string().ok())
}

/// What to do about a browser at startup.
#[derive(Debug)]
pub enum BrowserAction {
    /// `BROWSER` is `none`: open nothing.
    Nothing,
    /// Open the URL with the system's default browser.
    SystemDefault,
    /// Open the URL with this browser.
    With(String),
}

/// The browser setting: the process environment's `BROWSER`, else the one of
/// the `.env` files, else empty.
pub open spec fn browser_setting(process: Option<String>, files: Option<String>) -> Seq<char> {
    match process {
        Some(b) => b@,
        None => match files {
            Some(b) => b@,
            None => Seq::empty(),
        },
    }
}

/// The action for a `BROWSER` value, given its lower-case form.
pub fn browser_action_for(browser: String, lowered: &str) -> (r: BrowserAction)
    ensures
        lowered@ == "none"@ ==> r is Nothing,
        lowered@ != "none"@ && browser@.len() == 0 ==> r is SystemDefault,
        lowered@ != "none"@ && browser@.len() > 0 ==> (r matches BrowserAction::With(b) && b
            == browser),
{
    if lowered.to_owned() == "none".to_owned() {
        BrowserAction::Nothing
    } else if browser.as_str().is_empty() {
        BrowserAction::SystemDefault
    } else {
        BrowserAction::With(browser)
    }
}

/// The action for the `BROWSER` variable of the process (`process`) or of the
/// `.env` files (`files`): `none` in any case opens nothing, empty opens the
/// system default, anything else names the browser.
pub fn browser_action(process: Option<String>, files: Option<String>) -> (r: BrowserAction)
    ensures
        ({
            let b = browser_setting(process, files);
            &&& lowercase_of(b) == "none"@ ==> r is Nothing
            &&& lowercase_of(b) != "none"@ && b.len() == 0 ==> r is SystemDefault
            &&& lowercase_of(b) != "none"@ && b.len() > 0 ==> (r matches BrowserAction::With(w)
                && w@ == b)
        }),
{
    let browser = match process {
        Some(b) => b,
        None => match files {
            Some(b) => b,
            None => String::new(),
        },
    };
    let lowered = lowercase(browser.as_str());
    browser_action_for(browser, lowered.as_str())
}

/// `host:port`.
pub open spec fn host_port(host: Seq<char>, port: u32) -> Seq<char> {
    host + seq![':'] + decimal(port as nat)
}

/// The address the dev server binds.
pub fn bind_address(host: &str, port: u32) -> (r: String)
    ensures
        r@ == host_port(host@, port),
{
    let mut out = chars_of(host);
    out.push(':');
    push_chars(&mut out, &decimal_chars(port));
    string_of(&out)
}

/// The URL shown once the server is ready.
pub fn local_url(host: &str, port: u32) -> (r: String)
    ensures
        r@ == "http://"@ + host_port(host@, port),
{
    let mut out = chars_of("http://");
    push_str(&mut out, bind_address(host, port).as_str());
    string_of(&out)
}

/// The tool's own directory: `thaw-cli` in the local data directory, else
/// `.thaw-cli` in the home directory.
pub fn home_dir_from(data_local: Option<String>, home: Option<String>) -> (r: Option<String>)
    ensures
        data_local matches Some(d) ==> (r matches Some(p) && p@ == in_dir(d@, "thaw-cli"@)),
        data_local is None && home is Some ==> (r matches Some(p) && p@ == in_dir(
            home.unwrap()@,
            ".thaw-cli"@,
        )),
        data_local is None && home is None ==> r is None,
{
    match data_local {
        Some(d) => Some(crate::pipeline::join(d.as_str(), "thaw-cli")),
        None => match home {
            Some(h) => Some(crate::pipeline::join(h.as_str(), ".thaw-cli")),
            None => None,
        },
    }
}

/// The tool's own directory on this machine, when it has one.
pub fn thaw_cli_home_dir() -> (r: Option<String>)
    ensures
        r matches Some(p) ==> (exists|d: Seq<char>| p@ == #[trigger] in_dir(d, "thaw-cli"@)) || (
        exists|d: Seq<char>| p@ == #[trigger] in_dir(d, ".thaw-cli"@)),
{
    match data_local_dir() {
        Some(d) => {
            let p = crate::pipeline::join(d.as_str(), "thaw-cli");
            assert(p@ == in_dir(d@, "thaw-cli"@));
            Some(p)
        },
        None => match home_dir() {
            Some(h) => {
                let p = crate::pipeline::join(h.as_str(), ".thaw-cli");
                assert(p@ == in_dir(h@, ".thaw-cli"@));
                Some(p)
            },
            None => None,
        },
    }
}

/// The cache directory inside a home directory of the tool.
pub fn cache_dir_in(home: &str) -> (r: String)
    ensures
        r@ == in_dir(home@, "cache"@),
{
    crate::pipeline::join(home, "cache")
}

/// The tool's cache directory on this machine, when it has one.
pub fn thaw_cli_cache_dir() -> (r: Option<String>)
    ensures
        r matches Some(c) ==> exists|h: Seq<char>| c@ == #[trigger] in_dir(h, "cache"@),
{
    match thaw_cli_home_dir() {
        Some(h) => Some(cache_dir_in(h.as_str())),
        None => None,
    }
}

} // verus!
