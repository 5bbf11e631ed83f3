//! Web addresses: parsing the Hub's page address, and deciding which
//! navigations stay inside the window and which open in the system browser.
use vstd::prelude::*;

use crate::region::Os;
use crate::text::{opt_string_view, str_eq};

verus! {

#[verifier::external_type_specification]
#[verifier::external_body]
pub struct ExUrl(url::Url);

/// What `url::Url::parse` makes of a text: the serialization of the parsed
/// address, or the message of the parse error.
pub uninterp spec fn spec_url_parse(text: Seq<char>) -> Result<Seq<char>, Seq<char>>;

/// A parsed web address together with its serialization; only
/// [`parse_url`] makes one.
pub struct ParsedUrl {
    url: url::Url,
    text: String,
}

impl View for ParsedUrl {
    type V = Seq<char>;

    /// The serialization of the address.
    closed spec fn view(&self) -> Seq<char> {
        self.text@
    }
}

impl ParsedUrl {
    /// The serialization of the address.
    pub fn as_text(&self) -> (r: &str)
        ensures
            r@ == self@,
    {
        self.text.as_str()
    }

    /// The parsed address.
    pub fn url(&self) -> &url::Url {
        &self.url
    }

    /// The parsed address, taken out.
    pub fn into_url(self) -> url::Url {
        self.url
    }
}

/// Parses a web address.
///
/// Trusted: calls `url::Url::parse`; on success it returns the address with
/// its serialization (`Url::as_str`), on failure the error's message (its
/// `Display`). Both are named by `spec_url_parse`, a function of the text
/// alone.
#[verifier::external_body]
pub fn parse_url(text: &str) -> (r: Result<ParsedUrl, String>)
    ensures
        match r {
            Ok(p) => spec_url_parse(text@) == Ok::<Seq<char>, Seq<char>>(p@),
            Err(m) => spec_url_parse(text@) == Err::<Seq<char>, Seq<char>>(m@),
        },
{
    match url::Url::parse(text) {
        Ok(u) => {
            let t = u.as_str().to_string();
            Ok(ParsedUrl { url: u, text: t })
        },
        Err(e) => Err(e.to_string()),
    }
}

/// The parts of an address that a navigation is judged by.
pub struct NavigationTarget {
    pub scheme: String,
    pub host: Option<String>,
    pub text: String,
}

/// A navigation stays in the window when it goes to this machine
/// (`localhost` or `127.0.0.1`), to one of the webview's own schemes
/// (`tauri`, `https+ipc`, `http+ipc`), or to `about:blank`.
pub open spec fn spec_is_local(scheme: Seq<char>, host: Option<Seq<char>>, text: Seq<char>) -> bool {
    ||| host == Some("localhost"@)
    ||| host == Some("127.0.0.1"@)
    ||| scheme == "tauri"@
    ||| scheme == "https+ipc"@
    ||| scheme == "http+ipc"@
    ||| text == "about:blank"@
}

/// Whether a navigation stays inside the window.
pub fn is_local_navigation(target: &NavigationTarget) -> (r: bool)
    ensures
        r == spec_is_local(target.scheme@, opt_string_view(target.host), target.text@),
{
    let host_local = match &target.host {
        Some(h) => str_eq(h.as_str(), "localhost") || str_eq(h.as_str(), "127.0.0.1"),
        None => false,
    };
    host_local || str_eq(target.scheme.as_str(), "tauri") || str_eq(
        target.scheme.as_str(),
        "https+ipc",
    ) || str_eq(target.scheme.as_str(), "http+ipc") || str_eq(target.text.as_str(), "about:blank")
}

/// A program to run with its arguments.
pub struct Command {
    pub program: String,
    pub args: Vec<String>,
}

/// The program, and its arguments, that opens `url` in the system browser:
/// `open` on macOS, `xdg-open` on Linux, `cmd /c start "" url` on Windows.
pub open spec fn spec_open_command(os: Os, url: Seq<char>) -> (Seq<char>, Seq<Seq<char>>) {
    match os {
        Os::MacOs => ("open"@, seq![url]),
        Os::Linux => ("xdg-open"@, seq![url]),
        Os::Windows => ("cmd"@, seq!["/c"@, "start"@, ""@, url]),
    }
}

/// The view of a command.
pub open spec fn command_view(c: &Command) -> (Seq<char>, Seq<Seq<char>>) {
    (c.program@, c.args@.map_values(|a: String| a@))
}

/// The command that opens `url` in the system browser.
pub fn open_externally_command(os: Os, url: &str) -> (r: Command)
    ensures
        command_view(&r) == spec_open_command(os, url@),
{
    let mut args: Vec<String> = Vec::new();
    let program = match os {
        Os::MacOs => String::from_str("open"),
        Os::Linux => String::from_str("xdg-open"),
        Os::Windows => {
            args.push(String::from_str("/c"));
            args.push(String::from_str("start"));
            args.push(String::from_str(""));
            String::from_str("cmd")
        },
    };
    args.push(String::from_str(url));
    let r = Command { program, args };
    assert(command_view(&r).1 =~= spec_open_command(os, url@).1);
    r
}

} // verus!
