//! Starting, watching and stopping the Hub server process: the Hub's
//! addresses, clearing stale processes off its port, the command that starts
//! it, and the waits for its health, its exit and its termination.
use vstd::prelude::*;

use std::path::PathBuf;

use crate::paths::{path_view, AppPath, AppPathView};
use crate::progress::{progress, SetupProgress};
use crate::region::Os;
use crate::text::{
    char_is_ws, decimal, opt_string_view, is_ws, parse_i32, parse_u32, spec_decimal, spec_parse_i32,
    spec_parse_u32, spec_split, spec_trim, split_char, trim, trim_end, views,
};

verus! {

/// The port the Hub listens on in desktop mode (the command-line Hub uses
/// 19836).
pub const HUB_PORT: u16 = 19837;

/// `http://localhost:19837`, the address of the Hub's page.
pub open spec fn spec_hub_page_url() -> Seq<char> {
    "http://localhost:"@ + spec_decimal(HUB_PORT as nat)
}

/// `http://localhost:19837/health`, the Hub's health endpoint.
pub open spec fn spec_health_url() -> Seq<char> {
    spec_hub_page_url() + "/health"@
}

/// The address of the Hub's page.
pub fn hub_page_url() -> (r: String)
    ensures
        r@ == spec_hub_page_url(),
{
    String::from_str("http://localhost:").concat(decimal(HUB_PORT as u64).as_str())
}

/// The Hub's health endpoint.
pub fn health_url() -> (r: String)
    ensures
        r@ == spec_health_url(),
{
    hub_page_url().concat("/health")
}

// ---------------------------------------------------------------------------
// Stale processes on the Hub's port
// ---------------------------------------------------------------------------

/// The arguments of `lsof` that list the processes using `port`:
/// `-ti :PORT`.
pub open spec fn spec_lsof_args(port: nat) -> Seq<Seq<char>> {
    seq!["-ti"@, ":"@ + spec_decimal(port)]
}

/// The arguments of `cmd` that list the connections on `port` on Windows:
/// `/C netstat -ano | findstr :PORT`.
pub open spec fn spec_netstat_args(port: nat) -> Seq<Seq<char>> {
    seq!["/C"@, "netstat -ano | findstr :"@ + spec_decimal(port)]
}

/// The arguments of `lsof` that list the processes using `port`.
pub fn lsof_args(port: u16) -> (r: Vec<String>)
    ensures
        r@.map_values(|a: String| a@) == spec_lsof_args(port as nat),
{
    let mut v: Vec<String> = Vec::new();
    v.push(String::from_str("-ti"));
    v.push(String::from_str(":").concat(decimal(port as u64).as_str()));
    assert(v@.map_values(|a: String| a@) =~= spec_lsof_args(port as nat));
    v
}

/// The arguments of `cmd` that list the connections on `port` on Windows.
pub fn netstat_args(port: u16) -> (r: Vec<String>)
    ensures
        r@.map_values(|a: String| a@) == spec_netstat_args(port as nat),
{
    let mut v: Vec<String> = Vec::new();
    v.push(String::from_str("/C"));
    v.push(String::from_str("netstat -ano | findstr :").concat(decimal(port as u64).as_str()));
    assert(v@.map_values(|a: String| a@) =~= spec_netstat_args(port as nat));
    v
}

/// The process ids among `lines`: each line, trimmed, that parses as an
/// `i32`, in order.
pub open spec fn pids_of_lines(lines: Seq<Seq<char>>) -> Seq<i32>
    decreases lines.len(),
{
    if lines.len() == 0 {
        Seq::<i32>::empty()
    } else {
        let rest = pids_of_lines(lines.drop_last());
        match spec_parse_i32(spec_trim(lines.last())) {
            Some(p) => rest.push(p),
            None => rest,
        }
    }
}

/// The process ids that `lsof -t` printed: the lines of its trimmed output
/// that parse as process ids.
pub open spec fn spec_stale_pids(output: Seq<char>) -> Seq<i32> {
    pids_of_lines(spec_split(spec_trim(output), '\n'))
}

/// The process ids that `lsof -t` printed, in order.
pub fn stale_pids(output: &str) -> (r: Vec<i32>)
    ensures
        r@ == spec_stale_pids(output@),
{
    let t = trim(output);
    let lines = split_char(t, '\n');
    let ghost lv = views(lines@);
    let mut pids: Vec<i32> = Vec::new();
    let mut i: usize = 0;
    assert(lv.take(0) =~= Seq::<Seq<char>>::empty());
    while i < lines.len()
        invariant
            i <= lines@.len(),
            lv == views(lines@),
            pids@ == pids_of_lines(lv.take(i as int)),
        decreases lines@.len() - i,
    {
        assert(lv.take(i + 1).drop_last() =~= lv.take(i as int));
        assert(lv.take(i + 1).last() == lines@[i as int]@);
        let line = trim(lines[i]);
        match parse_i32(line) {
            Some(p) => pids.push(p),
            None => {},
        }
        i = i + 1;
    }
    assert(lv.take(lines@.len() as int) =~= lv);
    pids
}

/// Whether a listing of processes names any at all, so that the launcher
/// should give them a moment to release the port: its trimmed text is not
/// empty.
pub fn listing_is_nonempty(output: &str) -> (r: bool)
    ensures
        r == (spec_trim(output@).len() > 0),
{
    trim(output).unicode_len() > 0
}

/// The run of non-space characters at the end of `t`.
pub open spec fn trailing_word(t: Seq<char>) -> Seq<char>
    decreases t.len(),
{
    if t.len() == 0 || is_ws(t.last()) {
        Seq::<char>::empty()
    } else {
        trailing_word(t.drop_last()).push(t.last())
    }
}

/// The last whitespace-separated word of `s`, if it has any (what
/// `split_whitespace().last()` gives).
pub open spec fn spec_last_word(s: Seq<char>) -> Option<Seq<char>> {
    let t = trim_end(s);
    if t.len() == 0 {
        None
    } else {
        Some(trailing_word(t))
    }
}

/// The last whitespace-separated word of `s`.
pub fn last_word(s: &str) -> (r: Option<&str>)
    ensures
        match r {
            Some(w) => spec_last_word(s@) == Some(w@),
            None => spec_last_word(s@) is None,
        },
{
    let n = s.unicode_len();
    let mut j: usize = n;
    assert(s@.subrange(0, n as int) =~= s@);
    while j > 0 && char_is_ws(s.get_char(j - 1))
        invariant
            j <= n,
            n == s@.len(),
            trim_end(s@) == trim_end(s@.subrange(0, j as int)),
        decreases j,
    {
        assert(s@.subrange(0, j as int).drop_last() =~= s@.subrange(0, j - 1));
        j = j - 1;
    }
    assert(trim_end(s@) == s@.subrange(0, j as int));
    if j == 0 {
        return None;
    }
    let mut i: usize = j;
    assert(s@.subrange(j as int, j as int) =~= Seq::<char>::empty());
    while i > 0 && !char_is_ws(s.get_char(i - 1))
        invariant
            i <= j <= n,
            n == s@.len(),
            trailing_word(s@.subrange(0, j as int)) == trailing_word(s@.subrange(0, i as int))
                + s@.subrange(i as int, j as int),
        decreases i,
    {
        assert(s@.subrange(0, i as int).drop_last() =~= s@.subrange(0, i - 1));
        assert(s@.subrange(i - 1, j as int) =~= seq![s@[i - 1]] + s@.subrange(i as int, j as int));
        assert(trailing_word(s@.subrange(0, i - 1)).push(s@[i - 1]) + s@.subrange(
            i as int,
            j as int,
        ) =~= trailing_word(s@.subrange(0, i - 1)) + s@.subrange(i - 1, j as int));
        i = i - 1;
    }
    assert(trailing_word(s@.subrange(0, i as int)) =~= Seq::<char>::empty());
    assert(trailing_word(s@.subrange(0, j as int)) =~= s@.subrange(i as int, j as int));
    Some(s.substring_char(i, j))
}

/// The process ids that `netstat` listed: for each line, its last word,
/// where that word is a valid `u32`, in order.
pub open spec fn netstat_pids_of_lines(lines: Seq<Seq<char>>) -> Seq<Seq<char>>
    decreases lines.len(),
{
    if lines.len() == 0 {
        Seq::<Seq<char>>::empty()
    } else {
        let rest = netstat_pids_of_lines(lines.drop_last());
        match spec_last_word(lines.last()) {
            Some(w) => if spec_parse_u32(w) is Some {
                rest.push(w)
            } else {
                rest
            },
            None => rest,
        }
    }
}

/// The process ids, as text, in the output of `netstat -ano | findstr`.
pub open spec fn spec_netstat_pids(output: Seq<char>) -> Seq<Seq<char>> {
    netstat_pids_of_lines(spec_split(output, '\n'))
}

/// The process ids, as text, in the output of `netstat -ano | findstr`,
/// each to be handed to `taskkill /F /PID`.
pub fn netstat_pids(output: &str) -> (r: Vec<String>)
    ensures
        r@.map_values(|p: String| p@) == spec_netstat_pids(output@),
{
    let lines = split_char(output, '\n');
    let ghost lv = views(lines@);
    let mut pids: Vec<String> = Vec::new();
    let mut i: usize = 0;
    assert(lv.take(0) =~= Seq::<Seq<char>>::empty());
    assert(pids@.map_values(|p: String| p@) =~= Seq::<Seq<char>>::empty());
    while i < lines.len()
        invariant
            i <= lines@.len(),
            lv == views(lines@),
            pids@.map_values(|p: String| p@) == netstat_pids_of_lines(lv.take(i as int)),
        decreases lines@.len() - i,
    {
        assert(lv.take(i + 1).drop_last() =~= lv.take(i as int));
        assert(lv.take(i + 1).last() == lines@[i as int]@);
        let ghost before = pids@;
        match last_word(lines[i]) {
            Some(w) => {
                if parse_u32(w).is_some() {
                    pids.push(String::from_str(w));
                    assert(pids@.map_values(|p: String| p@) =~= before.map_values(
                        |p: String| p@,
                    ).push(w@));
                }
            },
            None => {},
        }
        i = i + 1;
    }
    assert(lv.take(lines@.len() as int) =~= lv);
    pids
}

/// The arguments of `taskkill` that force-stop process `pid`.
pub fn taskkill_args(pid: &str) -> (r: Vec<String>)
    ensures
        r@.map_values(|a: String| a@) == seq!["/F"@, "/PID"@, pid@],
{
    let mut v: Vec<String> = Vec::new();
    v.push(String::from_str("/F"));
    v.push(String::from_str("/PID"));
    v.push(String::from_str(pid));
    assert(v@.map_values(|a: String| a@) =~= seq!["/F"@, "/PID"@, pid@]);
    v
}

// ---------------------------------------------------------------------------
// Starting the Hub
// ---------------------------------------------------------------------------

/// The value of an environment variable: a path, or text.
pub enum EnvValue {
    Path(AppPath),
    Text(String),
}

/// The view of an environment variable's value.
pub enum EnvView {
    Path(AppPathView),
    Text(Seq<char>),
}

impl View for EnvValue {
    type V = EnvView;

    open spec fn view(&self) -> EnvView {
        match self {
            EnvValue::Path(p) => EnvView::Path(p@),
            EnvValue::Text(t) => EnvView::Text(t@),
        }
    }
}

/// The views of a list of environment variables.
pub open spec fn envs_view(envs: Seq<(String, EnvValue)>) -> Seq<(Seq<char>, EnvView)> {
    envs.map_values(|e: (String, EnvValue)| (e.0@, e.1@))
}

/// How the Hub is started: Bun running the Hub bundle, with the given
/// environment; on Unix it gets a process group of its own so that stopping
/// the group stops everything it started.
pub struct HubCommand {
    pub bun: AppPath,
    pub hub_bundle: AppPath,
    pub envs: Vec<(String, EnvValue)>,
    pub own_process_group: bool,
}

/// The view of an optional path.
pub open spec fn opt_path_view(p: Option<AppPath>) -> Option<AppPathView> {
    match p {
        Some(q) => Some(q@),
        None => None,
    }
}

/// The environment the Hub is started with: where the web page files are,
/// the port, the desktop database `~/.tako/desktop.db`, the log name, and,
/// where known, the command-line bundle, the catalog and the bundle version.
pub open spec fn spec_hub_envs(
    web_dist: AppPathView,
    home: PathBuf,
    cli: Option<AppPathView>,
    catalog: Option<AppPathView>,
    version: Option<Seq<char>>,
) -> Seq<(Seq<char>, EnvView)> {
    let base = seq![
        ("TAKO_WEB_DIST"@, EnvView::Path(web_dist)),
        ("TAKO_LISTEN_PORT"@, EnvView::Text(spec_decimal(HUB_PORT as nat))),
        ("DB_PATH"@, EnvView::Path(path_view(home, seq![".tako"@, "desktop.db"@]))),
        ("TAKO_HUB_LOG_NAME"@, EnvView::Text("desktop-hub.log"@)),
    ];
    let with_cli = match cli {
        Some(c) => base.push(("TAKO_CLI_BUNDLE"@, EnvView::Path(c))),
        None => base,
    };
    let with_catalog = match catalog {
        Some(c) => with_cli.push(("TAKO_CATALOG_PATH"@, EnvView::Path(c))),
        None => with_cli,
    };
    match version {
        Some(v) => with_catalog.push(("TAKO_DESKTOP_VERSION"@, EnvView::Text(v))),
        None => with_catalog,
    }
}

/// Whether an environment sets `key` to `value`.
pub open spec fn env_sets(envs: Seq<(Seq<char>, EnvView)>, key: Seq<char>, value: EnvView) -> bool {
    exists|i: int| 0 <= i < envs.len() && #[trigger] envs[i] == (key, value)
}

/// Whether an environment sets `key` at all.
pub open spec fn env_has(envs: Seq<(Seq<char>, EnvView)>, key: Seq<char>) -> bool {
    exists|i: int| 0 <= i < envs.len() && #[trigger] envs[i].0 == key
}

/// Each optional bundle reaches the Hub's environment on its own: the
/// command-line bundle is set exactly where it is given, and so is the
/// catalog, whatever the other one is; the same holds of the bundle
/// version.
pub proof fn lemma_optional_entries_are_independent(
    web_dist: AppPathView,
    home: PathBuf,
    cli: Option<AppPathView>,
    catalog: Option<AppPathView>,
    version: Option<Seq<char>>,
)
    ensures
        ({
            let envs = spec_hub_envs(web_dist, home, cli, catalog, version);
            &&& cli matches Some(c) ==> env_sets(envs, "TAKO_CLI_BUNDLE"@, EnvView::Path(c))
            &&& cli is None ==> !env_has(envs, "TAKO_CLI_BUNDLE"@)
            &&& catalog matches Some(c) ==> env_sets(envs, "TAKO_CATALOG_PATH"@, EnvView::Path(c))
            &&& catalog is None ==> !env_has(envs, "TAKO_CATALOG_PATH"@)
            &&& version matches Some(v) ==> env_sets(envs, "TAKO_DESKTOP_VERSION"@, EnvView::Text(v))
            &&& version is None ==> !env_has(envs, "TAKO_DESKTOP_VERSION"@)
        }),
{
    reveal_strlit("TAKO_WEB_DIST");
    reveal_strlit("TAKO_LISTEN_PORT");
    reveal_strlit("DB_PATH");
    reveal_strlit("TAKO_HUB_LOG_NAME");
    reveal_strlit("TAKO_CLI_BUNDLE");
    reveal_strlit("TAKO_CATALOG_PATH");
    reveal_strlit("TAKO_DESKTOP_VERSION");
    let base = seq![
        ("TAKO_WEB_DIST"@, EnvView::Path(web_dist)),
        ("TAKO_LISTEN_PORT"@, EnvView::Text(spec_decimal(HUB_PORT as nat))),
        ("DB_PATH"@, EnvView::Path(path_view(home, seq![".tako"@, "desktop.db"@]))),
        ("TAKO_HUB_LOG_NAME"@, EnvView::Text("desktop-hub.log"@)),
    ];
    let with_cli = match cli {
        Some(c) => base.push(("TAKO_CLI_BUNDLE"@, EnvView::Path(c))),
        None => base,
    };
    let with_catalog = match catalog {
        Some(c) => with_cli.push(("TAKO_CATALOG_PATH"@, EnvView::Path(c))),
        None => with_cli,
    };
    let envs = spec_hub_envs(web_dist, home, cli, catalog, version);
    let nb = 4int;
    let nc = with_cli.len() as int;
    let nk = with_catalog.len() as int;
    assert(forall|i: int| 0 <= i < nk ==> envs[i] == with_catalog[i]);
    assert(forall|i: int| 0 <= i < nc ==> with_catalog[i] == with_cli[i]);
    assert(forall|i: int| 0 <= i < nb ==> with_cli[i] == base[i]);
    assert(envs.len() == nk + (if version is Some { 1int } else { 0int }));
    // The keys of the fixed entries differ from those of the optional ones.
    assert("TAKO_WEB_DIST"@[5] != "TAKO_CLI_BUNDLE"@[5]);
    assert("TAKO_LISTEN_PORT"@.len() != "TAKO_CLI_BUNDLE"@.len());
    assert("DB_PATH"@.len() != "TAKO_CLI_BUNDLE"@.len());
    assert("TAKO_HUB_LOG_NAME"@.len() != "TAKO_CLI_BUNDLE"@.len());
    assert("TAKO_WEB_DIST"@.len() != "TAKO_CATALOG_PATH"@.len());
    assert("TAKO_LISTEN_PORT"@.len() != "TAKO_CATALOG_PATH"@.len());
    assert("DB_PATH"@.len() != "TAKO_CATALOG_PATH"@.len());
    assert("TAKO_HUB_LOG_NAME"@[5] != "TAKO_CATALOG_PATH"@[5]);
    assert("TAKO_CLI_BUNDLE"@.len() != "TAKO_CATALOG_PATH"@.len());
    assert("TAKO_WEB_DIST"@.len() != "TAKO_DESKTOP_VERSION"@.len());
    assert("TAKO_LISTEN_PORT"@.len() != "TAKO_DESKTOP_VERSION"@.len());
    assert("DB_PATH"@.len() != "TAKO_DESKTOP_VERSION"@.len());
    assert("TAKO_HUB_LOG_NAME"@.len() != "TAKO_DESKTOP_VERSION"@.len());
    assert("TAKO_CLI_BUNDLE"@.len() != "TAKO_DESKTOP_VERSION"@.len());
    assert("TAKO_CATALOG_PATH"@.len() != "TAKO_DESKTOP_VERSION"@.len());
    if let Some(c) = cli {
        assert(envs[nb] == ("TAKO_CLI_BUNDLE"@, EnvView::Path(c)));
    }
    if let Some(c) = catalog {
        assert(envs[nc] == ("TAKO_CATALOG_PATH"@, EnvView::Path(c)));
    }
    if let Some(v) = version {
        assert(envs[nk] == ("TAKO_DESKTOP_VERSION"@, EnvView::Text(v)));
    }
    if cli is None {
        assert forall|i: int| 0 <= i < envs.len() implies #[trigger] envs[i].0 != "TAKO_CLI_BUNDLE"@ by {
            if i < nb {
                assert(envs[i] == base[i]);
            }
        }
    }
    if catalog is None {
        assert forall|i: int| 0 <= i < envs.len() implies #[trigger] envs[i].0 != "TAKO_CATALOG_PATH"@ by {
            if i < nb {
                assert(envs[i] == base[i]);
            }
        }
    }
    if version is None {
        assert forall|i: int| 0 <= i < envs.len() implies #[trigger] envs[i].0 != "TAKO_DESKTOP_VERSION"@ by {
            if i < nb {
                assert(envs[i] == base[i]);
            }
        }
    }
}

/// The message with which starting the Hub fails when the home directory is
/// not known.
pub open spec fn spec_no_home_message() -> Seq<char> {
    "Cannot determine home directory"@
}

/// The command that starts the Hub, or the error where the home directory
/// (which holds the desktop database) is not known.
pub fn hub_command(
    os: Os,
    bun: AppPath,
    hub_bundle: AppPath,
    web_dist: AppPath,
    cli_bundle: Option<AppPath>,
    catalog: Option<AppPath>,
    desktop_version: Option<String>,
    home: Option<PathBuf>,
) -> (r: Result<HubCommand, String>)
    ensures
        match home {
            None => (r matches Err(m) && m@ == spec_no_home_message()),
            Some(h) => (r matches Ok(c) && {
                &&& c.bun == bun
                &&& c.hub_bundle == hub_bundle
                &&& c.own_process_group == (os != Os::Windows)
                &&& envs_view(c.envs@) == spec_hub_envs(
                    web_dist@,
                    h,
                    opt_path_view(cli_bundle),
                    opt_path_view(catalog),
                    opt_string_view(desktop_version),
                )
            }),
        },
{
    let h = match home {
        Some(h) => h,
        None => {
            return Err(String::from_str("Cannot determine home directory"));
        },
    };
    let ghost web_v = web_dist@;
    let db = AppPath::new(h, &[".tako", "desktop.db"]);
    assert(views(seq![".tako", "desktop.db"]) =~= seq![".tako"@, "desktop.db"@]);
    let mut envs: Vec<(String, EnvValue)> = Vec::new();
    envs.push((String::from_str("TAKO_WEB_DIST"), EnvValue::Path(web_dist)));
    envs.push((String::from_str("TAKO_LISTEN_PORT"), EnvValue::Text(decimal(HUB_PORT as u64))));
    envs.push((String::from_str("DB_PATH"), EnvValue::Path(db)));
    envs.push((String::from_str("TAKO_HUB_LOG_NAME"), EnvValue::Text(String::from_str("desktop-hub.log"))));
    assert(envs_view(envs@) =~= seq![
        ("TAKO_WEB_DIST"@, EnvView::Path(web_v)),
        ("TAKO_LISTEN_PORT"@, EnvView::Text(spec_decimal(HUB_PORT as nat))),
        ("DB_PATH"@, EnvView::Path(path_view(h, seq![".tako"@, "desktop.db"@]))),
        ("TAKO_HUB_LOG_NAME"@, EnvView::Text("desktop-hub.log"@)),
    ]);
    match cli_bundle {
        Some(c) => {
            let ghost before = envs@;
            envs.push((String::from_str("TAKO_CLI_BUNDLE"), EnvValue::Path(c)));
            assert(envs_view(envs@) =~= envs_view(before).push(("TAKO_CLI_BUNDLE"@, EnvView::Path(c@))));
        },
        None => {},
    }
    match catalog {
        Some(c) => {
            let ghost before = envs@;
            envs.push((String::from_str("TAKO_CATALOG_PATH"), EnvValue::Path(c)));
            assert(envs_view(envs@) =~= envs_view(before).push(("TAKO_CATALOG_PATH"@, EnvView::Path(c@))));
        },
        None => {},
    }
    match desktop_version {
        Some(v) => {
            let ghost before = envs@;
            envs.push((String::from_str("TAKO_DESKTOP_VERSION"), EnvValue::Text(v)));
            assert(envs_view(envs@) =~= envs_view(before).push(("TAKO_DESKTOP_VERSION"@, EnvView::Text(v@))));
        },
        None => {},
    }
    let own_process_group = match os {
        Os::Windows => false,
        _ => true,
    };
    Ok(HubCommand { bun, hub_bundle, envs, own_process_group })
}

/// The event shown while the Hub is starting.
pub fn hub_starting_progress() -> (r: SetupProgress)
    ensures
        r@ == progress("hub"@, "running"@, "Starting Hub server..."@),
{
    SetupProgress::new("hub", "running", "Starting Hub server...")
}

/// The event shown once the Hub answers.
pub fn hub_ready_progress() -> (r: SetupProgress)
    ensures
        r@ == progress("hub"@, "done"@, "Hub server ready"@),
{
    SetupProgress::new("hub", "done", "Hub server ready")
}

/// The message with which starting fails where Bun is not installed.
pub fn bun_missing_message() -> (r: String)
    ensures
        r@ == "Bun is not installed"@,
{
    String::from_str("Bun is not installed")
}

/// The message where the HTTP client could not be built.
pub fn http_client_error_message(detail: &str) -> (r: String)
    ensures
        r@ == "HTTP client error: "@ + detail@,
{
    String::from_str("HTTP client error: ").concat(detail)
}

/// The message with which starting fails where the process could not be
/// spawned.
pub fn spawn_failure_message(detail: &str) -> (r: String)
    ensures
        r@ == "Failed to start Hub: "@ + detail@,
{
    String::from_str("Failed to start Hub: ").concat(detail)
}

/// What starting the Hub asks of the launcher next.
pub enum StartStep {
    /// Stop whatever still listens on the Hub's port.
    ClearPort,
    /// Show the event, then spawn the Hub with this command.
    Spawn { progress: SetupProgress, command: HubCommand },
    /// Wait for the Hub's health endpoint to answer.
    WaitForHealth,
    /// The Hub runs and answers: show the event.
    Ready(SetupProgress),
    /// Starting failed with this message (after showing the event, if any).
    Fail { progress: Option<SetupProgress>, message: String },
}

/// Where starting the Hub is.
#[derive(Debug, Clone, Copy, PartialEq, Eq, Structural)]
pub enum StartStage {
    ClearingPort,
    Spawning,
    WaitingForHealth,
    Over,
}

/// Starting the Hub: Bun must be installed; the port is cleared; the Hub
/// is spawned with its environment; then it must become healthy.
pub struct HubStart {
    stage: StartStage,
}

impl HubStart {
    /// Where starting is.
    pub closed spec fn stage(&self) -> StartStage {
        self.stage
    }

    /// Where starting is.
    pub fn current_stage(&self) -> (r: StartStage)
        ensures
            r == self.stage(),
    {
        self.stage
    }

    /// Begins, given whether Bun's executable exists.
    pub fn begin(bun_exists: bool) -> (r: (HubStart, StartStep))
        ensures
            bun_exists ==> r.1 is ClearPort && r.0.stage() == StartStage::ClearingPort,
            !bun_exists ==> (r.1 matches StartStep::Fail { progress: None, message: m } && m@
                == "Bun is not installed"@) && r.0.stage() == StartStage::Over,
    {
        if bun_exists {
            (HubStart { stage: StartStage::ClearingPort }, StartStep::ClearPort)
        } else {
            (
                HubStart { stage: StartStage::Over },
                StartStep::Fail { progress: None, message: bun_missing_message() },
            )
        }
    }

    /// Once the port is clear: the event that the Hub is starting is shown,
    /// and the Hub is spawned, where the home directory `home` is known.
    pub fn on_port_cleared_with_home(
        &mut self,
        os: Os,
        bun: AppPath,
        hub_bundle: AppPath,
        web_dist: AppPath,
        cli_bundle: Option<AppPath>,
        catalog: Option<AppPath>,
        desktop_version: Option<String>,
        home: Option<PathBuf>,
    ) -> (r: StartStep)
        requires
            old(self).stage() == StartStage::ClearingPort,
        ensures
            match home {
                None => (r matches StartStep::Fail { progress: Some(p), message: m } && p@
                    == progress("hub"@, "running"@, "Starting Hub server..."@) && m@
                    == spec_no_home_message()) && final(self).stage() == StartStage::Over,
                Some(h) => (r matches StartStep::Spawn { progress: p, command: c } && p@
                    == progress("hub"@, "running"@, "Starting Hub server..."@) && c.bun == bun
                    && c.hub_bundle == hub_bundle && c.own_process_group == (os != Os::Windows)
                    && envs_view(c.envs@) == spec_hub_envs(
                    web_dist@,
                    h,
                    opt_path_view(cli_bundle),
                    opt_path_view(catalog),
                    opt_string_view(desktop_version),
                )) && final(self).stage() == StartStage::Spawning,
            },
    {
        let progress = hub_starting_progress();
        match hub_command(
            os,
            bun,
            hub_bundle,
            web_dist,
            cli_bundle,
            catalog,
            desktop_version,
            home,
        ) {
            Ok(command) => {
                self.stage = StartStage::Spawning;
                StartStep::Spawn { progress, command }
            },
            Err(message) => {
                self.stage = StartStage::Over;
                StartStep::Fail { progress: Some(progress), message }
            },
        }
    }

    /// Once the port is clear: as [`HubStart::on_port_cleared_with_home`],
    /// with the home directory as `dirs::home_dir` finds it.
    pub fn on_port_cleared(
        &mut self,
        os: Os,
        bun: AppPath,
        hub_bundle: AppPath,
        web_dist: AppPath,
        cli_bundle: Option<AppPath>,
        catalog: Option<AppPath>,
        desktop_version: Option<String>,
    ) -> (r: StartStep)
        requires
            old(self).stage() == StartStage::ClearingPort,
        ensures
            (r is Spawn && final(self).stage() == StartStage::Spawning) || (r is Fail
                && final(self).stage() == StartStage::Over),
            r matches StartStep::Spawn { progress: p, command: c } ==> {
                &&& p@ == progress("hub"@, "running"@, "Starting Hub server..."@)
                &&& c.bun == bun
                &&& c.hub_bundle == hub_bundle
                &&& c.own_process_group == (os != Os::Windows)
                &&& exists|h: PathBuf|
                    envs_view(c.envs@) == #[trigger] spec_hub_envs(
                        web_dist@,
                        h,
                        opt_path_view(cli_bundle),
                        opt_path_view(catalog),
                        opt_string_view(desktop_version),
                    )
            },
            r matches StartStep::Fail { progress: p, message: m } ==> (p matches Some(e) && e@
                == progress("hub"@, "running"@, "Starting Hub server..."@)) && m@
                == spec_no_home_message(),
    {
        let ghost web_v = web_dist@;
        let ghost cli_v = opt_path_view(cli_bundle);
        let ghost cat_v = opt_path_view(catalog);
        let ghost ver_v = opt_string_view(desktop_version);
        let home = crate::paths::home_dir();
        let ghost hv = home;
        let r = self.on_port_cleared_with_home(
            os,
            bun,
            hub_bundle,
            web_dist,
            cli_bundle,
            catalog,
            desktop_version,
            home,
        );
        proof {
            if let Some(h) = hv {
                if let StartStep::Spawn { progress: _, command: c } = &r {
                    assert(envs_view(c.envs@) == spec_hub_envs(web_v, h, cli_v, cat_v, ver_v));
                }
            }
        }
        r
    }

    /// Takes whether the Hub could be spawned, or the error.
    pub fn on_spawned(&mut self, spawned: Result<(), String>) -> (r: StartStep)
        requires
            old(self).stage() == StartStage::Spawning,
        ensures
            match spawned {
                Ok(_) => r is WaitForHealth && final(self).stage() == StartStage::WaitingForHealth,
                Err(e) => (r matches StartStep::Fail { progress: None, message: m } && m@
                    == "Failed to start Hub: "@ + e@) && final(self).stage() == StartStage::Over,
            },
    {
        match spawned {
            Ok(_) => {
                self.stage = StartStage::WaitingForHealth;
                StartStep::WaitForHealth
            },
            Err(e) => {
                self.stage = StartStage::Over;
                StartStep::Fail { progress: None, message: spawn_failure_message(e.as_str()) }
            },
        }
    }

    /// Takes the end of the wait for health: the Hub is ready, or starting
    /// fails with the wait's error.
    pub fn on_health(&mut self, healthy: Result<(), String>) -> (r: StartStep)
        requires
            old(self).stage() == StartStage::WaitingForHealth,
        ensures
            final(self).stage() == StartStage::Over,
            match healthy {
                Ok(_) => r matches StartStep::Ready(p) && p@ == progress(
                    "hub"@,
                    "done"@,
                    "Hub server ready"@,
                ),
                Err(e) => r matches StartStep::Fail { progress: None, message: m } && m@ == e@,
            },
    {
        self.stage = StartStage::Over;
        match healthy {
            Ok(_) => StartStep::Ready(hub_ready_progress()),
            Err(e) => StartStep::Fail { progress: None, message: e },
        }
    }
}

// ---------------------------------------------------------------------------
// Waiting for the Hub
// ---------------------------------------------------------------------------

/// How long the Hub has to become healthy: 30 seconds, in nanoseconds.
pub const HEALTH_TIMEOUT_NANOS: u128 = 30_000_000_000;

/// The message with which the wait for health fails.
pub open spec fn spec_health_timeout_message() -> Seq<char> {
    "Hub server did not become healthy within timeout"@
}

/// What the wait for the Hub's health does next.
pub enum HealthStep {
    /// Ask the health endpoint (then wait half a second where it did not
    /// answer with success).
    Probe,
    /// Give up with this message.
    GiveUp(String),
}

/// Before each request to the health endpoint: give up once more than the
/// timeout has passed since the wait began, otherwise ask.
pub fn health_step(elapsed_nanos: u128, timeout_nanos: u128) -> (r: HealthStep)
    ensures
        elapsed_nanos > timeout_nanos ==> (r matches HealthStep::GiveUp(m) && m@
            == spec_health_timeout_message()),
        elapsed_nanos <= timeout_nanos ==> r is Probe,
{
    if elapsed_nanos > timeout_nanos {
        HealthStep::GiveUp(String::from_str("Hub server did not become healthy within timeout"))
    } else {
        HealthStep::Probe
    }
}

/// What polling the Hub process found.
#[derive(Debug, Clone, Copy, PartialEq, Eq, Structural)]
pub enum ExitPoll {
    /// It has exited, with this exit code (`None` where a signal ended it).
    Exited(Option<i32>),
    /// It is still running.
    Running,
    /// Polling failed.
    Failed,
}

/// What the wait for the Hub's exit does next.
#[derive(Debug, Clone, Copy, PartialEq, Eq, Structural)]
pub enum ExitWait {
    /// Stop waiting, with this exit code.
    Return(Option<i32>),
    /// Poll again after half a second.
    PollAgain,
}

/// One round of the wait for the Hub's exit: shutting down ends the wait
/// without an exit code before the process is polled; an exit ends it with
/// the exit code; a failed poll ends it without one; otherwise the wait goes
/// on. `poll` is only consulted where the launcher is not shutting down.
pub fn exit_wait_step(shutdown: bool, poll: ExitPoll) -> (r: ExitWait)
    ensures
        shutdown ==> r == ExitWait::Return(None),
        !shutdown ==> r == match poll {
            ExitPoll::Exited(code) => ExitWait::Return(code),
            ExitPoll::Running => ExitWait::PollAgain,
            ExitPoll::Failed => ExitWait::Return(None),
        },
{
    if shutdown {
        return ExitWait::Return(None);
    }
    match poll {
        ExitPoll::Exited(code) => ExitWait::Return(code),
        ExitPoll::Running => ExitWait::PollAgain,
        ExitPoll::Failed => ExitWait::Return(None),
    }
}

/// How long a stopped Hub has to exit before it is killed: 5 seconds, in
/// nanoseconds.
pub const GRACEFUL_EXIT_NANOS: u128 = 5_000_000_000;

/// What stopping the Hub does next, after it has been asked to terminate.
#[derive(Debug, Clone, Copy, PartialEq, Eq, Structural)]
pub enum KillStep {
    /// It has exited: done.
    Done,
    /// Poll again after 100 milliseconds.
    Wait,
    /// Kill it outright and reap it.
    ForceKill,
}

/// One round of stopping the Hub: done once it has exited, waiting while
/// it runs and less than the grace period has passed, killing it outright
/// otherwise (a failed poll included).
pub fn kill_step(poll: ExitPoll, elapsed_nanos: u128) -> (r: KillStep)
    ensures
        r == match poll {
            ExitPoll::Exited(_) => KillStep::Done,
            ExitPoll::Running => if elapsed_nanos < GRACEFUL_EXIT_NANOS {
                KillStep::Wait
            } else {
                KillStep::ForceKill
            },
            ExitPoll::Failed => KillStep::ForceKill,
        },
{
    match poll {
        ExitPoll::Exited(_) => KillStep::Done,
        ExitPoll::Running => {
            if elapsed_nanos < GRACEFUL_EXIT_NANOS {
                KillStep::Wait
            } else {
                KillStep::ForceKill
            }
        },
        ExitPoll::Failed => KillStep::ForceKill,
    }
}

} // verus!
