//! The Hub loop: start the Hub, show it, wait for it to exit, and start it
//! again, at once where it asked for a restart with updated bundles, after a
//! pause where it crashed, giving up after too many crashes in a row.
use vstd::prelude::*;

use crate::hub_manager::{hub_page_url, spec_hub_page_url};
use crate::navigation::{parse_url, spec_url_parse, ParsedUrl};
use crate::paths::AppPath;
use crate::progress::{opt_progress_view, progress, ProgressView, SetupProgress};
use crate::text::{decimal, opt_string_view, signed_decimal, spec_decimal, spec_signed_decimal};

verus! {

/// The exit code with which the Hub asks to be restarted with new bundles.
pub const HUB_RESTART_EXIT_CODE: i32 = 42;

/// How many crashes in a row are followed by a restart; the next one ends
/// the loop.
pub const MAX_CRASH_RESTARTS: u32 = 3;

/// Pause before a restart after a crash, in seconds.
pub const CRASH_RESTART_DELAY_SECS: u64 = 2;

/// The bundles the Hub is started with; the command-line bundle and the
/// catalog are optional.
pub struct HubBundles {
    pub hub: AppPath,
    pub cli: Option<AppPath>,
    pub web: AppPath,
    pub catalog: Option<AppPath>,
}

/// What resolving the bundles found, and which bundle version is in use.
pub struct Resolution {
    pub hub: Result<AppPath, String>,
    pub cli: Result<AppPath, String>,
    pub web: Result<AppPath, String>,
    pub catalog: Result<AppPath, String>,
    /// Whether the hot-updated bundles are in use.
    pub use_external: bool,
    /// The version of the hot-updated bundles, where it is known.
    pub external_version: Option<String>,
    /// The version of the application itself, where it is known.
    pub app_version: Option<String>,
}

/// The bundle version the Hub is told about: that of the hot-updated
/// bundles where they are in use and it is known, the application's
/// otherwise.
pub open spec fn spec_bundle_version(
    use_external: bool,
    external_version: Option<Seq<char>>,
    app_version: Option<Seq<char>>,
) -> Option<Seq<char>> {
    if use_external && external_version is Some {
        external_version
    } else {
        app_version
    }
}

/// The bundle version the Hub is told about.
pub fn bundle_version(
    use_external: bool,
    external_version: Option<String>,
    app_version: Option<String>,
) -> (r: Option<String>)
    ensures
        opt_string_view(r) == spec_bundle_version(
            use_external,
            opt_string_view(external_version),
            opt_string_view(app_version),
        ),
{
    if use_external {
        match external_version {
            Some(v) => Some(v),
            None => app_version,
        }
    } else {
        app_version
    }
}

/// The event shown before the Hub starts, where the bundle version is known.
pub open spec fn spec_starting_progress(version: Option<Seq<char>>) -> Option<ProgressView> {
    match version {
        Some(v) => Some(progress("hub"@, "running"@, "Starting Hub (bundle v"@ + v + ")..."@)),
        None => None,
    }
}

/// The Hub is to be started with these bundles, telling it this version,
/// after showing this event.
pub struct Launch {
    pub bundles: HubBundles,
    pub version: Option<String>,
    pub progress: Option<SetupProgress>,
}

/// Why the Hub is restarted after a pause.
pub enum RestartReason {
    /// It could not be started.
    StartFailed(String),
    /// It exited with this code.
    Crashed(i32),
    /// A signal ended it.
    Signaled,
}

/// What the loop does after the Hub started or exited.
pub enum HubAction {
    /// The Hub runs with this process id: remember it, show its page at this
    /// address and wait for it to exit.
    Watch { pid: u32, page: ParsedUrl },
    /// Pause this many seconds, then begin the next round; this is the
    /// `attempt`-th restart in a row.
    Retry { delay_secs: u64, attempt: u32, reason: RestartReason },
    /// Begin the next round at once: the Hub asked for a restart.
    RestartNow,
    /// The launcher is shutting down: stop the Hub, and end the loop without
    /// error.
    KillAndStop,
    /// End the loop with this error.
    Fail(String),
}

/// Where the loop is.
#[derive(Debug, Clone, Copy, PartialEq, Eq, Structural)]
pub enum HubStage {
    /// About to begin a round.
    Idle,
    /// Resolving the bundles.
    Resolving,
    /// Starting the Hub.
    Starting,
    /// Waiting for the Hub to exit.
    Watching,
    /// The loop has ended.
    Stopped,
}

/// The state of the Hub loop: where it is, and how many failures in a row
/// (failed starts, crashes, ends by a signal) there have been since the loop
/// began or the Hub last asked for a restart.
pub struct HubLoop {
    stage: HubStage,
    crash_count: u32,
}

/// What a failure leads to after `crash_count` earlier failures in a row:
/// a restart, as the how-manieth in a row, or giving up.
pub enum FailureOutcome {
    Restart(nat),
    GiveUp,
}

/// One more failure after `crash_count` in a row: up to
/// `MAX_CRASH_RESTARTS` failures in a row are followed by a restart; the one
/// after gives up.
pub open spec fn failure_outcome(crash_count: nat) -> FailureOutcome {
    if crash_count + 1 > MAX_CRASH_RESTARTS {
        FailureOutcome::GiveUp
    } else {
        FailureOutcome::Restart(crash_count + 1)
    }
}

/// The message when the Hub could not be started too many times in a row.
pub open spec fn spec_start_give_up(detail: Seq<char>) -> Seq<char> {
    "Hub failed to start after "@ + spec_decimal(MAX_CRASH_RESTARTS as nat) + " attempts: "@
        + detail
}

/// The message when the Hub crashed too many times in a row.
pub open spec fn spec_crash_give_up(code: int) -> Seq<char> {
    "Hub crashed "@ + spec_decimal(MAX_CRASH_RESTARTS as nat) + " times (last exit code: "@
        + spec_signed_decimal(code) + "), giving up"@
}

/// The message when a signal ended the Hub too many times in a row.
pub open spec fn spec_signal_give_up() -> Seq<char> {
    "Hub terminated by signal "@ + spec_decimal(MAX_CRASH_RESTARTS as nat) + " times, giving up"@
}

/// The message when the Hub's page address does not parse.
pub open spec fn spec_invalid_url(detail: Seq<char>) -> Seq<char> {
    "Invalid URL: "@ + detail
}

impl HubLoop {
    /// Where the loop is.
    pub closed spec fn stage(&self) -> HubStage {
        self.stage
    }

    /// Failures in a row since the loop began or the Hub last asked for a
    /// restart.
    pub closed spec fn crash_count(&self) -> nat {
        self.crash_count as nat
    }

    /// The count of failures in a row stays within what is restarted.
    pub closed spec fn wf(&self) -> bool {
        self.crash_count <= MAX_CRASH_RESTARTS
    }

    /// Where the loop is.
    pub fn current_stage(&self) -> (r: HubStage)
        ensures
            r == self.stage(),
    {
        self.stage
    }

    /// A loop about to begin its first round.
    pub fn new() -> (r: HubLoop)
        ensures
            r.wf(),
            r.stage() == HubStage::Idle,
            r.crash_count() == 0,
    {
        HubLoop { stage: HubStage::Idle, crash_count: 0 }
    }

    /// Begins a round: where the launcher is shutting down the loop ends
    /// (without error); otherwise the bundles are to be resolved.
    pub fn begin(&mut self, shutdown: bool) -> (go_on: bool)
        requires
            old(self).wf(),
            old(self).stage() == HubStage::Idle,
        ensures
            final(self).wf(),
            go_on == !shutdown,
            final(self).crash_count() == old(self).crash_count(),
            final(self).stage() == if shutdown {
                HubStage::Stopped
            } else {
                HubStage::Resolving
            },
    {
        if shutdown {
            self.stage = HubStage::Stopped;
            false
        } else {
            self.stage = HubStage::Resolving;
            true
        }
    }

    /// Takes the resolved bundles: the loop ends with the error of the Hub
    /// bundle, or else of the web bundle, where either is missing; otherwise
    /// the Hub is to be started with them (an optional bundle that is
    /// missing left out), told the bundle version, after the event that
    /// names that version.
    pub fn on_resolved(&mut self, res: Resolution) -> (r: Result<Launch, String>)
        requires
            old(self).wf(),
            old(self).stage() == HubStage::Resolving,
        ensures
            final(self).wf(),
            final(self).crash_count() == old(self).crash_count(),
            match (res.hub, res.web) {
                (Err(e), _) => r matches Err(m) && m@ == e@ && final(self).stage()
                    == HubStage::Stopped,
                (Ok(_), Err(e)) => r matches Err(m) && m@ == e@ && final(self).stage()
                    == HubStage::Stopped,
                (Ok(h), Ok(w)) => r matches Ok(l) && {
                    &&& final(self).stage() == HubStage::Starting
                    &&& l.bundles.hub == h
                    &&& l.bundles.web == w
                    &&& l.bundles.cli == res.cli.ok()
                    &&& l.bundles.catalog == res.catalog.ok()
                    &&& opt_string_view(l.version) == spec_bundle_version(
                        res.use_external,
                        opt_string_view(res.external_version),
                        opt_string_view(res.app_version),
                    )
                    &&& opt_progress_view(l.progress) == spec_starting_progress(
                        opt_string_view(l.version),
                    )
                },
            },
    {
        let Resolution { hub, cli, web, catalog, use_external, external_version, app_version } =
            res;
        let hub = match hub {
            Ok(h) => h,
            Err(e) => {
                self.stage = HubStage::Stopped;
                return Err(e);
            },
        };
        let web = match web {
            Ok(w) => w,
            Err(e) => {
                self.stage = HubStage::Stopped;
                return Err(e);
            },
        };
        let version = bundle_version(use_external, external_version, app_version);
        let progress = match &version {
            Some(v) => Some(
                SetupProgress::new(
                    "hub",
                    "running",
                    String::from_str("Starting Hub (bundle v").concat(v.as_str()).concat(
                        ")...",
                    ).as_str(),
                ),
            ),
            None => None,
        };
        self.stage = HubStage::Starting;
        Ok(Launch {
            bundles: HubBundles { hub, cli: cli.ok(), web, catalog: catalog.ok() },
            version,
            progress,
        })
    }

    /// One more failure: count it, then restart after the pause, or give up
    /// with `message`.
    fn on_failure(&mut self, reason: RestartReason, message: String) -> (r: HubAction)
        requires
            old(self).wf(),
        ensures
            match failure_outcome(old(self).crash_count()) {
                FailureOutcome::GiveUp => {
                    &&& r matches HubAction::Fail(m) && m@ == message@
                    &&& final(self).stage() == HubStage::Stopped
                },
                FailureOutcome::Restart(n) => {
                    &&& r matches HubAction::Retry { delay_secs, attempt, reason: why }
                        && delay_secs == CRASH_RESTART_DELAY_SECS && attempt == n && why
                        == reason
                    &&& final(self).stage() == HubStage::Idle
                    &&& final(self).crash_count() == n
                    &&& final(self).wf()
                },
            },
    {
        if self.crash_count + 1 > MAX_CRASH_RESTARTS {
            self.crash_count = self.crash_count + 1;
            self.stage = HubStage::Stopped;
            HubAction::Fail(message)
        } else {
            self.crash_count = self.crash_count + 1;
            self.stage = HubStage::Idle;
            HubAction::Retry {
                delay_secs: CRASH_RESTART_DELAY_SECS,
                attempt: self.crash_count,
                reason,
            }
        }
    }

    /// Takes the result of starting the Hub: its process id, or the error.
    ///
    /// Once it runs, its page is to be shown; the loop ends with an error
    /// where the page's address does not parse. The count of failures in a
    /// row is kept, so a Hub that starts and then crashes again and again is
    /// given up on all the same. Where it could not be started, that is a
    /// failure.
    pub fn on_started(&mut self, started: Result<u32, String>) -> (r: HubAction)
        requires
            old(self).wf(),
            old(self).stage() == HubStage::Starting,
        ensures
            match started {
                Ok(pid) => match spec_url_parse(spec_hub_page_url()) {
                    Ok(text) => {
                        &&& r matches HubAction::Watch { pid: p, page } && p == pid && page@ == text
                        &&& final(self).stage() == HubStage::Watching
                        &&& final(self).crash_count() == old(self).crash_count()
                        &&& final(self).wf()
                    },
                    Err(detail) => {
                        &&& r matches HubAction::Fail(m) && m@ == spec_invalid_url(detail)
                        &&& final(self).stage() == HubStage::Stopped
                    },
                },
                Err(e) => match failure_outcome(old(self).crash_count()) {
                    FailureOutcome::GiveUp => {
                        &&& r matches HubAction::Fail(m) && m@ == spec_start_give_up(e@)
                        &&& final(self).stage() == HubStage::Stopped
                    },
                    FailureOutcome::Restart(n) => {
                        &&& r matches HubAction::Retry {
                            delay_secs,
                            attempt,
                            reason: RestartReason::StartFailed(d),
                        } && delay_secs == CRASH_RESTART_DELAY_SECS && attempt == n && d@ == e@
                        &&& final(self).stage() == HubStage::Idle
                        &&& final(self).crash_count() == n
                        &&& final(self).wf()
                    },
                },
            },
    {
        match started {
            Ok(pid) => {
                let text = hub_page_url();
                match parse_url(text.as_str()) {
                    Ok(page) => {
                        self.stage = HubStage::Watching;
                        HubAction::Watch { pid, page }
                    },
                    Err(detail) => {
                        self.stage = HubStage::Stopped;
                        HubAction::Fail(String::from_str("Invalid URL: ").concat(detail.as_str()))
                    },
                }
            },
            Err(e) => {
                let message = String::from_str("Hub failed to start after ").concat(
                    decimal(MAX_CRASH_RESTARTS as u64).as_str(),
                ).concat(" attempts: ").concat(e.as_str());
                self.on_failure(RestartReason::StartFailed(e), message)
            },
        }
    }

    /// Takes the end of the wait for the Hub's exit: whether the launcher is
    /// shutting down by now, and the exit code (`None` where a signal ended
    /// the Hub or the wait).
    ///
    /// Shutting down stops the Hub and ends the loop without error. The
    /// restart code starts a new round at once, and the count of failures
    /// starts again from zero. Any other end is a failure.
    pub fn on_exit(&mut self, shutdown: bool, code: Option<i32>) -> (r: HubAction)
        requires
            old(self).wf(),
            old(self).stage() == HubStage::Watching,
        ensures
            shutdown ==> r is KillAndStop && final(self).stage() == HubStage::Stopped
                && final(self).crash_count() == old(self).crash_count(),
            !shutdown && code == Some(HUB_RESTART_EXIT_CODE) ==> r is RestartNow
                && final(self).stage() == HubStage::Idle && final(self).crash_count() == 0
                && final(self).wf(),
            !shutdown && code != Some(HUB_RESTART_EXIT_CODE) ==> match failure_outcome(
                old(self).crash_count(),
            ) {
                FailureOutcome::GiveUp => {
                    &&& final(self).stage() == HubStage::Stopped
                    &&& r matches HubAction::Fail(m) && m@ == match code {
                        Some(c) => spec_crash_give_up(c as int),
                        None => spec_signal_give_up(),
                    }
                },
                FailureOutcome::Restart(n) => {
                    &&& r matches HubAction::Retry { delay_secs, attempt, reason }
                        && delay_secs == CRASH_RESTART_DELAY_SECS && attempt == n && match code {
                        Some(c) => reason == RestartReason::Crashed(c),
                        None => reason is Signaled,
                    }
                    &&& final(self).stage() == HubStage::Idle
                    &&& final(self).crash_count() == n
                    &&& final(self).wf()
                },
            },
    {
        if shutdown {
            self.stage = HubStage::Stopped;
            return HubAction::KillAndStop;
        }
        match code {
            Some(c) => {
                if c == HUB_RESTART_EXIT_CODE {
                    self.crash_count = 0;
                    self.stage = HubStage::Idle;
                    HubAction::RestartNow
                } else {
                    let message = String::from_str("Hub crashed ").concat(
                        decimal(MAX_CRASH_RESTARTS as u64).as_str(),
                    ).concat(" times (last exit code: ").concat(signed_decimal(c).as_str()).concat(
                        "), giving up",
                    );
                    self.on_failure(RestartReason::Crashed(c), message)
                }
            },
            None => {
                let message = String::from_str("Hub terminated by signal ").concat(
                    decimal(MAX_CRASH_RESTARTS as u64).as_str(),
                ).concat(" times, giving up");
                self.on_failure(RestartReason::Signaled, message)
            },
        }
    }
}

/// The count of failures in a row after `k` failures in a row, counted from
/// a loop that began or whose Hub last asked for a restart, or `None` where the
/// loop has given up by then.
pub open spec fn count_after_failures(k: nat) -> Option<nat>
    decreases k,
{
    if k == 0 {
        Some(0)
    } else {
        match count_after_failures((k - 1) as nat) {
            Some(c) => match failure_outcome(c) {
                FailureOutcome::Restart(n) => Some(n),
                FailureOutcome::GiveUp => None,
            },
            None => None,
        }
    }
}

/// The loop restarts the Hub after each of up to `MAX_CRASH_RESTARTS`
/// failures in a row (a failed start, a crash or a signal), and gives up on
/// the failure after that.
pub proof fn lemma_gives_up_after_max_failures_in_a_row(k: nat)
    ensures
        count_after_failures(k) == if k <= MAX_CRASH_RESTARTS {
            Some(k)
        } else {
            None::<nat>
        },
    decreases k,
{
    if k > 0 {
        lemma_gives_up_after_max_failures_in_a_row((k - 1) as nat);
    }
}

/// The event shown while Bun is checked.
pub fn bun_check_progress() -> (r: SetupProgress)
    ensures
        r@ == progress("bun"@, "running"@, "Checking Bun runtime..."@),
{
    SetupProgress::new("bun", "running", "Checking Bun runtime...")
}

/// The event shown once the Bun step has ended: its error, or that Bun is
/// ready.
pub fn bun_result_progress(result: &Result<(), String>) -> (r: SetupProgress)
    ensures
        r@ == match result {
            Ok(_) => progress("bun"@, "done"@, "Bun runtime ready"@),
            Err(e) => progress("bun"@, "error"@, e@),
        },
{
    match result {
        Ok(_) => SetupProgress::new("bun", "done", "Bun runtime ready"),
        Err(e) => SetupProgress::new("bun", "error", e.as_str()),
    }
}

/// The event shown where the Hub loop ended with an error.
pub fn hub_error_progress(error: &str) -> (r: SetupProgress)
    ensures
        r@ == progress("hub"@, "error"@, error@),
{
    SetupProgress::new("hub", "error", error)
}

} // verus!
