//! Tako's own Bun runtime: where it lives under `~/.tako/bun/`, and the
//! steps that download and install it where it is missing.
use vstd::prelude::*;

use std::path::PathBuf;

use crate::paths::{clone_path, home_dir, path_view, AppPath};
use crate::progress::{opt_progress_view, progress, ProgressView, SetupProgress};
use crate::region::{
    get_bun_download_url, mirror_label, spec_bun_download_url, spec_mirror_label, Os, Platform,
    Region,
};
use crate::text::{starts_with, views};

verus! {

/// The name of the Bun executable: `bun.exe` on Windows, `bun` elsewhere.
pub open spec fn spec_bun_name(os: Os) -> Seq<char> {
    match os {
        Os::Windows => "bun.exe"@,
        _ => "bun"@,
    }
}

/// The name of the Bun executable.
pub fn bun_binary_name(os: Os) -> (r: &'static str)
    ensures
        r@ == spec_bun_name(os),
{
    match os {
        Os::Windows => "bun.exe",
        _ => "bun",
    }
}

/// The parts of Tako's Bun directory below the home directory:
/// `.tako/bun`.
pub open spec fn bun_dir_parts() -> Seq<Seq<char>> {
    seq![".tako"@, "bun"@]
}

/// The parts of Tako's Bun executable below the home directory:
/// `.tako/bun/bin/bun` (`bun.exe` on Windows).
pub open spec fn bun_bin_parts(os: Os) -> Seq<Seq<char>> {
    seq![".tako"@, "bun"@, "bin"@, spec_bun_name(os)]
}

/// Tako's Bun directory below `home`.
pub fn tako_bun_dir_under(home: PathBuf) -> (r: AppPath)
    ensures
        r@ == path_view(home, bun_dir_parts()),
{
    let r = AppPath::new(home, &[".tako", "bun"]);
    assert(views(seq![".tako", "bun"]) =~= bun_dir_parts());
    r
}

/// Tako's Bun executable below `home`.
pub fn tako_bun_bin_under(home: PathBuf, os: Os) -> (r: AppPath)
    ensures
        r@ == path_view(home, bun_bin_parts(os)),
{
    let name = bun_binary_name(os);
    let r = AppPath::new(home, &[".tako", "bun", "bin", name]);
    assert(views(seq![".tako", "bun", "bin", name]) =~= bun_bin_parts(os));
    r
}

/// Tako's Bun directory (`~/.tako/bun`), or `None` where the home directory
/// is not known.
pub fn tako_bun_dir() -> (r: Option<AppPath>)
    ensures
        r matches Some(p) ==> p@.parts == bun_dir_parts(),
{
    match home_dir() {
        Some(h) => Some(tako_bun_dir_under(h)),
        None => None,
    }
}

/// Tako's Bun executable (`~/.tako/bun/bin/bun`, `bun.exe` on Windows), or
/// `None` where the home directory is not known.
pub fn tako_bun_bin(os: Os) -> (r: Option<AppPath>)
    ensures
        r matches Some(p) ==> p@.parts == bun_bin_parts(os),
{
    match home_dir() {
        Some(h) => Some(tako_bun_bin_under(h, os)),
        None => None,
    }
}

/// Where the installation puts things, below the home directory.
pub struct BunLayout {
    /// `~/.tako/bun`, into which the archive is extracted.
    pub bun_dir: AppPath,
    /// `~/.tako/bun/bin`.
    pub bin_dir: AppPath,
    /// `~/.tako/bun/bun-download.zip`, the downloaded archive.
    pub zip: AppPath,
    /// `~/.tako/bun/bin/bun`, where the executable ends up.
    pub dest: AppPath,
    /// The executable's name, looked for inside each extracted directory.
    pub binary_name: String,
}

/// The layout of the installation below `home`.
pub fn bun_layout(home: PathBuf, os: Os) -> (r: BunLayout)
    ensures
        r.bun_dir@ == path_view(home, bun_dir_parts()),
        r.bin_dir@ == path_view(home, seq![".tako"@, "bun"@, "bin"@]),
        r.zip@ == path_view(home, seq![".tako"@, "bun"@, "bun-download.zip"@]),
        r.dest@ == path_view(home, bun_bin_parts(os)),
        r.binary_name@ == spec_bun_name(os),
{
    let name = bun_binary_name(os);
    let bun_dir = tako_bun_dir_under(clone_path(&home));
    let bin_dir = AppPath::new(clone_path(&home), &[".tako", "bun", "bin"]);
    assert(views(seq![".tako", "bun", "bin"]) =~= seq![".tako"@, "bun"@, "bin"@]);
    let zip = AppPath::new(clone_path(&home), &[".tako", "bun", "bun-download.zip"]);
    assert(views(seq![".tako", "bun", "bun-download.zip"]) =~= seq![
        ".tako"@,
        "bun"@,
        "bun-download.zip"@,
    ]);
    let dest = tako_bun_bin_under(home, os);
    BunLayout { bun_dir, bin_dir, zip, dest, binary_name: String::from_str(name) }
}

/// What the installation asks of the launcher next.
pub enum InstallCommand {
    /// Check whether the executable is already in place.
    CheckInstalled,
    /// Find out the user's region.
    DetectRegion,
    /// Create the `bin` directory (with its parents).
    CreateBinDir,
    /// Build the HTTP client (five-minute timeout).
    BuildClient,
    /// Request this address.
    Send(String),
    /// Read the whole response body.
    ReadBody,
    /// Write the body to the archive file.
    WriteZip,
    /// Extract the archive into the Bun directory.
    Extract,
    /// Open the Bun directory for listing.
    ReadDir,
    /// Read the next entry of the listing.
    NextEntry,
    /// Check whether the current entry holds the executable.
    CheckEntryBinary,
    /// Move the current entry's executable to its destination.
    MoveEntryBinary,
    /// Make the destination executable (mode 0o755).
    SetExecutable,
    /// Remove the current entry's directory; failure does not matter.
    RemoveEntryDir,
    /// Remove the archive file; failure does not matter.
    RemoveZip,
    /// The installation is over, with this result.
    Finish(Result<(), String>),
}

/// The view of a command.
pub enum CommandView {
    CheckInstalled,
    DetectRegion,
    CreateBinDir,
    BuildClient,
    Send(Seq<char>),
    ReadBody,
    WriteZip,
    Extract,
    ReadDir,
    NextEntry,
    CheckEntryBinary,
    MoveEntryBinary,
    SetExecutable,
    RemoveEntryDir,
    RemoveZip,
    Finish(Result<(), Seq<char>>),
}

impl View for InstallCommand {
    type V = CommandView;

    open spec fn view(&self) -> CommandView {
        match self {
            InstallCommand::CheckInstalled => CommandView::CheckInstalled,
            InstallCommand::DetectRegion => CommandView::DetectRegion,
            InstallCommand::CreateBinDir => CommandView::CreateBinDir,
            InstallCommand::BuildClient => CommandView::BuildClient,
            InstallCommand::Send(u) => CommandView::Send(u@),
            InstallCommand::ReadBody => CommandView::ReadBody,
            InstallCommand::WriteZip => CommandView::WriteZip,
            InstallCommand::Extract => CommandView::Extract,
            InstallCommand::ReadDir => CommandView::ReadDir,
            InstallCommand::NextEntry => CommandView::NextEntry,
            InstallCommand::CheckEntryBinary => CommandView::CheckEntryBinary,
            InstallCommand::MoveEntryBinary => CommandView::MoveEntryBinary,
            InstallCommand::SetExecutable => CommandView::SetExecutable,
            InstallCommand::RemoveEntryDir => CommandView::RemoveEntryDir,
            InstallCommand::RemoveZip => CommandView::RemoveZip,
            InstallCommand::Finish(Ok(())) => CommandView::Finish(Ok(())),
            InstallCommand::Finish(Err(e)) => CommandView::Finish(Err(e@)),
        }
    }
}

/// A command, with the event to show before it, if any.
pub struct InstallAction {
    pub progress: Option<SetupProgress>,
    pub command: InstallCommand,
}

/// The view of an action.
pub struct ActionView {
    pub progress: Option<ProgressView>,
    pub command: CommandView,
}

impl View for InstallAction {
    type V = ActionView;

    open spec fn view(&self) -> ActionView {
        ActionView { progress: opt_progress_view(self.progress), command: self.command@ }
    }
}

/// What the launcher found out about one entry of the Bun directory.
pub struct EntryFacts {
    pub name: String,
    pub is_dir: bool,
}

/// What came of the last command.
pub enum InstallOutcome {
    /// Whether the executable is already in place.
    Installed(bool),
    /// The user's region.
    Region(Region),
    /// The command succeeded, or failed with this message.
    Done(Result<(), String>),
    /// The request was answered; whether with success, and the status as
    /// text (such as `404 Not Found`).
    Status { success: bool, text: String },
    /// The extraction task itself failed, with this message.
    TaskFailed(String),
    /// The next entry of the listing, or `None` at its end.
    Entry(Option<EntryFacts>),
    /// Whether the current entry holds the executable.
    BinaryFound(bool),
}

/// The view of an outcome.
pub enum OutcomeView {
    Installed(bool),
    Region(Region),
    Done(Result<(), Seq<char>>),
    Status { success: bool, text: Seq<char> },
    TaskFailed(Seq<char>),
    Entry(Option<(Seq<char>, bool)>),
    BinaryFound(bool),
}

impl View for InstallOutcome {
    type V = OutcomeView;

    open spec fn view(&self) -> OutcomeView {
        match self {
            InstallOutcome::Installed(b) => OutcomeView::Installed(*b),
            InstallOutcome::Region(r) => OutcomeView::Region(*r),
            InstallOutcome::Done(Ok(())) => OutcomeView::Done(Ok(())),
            InstallOutcome::Done(Err(e)) => OutcomeView::Done(Err(e@)),
            InstallOutcome::Status { success, text } => OutcomeView::Status {
                success: *success,
                text: text@,
            },
            InstallOutcome::TaskFailed(e) => OutcomeView::TaskFailed(e@),
            InstallOutcome::Entry(Some(f)) => OutcomeView::Entry(Some((f.name@, f.is_dir))),
            InstallOutcome::Entry(None) => OutcomeView::Entry(None),
            InstallOutcome::BinaryFound(b) => OutcomeView::BinaryFound(*b),
        }
    }
}

/// Where the installation is.
#[derive(Debug, Clone, Copy, PartialEq, Eq, Structural)]
pub enum InstallStage {
    CheckingInstalled,
    DetectingRegion,
    CreatingDir,
    BuildingClient,
    Sending,
    ReadingBody,
    WritingZip,
    Extracting,
    ReadingDir,
    Scanning,
    CheckingEntry,
    Moving,
    SettingPermissions,
    RemovingEntry,
    /// Removing the archive; whether the executable was put in place.
    RemovingZip(bool),
    Finished,
}

/// The state of an installation: where it is, the region (once detected),
/// the platform and the Bun version to install.
pub struct BunInstall {
    stage: InstallStage,
    region: Region,
    platform: Platform,
    version: String,
}

/// The view of an installation's state.
pub struct InstallModel {
    pub stage: InstallStage,
    pub region: Region,
    pub platform: Platform,
    pub version: Seq<char>,
}

impl View for BunInstall {
    type V = InstallModel;

    closed spec fn view(&self) -> InstallModel {
        InstallModel {
            stage: self.stage,
            region: self.region,
            platform: self.platform,
            version: self.version@,
        }
    }
}

/// Whether an outcome is one that can follow the command of `stage`.
pub open spec fn spec_accepts(stage: InstallStage, o: OutcomeView) -> bool {
    match stage {
        InstallStage::CheckingInstalled => o is Installed,
        InstallStage::DetectingRegion => o is Region,
        InstallStage::Sending => o is Status || o matches OutcomeView::Done(Err(_)),
        InstallStage::Extracting => o is Done || o is TaskFailed,
        InstallStage::Scanning => o is Entry || o matches OutcomeView::Done(Err(_)),
        InstallStage::CheckingEntry => o is BinaryFound,
        InstallStage::Finished => false,
        _ => o is Done,
    }
}

/// An action without an event.
pub open spec fn plain(c: CommandView) -> ActionView {
    ActionView { progress: None, command: c }
}

/// An action after a `bun`/`running` event with this message.
pub open spec fn reported(message: Seq<char>, c: CommandView) -> ActionView {
    ActionView { progress: Some(progress("bun"@, "running"@, message)), command: c }
}

/// Ending the installation with the error `prefix` followed by `detail`.
pub open spec fn failure(prefix: Seq<char>, detail: Seq<char>) -> ActionView {
    plain(CommandView::Finish(Err(prefix + detail)))
}

/// The same state, at another stage.
pub open spec fn at(m: InstallModel, stage: InstallStage) -> InstallModel {
    InstallModel { stage, ..m }
}

/// Whether a directory entry is one that Bun's archive extracts to: a
/// directory whose name begins with `bun-`.
pub open spec fn spec_is_bun_dir(name: Seq<char>, is_dir: bool) -> bool {
    &&& name.len() >= 4
    &&& name.take(4) == "bun-"@
    &&& is_dir
}

/// The message when no executable was found in the archive.
pub open spec fn spec_not_found_message() -> Seq<char> {
    "Bun binary not found in downloaded archive"@
}

/// One step of the installation: the state and the action that follow an
/// outcome.
pub open spec fn install_next(m: InstallModel, o: OutcomeView) -> (InstallModel, ActionView) {
    match (m.stage, o) {
        (InstallStage::CheckingInstalled, OutcomeView::Installed(true)) => (
            at(m, InstallStage::Finished),
            plain(CommandView::Finish(Ok(()))),
        ),
        (InstallStage::CheckingInstalled, _) => (
            at(m, InstallStage::DetectingRegion),
            reported("Detecting region..."@, CommandView::DetectRegion),
        ),
        (InstallStage::DetectingRegion, OutcomeView::Region(r)) => (
            InstallModel { stage: InstallStage::CreatingDir, region: r, ..m },
            reported(
                "Downloading Bun runtime via "@ + spec_mirror_label(r) + "..."@,
                CommandView::CreateBinDir,
            ),
        ),
        (InstallStage::CreatingDir, OutcomeView::Done(Err(e))) => (
            at(m, InstallStage::Finished),
            failure("Failed to create bun directory: "@, e),
        ),
        (InstallStage::CreatingDir, _) => (
            at(m, InstallStage::BuildingClient),
            plain(CommandView::BuildClient),
        ),
        (InstallStage::BuildingClient, OutcomeView::Done(Err(e))) => (
            at(m, InstallStage::Finished),
            failure("HTTP client error: "@, e),
        ),
        (InstallStage::BuildingClient, _) => (
            at(m, InstallStage::Sending),
            plain(CommandView::Send(spec_bun_download_url(m.region, m.version, m.platform))),
        ),
        (InstallStage::Sending, OutcomeView::Status { success: true, text: _ }) => (
            at(m, InstallStage::ReadingBody),
            plain(CommandView::ReadBody),
        ),
        (InstallStage::Sending, OutcomeView::Status { success: false, text: t }) => (
            at(m, InstallStage::Finished),
            failure("Download failed with status: "@, t),
        ),
        (InstallStage::Sending, OutcomeView::Done(Err(e))) => (
            at(m, InstallStage::Finished),
            failure("Download failed: "@, e),
        ),
        (InstallStage::ReadingBody, OutcomeView::Done(Err(e))) => (
            at(m, InstallStage::Finished),
            failure("Failed to read response: "@, e),
        ),
        (InstallStage::ReadingBody, _) => (
            at(m, InstallStage::WritingZip),
            reported("Extracting Bun runtime..."@, CommandView::WriteZip),
        ),
        (InstallStage::WritingZip, OutcomeView::Done(Err(e))) => (
            at(m, InstallStage::Finished),
            failure("Failed to write zip: "@, e),
        ),
        (InstallStage::WritingZip, _) => (at(m, InstallStage::Extracting), plain(CommandView::Extract)),
        (InstallStage::Extracting, OutcomeView::TaskFailed(e)) => (
            at(m, InstallStage::Finished),
            failure("Extract task failed: "@, e),
        ),
        (InstallStage::Extracting, OutcomeView::Done(Err(e))) => (
            at(m, InstallStage::Finished),
            failure("Extraction failed: "@, e),
        ),
        (InstallStage::Extracting, _) => (at(m, InstallStage::ReadingDir), plain(CommandView::ReadDir)),
        (InstallStage::ReadingDir, OutcomeView::Done(Err(e))) => (
            at(m, InstallStage::Finished),
            failure("Failed to read dir: "@, e),
        ),
        (InstallStage::ReadingDir, _) => (at(m, InstallStage::Scanning), plain(CommandView::NextEntry)),
        (InstallStage::Scanning, OutcomeView::Done(Err(e))) => (
            at(m, InstallStage::Finished),
            failure("Failed to read entry: "@, e),
        ),
        (InstallStage::Scanning, OutcomeView::Entry(Some((name, is_dir)))) => if spec_is_bun_dir(
            name,
            is_dir,
        ) {
            (at(m, InstallStage::CheckingEntry), plain(CommandView::CheckEntryBinary))
        } else {
            (at(m, InstallStage::Scanning), plain(CommandView::NextEntry))
        },
        (InstallStage::Scanning, _) => (
            at(m, InstallStage::RemovingZip(false)),
            plain(CommandView::RemoveZip),
        ),
        (InstallStage::CheckingEntry, OutcomeView::BinaryFound(true)) => (
            at(m, InstallStage::Moving),
            plain(CommandView::MoveEntryBinary),
        ),
        (InstallStage::CheckingEntry, _) => (at(m, InstallStage::Scanning), plain(CommandView::NextEntry)),
        (InstallStage::Moving, OutcomeView::Done(Err(e))) => (
            at(m, InstallStage::Finished),
            failure("Failed to move bun binary: "@, e),
        ),
        (InstallStage::Moving, _) => if m.platform.os == Os::Windows {
            (at(m, InstallStage::RemovingEntry), plain(CommandView::RemoveEntryDir))
        } else {
            (at(m, InstallStage::SettingPermissions), plain(CommandView::SetExecutable))
        },
        (InstallStage::SettingPermissions, OutcomeView::Done(Err(e))) => (
            at(m, InstallStage::Finished),
            failure("Failed to set permissions: "@, e),
        ),
        (InstallStage::SettingPermissions, _) => (
            at(m, InstallStage::RemovingEntry),
            plain(CommandView::RemoveEntryDir),
        ),
        (InstallStage::RemovingEntry, _) => (
            at(m, InstallStage::RemovingZip(true)),
            plain(CommandView::RemoveZip),
        ),
        (InstallStage::RemovingZip(found), _) => (
            at(m, InstallStage::Finished),
            plain(
                CommandView::Finish(
                    if found {
                        Ok(())
                    } else {
                        Err(spec_not_found_message())
                    },
                ),
            ),
        ),
        // Outcomes that cannot follow the stage's command (see `spec_accepts`).
        _ => (m, plain(CommandView::CheckInstalled)),
    }
}

fn plain_action(command: InstallCommand) -> (r: InstallAction)
    ensures
        r@ == plain(command@),
{
    InstallAction { progress: None, command }
}

fn reported_action(message: &str, command: InstallCommand) -> (r: InstallAction)
    ensures
        r@ == reported(message@, command@),
{
    InstallAction { progress: Some(SetupProgress::new("bun", "running", message)), command }
}

fn failure_action(prefix: &str, detail: &String) -> (r: InstallAction)
    ensures
        r@ == failure(prefix@, detail@),
{
    let message = String::from_str(prefix).concat(detail.as_str());
    InstallAction { progress: None, command: InstallCommand::Finish(Err(message)) }
}

impl BunInstall {
    /// Begins installing Bun `version` for `platform`: first, whether it is
    /// already in place is checked.
    pub fn start(platform: Platform, version: &str) -> (r: (BunInstall, InstallAction))
        ensures
            r.0@ == (InstallModel {
                stage: InstallStage::CheckingInstalled,
                region: r.0@.region,
                platform,
                version: version@,
            }),
            r.1@ == plain(CommandView::CheckInstalled),
    {
        (
            BunInstall {
                stage: InstallStage::CheckingInstalled,
                region: Region::Cn,
                platform,
                version: String::from_str(version),
            },
            plain_action(InstallCommand::CheckInstalled),
        )
    }

    /// Whether `outcome` can follow the command last asked for.
    pub fn accepts(&self, outcome: &InstallOutcome) -> (r: bool)
        ensures
            r == spec_accepts(self@.stage, outcome@),
    {
        match (self.stage, outcome) {
            (InstallStage::CheckingInstalled, InstallOutcome::Installed(_)) => true,
            (InstallStage::DetectingRegion, InstallOutcome::Region(_)) => true,
            (InstallStage::Sending, InstallOutcome::Status { .. }) => true,
            (InstallStage::Sending, InstallOutcome::Done(Err(_))) => true,
            (InstallStage::Extracting, InstallOutcome::Done(_)) => true,
            (InstallStage::Extracting, InstallOutcome::TaskFailed(_)) => true,
            (InstallStage::Scanning, InstallOutcome::Entry(_)) => true,
            (InstallStage::Scanning, InstallOutcome::Done(Err(_))) => true,
            (InstallStage::CheckingEntry, InstallOutcome::BinaryFound(_)) => true,
            (InstallStage::Finished, _) => false,
            (InstallStage::CheckingInstalled, _) => false,
            (InstallStage::DetectingRegion, _) => false,
            (InstallStage::Sending, _) => false,
            (InstallStage::Extracting, _) => false,
            (InstallStage::Scanning, _) => false,
            (InstallStage::CheckingEntry, _) => false,
            (_, InstallOutcome::Done(_)) => true,
            (_, _) => false,
        }
    }

    /// Takes the outcome of the command last asked for, and says what comes
    /// next.
    pub fn step(&mut self, outcome: InstallOutcome) -> (r: InstallAction)
        requires
            spec_accepts(old(self)@.stage, outcome@),
        ensures
            (final(self)@, r@) == install_next(old(self)@, outcome@),
    {
        match self.stage {
            InstallStage::CheckingInstalled => {
                match outcome {
                    InstallOutcome::Installed(true) => {
                        self.stage = InstallStage::Finished;
                        plain_action(InstallCommand::Finish(Ok(())))
                    },
                    _ => {
                        self.stage = InstallStage::DetectingRegion;
                        reported_action("Detecting region...", InstallCommand::DetectRegion)
                    },
                }
            },
            InstallStage::DetectingRegion => {
                match outcome {
                    InstallOutcome::Region(r) => {
                        self.stage = InstallStage::CreatingDir;
                        self.region = r;
                        let message = String::from_str("Downloading Bun runtime via ").concat(
                            mirror_label(r),
                        ).concat("...");
                        reported_action(message.as_str(), InstallCommand::CreateBinDir)
                    },
                    _ => {
                        assert(false);
                        plain_action(InstallCommand::CheckInstalled)
                    },
                }
            },
            InstallStage::CreatingDir => {
                match outcome {
                    InstallOutcome::Done(Err(e)) => {
                        self.stage = InstallStage::Finished;
                        failure_action("Failed to create bun directory: ", &e)
                    },
                    _ => {
                        self.stage = InstallStage::BuildingClient;
                        plain_action(InstallCommand::BuildClient)
                    },
                }
            },
            InstallStage::BuildingClient => {
                match outcome {
                    InstallOutcome::Done(Err(e)) => {
                        self.stage = InstallStage::Finished;
                        failure_action("HTTP client error: ", &e)
                    },
                    _ => {
                        self.stage = InstallStage::Sending;
                        let url = get_bun_download_url(
                            self.region,
                            self.version.as_str(),
                            self.platform,
                        );
                        plain_action(InstallCommand::Send(url))
                    },
                }
            },
            InstallStage::Sending => {
                match outcome {
                    InstallOutcome::Status { success, text } => {
                        if success {
                            self.stage = InstallStage::ReadingBody;
                            plain_action(InstallCommand::ReadBody)
                        } else {
                            self.stage = InstallStage::Finished;
                            failure_action("Download failed with status: ", &text)
                        }
                    },
                    InstallOutcome::Done(Err(e)) => {
                        self.stage = InstallStage::Finished;
                        failure_action("Download failed: ", &e)
                    },
                    _ => {
                        assert(false);
                        plain_action(InstallCommand::CheckInstalled)
                    },
                }
            },
            InstallStage::ReadingBody => {
                match outcome {
                    InstallOutcome::Done(Err(e)) => {
                        self.stage = InstallStage::Finished;
                        failure_action("Failed to read response: ", &e)
                    },
                    _ => {
                        self.stage = InstallStage::WritingZip;
                        reported_action("Extracting Bun runtime...", InstallCommand::WriteZip)
                    },
                }
            },
            InstallStage::WritingZip => {
                match outcome {
                    InstallOutcome::Done(Err(e)) => {
                        self.stage = InstallStage::Finished;
                        failure_action("Failed to write zip: ", &e)
                    },
                    _ => {
                        self.stage = InstallStage::Extracting;
                        plain_action(InstallCommand::Extract)
                    },
                }
            },
            InstallStage::Extracting => {
                match outcome {
                    InstallOutcome::TaskFailed(e) => {
                        self.stage = InstallStage::Finished;
                        failure_action("Extract task failed: ", &e)
                    },
                    InstallOutcome::Done(Err(e)) => {
                        self.stage = InstallStage::Finished;
                        failure_action("Extraction failed: ", &e)
                    },
                    _ => {
                        self.stage = InstallStage::ReadingDir;
                        plain_action(InstallCommand::ReadDir)
                    },
                }
            },
            InstallStage::ReadingDir => {
                match outcome {
                    InstallOutcome::Done(Err(e)) => {
                        self.stage = InstallStage::Finished;
                        failure_action("Failed to read dir: ", &e)
                    },
                    _ => {
                        self.stage = InstallStage::Scanning;
                        plain_action(InstallCommand::NextEntry)
                    },
                }
            },
            InstallStage::Scanning => {
                match outcome {
                    InstallOutcome::Done(Err(e)) => {
                        self.stage = InstallStage::Finished;
                        failure_action("Failed to read entry: ", &e)
                    },
                    InstallOutcome::Entry(Some(f)) => {
                        let is_bun = starts_with(f.name.as_str(), "bun-") && f.is_dir;
                        proof {
                            reveal_strlit("bun-");
                        }
                        if is_bun {
                            self.stage = InstallStage::CheckingEntry;
                            plain_action(InstallCommand::CheckEntryBinary)
                        } else {
                            plain_action(InstallCommand::NextEntry)
                        }
                    },
                    _ => {
                        self.stage = InstallStage::RemovingZip(false);
                        plain_action(InstallCommand::RemoveZip)
                    },
                }
            },
            InstallStage::CheckingEntry => {
                match outcome {
                    InstallOutcome::BinaryFound(true) => {
                        self.stage = InstallStage::Moving;
                        plain_action(InstallCommand::MoveEntryBinary)
                    },
                    _ => {
                        self.stage = InstallStage::Scanning;
                        plain_action(InstallCommand::NextEntry)
                    },
                }
            },
            InstallStage::Moving => {
                match outcome {
                    InstallOutcome::Done(Err(e)) => {
                        self.stage = InstallStage::Finished;
                        failure_action("Failed to move bun binary: ", &e)
                    },
                    _ => {
                        match self.platform.os {
                            Os::Windows => {
                                self.stage = InstallStage::RemovingEntry;
                                plain_action(InstallCommand::RemoveEntryDir)
                            },
                            _ => {
                                self.stage = InstallStage::SettingPermissions;
                                plain_action(InstallCommand::SetExecutable)
                            },
                        }
                    },
                }
            },
            InstallStage::SettingPermissions => {
                match outcome {
                    InstallOutcome::Done(Err(e)) => {
                        self.stage = InstallStage::Finished;
                        failure_action("Failed to set permissions: ", &e)
                    },
                    _ => {
                        self.stage = InstallStage::RemovingEntry;
                        plain_action(InstallCommand::RemoveEntryDir)
                    },
                }
            },
            InstallStage::RemovingEntry => {
                self.stage = InstallStage::RemovingZip(true);
                plain_action(InstallCommand::RemoveZip)
            },
            InstallStage::RemovingZip(found) => {
                self.stage = InstallStage::Finished;
                if found {
                    plain_action(InstallCommand::Finish(Ok(())))
                } else {
                    plain_action(
                        InstallCommand::Finish(
                            Err(String::from_str("Bun binary not found in downloaded archive")),
                        ),
                    )
                }
            },
            InstallStage::Finished => {
                plain_action(InstallCommand::CheckInstalled)
            },
        }
    }
}

/// The installation reports success only where Bun was already in place,
/// or once the executable has been moved into place and the extracted
/// directory cleared away; and it reaches that point only by way of a
/// successful move (and, off Windows, a successful change of permissions).
pub proof fn lemma_success_only_with_binary_in_place(m: InstallModel, o: OutcomeView)
    requires
        spec_accepts(m.stage, o),
    ensures
        install_next(m, o).1.command == CommandView::Finish(Ok(())) ==> (m.stage
            == InstallStage::CheckingInstalled && o == OutcomeView::Installed(true)) || m.stage
            == InstallStage::RemovingZip(true),
        install_next(m, o).0.stage == InstallStage::RemovingZip(true) ==> m.stage
            == InstallStage::RemovingEntry,
        install_next(m, o).0.stage == InstallStage::RemovingEntry ==> (o matches OutcomeView::Done(
            Ok(_),
        )) && ((m.stage == InstallStage::Moving && m.platform.os == Os::Windows) || m.stage
            == InstallStage::SettingPermissions),
{
}

/// A failure of any step that matters ends the installation with an error
/// whose message ends with the failure's own message.
pub proof fn lemma_failures_end_installation(m: InstallModel, o: OutcomeView, detail: Seq<char>)
    requires
        spec_accepts(m.stage, o),
        o == OutcomeView::Done(Err(detail)) || o == OutcomeView::TaskFailed(detail) || o
            == (OutcomeView::Status { success: false, text: detail }),
        m.stage != InstallStage::RemovingEntry,
        !(m.stage is RemovingZip),
    ensures
        install_next(m, o).0.stage == InstallStage::Finished,
        install_next(m, o).1.command matches CommandView::Finish(Err(msg)) && msg.len()
            >= detail.len() && msg.subrange(msg.len() - detail.len(), msg.len() as int) == detail,
{
    let msg = match install_next(m, o).1.command {
        CommandView::Finish(Err(msg)) => msg,
        _ => Seq::<char>::empty(),
    };
    assert(msg.subrange(msg.len() - detail.len(), msg.len() as int) =~= detail);
}

/// The state reached, and the actions asked for, when `outcomes` are fed
/// one after another to an installation in state `m`.
pub open spec fn run_install(m: InstallModel, outcomes: Seq<OutcomeView>) -> (InstallModel, Seq<
    ActionView,
>)
    decreases outcomes.len(),
{
    if outcomes.len() == 0 {
        (m, Seq::<ActionView>::empty())
    } else {
        let first = install_next(m, outcomes[0]);
        let rest = run_install(first.0, outcomes.drop_first());
        (rest.0, seq![first.1] + rest.1)
    }
}

/// Every outcome of the run fits the command it answers.
pub open spec fn accepted_run(m: InstallModel, outcomes: Seq<OutcomeView>) -> bool
    decreases outcomes.len(),
{
    outcomes.len() == 0 || (spec_accepts(m.stage, outcomes[0]) && accepted_run(
        install_next(m, outcomes[0]).0,
        outcomes.drop_first(),
    ))
}

/// The commands of a list of actions.
pub open spec fn commands(actions: Seq<ActionView>) -> Seq<CommandView> {
    actions.map_values(|a: ActionView| a.command)
}

/// The outcomes of an installation where nothing goes wrong: Bun is
/// missing, the region is `r`, the download answers with `status`, and the
/// first entry of the extracted directory is the directory `entry`, which
/// holds the executable.
pub open spec fn fresh_install_outcomes(r: Region, status: Seq<char>, entry: Seq<char>, os: Os) -> Seq<
    OutcomeView,
> {
    let ok = OutcomeView::Done(Ok(()));
    let head = seq![
        OutcomeView::Installed(false),
        OutcomeView::Region(r),
        ok,
        ok,
        OutcomeView::Status { success: true, text: status },
        ok,
        ok,
        ok,
        ok,
        OutcomeView::Entry(Some((entry, true))),
        OutcomeView::BinaryFound(true),
        ok,
    ];
    if os == Os::Windows {
        head + seq![ok, ok]
    } else {
        head + seq![ok, ok, ok]
    }
}

/// What such an installation does: detect the region, create the `bin`
/// directory, download from `url`, write and extract the archive, find the
/// executable in the extracted directory, move it into place, make it
/// executable (off Windows), clear away the extracted directory and the
/// archive, and report success.
pub open spec fn fresh_install_commands(url: Seq<char>, os: Os) -> Seq<CommandView> {
    let head = seq![
        CommandView::DetectRegion,
        CommandView::CreateBinDir,
        CommandView::BuildClient,
        CommandView::Send(url),
        CommandView::ReadBody,
        CommandView::WriteZip,
        CommandView::Extract,
        CommandView::ReadDir,
        CommandView::NextEntry,
        CommandView::CheckEntryBinary,
        CommandView::MoveEntryBinary,
    ];
    if os == Os::Windows {
        head + seq![CommandView::RemoveEntryDir, CommandView::RemoveZip, CommandView::Finish(Ok(()))]
    } else {
        head + seq![
            CommandView::SetExecutable,
            CommandView::RemoveEntryDir,
            CommandView::RemoveZip,
            CommandView::Finish(Ok(())),
        ]
    }
}

/// A whole installation where nothing goes wrong runs through exactly
/// these steps, downloads Bun for the detected region, the version and the
/// platform, and ends in success.
#[verifier::rlimit(100)]
pub proof fn lemma_fresh_installation(m: InstallModel, r: Region, status: Seq<char>, entry: Seq<char>)
    requires
        m.stage == InstallStage::CheckingInstalled,
        spec_is_bun_dir(entry, true),
    ensures
        accepted_run(m, fresh_install_outcomes(r, status, entry, m.platform.os)),
        run_install(m, fresh_install_outcomes(r, status, entry, m.platform.os)).0.stage
            == InstallStage::Finished,
        commands(run_install(m, fresh_install_outcomes(r, status, entry, m.platform.os)).1)
            == fresh_install_commands(
            spec_bun_download_url(r, m.version, m.platform),
            m.platform.os,
        ),
{
    let o = fresh_install_outcomes(r, status, entry, m.platform.os);
    reveal_with_fuel(run_install, 16);
    reveal_with_fuel(accepted_run, 16);
    let run = run_install(m, o);
    assert(commands(run.1) =~= fresh_install_commands(
        spec_bun_download_url(r, m.version, m.platform),
        m.platform.os,
    ));
}

/// Whether a directory entry is one the scan passes over: anything but a
/// directory whose name begins with `bun-`.
pub open spec fn passed_over(o: OutcomeView) -> bool {
    o matches OutcomeView::Entry(Some((name, is_dir))) && !(is_dir && name.len() >= 4
        && name.subrange(0, 4) == "bun-"@)
}

/// While the extracted directory is scanned, an entry other than a `bun-`
/// directory is passed over: the scan asks for the next entry and nothing
/// else changes; a `bun-` directory is checked for the executable; and the
/// scan gives up (removing the archive, with nothing found) only at the end
/// of the listing.
pub proof fn lemma_scan_passes_over_other_entries(m: InstallModel, o: OutcomeView)
    requires
        m.stage == InstallStage::Scanning,
        spec_accepts(m.stage, o),
    ensures
        passed_over(o) ==> install_next(m, o) == (m, plain(CommandView::NextEntry)),
        (o matches OutcomeView::Entry(Some((name, is_dir))) && !passed_over(o))
            ==> install_next(m, o) == (at(m, InstallStage::CheckingEntry), plain(
            CommandView::CheckEntryBinary,
        )),
        install_next(m, o).0.stage == InstallStage::RemovingZip(false) <==> o
            == OutcomeView::Entry(None),
{
    if let OutcomeView::Entry(Some((name, is_dir))) = o {
        assert(name.len() >= 4 ==> name.subrange(0, 4) =~= name.take(4));
    }
}

/// The state and actions of a run are those of its first part followed by
/// those of the rest.
proof fn lemma_run_concat(m: InstallModel, a: Seq<OutcomeView>, b: Seq<OutcomeView>)
    ensures
        run_install(m, a + b) == ({
            let first = run_install(m, a);
            let second = run_install(first.0, b);
            (second.0, first.1 + second.1)
        }),
        accepted_run(m, a + b) <==> accepted_run(m, a) && accepted_run(run_install(m, a).0, b),
    decreases a.len(),
{
    if a.len() == 0 {
        assert(a + b =~= b);
        assert(Seq::<ActionView>::empty() + run_install(m, b).1 =~= run_install(m, b).1);
    } else {
        let step = install_next(m, a[0]);
        assert((a + b).drop_first() =~= a.drop_first() + b);
        assert((a + b)[0] == a[0]);
        lemma_run_concat(step.0, a.drop_first(), b);
        let r1 = run_install(step.0, a.drop_first());
        let r2 = run_install(r1.0, b);
        assert(seq![step.1] + (r1.1 + r2.1) =~= (seq![step.1] + r1.1) + r2.1);
    }
}

/// Passing over entries leaves the scan where it was, asking for the next
/// entry each time.
proof fn lemma_skipping(m: InstallModel, skipped: Seq<OutcomeView>)
    requires
        m.stage == InstallStage::Scanning,
        forall|j: int| 0 <= j < skipped.len() ==> passed_over(#[trigger] skipped[j]),
    ensures
        accepted_run(m, skipped),
        run_install(m, skipped).0 == m,
        commands(run_install(m, skipped).1) == Seq::new(
            skipped.len(),
            |j: int| CommandView::NextEntry,
        ),
    decreases skipped.len(),
{
    if skipped.len() > 0 {
        lemma_scan_passes_over_other_entries(m, skipped[0]);
        let rest = skipped.drop_first();
        assert forall|j: int| 0 <= j < rest.len() implies passed_over(#[trigger] rest[j]) by {
            assert(rest[j] == skipped[j + 1]);
        }
        lemma_skipping(m, rest);
        let acts = run_install(m, skipped).1;
        let later = run_install(m, rest).1;
        assert(acts == seq![plain(CommandView::NextEntry)] + later);
        assert(commands(later).len() == rest.len());
        assert forall|j: int| 0 <= j < acts.len() implies #[trigger] acts[j].command
            == CommandView::NextEntry by {
            if j > 0 {
                assert(acts[j] == later[j - 1]);
                assert(commands(later)[j - 1] == CommandView::NextEntry);
            }
        }
        assert(commands(acts) =~= Seq::new(skipped.len(), |j: int| CommandView::NextEntry));
    } else {
        assert(commands(run_install(m, skipped).1) =~= Seq::new(
            skipped.len(),
            |j: int| CommandView::NextEntry,
        ));
    }
}

/// The outcomes once the `bun-` directory `entry` is reached and holds the
/// executable, and everything after goes well.
pub open spec fn found_outcomes(entry: Seq<char>, os: Os) -> Seq<OutcomeView> {
    let ok = OutcomeView::Done(Ok(()));
    let head = seq![OutcomeView::Entry(Some((entry, true))), OutcomeView::BinaryFound(true), ok];
    if os == Os::Windows {
        head + seq![ok, ok]
    } else {
        head + seq![ok, ok, ok]
    }
}

/// From the scan, the `bun-` directory with the executable leads to
/// success when everything after goes well.
proof fn lemma_found_run(m: InstallModel, entry: Seq<char>)
    requires
        m.stage == InstallStage::Scanning,
        entry.len() >= 4,
        entry.subrange(0, 4) == "bun-"@,
    ensures
        ({
            let run = run_install(m, found_outcomes(entry, m.platform.os));
            &&& accepted_run(m, found_outcomes(entry, m.platform.os))
            &&& run.0.stage == InstallStage::Finished
            &&& run.1.len() > 0
            &&& run.1.last().command == CommandView::Finish(Ok(()))
        }),
{
    assert(entry.subrange(0, 4) =~= entry.take(4));
    reveal_with_fuel(run_install, 7);
    reveal_with_fuel(accepted_run, 7);
}

/// However many other entries (files, the `bin` directory the installer
/// made, directories not named `bun-...`) the listing holds before the
/// `bun-` directory with the executable, the scan passes over them and the
/// installation ends in success.
pub proof fn lemma_other_entries_do_not_stop_the_scan(
    m: InstallModel,
    skipped: Seq<OutcomeView>,
    entry: Seq<char>,
)
    requires
        m.stage == InstallStage::Scanning,
        forall|j: int| 0 <= j < skipped.len() ==> passed_over(#[trigger] skipped[j]),
        entry.len() >= 4,
        entry.subrange(0, 4) == "bun-"@,
    ensures
        ({
            let o = skipped + found_outcomes(entry, m.platform.os);
            let run = run_install(m, o);
            &&& accepted_run(m, o)
            &&& run.0.stage == InstallStage::Finished
            &&& run.1.last().command == CommandView::Finish(Ok(()))
        }),
{
    let tail = found_outcomes(entry, m.platform.os);
    lemma_skipping(m, skipped);
    lemma_run_concat(m, skipped, tail);
    lemma_found_run(m, entry);
    let first = run_install(m, skipped).1;
    let second = run_install(m, tail).1;
    assert((first + second).last() == second.last());
}

/// The stages that come after the executable was found in an extracted
/// directory.
pub open spec fn after_binary_found(s: InstallStage) -> bool {
    ||| s == InstallStage::Moving
    ||| s == InstallStage::SettingPermissions
    ||| s == InstallStage::RemovingEntry
    ||| s == InstallStage::RemovingZip(true)
}

/// A run reports success only where the first outcome said Bun was already
/// in place, or where the run was past finding the executable already, or
/// where it found the executable in an extracted directory on the way.
pub proof fn lemma_run_succeeds_only_with_binary(m: InstallModel, o: Seq<OutcomeView>)
    requires
        accepted_run(m, o),
    ensures
        ({
            let acts = run_install(m, o).1;
            acts.len() > 0 && acts.last().command == CommandView::Finish(Ok(()))
        }) ==> (m.stage == InstallStage::CheckingInstalled && o[0] == OutcomeView::Installed(true))
            || after_binary_found(m.stage) || o.contains(OutcomeView::BinaryFound(true)),
    decreases o.len(),
{
    if o.len() > 0 {
        let first = install_next(m, o[0]);
        let rest = o.drop_first();
        lemma_success_only_with_binary_in_place(m, o[0]);
        lemma_run_succeeds_only_with_binary(first.0, rest);
        assert(run_install(m, o).1 == seq![first.1] + run_install(first.0, rest).1);
        if rest.contains(OutcomeView::BinaryFound(true)) {
            let k = choose|k: int| 0 <= k < rest.len() && rest[k] == OutcomeView::BinaryFound(true);
            assert(o[k + 1] == OutcomeView::BinaryFound(true));
        }
        if m.stage == InstallStage::CheckingEntry && o[0] == OutcomeView::BinaryFound(true) {
            assert(o[0] == OutcomeView::BinaryFound(true));
        }
    }
}

/// Starting from the check, an installation ends in success only where Bun
/// was already in place or an extracted directory held the executable.
pub proof fn lemma_installation_succeeds_only_with_binary(m: InstallModel, o: Seq<OutcomeView>)
    requires
        m.stage == InstallStage::CheckingInstalled,
        accepted_run(m, o),
        run_install(m, o).1.len() > 0,
        run_install(m, o).1.last().command == CommandView::Finish(Ok(())),
    ensures
        o[0] == OutcomeView::Installed(true) || o.contains(OutcomeView::BinaryFound(true)),
{
    lemma_run_succeeds_only_with_binary(m, o);
}

} // verus!
