use std::path::PathBuf;
use tako_desktop::bun_manager::{
    bun_binary_name, bun_layout, tako_bun_bin_under, tako_bun_dir_under, BunInstall, EntryFacts,
    InstallCommand, InstallOutcome,
};
use tako_desktop::region::{Arch, Os, Platform, Region};
use InstallOutcome::{BinaryFound, Done, Entry, Installed, Status, TaskFailed};

fn mac() -> Platform {
    Platform { os: Os::MacOs, arch: Arch::Aarch64 }
}

fn finish(cmd: &InstallCommand) -> Option<Result<(), String>> {
    match cmd {
        InstallCommand::Finish(r) => Some(r.clone()),
        _ => None,
    }
}

#[test]
fn bun_paths() {
    assert_eq!(bun_binary_name(Os::Windows), "bun.exe");
    assert_eq!(bun_binary_name(Os::Linux), "bun");
    let d = tako_bun_dir_under(PathBuf::from("/home/u"));
    assert_eq!(d.base, PathBuf::from("/home/u"));
    assert_eq!(d.parts, vec![".tako", "bun"]);
    let b = tako_bun_bin_under(PathBuf::from("/home/u"), Os::Windows);
    assert_eq!(b.parts, vec![".tako", "bun", "bin", "bun.exe"]);
}

#[test]
fn layout_below_home() {
    let l = bun_layout(PathBuf::from("/home/u"), Os::MacOs);
    assert_eq!(l.bun_dir.base, PathBuf::from("/home/u"));
    assert_eq!(l.bin_dir.base, PathBuf::from("/home/u"));
    assert_eq!(l.zip.base, PathBuf::from("/home/u"));
    assert_eq!(l.dest.base, PathBuf::from("/home/u"));
    assert_eq!(l.bin_dir.parts, vec![".tako", "bun", "bin"]);
    assert_eq!(l.zip.parts, vec![".tako", "bun", "bun-download.zip"]);
    assert_eq!(l.dest.parts, vec![".tako", "bun", "bin", "bun"]);
    assert_eq!(l.binary_name, "bun");
}

#[test]
fn installed_bun_is_left_alone() {
    let (mut m, first) = BunInstall::start(mac(), "1.2.5");
    assert!(matches!(first.command, InstallCommand::CheckInstalled));
    let a = m.step(InstallOutcome::Installed(true));
    assert_eq!(finish(&a.command), Some(Ok(())));
    assert!(a.progress.is_none());
}

#[test]
fn full_installation_run() {
    let (mut m, _) = BunInstall::start(mac(), "1.2.5");
    let a = m.step(InstallOutcome::Installed(false));
    assert!(matches!(a.command, InstallCommand::DetectRegion));
    assert_eq!(a.progress.unwrap().message, "Detecting region...");
    let a = m.step(InstallOutcome::Region(Region::Global));
    assert!(matches!(a.command, InstallCommand::CreateBinDir));
    assert_eq!(a.progress.unwrap().message, "Downloading Bun runtime via Global (github.com)...");
    let a = m.step(InstallOutcome::Done(Ok(())));
    assert!(matches!(a.command, InstallCommand::BuildClient));
    let a = m.step(InstallOutcome::Done(Ok(())));
    match a.command {
        InstallCommand::Send(url) => assert_eq!(
            url,
            "https://github.com/oven-sh/bun/releases/download/bun-v1.2.5/bun-darwin-aarch64.zip"
        ),
        _ => panic!("expected send"),
    }
    let a = m.step(InstallOutcome::Status { success: true, text: "200 OK".into() });
    assert!(matches!(a.command, InstallCommand::ReadBody));
    let a = m.step(InstallOutcome::Done(Ok(())));
    assert!(matches!(a.command, InstallCommand::WriteZip));
    assert_eq!(a.progress.unwrap().message, "Extracting Bun runtime...");
    let a = m.step(InstallOutcome::Done(Ok(())));
    assert!(matches!(a.command, InstallCommand::Extract));
    let a = m.step(InstallOutcome::Done(Ok(())));
    assert!(matches!(a.command, InstallCommand::ReadDir));
    let a = m.step(InstallOutcome::Done(Ok(())));
    assert!(matches!(a.command, InstallCommand::NextEntry));
    // a file whose name starts with bun- is skipped
    let a = m.step(InstallOutcome::Entry(Some(EntryFacts { name: "bun-download.zip".into(), is_dir: false })));
    assert!(matches!(a.command, InstallCommand::NextEntry));
    // a directory without the executable is skipped
    let a = m.step(InstallOutcome::Entry(Some(EntryFacts { name: "bun-old".into(), is_dir: true })));
    assert!(matches!(a.command, InstallCommand::CheckEntryBinary));
    let a = m.step(InstallOutcome::BinaryFound(false));
    assert!(matches!(a.command, InstallCommand::NextEntry));
    let a = m.step(InstallOutcome::Entry(Some(EntryFacts { name: "bun-darwin-aarch64".into(), is_dir: true })));
    assert!(matches!(a.command, InstallCommand::CheckEntryBinary));
    let a = m.step(InstallOutcome::BinaryFound(true));
    assert!(matches!(a.command, InstallCommand::MoveEntryBinary));
    let a = m.step(InstallOutcome::Done(Ok(())));
    assert!(matches!(a.command, InstallCommand::SetExecutable));
    let a = m.step(InstallOutcome::Done(Ok(())));
    assert!(matches!(a.command, InstallCommand::RemoveEntryDir));
    let a = m.step(InstallOutcome::Done(Err("busy".into())));
    assert!(matches!(a.command, InstallCommand::RemoveZip));
    let a = m.step(InstallOutcome::Done(Ok(())));
    assert_eq!(finish(&a.command), Some(Ok(())));
}

#[test]
fn windows_skips_permissions() {
    let w = Platform { os: Os::Windows, arch: Arch::X64 };
    let (mut m, _) = BunInstall::start(w, "1.2.5");
    m.step(InstallOutcome::Installed(false));
    m.step(InstallOutcome::Region(Region::Cn));
    m.step(InstallOutcome::Done(Ok(())));
    match m.step(InstallOutcome::Done(Ok(()))).command {
        InstallCommand::Send(url) => assert_eq!(
            url,
            "https://registry.npmmirror.com/-/binary/bun/bun-v1.2.5/bun-windows-x64.zip"
        ),
        _ => panic!("expected send"),
    }
    for o in [
        InstallOutcome::Status { success: true, text: "200 OK".into() },
        InstallOutcome::Done(Ok(())),
        InstallOutcome::Done(Ok(())),
        InstallOutcome::Done(Ok(())),
        InstallOutcome::Done(Ok(())),
        InstallOutcome::Entry(Some(EntryFacts { name: "bun-windows-x64".into(), is_dir: true })),
        InstallOutcome::BinaryFound(true),
    ] {
        assert!(m.accepts(&o));
        m.step(o);
    }
    let a = m.step(InstallOutcome::Done(Ok(())));
    assert!(matches!(a.command, InstallCommand::RemoveEntryDir));
}

#[test]
fn archive_without_binary_fails() {
    let (mut m, _) = BunInstall::start(mac(), "1.2.5");
    for o in [
        InstallOutcome::Installed(false),
        InstallOutcome::Region(Region::Cn),
        InstallOutcome::Done(Ok(())),
        InstallOutcome::Done(Ok(())),
        InstallOutcome::Status { success: true, text: "200 OK".into() },
        InstallOutcome::Done(Ok(())),
        InstallOutcome::Done(Ok(())),
        InstallOutcome::Done(Ok(())),
        InstallOutcome::Done(Ok(())),
    ] {
        m.step(o);
    }
    let a = m.step(InstallOutcome::Entry(None));
    assert!(matches!(a.command, InstallCommand::RemoveZip));
    let a = m.step(InstallOutcome::Done(Ok(())));
    assert_eq!(
        finish(&a.command),
        Some(Err("Bun binary not found in downloaded archive".to_string()))
    );
}

fn run_until_failure(outcomes: Vec<InstallOutcome>) -> String {
    let (mut m, _) = BunInstall::start(mac(), "1.2.5");
    let mut last = None;
    for o in outcomes {
        assert!(m.accepts(&o));
        last = Some(m.step(o));
    }
    match finish(&last.unwrap().command) {
        Some(Err(e)) => e,
        _ => panic!("expected an error"),
    }
}

#[test]
fn each_failure_has_its_message() {
    let start = || vec![Installed(false), InstallOutcome::Region(Region::Cn)];
    let mut v = start();
    v.push(Done(Err("denied".into())));
    assert_eq!(run_until_failure(v), "Failed to create bun directory: denied");
    let mut v = start();
    v.extend([Done(Ok(())), Done(Err("tls".into()))]);
    assert_eq!(run_until_failure(v), "HTTP client error: tls");
    let mut v = start();
    v.extend([Done(Ok(())), Done(Ok(())), Done(Err("dns".into()))]);
    assert_eq!(run_until_failure(v), "Download failed: dns");
    let mut v = start();
    v.extend([Done(Ok(())), Done(Ok(())), Status { success: false, text: "404 Not Found".into() }]);
    assert_eq!(run_until_failure(v), "Download failed with status: 404 Not Found");
    let ok = || vec![Done(Ok(())), Done(Ok(())), Status { success: true, text: "200 OK".into() }];
    let mut v = start();
    v.extend(ok());
    v.push(Done(Err("reset".into())));
    assert_eq!(run_until_failure(v), "Failed to read response: reset");
    let mut v = start();
    v.extend(ok());
    v.extend([Done(Ok(())), Done(Err("disk full".into()))]);
    assert_eq!(run_until_failure(v), "Failed to write zip: disk full");
    let mut v = start();
    v.extend(ok());
    v.extend([Done(Ok(())), Done(Ok(())), TaskFailed("panicked".into())]);
    assert_eq!(run_until_failure(v), "Extract task failed: panicked");
    let mut v = start();
    v.extend(ok());
    v.extend([Done(Ok(())), Done(Ok(())), Done(Err("bad zip".into()))]);
    assert_eq!(run_until_failure(v), "Extraction failed: bad zip");
    let mut v = start();
    v.extend(ok());
    v.extend([Done(Ok(())), Done(Ok(())), Done(Ok(())), Done(Err("gone".into()))]);
    assert_eq!(run_until_failure(v), "Failed to read dir: gone");
    let mut v = start();
    v.extend(ok());
    v.extend([Done(Ok(())), Done(Ok(())), Done(Ok(())), Done(Ok(())), Done(Err("io".into()))]);
    assert_eq!(run_until_failure(v), "Failed to read entry: io");
    let entry = || Entry(Some(EntryFacts { name: "bun-linux-x64".into(), is_dir: true }));
    let mut v = start();
    v.extend(ok());
    v.extend([Done(Ok(())), Done(Ok(())), Done(Ok(())), Done(Ok(())), entry(), BinaryFound(true), Done(Err("xdev".into()))]);
    assert_eq!(run_until_failure(v), "Failed to move bun binary: xdev");
    let mut v = start();
    v.extend(ok());
    v.extend([Done(Ok(())), Done(Ok(())), Done(Ok(())), Done(Ok(())), entry(), BinaryFound(true), Done(Ok(())), Done(Err("eperm".into()))]);
    assert_eq!(run_until_failure(v), "Failed to set permissions: eperm");
}

#[test]
fn outcomes_must_fit_the_command() {
    let (m, _) = BunInstall::start(mac(), "1.2.5");
    assert!(m.accepts(&InstallOutcome::Installed(false)));
    assert!(!m.accepts(&InstallOutcome::Done(Ok(()))));
}
