use std::io::Write;
use std::path::PathBuf;
use tako_desktop::archive::{extract_zip, ExtractStep};

fn archive(entries: &[(&str, Option<&[u8]>)]) -> Vec<u8> {
    let mut w = zip::ZipWriter::new(std::io::Cursor::new(Vec::new()));
    let options = zip::write::SimpleFileOptions::default();
    for (name, data) in entries {
        match data {
            None => w.add_directory(*name, options).unwrap(),
            Some(d) => {
                w.start_file(*name, options).unwrap();
                w.write_all(d).unwrap();
            }
        }
    }
    w.finish().unwrap().into_inner()
}

fn describe(step: &ExtractStep) -> String {
    match step {
        ExtractStep::CreateDir(p) => format!("dir {}|{}", p.base.display(), p.parts.join("/")),
        ExtractStep::CreateParentDir(p) => format!("parent {}|{}", p.base.display(), p.parts.join("/")),
        ExtractStep::CreateFile(p) => format!("file {}|{}", p.base.display(), p.parts.join("/")),
        ExtractStep::WriteFile(d) => format!("write {}", String::from_utf8_lossy(d)),
        ExtractStep::Fail(m) => format!("fail {}", m),
    }
}

#[test]
fn extraction_plan_follows_the_archive() {
    let bytes = archive(&[("bun-linux-x64/", None), ("bun-linux-x64/bun", Some(b"BIN"))]);
    let plan: Vec<String> = extract_zip(Ok(bytes), PathBuf::from("/t")).iter().map(describe).collect();
    assert_eq!(
        plan,
        vec![
            "dir /t|bun-linux-x64/",
            "parent /t|bun-linux-x64/bun",
            "file /t|bun-linux-x64/bun",
            "write BIN",
        ]
    );
}

#[test]
fn entries_leaving_the_target_stop_the_extraction() {
    let bytes = archive(&[("ok.txt", Some(b"a")), ("../evil", Some(b"x")), ("later.txt", Some(b"b"))]);
    let plan: Vec<String> = extract_zip(Ok(bytes), PathBuf::from("/t")).iter().map(describe).collect();
    assert_eq!(
        plan,
        vec!["parent /t|ok.txt", "file /t|ok.txt", "write a", "fail Invalid zip entry name"]
    );
}

#[test]
fn unreadable_files_and_archives_fail_at_once() {
    let plan: Vec<String> = extract_zip(Err("No such file".into()), PathBuf::from("/t")).iter().map(describe).collect();
    assert_eq!(plan, vec!["fail Failed to open zip: No such file"]);
    let plan = extract_zip(Ok(b"not a zip".to_vec()), PathBuf::from("/t"));
    assert_eq!(plan.len(), 1);
    assert!(describe(&plan[0]).starts_with("fail Failed to read zip: "));
}

#[test]
fn step_failure_messages() {
    let p = tako_desktop::paths::AppPath::new(PathBuf::from("/t"), &["x"]);
    assert_eq!(ExtractStep::CreateDir(p).failure_message("denied"), "Failed to create dir: denied");
    let p = tako_desktop::paths::AppPath::new(PathBuf::from("/t"), &["x"]);
    assert_eq!(ExtractStep::CreateParentDir(p).failure_message("e"), "Failed to create parent dir: e");
    let p = tako_desktop::paths::AppPath::new(PathBuf::from("/t"), &["x"]);
    assert_eq!(ExtractStep::CreateFile(p).failure_message("e"), "Failed to create file: e");
    assert_eq!(ExtractStep::WriteFile(vec![]).failure_message("e"), "Failed to write file: e");
    assert_eq!(ExtractStep::Fail("m".into()).failure_message("e"), "m");
}
