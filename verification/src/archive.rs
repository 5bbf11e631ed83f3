//! Extracting a zip archive: the `zip` crate reads the archive's entries,
//! and the extraction is planned as the directories and files to create
//! below the target directory, in the archive's order, up to the first
//! entry that cannot be extracted.
use vstd::prelude::*;

use std::io::Cursor;
use std::path::PathBuf;
use zip::ZipArchive;

use crate::paths::{clone_path, path_view, AppPath, AppPathView};

verus! {

#[verifier::external_type_specification]
#[verifier::external_body]
#[verifier::reject_recursive_types(T)]
pub struct ExCursor<T>(std::io::Cursor<T>);

#[verifier::external_type_specification]
#[verifier::external_body]
#[verifier::reject_recursive_types(R)]
pub struct ExZipArchive<R>(zip::ZipArchive<R>);

/// One entry of an archive as read: the name it extracts to where that
/// stays inside the target directory (`ZipFile::enclosed_name`), whether it
/// is a directory, and its data, or the error in reading it.
pub struct ZipEntry {
    pub enclosed_name: Option<String>,
    pub is_dir: bool,
    pub data: Result<Vec<u8>, String>,
}

/// The view of an entry.
pub struct EntryView {
    pub enclosed_name: Option<Seq<char>>,
    pub is_dir: bool,
    pub data: Result<Seq<u8>, Seq<char>>,
}

impl View for ZipEntry {
    type V = EntryView;

    open spec fn view(&self) -> EntryView {
        EntryView {
            enclosed_name: match self.enclosed_name {
                Some(n) => Some(n@),
                None => None,
            },
            is_dir: self.is_dir,
            data: match self.data {
                Ok(d) => Ok(d@),
                Err(e) => Err(e@),
            },
        }
    }
}

/// The view of an entry as read, or of the error in reading it.
pub open spec fn entry_result_view(r: Result<ZipEntry, String>) -> Result<EntryView, Seq<char>> {
    match r {
        Ok(e) => Ok(e@),
        Err(m) => Err(m@),
    }
}

/// What the `zip` crate reads from the bytes of an archive: its entries in
/// order (each as read with `ZipArchive::by_index`, or the error in reading
/// it), or the message of the error in opening it.
pub uninterp spec fn spec_zip_archive(bytes: Seq<u8>) -> Result<
    Seq<Result<EntryView, Seq<char>>>,
    Seq<char>,
>;

/// The entries an opened archive holds, in order.
pub uninterp spec fn zip_entries(a: ZipArchive<Cursor<Vec<u8>>>) -> Seq<Result<EntryView, Seq<char>>>;

/// Opens an archive held in memory.
///
/// Trusted: calls `zip::ZipArchive::new` on a `Cursor` over the bytes; the
/// error becomes its message (`Display`). What it reads is named by
/// `spec_zip_archive`, a function of the bytes alone, and the opened
/// archive holds exactly those entries.
#[verifier::external_body]
fn open_zip(bytes: Vec<u8>) -> (r: Result<ZipArchive<Cursor<Vec<u8>>>, String>)
    ensures
        match r {
            Ok(a) => spec_zip_archive(bytes@) == Ok::<_, Seq<char>>(zip_entries(a)),
            Err(m) => spec_zip_archive(bytes@) == Err::<Seq<Result<EntryView, Seq<char>>>, _>(m@),
        },
{
    ZipArchive::new(Cursor::new(bytes)).map_err(|e| e.to_string())
}

/// The number of entries of an archive.
///
/// Trusted: calls `zip::ZipArchive::len`, the number of files in the
/// archive, which `by_index` takes as its bound.
#[verifier::external_body]
fn zip_len(a: &ZipArchive<Cursor<Vec<u8>>>) -> (r: usize)
    ensures
        r == zip_entries(*a).len(),
{
    a.len()
}

/// Reads entry `i` of an archive.
///
/// Trusted: calls `zip::ZipArchive::by_index`, then on the entry
/// `enclosed_name` (as text), `is_dir` and `Read::read_to_end`; errors
/// become their messages. The result is entry `i` of what the archive holds,
/// and reading leaves the entries as they are.
#[verifier::external_body]
fn zip_entry(a: &mut ZipArchive<Cursor<Vec<u8>>>, i: usize) -> (r: Result<ZipEntry, String>)
    requires
        i < zip_entries(*old(a)).len(),
    ensures
        zip_entries(*final(a)) == zip_entries(*old(a)),
        entry_result_view(r) == zip_entries(*old(a))[i as int],
{
    let mut file = a.by_index(i).map_err(|e| e.to_string())?;
    let enclosed_name = file.enclosed_name().map(|p| p.to_string_lossy().into_owned());
    let is_dir = file.is_dir();
    let mut data: Vec<u8> = Vec::new();
    let read = std::io::Read::read_to_end(&mut file, &mut data);
    Ok(ZipEntry { enclosed_name, is_dir, data: read.map(|_| data).map_err(|e| e.to_string()) })
}

/// One step of an extraction.
pub enum ExtractStep {
    /// Create this directory (with its parents).
    CreateDir(AppPath),
    /// Create the parent directories of this path, where it has a parent.
    CreateParentDir(AppPath),
    /// Create (or truncate) this file.
    CreateFile(AppPath),
    /// Write these bytes into the file created last.
    WriteFile(Vec<u8>),
    /// The extraction fails with this message.
    Fail(String),
}

/// The view of a step.
pub enum StepView {
    CreateDir(AppPathView),
    CreateParentDir(AppPathView),
    CreateFile(AppPathView),
    WriteFile(Seq<u8>),
    Fail(Seq<char>),
}

impl View for ExtractStep {
    type V = StepView;

    open spec fn view(&self) -> StepView {
        match self {
            ExtractStep::CreateDir(p) => StepView::CreateDir(p@),
            ExtractStep::CreateParentDir(p) => StepView::CreateParentDir(p@),
            ExtractStep::CreateFile(p) => StepView::CreateFile(p@),
            ExtractStep::WriteFile(d) => StepView::WriteFile(d@),
            ExtractStep::Fail(m) => StepView::Fail(m@),
        }
    }
}

/// The views of a list of steps.
pub open spec fn steps_view(steps: Seq<ExtractStep>) -> Seq<StepView> {
    steps.map_values(|s: ExtractStep| s@)
}

/// The steps that extract one entry into `target`, and whether the
/// extraction stops after them: an entry that could not be read, or whose
/// name would leave the target directory, ends it with an error; a
/// directory is created; a file gets its parent directories, is created and
/// has its data written (or the extraction ends with the error in reading
/// its data).
pub open spec fn entry_steps(target: PathBuf, e: Result<EntryView, Seq<char>>) -> (Seq<StepView>, bool) {
    match e {
        Err(m) => (seq![StepView::Fail("Failed to read zip entry: "@ + m)], true),
        Ok(en) => match en.enclosed_name {
            None => (seq![StepView::Fail("Invalid zip entry name"@)], true),
            Some(name) => {
                let p = path_view(target, seq![name]);
                if en.is_dir {
                    (seq![StepView::CreateDir(p)], false)
                } else {
                    match en.data {
                        Ok(d) => (
                            seq![
                                StepView::CreateParentDir(p),
                                StepView::CreateFile(p),
                                StepView::WriteFile(d),
                            ],
                            false,
                        ),
                        Err(m) => (
                            seq![
                                StepView::CreateParentDir(p),
                                StepView::CreateFile(p),
                                StepView::Fail("Failed to write file: "@ + m),
                            ],
                            true,
                        ),
                    }
                }
            },
        },
    }
}

/// The steps that extract `entries`, in order, into `target`, up to the
/// first entry that ends the extraction.
pub open spec fn spec_extraction_plan(target: PathBuf, entries: Seq<Result<EntryView, Seq<char>>>) -> Seq<
    StepView,
>
    decreases entries.len(),
{
    if entries.len() == 0 {
        Seq::<StepView>::empty()
    } else {
        let first = entry_steps(target, entries[0]);
        if first.1 {
            first.0
        } else {
            first.0 + spec_extraction_plan(target, entries.drop_first())
        }
    }
}

/// An entry that can be extracted without ending the extraction: it was
/// read, its name stays inside the target directory, and it is a directory
/// or its data was read.
pub open spec fn extractable(e: Result<EntryView, Seq<char>>) -> bool {
    match e {
        Ok(en) => en.enclosed_name is Some && (en.is_dir || en.data is Ok),
        Err(_) => false,
    }
}

/// Every file of the archive that is reached (all entries before it can be
/// extracted) and whose data was read is created at the target directory
/// followed by its name and then written with exactly its data, all of it,
/// whatever its length.
pub proof fn lemma_files_are_written_whole(
    target: PathBuf,
    entries: Seq<Result<EntryView, Seq<char>>>,
    i: int,
    name: Seq<char>,
    data: Seq<u8>,
)
    requires
        0 <= i < entries.len(),
        forall|j: int| 0 <= j < i ==> extractable(#[trigger] entries[j]),
        entries[i] == Ok::<EntryView, Seq<char>>(
            EntryView { enclosed_name: Some(name), is_dir: false, data: Ok(data) },
        ),
    ensures
        ({
            let plan = spec_extraction_plan(target, entries);
            exists|k: int|
                0 <= k && k + 1 < plan.len() && #[trigger] plan[k] == StepView::CreateFile(
                    path_view(target, seq![name]),
                ) && plan[k + 1] == StepView::WriteFile(data)
        }),
    decreases i,
{
    let plan = spec_extraction_plan(target, entries);
    let first = entry_steps(target, entries[0]);
    if i == 0 {
        assert(!first.1);
        assert(plan == first.0 + spec_extraction_plan(target, entries.drop_first()));
        assert(plan[1] == StepView::CreateFile(path_view(target, seq![name])));
        assert(plan[2] == StepView::WriteFile(data));
    } else {
        let rest = entries.drop_first();
        assert(extractable(entries[0]));
        assert(!first.1);
        assert forall|j: int| 0 <= j < i - 1 implies extractable(#[trigger] rest[j]) by {
            assert(rest[j] == entries[j + 1]);
        }
        assert(rest[i - 1] == entries[i]);
        lemma_files_are_written_whole(target, rest, i - 1, name, data);
        let tail = spec_extraction_plan(target, rest);
        let k = choose|k: int|
            0 <= k && k + 1 < tail.len() && #[trigger] tail[k] == StepView::CreateFile(
                path_view(target, seq![name]),
            ) && tail[k + 1] == StepView::WriteFile(data);
        assert(plan == first.0 + tail);
        let n = first.0.len() as int;
        assert(plan[n + k] == tail[k]);
        assert(plan[n + k + 1] == tail[k + 1]);
    }
}

/// The steps that extract the archive read from a file (or the error in
/// reading the file) into `target`: the file's error or the archive's error
/// ends it at once; otherwise its entries are extracted.
pub open spec fn spec_extract_zip(archive: Result<Seq<u8>, Seq<char>>, target: PathBuf) -> Seq<StepView> {
    match archive {
        Err(e) => seq![StepView::Fail("Failed to open zip: "@ + e)],
        Ok(bytes) => match spec_zip_archive(bytes) {
            Err(m) => seq![StepView::Fail("Failed to read zip: "@ + m)],
            Ok(entries) => spec_extraction_plan(target, entries),
        },
    }
}

/// The message where a step failed with `detail`.
pub open spec fn spec_step_failure(step: StepView, detail: Seq<char>) -> Seq<char> {
    match step {
        StepView::CreateDir(_) => "Failed to create dir: "@ + detail,
        StepView::CreateParentDir(_) => "Failed to create parent dir: "@ + detail,
        StepView::CreateFile(_) => "Failed to create file: "@ + detail,
        StepView::WriteFile(_) => "Failed to write file: "@ + detail,
        StepView::Fail(m) => m,
    }
}

impl ExtractStep {
    /// The message with which the extraction fails where this step failed
    /// with `detail`.
    pub fn failure_message(&self, detail: &str) -> (r: String)
        ensures
            r@ == spec_step_failure(self@, detail@),
    {
        match self {
            ExtractStep::CreateDir(_) => String::from_str("Failed to create dir: ").concat(detail),
            ExtractStep::CreateParentDir(_) => String::from_str(
                "Failed to create parent dir: ",
            ).concat(detail),
            ExtractStep::CreateFile(_) => String::from_str("Failed to create file: ").concat(detail),
            ExtractStep::WriteFile(_) => String::from_str("Failed to write file: ").concat(detail),
            ExtractStep::Fail(m) => m.clone(),
        }
    }
}

fn prefixed(prefix: &str, detail: &String) -> (r: String)
    ensures
        r@ == prefix@ + detail@,
{
    String::from_str(prefix).concat(detail.as_str())
}

/// The steps for one entry, and whether the extraction stops after them.
fn steps_for_entry(target: &PathBuf, e: Result<ZipEntry, String>) -> (r: (Vec<ExtractStep>, bool))
    ensures
        (steps_view(r.0@), r.1) == entry_steps(*target, entry_result_view(e)),
{
    let ghost ev = entry_result_view(e);
    let mut steps: Vec<ExtractStep> = Vec::new();
    let stop = match e {
        Err(m) => {
            steps.push(ExtractStep::Fail(prefixed("Failed to read zip entry: ", &m)));
            true
        },
        Ok(en) => match en.enclosed_name {
            None => {
                steps.push(ExtractStep::Fail(String::from_str("Invalid zip entry name")));
                true
            },
            Some(name) => {
                if en.is_dir {
                    steps.push(ExtractStep::CreateDir(entry_path(target, &name)));
                    false
                } else {
                    steps.push(ExtractStep::CreateParentDir(entry_path(target, &name)));
                    steps.push(ExtractStep::CreateFile(entry_path(target, &name)));
                    match en.data {
                        Ok(d) => {
                            steps.push(ExtractStep::WriteFile(d));
                            false
                        },
                        Err(m) => {
                            steps.push(ExtractStep::Fail(prefixed("Failed to write file: ", &m)));
                            true
                        },
                    }
                }
            },
        },
    };
    assert(steps_view(steps@) =~= entry_steps(*target, ev).0);
    (steps, stop)
}

/// The path `target` followed by an entry's name.
fn entry_path(target: &PathBuf, name: &String) -> (r: AppPath)
    ensures
        r@ == path_view(*target, seq![name@]),
{
    let n = name.as_str();
    assert(n@ == name@);
    let base = clone_path(target);
    let r = AppPath::new(base, &[n]);
    assert(r@.base == *target);
    assert(crate::text::views(seq![n]) =~= seq![name@]);
    assert(r@.parts =~= seq![name@]);
    r
}

/// The view of a file's contents, or of the error in reading it.
pub open spec fn file_view(f: Result<Vec<u8>, String>) -> Result<Seq<u8>, Seq<char>> {
    match f {
        Ok(b) => Ok(b@),
        Err(e) => Err(e@),
    }
}

/// Plans extracting the entries of an opened archive into `target`, reading
/// each in turn and none after the one that ends the extraction.
fn plan_entries(zip: &mut ZipArchive<Cursor<Vec<u8>>>, target: &PathBuf) -> (r: Vec<ExtractStep>)
    ensures
        steps_view(r@) == spec_extraction_plan(*target, zip_entries(*old(zip))),
{
    let ghost entries = zip_entries(*zip);
    let n = zip_len(zip);
    let mut plan: Vec<ExtractStep> = Vec::new();
    let mut i: usize = 0;
    assert(entries.skip(0) =~= entries);
    while i < n
        invariant
            i <= n,
            n == entries.len(),
            zip_entries(*zip) == entries,
            entries == zip_entries(*old(zip)),
            steps_view(plan@) + spec_extraction_plan(*target, entries.skip(i as int))
                == spec_extraction_plan(*target, entries),
        decreases n - i,
    {
        let e = zip_entry(zip, i);
        let (steps, stop) = steps_for_entry(target, e);
        let ghost before = steps_view(plan@);
        let ghost rest = entries.skip(i as int);
        assert(rest[0] == entries[i as int]);
        assert(rest.drop_first() =~= entries.skip(i + 1));
        assert(stop == entry_steps(*target, entries[i as int]).1);
        assert(spec_extraction_plan(*target, rest) == if stop {
            entry_steps(*target, entries[i as int]).0
        } else {
            entry_steps(*target, entries[i as int]).0 + spec_extraction_plan(
                *target,
                entries.skip(i + 1),
            )
        });
        let mut steps = steps;
        plan.append(&mut steps);
        assert(steps_view(plan@) =~= before + entry_steps(*target, entries[i as int]).0);
        if stop {
            assert(spec_extraction_plan(*target, entries) =~= steps_view(plan@));
            return plan;
        }
        assert(before + (entry_steps(*target, entries[i as int]).0 + spec_extraction_plan(
            *target,
            entries.skip(i + 1),
        )) =~= steps_view(plan@) + spec_extraction_plan(*target, entries.skip(i + 1)));
        i = i + 1;
    }
    assert(entries.skip(n as int) =~= Seq::<Result<EntryView, Seq<char>>>::empty());
    assert(steps_view(plan@) + Seq::<StepView>::empty() =~= steps_view(plan@));
    plan
}

/// Plans extracting the archive read from a file, or the error in reading
/// the file, into `target_dir`. Entries are read one after the other, and no
/// entry is read after the one that ends the extraction.
pub fn extract_zip(archive: Result<Vec<u8>, String>, target_dir: PathBuf) -> (r: Vec<ExtractStep>)
    ensures
        steps_view(r@) == spec_extract_zip(file_view(archive), target_dir),
{
    match archive {
        Err(e) => {
            let mut r: Vec<ExtractStep> = Vec::new();
            r.push(ExtractStep::Fail(prefixed("Failed to open zip: ", &e)));
            assert(steps_view(r@) =~= seq![StepView::Fail("Failed to open zip: "@ + e@)]);
            r
        },
        Ok(bytes) => {
            match open_zip(bytes) {
                Err(m) => {
                    let mut r: Vec<ExtractStep> = Vec::new();
                    r.push(ExtractStep::Fail(prefixed("Failed to read zip: ", &m)));
                    assert(steps_view(r@) =~= seq![StepView::Fail("Failed to read zip: "@ + m@)]);
                    r
                },
                Ok(zip) => {
                    let mut zip = zip;
                    plan_entries(&mut zip, &target_dir)
                },
            }
        },
    }
}

} // verus!
