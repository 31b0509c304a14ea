use crate::error::{AppError, ErrorKind};
use std::io::{Cursor, Write};
use zip::result::ZipError;
use zip::write::SimpleFileOptions;
use zip::{CompressionMethod, ZipArchive, ZipWriter};
use vstd::prelude::*;

verus! {

/// Separators of an entry's stored path: `/`, and `\` as written by some
/// archivers.
pub open spec fn is_separator(c: char) -> bool {
    c == '/' || c == '\\'
}

/// The components of a stored path, in order, empty ones included.
pub open spec fn path_components(s: Seq<char>) -> Seq<Seq<char>>
    decreases s.len(),
{
    if s.len() == 0 {
        seq![Seq::empty()]
    } else {
        let rest = path_components(s.drop_last());
        if is_separator(s.last()) {
            rest.push(Seq::empty())
        } else {
            rest.update(rest.len() - 1, rest.last().push(s.last()))
        }
    }
}

/// How a path component moves through the tree.
#[derive(Clone, Copy, Debug, PartialEq, Eq, Structural)]
pub enum Step {
    /// An empty component or `.`: stays where it is.
    Stay,
    /// `..`: goes up one level.
    Up,
    /// Any other name: goes down into it.
    Down,
}

pub open spec fn step_of(c: Seq<char>) -> Step {
    if c.len() == 0 || c == seq!['.'] {
        Step::Stay
    } else if c == seq!['.', '.'] {
        Step::Up
    } else {
        Step::Down
    }
}

/// The components that remain after walking `cs` from the root, or `None`
/// when the walk goes above the root.
pub open spec fn resolve(cs: Seq<Seq<char>>) -> Option<Seq<Seq<char>>>
    decreases cs.len(),
{
    if cs.len() == 0 {
        Some(Seq::empty())
    } else {
        match resolve(cs.drop_last()) {
            None => None,
            Some(stack) => match step_of(cs.last()) {
                Step::Stay => Some(stack),
                Step::Up => if stack.len() == 0 {
                    None
                } else {
                    Some(stack.drop_last())
                },
                Step::Down => Some(stack.push(cs.last())),
            },
        }
    }
}

/// The components joined by `/`.
pub open spec fn join_components(cs: Seq<Seq<char>>) -> Seq<char>
    decreases cs.len(),
{
    if cs.len() == 0 {
        Seq::empty()
    } else if cs.len() == 1 {
        cs[0]
    } else {
        join_components(cs.drop_last()) + "/"@ + cs.last()
    }
}

/// Where an entry with stored path `name` lands, relative to the extraction
/// root: its normalized path, or `None` when the path is absolute or climbs
/// out of the root.
pub open spec fn contained_path(name: Seq<char>) -> Option<Seq<char>> {
    if name.len() > 0 && is_separator(name[0]) {
        None
    } else {
        match resolve(path_components(name)) {
            Some(cs) => Some(join_components(cs)),
            None => None,
        }
    }
}

fn step_of_component(c: &str) -> (r: Step)
    ensures
        r == step_of(c@),
{
    let n = c.unicode_len();
    if n == 0 {
        Step::Stay
    } else if n == 1 && c.get_char(0) == '.' {
        assert(c@ == seq!['.']);
        Step::Stay
    } else if n == 2 && c.get_char(0) == '.' && c.get_char(1) == '.' {
        assert(c@ == seq!['.', '.']);
        Step::Up
    } else {
        assert(c@ != seq!['.']);
        assert(c@ != seq!['.', '.']);
        Step::Down
    }
}

pub open spec fn views(v: Seq<String>) -> Seq<Seq<char>> {
    v.map_values(|x: String| x@)
}

/// Applies one component to the stack of names walked so far. Returns false,
/// leaving the stack alone, when the component climbs above the root.
fn walk(stack: &mut Vec<String>, component: &str) -> (r: bool)
    ensures
        ({
            let expected = match step_of(component@) {
                Step::Stay => Some(views(old(stack)@)),
                Step::Up => if old(stack)@.len() == 0 {
                    None
                } else {
                    Some(views(old(stack)@).drop_last())
                },
                Step::Down => Some(views(old(stack)@).push(component@)),
            };
            &&& r <==> expected is Some
            &&& r ==> views(final(stack)@) == expected->0
        }),
{
    match step_of_component(component) {
        Step::Stay => true,
        Step::Up => {
            if stack.len() == 0 {
                false
            } else {
                stack.pop();
                assert(views(stack@) == views(old(stack)@).drop_last());
                true
            }
        },
        Step::Down => {
            stack.push(component.to_owned());
            assert(views(stack@) == views(old(stack)@).push(component@));
            true
        },
    }
}

fn join_with_slash(parts: &Vec<String>) -> (r: String)
    ensures
        r@ == join_components(views(parts@)),
{
    let mut out = String::new();
    let mut j: usize = 0;
    while j < parts.len()
        invariant
            j <= parts@.len(),
            out@ == join_components(views(parts@).subrange(0, j as int)),
        decreases parts@.len() - j,
    {
        let ghost before = views(parts@).subrange(0, j as int);
        let ghost after = views(parts@).subrange(0, j + 1);
        assert(after.drop_last() == before);
        if j > 0 {
            out.append("/");
        } else {
            assert(before == Seq::<Seq<char>>::empty());
        }
        out.append(parts[j].as_str());
        j = j + 1;
    }
    assert(views(parts@).subrange(0, parts@.len() as int) == views(parts@));
    out
}

/// The normalized path an entry named `name` is written to below the
/// extraction root, or `None` when it would land outside of it.
pub fn contained_entry_path(name: &str) -> (r: Option<String>)
    ensures
        r is None <==> contained_path(name@) is None,
        r is Some ==> r->Some_0@ == contained_path(name@)->0,
{
    let ghost s = name@;
    let n = name.unicode_len();
    if n > 0 {
        let first = name.get_char(0);
        if first == '/' || first == '\\' {
            return None;
        }
    }
    let mut stack: Vec<String> = Vec::new();
    let mut escaped = false;
    let mut start: usize = 0;
    let mut i: usize = 0;
    let ghost mut done: Seq<Seq<char>> = Seq::empty();
    assert(s.subrange(0, 0) == Seq::<char>::empty());
    assert(done.push(Seq::<char>::empty()) == path_components(Seq::<char>::empty()));
    while i < n
        invariant
            n == s.len(),
            s == name@,
            start <= i <= n,
            path_components(s.subrange(0, i as int)) == done.push(s.subrange(start as int, i as int)),
            escaped <==> resolve(done) is None,
            !escaped ==> resolve(done) == Some(views(stack@)),
        decreases n - i,
    {
        let c = name.get_char(i);
        let ghost field = s.subrange(start as int, i as int);
        assert(s.subrange(0, i + 1).drop_last() == s.subrange(0, i as int));
        if c == '/' || c == '\\' {
            if !escaped {
                let part = name.substring_char(start, i);
                escaped = !walk(&mut stack, part);
            }
            proof {
                let old_done = done;
                done = done.push(field);
                assert(done.drop_last() == old_done);
                assert(s.subrange(i + 1, i + 1) == Seq::<char>::empty());
            }
            start = i + 1;
        } else {
            proof {
                assert(s.subrange(start as int, i + 1) == field.push(c));
            }
        }
        i = i + 1;
    }
    assert(s.subrange(0, n as int) == s);
    let last = name.substring_char(start, n);
    let ghost fields = done.push(s.subrange(start as int, n as int));
    assert(fields.drop_last() == done);
    if escaped {
        None
    } else if walk(&mut stack, last) {
        Some(join_with_slash(&stack))
    } else {
        None
    }
}

/// Every component left after a walk that stays inside the root is a plain
/// name: never empty, `.` or `..`. Joined, they name a place below the root.
pub proof fn lemma_resolved_components_descend(cs: Seq<Seq<char>>)
    ensures
        resolve(cs) is Some ==> forall|k: int|
            0 <= k < resolve(cs)->0.len() ==> step_of(#[trigger] resolve(cs)->0[k]) == Step::Down,
    decreases cs.len(),
{
    if cs.len() > 0 {
        lemma_resolved_components_descend(cs.drop_last());
    }
}

/// What extracting one entry does, below the extraction root.
#[derive(Debug)]
pub enum ExtractStep {
    /// Create this directory and its parents.
    CreateDir { path: String },
    /// Create the parents of this file, then write the whole content to it.
    WriteFile { path: String, data: Vec<u8> },
}

pub enum ExtractStepView {
    CreateDir { path: Seq<char> },
    WriteFile { path: Seq<char>, data: Seq<u8> },
}

impl View for ExtractStep {
    type V = ExtractStepView;

    open spec fn view(&self) -> ExtractStepView {
        match self {
            ExtractStep::CreateDir { path } => ExtractStepView::CreateDir { path: path@ },
            ExtractStep::WriteFile { path, data } => ExtractStepView::WriteFile {
                path: path@,
                data: data@,
            },
        }
    }
}

/// Whether a stored name marks a directory: it ends with a separator.
pub open spec fn is_dir_marker(name: Seq<char>) -> bool {
    name.len() > 0 && is_separator(name.last())
}

/// The step for an entry with stored name `name` and content `data`, or
/// `None` when the entry must be refused: its path leaves the root, or it is
/// a file that would stand at the root itself.
pub open spec fn entry_step(name: Seq<char>, data: Seq<u8>) -> Option<ExtractStepView> {
    match contained_path(name) {
        None => None,
        Some(p) => if is_dir_marker(name) {
            Some(ExtractStepView::CreateDir { path: p })
        } else if p.len() == 0 {
            None
        } else {
            Some(ExtractStepView::WriteFile { path: p, data })
        },
    }
}

/// The step that extracts one entry. A refused entry is an `ExtractFailed`.
pub fn plan_entry(name: &str, data: Vec<u8>) -> (r: Result<ExtractStep, AppError>)
    ensures
        r is Ok <==> entry_step(name@, data@) is Some,
        r is Ok ==> r->Ok_0@ == entry_step(name@, data@)->0,
        r is Err ==> r->Err_0.spec_kind() == ErrorKind::ExtractFailed,
{
    match contained_entry_path(name) {
        None => Err(AppError::ExtractFailed(String::from_str("an entry's path leads outside the extraction root"))),
        Some(path) => {
            let n = name.unicode_len();
            let c = if n > 0 { name.get_char(n - 1) } else { 'a' };
            if n > 0 && (c == '/' || c == '\\') {
                Ok(ExtractStep::CreateDir { path })
            } else if path.unicode_len() == 0 {
                Err(AppError::ExtractFailed(String::from_str("a file entry names the extraction root itself")))
            } else {
                Ok(ExtractStep::WriteFile { path, data })
            }
        },
    }
}

/// The steps that extract entries given as (stored name, content) pairs, in
/// the stored order. If any entry is refused, nothing is planned and the
/// whole extraction fails with `ExtractFailed`.
pub fn plan_entries(entries: Vec<(String, Vec<u8>)>) -> (r: Result<Vec<ExtractStep>, AppError>)
    ensures
        r is Ok <==> forall|k: int| 0 <= k < entries@.len() ==>
            (#[trigger] entry_step(entries@[k].0@, entries@[k].1@)) is Some,
        r is Ok ==> r->Ok_0@.len() == entries@.len() && forall|k: int| 0 <= k < entries@.len() ==>
            (#[trigger] r->Ok_0@[k])@ == entry_step(entries@[k].0@, entries@[k].1@)->0,
        r is Err ==> r->Err_0.spec_kind() == ErrorKind::ExtractFailed,
{
    let ghost given = entries@;
    let mut rest = entries;
    let mut steps: Vec<ExtractStep> = Vec::new();
    let total = rest.len();
    let mut i: usize = 0;
    while i < total
        invariant
            total == given.len(),
            given == entries@,
            i <= total,
            rest@.len() == total - i,
            forall|k: int| 0 <= k < rest@.len() ==> #[trigger] rest@[k] == given[k + i],
            steps@.len() == i,
            forall|k: int| 0 <= k < i ==> (#[trigger] entry_step(given[k].0@, given[k].1@)) is Some,
            forall|k: int| 0 <= k < i ==> (#[trigger] steps@[k])@ == entry_step(given[k].0@, given[k].1@)->0,
        decreases total - i,
    {
        let (name, data) = rest.remove(0);
        assert((name, data) == given[i as int]);
        match plan_entry(name.as_str(), data) {
            Ok(step) => {
                steps.push(step);
            },
            Err(e) => {
                assert(entry_step(given[i as int].0@, given[i as int].1@) is None);
                return Err(e);
            },
        }
        i = i + 1;
    }
    Ok(steps)
}

#[verifier::external_type_specification]
#[verifier::external_body]
#[verifier::reject_recursive_types(R)]
pub struct ExZipArchive<R>(ZipArchive<R>);

#[verifier::external_type_specification]
#[verifier::external_body]
#[verifier::reject_recursive_types(T)]
pub struct ExCursor<T>(Cursor<T>);

#[verifier::external_type_specification]
#[verifier::external_body]
pub struct ExZipError(ZipError);

/// The entries of an opened archive, in stored order: each entry's stored
/// name and its decompressed content.
pub uninterp spec fn archive_entries(a: ZipArchive<Cursor<Vec<u8>>>) -> Seq<(Seq<char>, Seq<u8>)>;

/// The entries that the ZIP archive `bytes` decodes to, in stored order, as
/// (stored name, decompressed content).
pub uninterp spec fn zip_entries_of(bytes: Seq<u8>) -> Seq<(Seq<char>, Seq<u8>)>;

/// Whether zip reads a central directory from `bytes`.
pub uninterp spec fn zip_opens(bytes: Seq<u8>) -> bool;

/// Whether the entry at index `i` of the archive `bytes` reads to the end:
/// its compression method is supported and its content decompresses and
/// matches its checksum.
pub uninterp spec fn entry_readable(bytes: Seq<u8>, i: int) -> bool;

/// The bytes an opened archive reads from.
pub uninterp spec fn archive_bytes(a: ZipArchive<Cursor<Vec<u8>>>) -> Seq<u8>;

/// Whether `bytes` are a ZIP archive whose every entry reads.
pub open spec fn zip_readable(bytes: Seq<u8>) -> bool {
    &&& zip_opens(bytes)
    &&& forall|i: int| 0 <= i < zip_entries_of(bytes).len() ==> #[trigger] entry_readable(bytes, i)
}

/// Relies on zip::ZipArchive::new: reads the central directory of an archive
/// held in memory, or fails on bytes that are not one. Whether it succeeds,
/// and the entries of the opened archive, depend on the bytes alone.
#[verifier::external_body]
fn open_archive(bytes: Vec<u8>) -> (r: Result<ZipArchive<Cursor<Vec<u8>>>, ZipError>)
    ensures
        r is Ok <==> zip_opens(bytes@),
        r is Ok ==> archive_entries(r->Ok_0) == zip_entries_of(bytes@) && archive_bytes(r->Ok_0) == bytes@,
{
    ZipArchive::new(Cursor::new(bytes))
}

/// Relies on zip::ZipArchive::len: the number of entries.
#[verifier::external_body]
fn archive_len(a: &ZipArchive<Cursor<Vec<u8>>>) -> (r: usize)
    ensures
        r == archive_entries(*a).len(),
{
    a.len()
}

/// Relies on zip::ZipArchive::by_index: the entry at `i`, its name taken with
/// ZipFile::name and its content read to the end (decompressed and checked);
/// an index past the last entry fails. Reading an entry leaves the archive's
/// entries and bytes as they were.
#[verifier::external_body]
fn read_entry(a: &mut ZipArchive<Cursor<Vec<u8>>>, i: usize) -> (r: Result<(String, Vec<u8>), ZipError>)
    ensures
        archive_entries(*final(a)) == archive_entries(*old(a)),
        archive_bytes(*final(a)) == archive_bytes(*old(a)),
        r is Ok <==> i < archive_entries(*old(a)).len() && entry_readable(archive_bytes(*old(a)), i as int),
        r is Ok ==> r->Ok_0.0@ == archive_entries(*old(a))[i as int].0
            && r->Ok_0.1@ == archive_entries(*old(a))[i as int].1,
{
    let mut file = a.by_index(i)?;
    let mut data = Vec::new();
    std::io::Read::read_to_end(&mut file, &mut data)?;
    Ok((file.name().to_owned(), data))
}

/// The (stored name, content) pairs of entries.
pub open spec fn entry_views(es: Seq<(String, Vec<u8>)>) -> Seq<(Seq<char>, Seq<u8>)> {
    es.map_values(|e: (String, Vec<u8>)| (e.0@, e.1@))
}

/// The entries of a ZIP archive held in memory, as (stored name, content)
/// pairs in stored order. Bytes that do not decode, or an entry that cannot
/// be read, are an `ExtractFailed`.
pub fn read_archive(bytes: Vec<u8>) -> (r: Result<Vec<(String, Vec<u8>)>, AppError>)
    ensures
        r is Err ==> r->Err_0.spec_kind() == ErrorKind::ExtractFailed,
        r is Ok <==> zip_readable(bytes@),
        r is Ok ==> entry_views(r->Ok_0@) == zip_entries_of(bytes@),
{
    let ghost all = bytes@;
    let mut archive = match open_archive(bytes) {
        Ok(a) => a,
        Err(e) => return Err(AppError::ExtractFailed(e.to_string())),
    };
    let n = archive_len(&archive);
    let mut out: Vec<(String, Vec<u8>)> = Vec::new();
    let mut i: usize = 0;
    while i < n
        invariant
            n == zip_entries_of(all).len(),
            all == bytes@,
            zip_opens(all),
            archive_entries(archive) == zip_entries_of(all),
            archive_bytes(archive) == all,
            forall|k: int| 0 <= k < i ==> #[trigger] entry_readable(all, k),
            i <= n,
            entry_views(out@) == zip_entries_of(all).subrange(0, i as int),
        decreases n - i,
    {
        match read_entry(&mut archive, i) {
            Ok(entry) => {
                let ghost before = out@;
                out.push(entry);
                assert(entry_views(out@) == entry_views(before).push((entry.0@, entry.1@)));
                assert(zip_entries_of(all).subrange(0, i + 1) == zip_entries_of(all).subrange(0, i as int).push(zip_entries_of(all)[i as int]));
            },
            Err(e) => {
                assert(!entry_readable(all, i as int));
                return Err(AppError::ExtractFailed(e.to_string()));
            },
        }
        i = i + 1;
    }
    assert(zip_entries_of(all).subrange(0, n as int) == zip_entries_of(all));
    Ok(out)
}

/// The steps that extract the ZIP archive `bytes`, one per entry in stored
/// order. It fails with `ExtractFailed`, before anything is written, when the
/// bytes do not decode, and whenever an entry would land outside the
/// extraction root.
pub fn plan_extract(bytes: Vec<u8>) -> (r: Result<Vec<ExtractStep>, AppError>)
    ensures
        r is Err ==> r->Err_0.spec_kind() == ErrorKind::ExtractFailed,
        r is Ok <==> zip_readable(bytes@) && forall|k: int| 0 <= k < zip_entries_of(bytes@).len()
            ==> (#[trigger] entry_step(zip_entries_of(bytes@)[k].0, zip_entries_of(bytes@)[k].1)) is Some,
        r is Ok ==> r->Ok_0@.len() == zip_entries_of(bytes@).len() && forall|k: int|
            0 <= k < r->Ok_0@.len() ==> Some((#[trigger] r->Ok_0@[k])@) == entry_step(
                zip_entries_of(bytes@)[k].0,
                zip_entries_of(bytes@)[k].1,
            ),
{
    let ghost all = bytes@;
    let entries = read_archive(bytes)?;
    let ghost es = entries@;
    assert forall|k: int| 0 <= k < es.len() implies es[k].0@ == zip_entries_of(all)[k].0 && es[k].1@
        == zip_entries_of(all)[k].1 by {
        assert(entry_views(es)[k] == (es[k].0@, es[k].1@));
    }
    match plan_entries(entries) {
        Ok(steps) => Ok(steps),
        Err(e) => {
            proof {
                let k = choose|k: int| 0 <= k < es.len() && !(#[trigger] entry_step(es[k].0@, es[k].1@) is Some);
                assert(entry_step(zip_entries_of(all)[k].0, zip_entries_of(all)[k].1) is None);
                assert(all == bytes@);
            }
            Err(e)
        },
    }
}

/// One path met while walking the source directory.
#[derive(Debug)]
pub struct WalkedEntry {
    /// The path relative to the source directory, or `None` when it cannot be
    /// written as text. The source directory itself is the empty path.
    pub relative: Option<String>,
    pub is_file: bool,
    /// A file's content; empty for a directory.
    pub data: Vec<u8>,
}

pub struct WalkedView {
    pub relative: Option<Seq<char>>,
    pub is_file: bool,
    pub data: Seq<u8>,
}

impl View for WalkedEntry {
    type V = WalkedView;

    open spec fn view(&self) -> WalkedView {
        WalkedView {
            relative: match self.relative {
                Some(r) => Some(r@),
                None => None,
            },
            is_file: self.is_file,
            data: self.data@,
        }
    }
}

/// The name a directory entry is stored under: with a trailing separator.
pub open spec fn dir_entry_name(name: Seq<char>) -> Seq<char> {
    if name.len() > 0 && is_separator(name.last()) {
        name
    } else {
        name + "/"@
    }
}

/// The compression method of file entries: deflate, by its ZIP method code.
pub const FILE_METHOD: u16 = 8;

/// The compression method code of directory entries: stored.
pub const STORED_METHOD: u16 = 0;

/// The Unix permissions given to every entry.
pub const ENTRY_PERMISSIONS: u32 = 0o755;

/// The archive entry a walked path becomes, as (stored name, content,
/// compression method, permissions): a file with its content, deflated; a
/// directory as an empty stored entry with a trailing separator; nothing for
/// the source directory itself.
pub open spec fn packed_entry(e: WalkedView) -> Seq<(Seq<char>, Seq<u8>, u16, u32)> {
    let name = e.relative->0;
    if e.is_file {
        seq![(name, e.data, FILE_METHOD, ENTRY_PERMISSIONS)]
    } else if name.len() == 0 {
        Seq::empty()
    } else {
        seq![(dir_entry_name(name), Seq::<u8>::empty(), STORED_METHOD, ENTRY_PERMISSIONS)]
    }
}

/// The entries an archive of the walked paths holds, in walk order.
pub open spec fn packed_entries(es: Seq<WalkedView>) -> Seq<(Seq<char>, Seq<u8>, u16, u32)>
    decreases es.len(),
{
    if es.len() == 0 {
        Seq::empty()
    } else {
        packed_entries(es.drop_last()) + packed_entry(es.last())
    }
}

/// Whether every walked path can be written as text.
pub open spec fn all_named(es: Seq<WalkedView>) -> bool {
    forall|k: int| 0 <= k < es.len() ==> (#[trigger] es[k]).relative is Some
}

pub open spec fn walked_views(es: Seq<WalkedEntry>) -> Seq<WalkedView> {
    es.map_values(|e: WalkedEntry| e@)
}

/// A ZIP writer into an in-memory buffer. Verus cannot take a declaration
/// of `ZipWriter` itself, whose parameter is bound by `std::io::Write` and
/// `std::io::Seek`, so the writer is held here, out of Verus's sight.
#[verifier::external_body]
pub struct ArchiveWriter {
    inner: ZipWriter<Cursor<Vec<u8>>>,
}

/// The entries written so far, as (stored name, content, compression method,
/// permissions), the last two as handed to the writer.
pub uninterp spec fn written_entries(w: ArchiveWriter) -> Seq<(Seq<char>, Seq<u8>, u16, u32)>;

/// Whether every call on the writer so far succeeded.
pub uninterp spec fn writer_intact(w: ArchiveWriter) -> bool;

/// Whether an intact writer holding `entries` starts a file entry.
pub uninterp spec fn file_start_ok(
    entries: Seq<(Seq<char>, Seq<u8>, u16, u32)>,
    name: Seq<char>,
    method: u16,
    permissions: u32,
) -> bool;

/// Whether an intact writer holding `entries` takes `data` for the file
/// entry opened last.
pub uninterp spec fn data_write_ok(entries: Seq<(Seq<char>, Seq<u8>, u16, u32)>, data: Seq<u8>) -> bool;

/// Whether an intact writer holding `entries` adds a directory entry.
pub uninterp spec fn directory_add_ok(
    entries: Seq<(Seq<char>, Seq<u8>, u16, u32)>,
    name: Seq<char>,
    permissions: u32,
) -> bool;

/// Whether an intact writer holding `entries` finishes the archive.
pub uninterp spec fn finish_ok(entries: Seq<(Seq<char>, Seq<u8>, u16, u32)>) -> bool;

/// The bytes of the archive that finishing an intact writer holding
/// `entries` produces.
pub uninterp spec fn finished_archive(entries: Seq<(Seq<char>, Seq<u8>, u16, u32)>) -> Seq<u8>;

/// Relies on zip::ZipWriter::new: a writer into an empty in-memory buffer,
/// holding no entries.
#[verifier::external_body]
fn new_writer() -> (r: ArchiveWriter)
    ensures
        written_entries(r) == Seq::<(Seq<char>, Seq<u8>, u16, u32)>::empty(),
        writer_intact(r),
{
    ArchiveWriter { inner: ZipWriter::new(Cursor::new(Vec::new())) }
}

/// Relies on zip::ZipWriter::start_file, with the options'
/// compression_method (CompressionMethod::from_u16) and unix_permissions set
/// from `method` and `permissions`: opens a new file entry under `name`, with
/// no content yet. Whether it succeeds depends on the entries written before
/// and on the arguments (a repeated name fails).
#[verifier::external_body]
#[allow(deprecated)]
fn start_file(w: &mut ArchiveWriter, name: &str, method: u16, permissions: u32) -> (r: Result<(), ZipError>)
    requires
        writer_intact(*old(w)),
    ensures
        r is Ok <==> file_start_ok(written_entries(*old(w)), name@, method, permissions),
        r is Ok ==> writer_intact(*final(w)) && written_entries(*final(w)) == written_entries(*old(w)).push(
            (name@, Seq::<u8>::empty(), method, permissions),
        ),
{
    let options = SimpleFileOptions::default().compression_method(CompressionMethod::from_u16(method)).unix_permissions(permissions);
    w.inner.start_file(name, options)
}

/// Relies on `<ZipWriter as Write>::write_all`: appends `data` to the file
/// entry opened last. Empty data changes nothing; other data fails when no
/// file entry is open.
#[verifier::external_body]
fn write_data(w: &mut ArchiveWriter, data: &[u8]) -> (r: Result<(), ZipError>)
    requires
        writer_intact(*old(w)),
    ensures
        r is Ok <==> data_write_ok(written_entries(*old(w)), data@),
        r is Ok ==> writer_intact(*final(w)),
        r is Ok && data@.len() == 0 ==> written_entries(*final(w)) == written_entries(*old(w)),
        r is Ok && data@.len() > 0 ==> written_entries(*old(w)).len() > 0 && written_entries(*final(w))
            == written_entries(*old(w)).update(
            written_entries(*old(w)).len() - 1,
            (
                written_entries(*old(w)).last().0,
                written_entries(*old(w)).last().1 + data@,
                written_entries(*old(w)).last().2,
                written_entries(*old(w)).last().3,
            ),
        ),
{
    w.inner.write_all(data).map_err(ZipError::from)
}

/// Relies on zip::ZipWriter::add_directory, with the options'
/// unix_permissions set from `permissions`: adds an empty directory entry,
/// stored uncompressed, appending a `/` to the name unless it ends with a
/// separator. Whether it succeeds depends on the entries written before and
/// on the arguments.
#[verifier::external_body]
fn add_directory(w: &mut ArchiveWriter, name: &str, permissions: u32) -> (r: Result<(), ZipError>)
    requires
        writer_intact(*old(w)),
    ensures
        r is Ok <==> directory_add_ok(written_entries(*old(w)), name@, permissions),
        r is Ok ==> writer_intact(*final(w)) && written_entries(*final(w)) == written_entries(*old(w)).push(
            (dir_entry_name(name@), Seq::<u8>::empty(), STORED_METHOD, permissions),
        ),
{
    w.inner.add_directory(name, SimpleFileOptions::default().unix_permissions(permissions))
}

/// Relies on zip::ZipWriter::finish: writes the central directory and hands
/// back the buffer.
#[verifier::external_body]
fn finish_writer(w: ArchiveWriter) -> (r: Result<Vec<u8>, ZipError>)
    requires
        writer_intact(w),
    ensures
        r is Ok <==> finish_ok(written_entries(w)),
        r is Ok ==> r->Ok_0@ == finished_archive(written_entries(w)),
{
    w.inner.finish().map(Cursor::into_inner)
}

/// Whether the writer takes the entry of walked path `e` after holding `prev`.
pub open spec fn packs_after(prev: Seq<(Seq<char>, Seq<u8>, u16, u32)>, e: WalkedView) -> bool {
    let name = e.relative->0;
    if e.is_file {
        &&& file_start_ok(prev, name, FILE_METHOD, ENTRY_PERMISSIONS)
        &&& data_write_ok(prev.push((name, Seq::<u8>::empty(), FILE_METHOD, ENTRY_PERMISSIONS)), e.data)
    } else if name.len() == 0 {
        true
    } else {
        directory_add_ok(prev, name, ENTRY_PERMISSIONS)
    }
}

/// Whether the writer takes the entries of all walked paths, in order.
pub open spec fn packs(es: Seq<WalkedView>) -> bool
    decreases es.len(),
{
    if es.len() == 0 {
        true
    } else {
        packs(es.drop_last()) && packs_after(packed_entries(es.drop_last()), es.last())
    }
}

/// Packs walked paths into a ZIP archive held in memory: each file with its
/// content, deflated; each directory but the source directory itself as an
/// explicit entry. A path that cannot be written as text aborts the whole
/// archive with `ArchiveFailed`, as does a failure of the writer.
pub fn zip_dir(entries: Vec<WalkedEntry>) -> (r: Result<Vec<u8>, AppError>)
    ensures
        r is Ok <==> all_named(walked_views(entries@)) && packs(walked_views(entries@)) && finish_ok(
            packed_entries(walked_views(entries@)),
        ),
        r is Ok ==> r->Ok_0@ == finished_archive(packed_entries(walked_views(entries@))),
        r is Err ==> r->Err_0.spec_kind() == ErrorKind::ArchiveFailed,
{
    let ghost given = walked_views(entries@);
    let mut writer = new_writer();
    let mut i: usize = 0;
    assert(given.subrange(0, 0) == Seq::<WalkedView>::empty());
    while i < entries.len()
        invariant
            i <= entries@.len(),
            given == walked_views(entries@),
            writer_intact(writer),
            all_named(given.subrange(0, i as int)),
            packs(given.subrange(0, i as int)),
            written_entries(writer) == packed_entries(given.subrange(0, i as int)),
        decreases entries@.len() - i,
    {
        let e = &entries[i];
        let ghost before = written_entries(writer);
        let ghost prefix = given.subrange(0, i as int);
        assert(given.subrange(0, i + 1).drop_last() == prefix);
        assert(given[i as int] == e@);
        assert(given.subrange(0, i + 1).last() == e@);
        match &e.relative {
            None => {
                assert(!all_named(given) && !(given[i as int].relative is Some));
                return Err(AppError::ArchiveFailed(String::from_str("a path under the source directory is not valid text")));
            },
            Some(rel) => {
                if e.is_file {
                    if let Err(err) = start_file(&mut writer, rel.as_str(), FILE_METHOD, ENTRY_PERMISSIONS) {
                        proof { lemma_packs_prefix(given, i as int); }
                        return Err(AppError::ArchiveFailed(err.to_string()));
                    }
                    if let Err(err) = write_data(&mut writer, e.data.as_slice()) {
                        proof { lemma_packs_prefix(given, i as int); }
                        return Err(AppError::ArchiveFailed(err.to_string()));
                    }
                    assert(Seq::<u8>::empty() + e.data@ == e.data@);
                    assert(written_entries(writer) == before + packed_entry(e@));
                } else if rel.unicode_len() > 0 {
                    if let Err(err) = add_directory(&mut writer, rel.as_str(), ENTRY_PERMISSIONS) {
                        proof { lemma_packs_prefix(given, i as int); }
                        return Err(AppError::ArchiveFailed(err.to_string()));
                    }
                    assert(written_entries(writer) == before + packed_entry(e@));
                } else {
                    assert(written_entries(writer) == before + packed_entry(e@));
                }
            },
        }
        assert(all_named(given.subrange(0, i + 1)));
        assert(packs(given.subrange(0, i + 1)));
        i = i + 1;
    }
    assert(given.subrange(0, i as int) == given);
    match finish_writer(writer) {
        Ok(bytes) => Ok(bytes),
        Err(err) => Err(AppError::ArchiveFailed(err.to_string())),
    }
}

/// Walked paths that the writer does not take at index `i` are not taken as
/// a whole either.
proof fn lemma_packs_prefix(es: Seq<WalkedView>, i: int)
    requires
        0 <= i < es.len(),
        !packs_after(packed_entries(es.subrange(0, i)), es[i]),
    ensures
        !packs(es),
    decreases es.len(),
{
    if i < es.len() - 1 {
        assert(es.drop_last().subrange(0, i) == es.subrange(0, i));
        lemma_packs_prefix(es.drop_last(), i);
    } else {
        assert(es.drop_last() == es.subrange(0, i));
    }
}

} // verus!
