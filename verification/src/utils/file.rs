use vstd::prelude::*;
use crate::error::HiveDropError;
use crate::text::{chars_of, concat, push_char, push_str};
use crate::types::{PendingSendFileInfo, SendFileView};
use crate::utils::gen_id::generate_file_id;

verus! {

/// Whether `pattern` is a valid glob pattern (`glob::Pattern::new` accepts it).
pub uninterp spec fn glob_pattern_valid(pattern: Seq<char>) -> bool;

/// The text of the error `glob::Pattern::new` gives for an invalid `pattern`.
pub uninterp spec fn glob_error_text(pattern: Seq<char>) -> Seq<char>;

/// Whether the valid glob pattern `pattern` matches `name` (`glob::Pattern::matches`).
pub uninterp spec fn glob_match(pattern: Seq<char>, name: Seq<char>) -> bool;

/// The MIME type that `mime_guess` guesses from the extension of `path`
/// (`application/octet-stream` when it knows none).
pub uninterp spec fn guessed_mime(path: Seq<char>) -> Seq<char>;

/// Checks a glob pattern (`glob::Pattern::new`).
/// Trusted: `Ok` exactly when the pattern is valid, else the error's text.
#[verifier::external_body]
fn check_glob(pattern: &str) -> (r: Result<(), String>)
    ensures
        r is Ok <==> glob_pattern_valid(pattern@),
        r matches Err(m) ==> m@ == glob_error_text(pattern@),
{
    match glob::Pattern::new(pattern) {
        Ok(_) => Ok(()),
        Err(e) => Err(e.to_string()),
    }
}

/// Whether the valid glob pattern `pattern` matches `name`
/// (`glob::Pattern::new`, then `Pattern::matches`).
/// Trusted: the answer is `glob_match` of the two texts; the pattern is compiled
/// here from its text, which `requires` says is valid, so the `Err` arm is never
/// taken.
#[verifier::external_body]
fn glob_matches(pattern: &str, name: &str) -> (r: bool)
    requires
        glob_pattern_valid(pattern@),
    ensures
        r == glob_match(pattern@, name@),
{
    match glob::Pattern::new(pattern) {
        Ok(p) => p.matches(name),
        Err(_) => false,
    }
}

/// The MIME type guessed from the extension of `path`
/// (`mime_guess::from_path(path).first_or_octet_stream()`, as text).
/// Trusted: the result is `guessed_mime` of the path.
#[verifier::external_body]
fn guess_mime(path: &str) -> (r: String)
    ensures
        r@ == guessed_mime(path@),
{
    mime_guess::from_path(path).first_or_octet_stream().to_string()
}

/// What the library needs to know of a file or directory met while walking a path.
#[derive(Debug)]
pub struct FsEntry {
    /// The path, as text.
    pub path: String,
    /// The last component of the path, if it has one.
    pub file_name: Option<String>,
    /// The path relative to the base path, when it lies under it.
    pub relative: Option<String>,
    /// The absolute path (the path itself when it cannot be made absolute).
    pub absolute: String,
    /// Whether it is a directory.
    pub is_dir: bool,
    /// Its size in bytes, or the text of the error met reading its metadata.
    pub size: Result<u64, String>,
}

/// What a path to send is.
#[derive(Clone, Copy, Debug, PartialEq, Eq, Structural)]
pub enum PathKind {
    /// It does not exist.
    Missing,
    File,
    Directory,
    /// Neither a file nor a directory.
    Other,
}

/// `s` with every `\` turned into `/`.
pub open spec fn slashes(s: Seq<char>) -> Seq<char> {
    s.map_values(|c: char| if c == '\\' { '/' } else { c })
}

/// `s` with every `\` turned into `/` (`str::replace('\\', "/")`).
pub fn to_forward_slashes(s: &str) -> (r: String)
    ensures
        r@ == slashes(s@),
{
    let v = chars_of(s);
    let mut r = String::new();
    let mut i: usize = 0;
    while i < v.len()
        invariant
            v@ == s@,
            i <= v@.len(),
            r@ == slashes(v@.take(i as int)),
        decreases v@.len() - i,
    {
        let c = if v[i] == '\\' { '/' } else { v[i] };
        push_char(&mut r, c);
        assert(slashes(v@.take(i + 1)) =~= slashes(v@.take(i as int)).push(c));
        i = i + 1;
    }
    assert(v@.take(v@.len() as int) == v@);
    r
}

/// The relative path recorded for an entry named `name`: its path relative to
/// the base, or its name when it does not lie under the base, with `/` separators.
pub open spec fn relative_spec(e: FsEntry, name: Seq<char>) -> Seq<char> {
    slashes(match e.relative { Some(r) => r@, None => name })
}

/// `f` is the record of entry `e`: a fresh id, its name, relative and absolute
/// paths, nothing sent yet.
pub open spec fn entry_record(f: SendFileView, e: FsEntry) -> bool {
    &&& e.file_name is Some
    &&& crate::utils::gen_id::is_uuid_text(f.file_id)
    &&& f.file_name == e.file_name->0@
    &&& f.file_relative_path == relative_spec(e, e.file_name->0@)
    &&& f.file_absolute_path == e.absolute@
    &&& f.progress == 0
}

/// The record of directory `e`: size 0, type `inode/directory`. A path without a
/// last component is an invalid-path error.
pub fn create_dir_info(e: &FsEntry) -> (r: Result<PendingSendFileInfo, HiveDropError>)
    ensures
        e.file_name is None ==> (r matches Err(x) && x matches HiveDropError::InvalidPath(m)
            && m@ == "无法获取目录名: "@ + e.path@),
        e.file_name is Some ==> (r matches Ok(f) && entry_record(f@, *e) && f.file_size == 0
            && f.mime_type@ == "inode/directory"@ && f.is_dir),
{
    let name = match &e.file_name {
        Some(n) => n.clone(),
        None => {
            return Err(HiveDropError::InvalidPath(concat("无法获取目录名: ", e.path.as_str())));
        },
    };
    let relative = match &e.relative {
        Some(rel) => to_forward_slashes(rel.as_str()),
        None => to_forward_slashes(name.as_str()),
    };
    Ok(PendingSendFileInfo {
        file_id: generate_file_id(),
        file_name: name,
        file_relative_path: relative,
        file_absolute_path: e.absolute.clone(),
        file_size: 0,
        mime_type: "inode/directory".to_owned(),
        is_dir: true,
        progress: 0,
    })
}

/// The record of file `e`: its size, and the type guessed from its path. An
/// unreadable size is an I/O error; a path without a last component is an
/// invalid-path error; in that order.
pub fn create_file_info(e: &FsEntry) -> (r: Result<PendingSendFileInfo, HiveDropError>)
    ensures
        e.size is Err ==> (r matches Err(x) && x matches HiveDropError::IoError(m) && m@ == e.size->Err_0@),
        e.size is Ok && e.file_name is None ==> (r matches Err(x) && x matches HiveDropError::InvalidPath(m)
            && m@ == "无法获取文件名: "@ + e.path@),
        e.size is Ok && e.file_name is Some ==> (r matches Ok(f) && entry_record(f@, *e)
            && f.file_size == e.size->Ok_0 && f.mime_type@ == guessed_mime(e.path@) && !f.is_dir),
{
    let size = match &e.size {
        Ok(n) => *n,
        Err(m) => {
            return Err(HiveDropError::IoError(m.clone()));
        },
    };
    let name = match &e.file_name {
        Some(n) => n.clone(),
        None => {
            return Err(HiveDropError::InvalidPath(concat("无法获取文件名: ", e.path.as_str())));
        },
    };
    let relative = match &e.relative {
        Some(rel) => to_forward_slashes(rel.as_str()),
        None => to_forward_slashes(name.as_str()),
    };
    Ok(PendingSendFileInfo {
        file_id: generate_file_id(),
        file_name: name,
        file_relative_path: relative,
        file_absolute_path: e.absolute.clone(),
        file_size: size,
        mime_type: guess_mime(e.path.as_str()),
        is_dir: false,
        progress: 0,
    })
}

/// The position of the first invalid pattern, or the number of patterns.
pub open spec fn first_invalid(ps: Seq<Seq<char>>) -> nat
    decreases ps.len(),
{
    if ps.len() == 0 {
        0
    } else if !glob_pattern_valid(ps[0]) {
        0
    } else {
        1 + first_invalid(ps.drop_first())
    }
}

proof fn lemma_first_invalid(ps: Seq<Seq<char>>, i: int)
    requires
        0 <= i <= ps.len(),
        forall|j: int| 0 <= j < i ==> glob_pattern_valid(#[trigger] ps[j]),
        i == ps.len() || !glob_pattern_valid(ps[i]),
    ensures
        first_invalid(ps) == i,
    decreases i,
{
    if i > 0 {
        assert forall|j: int| 0 <= j < i - 1 implies glob_pattern_valid(#[trigger] ps.drop_first()[j]) by {
            assert(ps.drop_first()[j] == ps[j + 1]);
        }
        lemma_first_invalid(ps.drop_first(), i - 1);
    }
}

/// An entry is left out when it has a name that one of the patterns matches.
pub open spec fn excluded_spec(patterns: Seq<Seq<char>>, e: FsEntry) -> bool {
    e.file_name matches Some(n) && exists|i: int| 0 <= i < patterns.len() && glob_match(#[trigger] patterns[i], n@)
}

fn is_excluded(patterns: &Vec<String>, e: &FsEntry) -> (r: bool)
    requires
        forall|i: int| 0 <= i < patterns@.len() ==> glob_pattern_valid(#[trigger] patterns@[i]@),
    ensures
        r == excluded_spec(crate::text::strings_view(patterns@), *e),
{
    let ghost ps = crate::text::strings_view(patterns@);
    match &e.file_name {
        None => false,
        Some(name) => {
            let mut i: usize = 0;
            while i < patterns.len()
                invariant
                    i <= patterns@.len(),
                    e.file_name == Some(*name),
                    ps == crate::text::strings_view(patterns@),
                    forall|k: int| 0 <= k < patterns@.len() ==> glob_pattern_valid(#[trigger] patterns@[k]@),
                    forall|k: int| 0 <= k < i ==> !glob_match(#[trigger] ps[k], name@),
                decreases patterns@.len() - i,
            {
                assert(ps[i as int] == patterns@[i as int]@);
                if glob_matches(patterns[i].as_str(), name.as_str()) {
                    assert(glob_match(ps[i as int], name@));
                    return true;
                }
                i = i + 1;
            }
            false
        },
    }
}

/// A record can be made of entry `e`: it has a name, and, for a file, a size.
pub open spec fn entry_ok(e: FsEntry) -> bool {
    e.file_name is Some && (e.is_dir || e.size is Ok)
}

/// `x` is the error of making the record of file `e`: its unreadable size, or
/// else its missing name.
pub open spec fn file_error(x: HiveDropError, e: FsEntry) -> bool {
    if e.size is Err {
        x matches HiveDropError::IoError(m) && m@ == e.size->Err_0@
    } else {
        x matches HiveDropError::InvalidPath(m) && m@ == "无法获取文件名: "@ + e.path@
    }
}

/// `x` is the error of making the record of directory `e`: its missing name.
pub open spec fn dir_error(x: HiveDropError, e: FsEntry) -> bool {
    x matches HiveDropError::InvalidPath(m) && m@ == "无法获取目录名: "@ + e.path@
}

/// `x` is the error of making the record of entry `e`.
pub open spec fn entry_error(x: HiveDropError, e: FsEntry) -> bool {
    if e.is_dir { dir_error(x, e) } else { file_error(x, e) }
}

/// Entry `j` is the first entry left in by the patterns whose record cannot be made.
pub open spec fn first_bad_entry(entries: Seq<FsEntry>, patterns: Seq<Seq<char>>, j: int) -> bool {
    &&& 0 <= j < entries.len()
    &&& !excluded_spec(patterns, entries[j])
    &&& !entry_ok(entries[j])
    &&& forall|k: int| 0 <= k < j && !excluded_spec(patterns, #[trigger] entries[k]) ==> entry_ok(entries[k])
}

/// `f` is the record of directory `e`: size 0, type `inode/directory`.
pub open spec fn dir_record(f: SendFileView, e: FsEntry) -> bool {
    &&& entry_record(f, e)
    &&& f.is_dir
    &&& f.file_size == 0
    &&& f.mime_type == "inode/directory"@
}

/// `f` is the record of file `e`: its size, and the type guessed from its path.
pub open spec fn file_record(f: SendFileView, e: FsEntry) -> bool {
    &&& entry_record(f, e)
    &&& !f.is_dir
    &&& e.size is Ok
    &&& f.file_size == e.size->Ok_0
    &&& f.mime_type == guessed_mime(e.path@)
}

/// `f` is the record of entry `e` met in a walk: a directory's or a file's.
pub open spec fn walked_record(f: SendFileView, e: FsEntry) -> bool {
    if e.is_dir { dir_record(f, e) } else { file_record(f, e) }
}

/// The records a directory walk gives: the root directory's, then those of the
/// entries met, in order, leaving out the excluded ones.
pub open spec fn walk_records(fs: Seq<SendFileView>, root: FsEntry, entries: Seq<FsEntry>, patterns: Seq<Seq<char>>) -> bool {
    exists|kept: Seq<int>| {
        &&& kept.len() + 1 == fs.len()
        &&& dir_record(fs[0], root)
        &&& forall|i: int, j: int| 0 <= i < j < kept.len() ==> kept[i] < kept[j]
        &&& forall|i: int| 0 <= i < kept.len() ==> 0 <= #[trigger] kept[i] < entries.len()
            && !excluded_spec(patterns, entries[kept[i]])
            && walked_record(fs[i + 1], entries[kept[i]])
        &&& forall|j: int| 0 <= j < entries.len() && !excluded_spec(patterns, #[trigger] entries[j])
            ==> kept.contains(j)
    }
}

/// The exclusion patterns given, as texts (none when absent).
pub open spec fn patterns_of(excluded_patterns: Option<Vec<String>>) -> Seq<Seq<char>> {
    match excluded_patterns {
        Some(v) => crate::text::strings_view(v@),
        None => Seq::empty(),
    }
}

/// Turns a path to send into the records of its files: a file gives its own
/// record (none when excluded); a directory gives its own record and those of
/// everything under it (`entries`, in the order walked), except what the glob
/// patterns of `excluded_patterns` match by name. A missing path, an invalid
/// pattern, a path that is neither file nor directory, and the errors of the
/// records are errors, in that order.
pub fn path_to_transfer_structure(
    root: &FsEntry,
    kind: PathKind,
    entries: &Vec<FsEntry>,
    excluded_patterns: Option<Vec<String>>,
) -> (r: Result<Vec<PendingSendFileInfo>, HiveDropError>)
    ensures
        kind == PathKind::Missing ==> (r matches Err(x) && x matches HiveDropError::InvalidPath(m)
            && m@ == "路径不存在: "@ + root.path@),
        ({
            let ps = patterns_of(excluded_patterns);
            let fi = first_invalid(ps);
            &&& kind != PathKind::Missing && fi < ps.len() ==> (r matches Err(x) && x matches HiveDropError::GenericError(m)
                && m@ == "无效的glob模式 '"@ + ps[fi as int] + "': "@ + glob_error_text(ps[fi as int]))
            &&& kind != PathKind::Missing && fi == ps.len() ==> {
                &&& kind == PathKind::Other ==> (r matches Err(x) && x matches HiveDropError::InvalidPath(m)
                    && m@ == "路径不是文件或目录: "@ + root.path@)
                &&& kind == PathKind::File && excluded_spec(ps, *root) ==> (r matches Ok(v) && v@.len() == 0)
                &&& kind == PathKind::File && !excluded_spec(ps, *root) && root.size is Ok && root.file_name is Some ==>
                    (r matches Ok(v) && v@.len() == 1 && file_record(v@[0]@, *root))
                &&& kind == PathKind::File && !excluded_spec(ps, *root) ==>
                    (r is Ok <==> root.size is Ok && root.file_name is Some)
                &&& kind == PathKind::File && !excluded_spec(ps, *root) ==>
                    (r matches Err(x) ==> file_error(x, *root))
                &&& kind == PathKind::Directory && root.file_name is None ==>
                    (r matches Err(x) && dir_error(x, *root))
                &&& kind == PathKind::Directory && root.file_name is Some ==>
                    (r matches Err(x) ==> exists|j: int| #![trigger first_bad_entry(entries@, ps, j)] first_bad_entry(entries@, ps, j) && entry_error(x, entries@[j]))
                &&& kind == PathKind::Directory ==> (r is Ok <==> root.file_name is Some
                    && forall|j: int| 0 <= j < entries@.len() && !excluded_spec(ps, #[trigger] entries@[j])
                        ==> entry_ok(entries@[j]))
                &&& kind == PathKind::Directory ==> (r matches Ok(v) ==>
                    walk_records(v@.map_values(|f: PendingSendFileInfo| f@), *root, entries@, ps))
            }
        }),
{
    if kind == PathKind::Missing {
        return Err(HiveDropError::InvalidPath(concat("路径不存在: ", root.path.as_str())));
    }
    let ghost eps = patterns_of(excluded_patterns);
    let patterns: Vec<String> = match excluded_patterns {
        Some(v) => v,
        None => Vec::new(),
    };
    let ghost ps = crate::text::strings_view(patterns@);
    assert(ps =~= eps);
    let mut k: usize = 0;
    while k < patterns.len()
        invariant
            k <= patterns@.len(),
            kind != PathKind::Missing,
            ps == eps,
            eps == patterns_of(excluded_patterns),
            ps == crate::text::strings_view(patterns@),
            forall|j: int| 0 <= j < k ==> glob_pattern_valid(#[trigger] ps[j]),
        decreases patterns@.len() - k,
    {
        assert(ps[k as int] == patterns@[k as int]@);
        match check_glob(patterns[k].as_str()) {
            Ok(()) => {},
            Err(m) => {
                proof {
                    lemma_first_invalid(ps, k as int);
                }
                let mut text = String::new();
                push_str(&mut text, "无效的glob模式 '");
                push_str(&mut text, patterns[k].as_str());
                push_str(&mut text, "': ");
                push_str(&mut text, m.as_str());
                return Err(HiveDropError::GenericError(text));
            },
        }
        k = k + 1;
    }
    proof {
        lemma_first_invalid(ps, ps.len() as int);
        assert forall|i: int| 0 <= i < patterns@.len() implies glob_pattern_valid(#[trigger] patterns@[i]@) by {
            assert(ps[i] == patterns@[i]@);
        }
    }
    let mut result: Vec<PendingSendFileInfo> = Vec::new();
    match kind {
        PathKind::File => {
            if !is_excluded(&patterns, root) {
                match create_file_info(root) {
                    Ok(info) => result.push(info),
                    Err(x) => {
                        return Err(x);
                    },
                }
            }
            Ok(result)
        },
        PathKind::Directory => {
            let root_info = match create_dir_info(root) {
                Ok(info) => info,
                Err(x) => {
                    return Err(x);
                },
            };
            result.push(root_info);
            let ghost mut kept: Seq<int> = Seq::empty();
            let mut i: usize = 0;
            while i < entries.len()
                invariant
                    i <= entries@.len(),
                    forall|j: int| 0 <= j < patterns@.len() ==> glob_pattern_valid(#[trigger] patterns@[j]@),
                    kept.len() + 1 == result@.len(),
                    dir_record(result@[0]@, *root),
                    forall|a: int, b: int| 0 <= a < b < kept.len() ==> kept[a] < kept[b],
                    forall|a: int| 0 <= a < kept.len() ==> 0 <= #[trigger] kept[a] < i
                        && !excluded_spec(ps, entries@[kept[a]])
                        && walked_record(result@[a + 1]@, entries@[kept[a]]),
                    forall|j: int| 0 <= j < i && !excluded_spec(ps, #[trigger] entries@[j]) ==> kept.contains(j),
                    forall|j: int| 0 <= j < i && !excluded_spec(ps, #[trigger] entries@[j]) ==> entry_ok(entries@[j]),
                    root.file_name is Some,
                    ps == crate::text::strings_view(patterns@),
                    ps == eps,
                    eps == patterns_of(excluded_patterns),
                    kind == PathKind::Directory,
                    first_invalid(ps) == ps.len(),
                decreases entries@.len() - i,
            {
                let e = &entries[i];
                if !is_excluded(&patterns, e) {
                    assert(!excluded_spec(ps, entries@[i as int]));
                    let made = if e.is_dir { create_dir_info(e) } else { create_file_info(e) };
                    let info = match made {
                        Ok(info) => info,
                        Err(x) => {
                            assert(first_bad_entry(entries@, ps, i as int) && entry_error(x, entries@[i as int]));
                            return Err(x);
                        },
                    };
                    result.push(info);
                    proof {
                        let old_kept = kept;
                        kept = kept.push(i as int);
                        assert forall|j: int| 0 <= j < i + 1 && !excluded_spec(ps, #[trigger] entries@[j]) implies kept.contains(j) by {
                            if j < i {
                                let t = choose|t: int| 0 <= t < old_kept.len() && old_kept[t] == j;
                                assert(kept[t] == j);
                            } else {
                                assert(kept[kept.len() - 1] == j);
                            }
                        }
                    }
                }
                i = i + 1;
            }
            let ghost fs = result@.map_values(|f: PendingSendFileInfo| f@);
            assert(walk_records(fs, *root, entries@, ps)) by {
                assert(fs[0] == result@[0]@);
                assert forall|a: int| 0 <= a < kept.len() implies 0 <= #[trigger] kept[a] < entries@.len()
                    && !excluded_spec(ps, entries@[kept[a]])
                    && walked_record(fs[a + 1], entries@[kept[a]]) by {
                    assert(fs[a + 1] == result@[a + 1]@);
                }
            }
            Ok(result)
        },
        _ => Err(HiveDropError::InvalidPath(concat("路径不是文件或目录: ", root.path.as_str()))),
    }
}

} // verus!
