//! What a changed file means for a running demo: Rust sources ask for a
//! rebuild, shaders for a shader reload. Changes are collected, debounced
//! and deduplicated by path.
use crate::text_util::str_eq;
use vstd::prelude::*;

verus! {

/// A changed file, by kind, with its path.
#[derive(Debug, Clone)]
pub enum FileChange {
    /// A Rust source file.
    RustSource(String),
    /// A shader source file.
    Shader(String),
    /// Any other file.
    Unknown(String),
}

/// The kind of a change without its path.
#[derive(Debug, Clone, Copy, PartialEq, Eq, Structural)]
pub enum ChangeKind {
    RustSource,
    Shader,
    Unknown,
}

pub open spec fn change_kind(c: FileChange) -> ChangeKind {
    match c {
        FileChange::RustSource(_) => ChangeKind::RustSource,
        FileChange::Shader(_) => ChangeKind::Shader,
        FileChange::Unknown(_) => ChangeKind::Unknown,
    }
}

pub open spec fn change_path(c: FileChange) -> Seq<char> {
    match c {
        FileChange::RustSource(p) => p@,
        FileChange::Shader(p) => p@,
        FileChange::Unknown(p) => p@,
    }
}

/// A change as a value: its kind and its path.
pub open spec fn change_view(c: FileChange) -> (ChangeKind, Seq<char>) {
    (change_kind(c), change_path(c))
}

pub open spec fn changes_view(s: Seq<FileChange>) -> Seq<(ChangeKind, Seq<char>)> {
    s.map_values(|c: FileChange| change_view(c))
}

/// The extension of a path, as `std::path::Path::extension` gives it.
pub uninterp spec fn path_extension(path: Seq<char>) -> Option<Seq<char>>;

/// The file stem of a path, as `std::path::Path::file_stem` gives it.
pub uninterp spec fn path_file_stem(path: Seq<char>) -> Option<Seq<char>>;

/// Calls `Path::extension` on `path`; its result is named, not described.
#[verifier::external_body]
fn extension_of(path: &str) -> (r: Option<String>)
    ensures
        match r {
            Some(e) => path_extension(path@) == Some(e@),
            None => path_extension(path@) is None,
        },
{
    match std::path::Path::new(path).extension() {
        Some(ext) => Some(ext.to_string_lossy().into_owned()),
        None => None,
    }
}

/// Calls `Path::file_stem` on `path`; its result is named, not described.
#[verifier::external_body]
fn file_stem_of(path: &str) -> (r: Option<String>)
    ensures
        match r {
            Some(s) => path_file_stem(path@) == Some(s@),
            None => path_file_stem(path@) is None,
        },
{
    match std::path::Path::new(path).file_stem() {
        Some(stem) => Some(stem.to_string_lossy().into_owned()),
        None => None,
    }
}

/// The kind of change a file with extension `ext` makes, if any matters.
pub open spec fn kind_for_extension(ext: Option<Seq<char>>) -> Option<ChangeKind> {
    match ext {
        Some(e) => if e == "rs"@ {
            Some(ChangeKind::RustSource)
        } else if e == "slang"@ || e == "wgsl"@ {
            Some(ChangeKind::Shader)
        } else {
            None
        },
        None => None,
    }
}

impl FileChange {
    /// The change a modified file at `path` makes: Rust sources (`.rs`) and
    /// shaders (`.slang`, `.wgsl`); other files are ignored.
    pub fn from_path(path: &str) -> (r: Option<FileChange>)
        ensures
            match r {
                Some(c) => kind_for_extension(path_extension(path@)) == Some(change_kind(c)) && change_path(c)
                    == path@,
                None => kind_for_extension(path_extension(path@)) is None,
            },
    {
        let ext = match extension_of(path) {
            Some(e) => e,
            None => {
                return None;
            },
        };
        if str_eq(ext.as_str(), "rs") {
            Some(FileChange::RustSource(String::from_str(path)))
        } else if str_eq(ext.as_str(), "slang") || str_eq(ext.as_str(), "wgsl") {
            Some(FileChange::Shader(String::from_str(path)))
        } else {
            None
        }
    }

    pub fn path(&self) -> (r: &str)
        ensures
            r@ == change_path(*self),
    {
        match self {
            FileChange::RustSource(p) => p.as_str(),
            FileChange::Shader(p) => p.as_str(),
            FileChange::Unknown(p) => p.as_str(),
        }
    }

    pub fn kind(&self) -> (r: ChangeKind)
        ensures
            r == change_kind(*self),
    {
        match self {
            FileChange::RustSource(_) => ChangeKind::RustSource,
            FileChange::Shader(_) => ChangeKind::Shader,
            FileChange::Unknown(_) => ChangeKind::Unknown,
        }
    }

    /// A copy holding an equal path.
    pub fn duplicate(&self) -> (r: FileChange)
        ensures
            change_view(r) == change_view(*self),
    {
        match self {
            FileChange::RustSource(p) => FileChange::RustSource(p.clone()),
            FileChange::Shader(p) => FileChange::Shader(p.clone()),
            FileChange::Unknown(p) => FileChange::Unknown(p.clone()),
        }
    }
}

/// Some change of `s` is of kind `kind`.
pub open spec fn has_kind(s: Seq<FileChange>, kind: ChangeKind) -> bool {
    exists|i: int| 0 <= i < s.len() && change_kind(#[trigger] s[i]) == kind
}

fn any_of_kind(changes: &Vec<FileChange>, kind: ChangeKind) -> (r: bool)
    ensures
        r == has_kind(changes@, kind),
{
    let mut i: usize = 0;
    while i < changes.len()
        invariant
            0 <= i <= changes@.len(),
            forall|j: int| 0 <= j < i ==> change_kind(#[trigger] changes@[j]) != kind,
        decreases changes@.len() - i,
    {
        if changes[i].kind() == kind {
            return true;
        }
        i += 1;
    }
    false
}

/// Whether any Rust source changed.
pub fn has_rust_changes(changes: &Vec<FileChange>) -> (r: bool)
    ensures
        r == has_kind(changes@, ChangeKind::RustSource),
{
    any_of_kind(changes, ChangeKind::RustSource)
}

/// Whether any shader changed.
pub fn has_shader_changes(changes: &Vec<FileChange>) -> (r: bool)
    ensures
        r == has_kind(changes@, ChangeKind::Shader),
{
    any_of_kind(changes, ChangeKind::Shader)
}

/// The file stems of the changed shaders, in order; shaders without a stem
/// are skipped.
pub open spec fn shader_stems(s: Seq<FileChange>) -> Seq<Seq<char>>
    decreases s.len(),
{
    if s.len() == 0 {
        Seq::empty()
    } else {
        let rest = shader_stems(s.drop_last());
        let c = s.last();
        if change_kind(c) == ChangeKind::Shader {
            match path_file_stem(change_path(c)) {
                Some(stem) => rest.push(stem),
                None => rest,
            }
        } else {
            rest
        }
    }
}

/// The names of the shaders that changed.
pub fn changed_shaders(changes: &Vec<FileChange>) -> (r: Vec<String>)
    ensures
        r@.map_values(|s: String| s@) == shader_stems(changes@),
{
    let mut names: Vec<String> = Vec::new();
    let mut i: usize = 0;
    while i < changes.len()
        invariant
            0 <= i <= changes@.len(),
            names@.map_values(|s: String| s@) == shader_stems(changes@.take(i as int)),
        decreases changes@.len() - i,
    {
        proof {
            assert(changes@.take(i as int + 1).drop_last() =~= changes@.take(i as int));
        }
        let c = &changes[i];
        if c.kind() == ChangeKind::Shader {
            if let Some(stem) = file_stem_of(c.path()) {
                names.push(stem);
            }
        }
        proof {
            assert(names@.map_values(|s: String| s@) =~= shader_stems(changes@.take(i as int + 1)));
        }
        i += 1;
    }
    proof {
        assert(changes@.take(changes@.len() as int) =~= changes@);
    }
    names
}

/// `s` without the changes whose path an earlier change already has.
pub open spec fn dedup_changes_spec(s: Seq<(ChangeKind, Seq<char>)>) -> Seq<(ChangeKind, Seq<char>)>
    decreases s.len(),
{
    if s.len() == 0 {
        Seq::empty()
    } else {
        let kept = dedup_changes_spec(s.drop_last());
        if exists|k: int| 0 <= k < kept.len() && (#[trigger] kept[k]).1 == s.last().1 {
            kept
        } else {
            kept.push(s.last())
        }
    }
}

/// The changes, each path kept once, at its first change.
pub fn dedup_changes(changes: &Vec<FileChange>) -> (r: Vec<FileChange>)
    ensures
        changes_view(r@) == dedup_changes_spec(changes_view(changes@)),
{
    let mut unique: Vec<FileChange> = Vec::new();
    let mut i: usize = 0;
    while i < changes.len()
        invariant
            0 <= i <= changes@.len(),
            changes_view(unique@) == dedup_changes_spec(changes_view(changes@.take(i as int))),
        decreases changes@.len() - i,
    {
        let ghost prefix = changes_view(changes@.take(i as int));
        let ghost next = changes_view(changes@.take(i as int + 1));
        proof {
            assert(next.drop_last() =~= prefix);
            assert(next.last() == change_view(changes@[i as int]));
        }
        let path = changes[i].path();
        let mut seen = false;
        let mut k: usize = 0;
        while k < unique.len()
            invariant
                0 <= k <= unique@.len(),
                path@ == change_path(changes@[i as int]),
                seen == exists|m: int| 0 <= m < k && change_path(#[trigger] unique@[m]) == path@,
            decreases unique@.len() - k,
        {
            if str_eq(unique[k].path(), path) {
                seen = true;
            }
            k += 1;
        }
        proof {
            let kept = changes_view(unique@);
            if seen {
                let m = choose|m: int| 0 <= m < unique@.len() && change_path(#[trigger] unique@[m]) == path@;
                assert(kept[m].1 == next.last().1);
            } else {
                assert forall|m: int| 0 <= m < kept.len() implies (#[trigger] kept[m]).1 != next.last().1 by {
                    assert(change_path(unique@[m]) != path@);
                }
            }
        }
        if !seen {
            let copy = changes[i].duplicate();
            unique.push(copy);
            proof {
                assert(changes_view(unique@) =~= dedup_changes_spec(next));
            }
        }
        i += 1;
    }
    proof {
        assert(changes@.take(changes@.len() as int) =~= changes@);
    }
    unique
}

/// What a poll hands on: nothing while the debounce interval since the last
/// handed-on batch has not passed, else the collected changes deduplicated.
/// The second value says whether the interval starts again.
pub fn debounce_changes(changes: &Vec<FileChange>, elapsed_ms: u64, debounce_ms: u64) -> (r: (Vec<FileChange>, bool))
    ensures
        r.1 == (changes@.len() > 0 && elapsed_ms >= debounce_ms),
        r.1 ==> changes_view(r.0@) == dedup_changes_spec(changes_view(changes@)),
        !r.1 ==> r.0@.len() == 0,
{
    if changes.len() > 0 && elapsed_ms >= debounce_ms {
        (dedup_changes(changes), true)
    } else {
        (Vec::new(), false)
    }
}

/// The paths to watch and the debounce interval.
pub struct WatcherConfig {
    pub watch_paths: Vec<String>,
    pub debounce_ms: u64,
}

impl WatcherConfig {
    /// The sources and shaders directories, with half a second of debounce.
    pub fn standard() -> (r: Self)
        ensures
            r.watch_paths@.len() == 2,
            r.watch_paths@[0]@ == "src"@,
            r.watch_paths@[1]@ == "shaders"@,
            r.debounce_ms == 500,
    {
        let mut watch_paths: Vec<String> = Vec::new();
        watch_paths.push(String::from_str("src"));
        watch_paths.push(String::from_str("shaders"));
        WatcherConfig { watch_paths, debounce_ms: 500 }
    }
}

} // verus!
