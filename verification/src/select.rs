//! Choosing a wallpaper: listing a source directory and picking one of its
//! files uniformly at random.

use vstd::prelude::*;
use crate::config::{Config, ConfigModel, Error, active_of, is_file_uri, uri_scheme, wf};

verus! {

/// The glob pattern that lists every file of `dir` carrying an extension,
/// non-recursively.
pub open spec fn pattern_of(dir: Seq<char>) -> Seq<char> {
    dir + "/*.*"@
}

/// A path turned into a file URI by the scheme prefix.
pub open spec fn uri_of(path: Seq<char>) -> Seq<char> {
    uri_scheme() + path
}

/// The glob pattern for `dir` as an owned string.
fn dir_pattern(dir: &String) -> (r: String)
    ensures
        r@ == pattern_of(dir@),
{
    dir.clone().concat("/*.*")
}

/// `path` as a file URI.
fn make_uri(path: &String) -> (r: String)
    ensures
        r@ == uri_of(path@),
{
    let mut r = "file://".to_owned();
    r.append(path.as_str());
    r
}

/// Relies on glob::glob: the paths on disk that match the pattern. The
/// outcome depends on the filesystem, so nothing is promised of it. `None`
/// when the pattern is invalid or a matched path could not be read.
#[verifier::external_body]
fn list_matches(pattern: &str) -> (r: Option<Vec<String>>) {
    let paths = match glob::glob(pattern) {
        Ok(p) => p,
        Err(_) => return None,
    };
    let mut v: Vec<String> = Vec::new();
    for entry in paths {
        match entry {
            Ok(p) => v.push(format!("{}", p.display())),
            Err(_) => return None,
        }
    }
    Some(v)
}

/// Relies on rand::random_range: a uniformly random index below `n`. The
/// range must not be empty.
#[verifier::external_body]
fn random_below(n: usize) -> (r: usize)
    requires
        n > 0,
    ensures
        r < n,
{
    rand::random_range(0..n)
}

/// Choose one file uniformly at random from a directory listing and return
/// it as a file URI. An empty listing is a `SelectionError`; nothing else
/// fails.
pub fn pick_random(files: &Vec<String>) -> (r: Result<String, Error>)
    ensures
        r is Ok <==> files@.len() > 0,
        r matches Ok(s) ==> exists|i: int|
            0 <= i < files@.len() && s@ == uri_of(files@[i]@),
        files@.len() == 1 ==> (r matches Ok(s) && s@ == uri_of(files@[0]@)),
        r matches Ok(s) ==> is_file_uri(s@),
        r matches Err(e) ==> e is SelectionError,
{
    if files.len() == 0 {
        Err(Error::SelectionError("could not pick image: directory is empty".to_owned()))
    } else {
        let i = random_below(files.len());
        let u = make_uri(&files[i]);
        proof {
            lemma_uri_has_scheme(files@[i as int]@);
            assert(u@ == uri_of(files@[i as int]@));
        }
        Ok(u)
    }
}

/// A file URI starts with the scheme prefix.
proof fn lemma_uri_has_scheme(path: Seq<char>)
    ensures
        is_file_uri(uri_of(path)),
{
    assert(uri_of(path).subrange(0, uri_scheme().len() as int) =~= uri_scheme());
}

/// List the files of `dir` and choose one uniformly at random, as a file
/// URI. The listing comes from the filesystem, so success cannot be
/// promised: whatever comes back is either a URI of a listed file or a
/// `SelectionError` (directory unreadable or empty).
pub fn select_new(dir: &String) -> (r: Result<String, Error>)
    ensures
        r matches Ok(s) ==> is_file_uri(s@),
        r matches Err(e) ==> e is SelectionError,
{
    let pattern = dir_pattern(dir);
    match list_matches(pattern.as_str()) {
        None => Err(Error::SelectionError("could not read dir".to_owned())),
        Some(files) => pick_random(&files),
    }
}

/// The wallpaper to apply: the pre-selected candidate for the active
/// directory when a candidate list is cached, else a fresh random pick from
/// the active directory.
pub fn get_next(config: &Config) -> (r: Result<String, Error>)
    requires
        wf(config@),
    ensures
        config@.next matches Some(n) ==> (r matches Ok(s) && s@ == n[active_of(config@)]),
        config@.next is None ==> (r matches Ok(s) ==> is_file_uri(s@)),
        r matches Err(e) ==> e is SelectionError,
{
    let a = config.active_index();
    match &config.next {
        Some(next) => Ok(next[a].clone()),
        None => select_new(&config.dirs[a]),
    }
}

/// Pre-select one random wallpaper per directory and cache the list in the
/// record: one file URI for each directory, in the directories' order. On
/// failure the record is left unchanged. With no directories at all there is
/// nothing to pick, so the empty cache always succeeds.
pub fn cache_next(config: &mut Config) -> (r: Result<(), Error>)
    ensures
        old(config)@.dirs.len() == 0 ==> r is Ok,
        r is Ok ==> {
            &&& final(config)@.next matches Some(n) && n.len() == old(config)@.dirs.len()
                && (forall|i: int| 0 <= i < n.len() ==> is_file_uri(n[i]))
            &&& final(config)@.dirs == old(config)@.dirs
            &&& final(config)@.duration == old(config)@.duration
            &&& final(config)@.active_dir == old(config)@.active_dir
            &&& final(config)@.current == old(config)@.current
        },
        r is Err ==> final(config)@ == old(config)@,
        r matches Err(e) ==> e is SelectionError,
{
    let mut next: Vec<String> = Vec::new();
    let n = config.dirs.len();
    let mut i: usize = 0;
    while i < n
        invariant
            n == config.dirs.len(),
            0 <= i <= n,
            next@.len() == i,
            forall|j: int| 0 <= j < i ==> is_file_uri(next@[j]@),
        decreases n - i,
    {
        match select_new(&config.dirs[i]) {
            Ok(s) => {
                next.push(s);
            },
            Err(e) => {
                return Err(e);
            },
        }
        i = i + 1;
    }
    let ghost cached = next@.map_values(|s: String| s@);
    config.next = Some(next);
    proof {
        assert(config@ =~= (ConfigModel { next: Some(cached), ..old(config)@ }));
        assert(forall|j: int| 0 <= j < cached.len() ==> is_file_uri(#[trigger] cached[j]));
    }
    Ok(())
}

} // verus!
