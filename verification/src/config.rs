//! The configuration record and the operations that rewrite it in memory.

use vstd::prelude::*;

verus! {

/// Error kinds of the library, each carrying a human-readable context string.
#[derive(Debug, Clone)]
pub enum Error {
    /// The configuration is malformed (bad duration, bad field).
    ConfigError(String),
    /// A wallpaper source directory is empty or unreadable.
    SelectionError(String),
    /// The external background-setting command failed.
    ApplyError(String),
}

/// The persisted configuration record: wallpaper source directories, the
/// active one, the rotation interval, the current selection and the
/// pre-selected candidates (one per directory).
#[derive(Debug, Clone, PartialEq, Eq)]
pub struct Config {
    pub dirs: Vec<String>,
    pub duration: Option<String>,
    pub active_dir: Option<usize>,
    pub current: Option<String>,
    pub next: Option<Vec<String>>,
}

/// Mathematical model of a `Config`: every string as a sequence of
/// characters.
#[verifier::ext_equal]
pub struct ConfigModel {
    pub dirs: Seq<Seq<char>>,
    pub duration: Option<Seq<char>>,
    pub active_dir: Option<usize>,
    pub current: Option<Seq<char>>,
    pub next: Option<Seq<Seq<char>>>,
}

impl View for Config {
    type V = ConfigModel;

    open spec fn view(&self) -> ConfigModel {
        ConfigModel {
            dirs: self.dirs@.map_values(|s: String| s@),
            duration: match self.duration {
                Some(d) => Some(d@),
                None => None,
            },
            active_dir: self.active_dir,
            current: match self.current {
                Some(c) => Some(c@),
                None => None,
            },
            next: match self.next {
                Some(n) => Some(n@.map_values(|s: String| s@)),
                None => None,
            },
        }
    }
}

/// The default rotation interval, used when the record has none.
pub open spec fn default_duration() -> Seq<char> {
    "10m"@
}

/// The index of the active directory: the recorded one, or the first.
pub open spec fn active_of(m: ConfigModel) -> int {
    match m.active_dir {
        Some(a) => a as int,
        None => 0,
    }
}

/// A record on which selection can run without going out of bounds: the
/// active index names one of the directories, and a pre-selected candidate
/// list, when present, has one entry per directory.
pub open spec fn wf(m: ConfigModel) -> bool {
    &&& 0 <= active_of(m) < m.dirs.len()
    &&& (m.next matches Some(n) ==> n.len() == m.dirs.len())
}

/// Where the active index moves on a toggle: one step forward, wrapping to 0
/// past the last directory.
pub open spec fn toggle_index(i: int, n: int) -> int {
    if i + 1 < n {
        i + 1
    } else {
        0
    }
}

/// What applying the defaults does to the model: a missing duration becomes
/// the default, a missing active index becomes 0; nothing else moves.
pub open spec fn normalize_model(m: ConfigModel) -> ConfigModel {
    ConfigModel {
        duration: match m.duration {
            Some(d) => Some(d),
            None => Some(default_duration()),
        },
        active_dir: match m.active_dir {
            Some(a) => Some(a),
            None => Some(0),
        },
        ..m
    }
}

impl Config {
    /// Fill the optional fields that have defaults: the rotation interval
    /// ("10m") and the active directory index (0).
    pub fn normalize(&mut self)
        ensures
            final(self)@ == normalize_model(old(self)@),
    {
        if self.duration.is_none() {
            self.duration = Some(default_duration_string());
        }
        if self.active_dir.is_none() {
            self.active_dir = Some(0);
        }
        proof {
            assert(self@ =~= normalize_model(old(self)@));
        }
    }

    /// The index of the active directory, defaulting to the first.
    pub fn active_index(&self) -> (r: usize)
        ensures
            r as int == active_of(self@),
    {
        match self.active_dir {
            Some(a) => a,
            None => 0,
        }
    }

    /// Whether selection can run on this record without going out of bounds.
    pub fn check_wf(&self) -> (r: bool)
        ensures
            r == wf(self@),
    {
        let a = self.active_index();
        let ok_active = a < self.dirs.len();
        let ok_next = match &self.next {
            Some(n) => n.len() == self.dirs.len(),
            None => true,
        };
        ok_active && ok_next
    }

    /// Switch the active directory to the next one in the list, wrapping
    /// around past the last. Nothing else moves.
    pub fn toggle_active(&mut self)
        ensures
            old(self)@.dirs.len() >= 1 ==> 0 <= active_of(final(self)@) < final(self)@.dirs.len(),
            final(self)@ == (ConfigModel {
                active_dir: Some(toggle_index(active_of(old(self)@), old(self)@.dirs.len() as int) as usize),
                ..old(self)@
            }),
    {
        let a = self.active_index();
        let n = self.dirs.len();
        let next_active: usize = if n > 0 && a < n - 1 {
            a + 1
        } else {
            0
        };
        self.active_dir = Some(next_active);
        proof {
            assert(self@ =~= (ConfigModel {
                active_dir: Some(toggle_index(active_of(old(self)@), old(self)@.dirs.len() as int) as usize),
                ..old(self)@
            }));
        }
    }

    /// Record a newly applied wallpaper as the current selection. Nothing
    /// else moves.
    pub fn record_current(&mut self, path: String)
        ensures
            final(self)@ == (ConfigModel { current: Some(path@), ..old(self)@ }),
    {
        self.current = Some(path);
        proof {
            assert(self@ =~= (ConfigModel { current: Some(path@), ..old(self)@ }));
        }
    }
}

/// The default rotation interval as an owned string.
pub fn default_duration_string() -> (r: String)
    ensures
        r@ == default_duration(),
{
    "10m".to_owned()
}

/// The URI scheme prefix that selection puts in front of a file path.
pub open spec fn uri_scheme() -> Seq<char> {
    "file://"@
}

/// A string that selection could have produced: it starts with the URI
/// scheme prefix.
pub open spec fn is_file_uri(s: Seq<char>) -> bool {
    &&& s.len() >= uri_scheme().len()
    &&& s.subrange(0, uri_scheme().len() as int) == uri_scheme()
}

/// `s` with its leading URI scheme prefix removed, when it carries one.
pub open spec fn without_scheme_prefix(s: Seq<char>) -> Seq<char> {
    if is_file_uri(s) {
        s.subrange(uri_scheme().len() as int, s.len() as int)
    } else {
        s
    }
}

proof fn lemma_scheme_len()
    ensures
        uri_scheme().len() == 7,
{
    reveal_strlit("file://");
}

/// Whether `s` starts with the URI scheme prefix.
fn has_scheme_prefix(s: &str, n: usize) -> (r: bool)
    requires
        n == s@.len(),
    ensures
        r == is_file_uri(s@),
{
    proof {
        lemma_scheme_len();
    }
    if n < 7 {
        return false;
    }
    let pat = "file://";
    proof {
        reveal_strlit("file://");
    }
    let mut j: usize = 0;
    while j < 7
        invariant
            n == s@.len(),
            n >= 7,
            0 <= j <= 7,
            uri_scheme().len() == 7,
            pat@ == uri_scheme(),
            s@.subrange(0, j as int) =~= uri_scheme().subrange(0, j as int),
        decreases 7 - j,
    {
        if s.get_char(j) != pat.get_char(j) {
            proof {
                assert(s@[j as int] != uri_scheme()[j as int]);
                assert(s@.subrange(0, 7)[j as int] == s@[j as int]);
                assert(s@.subrange(0, 7) != uri_scheme());
            }
            return false;
        }
        proof {
            assert(s@.subrange(0, j + 1) =~= uri_scheme().subrange(0, j + 1));
        }
        j = j + 1;
    }
    proof {
        assert(s@.subrange(0, 7) =~= uri_scheme());
    }
    true
}

/// `s` with its leading URI scheme prefix removed, when it carries one.
pub fn strip_scheme(s: &str) -> (r: String)
    ensures
        r@ == without_scheme_prefix(s@),
{
    proof {
        lemma_scheme_len();
    }
    let n = s.unicode_len();
    if has_scheme_prefix(s, n) {
        let rest = s.substring_char(7, n);
        rest.to_owned()
    } else {
        s.to_owned()
    }
}

/// The duration that a rotation-interval string denotes, in nanoseconds, or
/// nothing when the string is not a well-formed duration. Named, not spelled
/// out: the grammar ("10m", "1h 30m", ...) belongs to the parsing crate.
pub uninterp spec fn parsed_duration_nanos(s: Seq<char>) -> Option<u64>;

/// Relies on humanize_rs::duration::parse: whether an interval string is
/// well formed, and the duration it denotes, depend on its characters alone.
/// The parser builds the duration from a whole number of nanoseconds held in
/// a u64, so the conversion back loses nothing.
#[verifier::external_body]
fn parse_duration_nanos(s: &str) -> (r: Option<u64>)
    ensures
        r == parsed_duration_nanos(s@),
{
    match humanize_rs::duration::parse(s) {
        Ok(d) => Some(d.as_nanos() as u64),
        Err(_) => None,
    }
}

/// The interval string that governs the record: the recorded one, or the
/// default when none is recorded.
pub open spec fn interval_string(m: ConfigModel) -> Seq<char> {
    match m.duration {
        Some(d) => d,
        None => default_duration(),
    }
}

/// The rotation interval of the record in nanoseconds: its interval string,
/// parsed. A string that is not a well-formed duration is a `ConfigError`.
pub fn interval_nanos(config: &Config) -> (r: Result<u64, Error>)
    ensures
        match parsed_duration_nanos(interval_string(config@)) {
            Some(n) => r matches Ok(v) && v == n,
            None => r matches Err(e) && e is ConfigError,
        },
{
    let d = match &config.duration {
        Some(d) => d.clone(),
        None => default_duration_string(),
    };
    match parse_duration_nanos(d.as_str()) {
        Some(n) => Ok(n),
        None => Err(Error::ConfigError("could not parse duration".to_owned())),
    }
}

/// The path of the current wallpaper, stripped of its leading "file://"
/// scheme prefix, or nothing when no wallpaper has been recorded yet.
pub fn current(config: &Config) -> (r: Option<String>)
    ensures
        match config@.current {
            Some(c) => r matches Some(s) && s@ == without_scheme_prefix(c),
            None => r is None,
        },
{
    match &config.current {
        Some(s) => Some(strip_scheme(s.as_str())),
        None => None,
    }
}

} // verus!
