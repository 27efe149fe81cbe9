//! Archive specifications and the validation rules applied when a
//! configuration is assembled: pattern syntax, defaults merging, and the
//! octal umask format.
//!
//! Reading and decoding the configuration file itself is an input concern
//! and lives with the driver; the rules that decide what a well-formed
//! archive specification is are here.

use vstd::prelude::*;

verus! {

/// Information about one archive.
#[derive(Clone, Debug, PartialEq, Eq)]
pub struct Archive {
    /// The requested compression setting.
    pub compression: String,
    /// The repository location.
    pub repository: String,
    /// The path of the root directory of the files to archive.
    pub root: String,
    /// Whether to archive from a snapshot of `root` rather than from the
    /// live tree.
    pub btrfs_snapshot: bool,
    /// The inclusion/exclusion pattern strings.
    pub patterns: Vec<String>,
}

/// The complete configuration: the named archives, in order, and the
/// process-wide permissions mask.
#[derive(Clone, Debug, PartialEq, Eq)]
pub struct Config {
    pub archives: Vec<(String, Archive)>,
    pub umask: u16,
}

impl Config {
    /// What the archive table promises: the provider yields each archive
    /// name at most once, so the table's names are distinct.
    pub open spec fn wf(self) -> bool {
        forall|i: int, j: int|
            0 <= i < j < self.archives@.len() ==> (#[trigger] self.archives@[i]).0@ != (
            #[trigger] self.archives@[j]).0@
    }
}

/// A reason an archive specification or a umask string is rejected.
#[derive(Clone, Debug, PartialEq, Eq)]
pub enum ConfigError {
    /// A pattern string does not start with `+`, `-`, `!` or `P`.
    BadPattern(String),
    /// No compression setting, neither on the archive nor in the defaults.
    MissingCompression,
    /// No repository location, neither on the archive nor in the defaults.
    MissingRepository,
}

/// The operating-system error number for "not a directory".
pub const ENOTDIR: i32 = 20;

/// Whether an archive root passes the pre-run examination: it must be a
/// directory; anything else is rejected with the matching error number.
pub fn check_archive_root_kind(is_dir: bool) -> (r: Result<(), i32>)
    ensures
        r == (if is_dir {
            Ok::<(), i32>(())
        } else {
            Err::<(), i32>(ENOTDIR)
        }),
{
    if is_dir {
        Ok(())
    } else {
        Err(ENOTDIR)
    }
}

/// The umask used when the configuration gives none.
pub fn default_umask() -> (r: u16)
    ensures
        r == 0o077,
{
    0o077
}

/// Whether a pattern string is acceptable: nonempty and starting with one
/// of the four pattern-kind markers.
pub open spec fn spec_valid_pattern(p: Seq<char>) -> bool {
    p.len() > 0 && (p[0] == '+' || p[0] == '-' || p[0] == '!' || p[0] == 'P')
}

/// Checks one pattern string.
pub fn valid_pattern(p: &str) -> (r: bool)
    ensures
        r == spec_valid_pattern(p@),
{
    let n = p.unicode_len();
    if n == 0 {
        false
    } else {
        let c = p.get_char(0);
        c == '+' || c == '-' || c == '!' || c == 'P'
    }
}

/// The digit portion of a umask string: an optional leading plus sign is
/// not part of the value.
pub open spec fn umask_digits(s: Seq<char>) -> Seq<char> {
    if s.len() > 0 && s[0] == '+' {
        s.drop_first()
    } else {
        s
    }
}

/// Whether a character is an octal digit.
pub open spec fn is_octal_digit(c: char) -> bool {
    48 <= c as int && c as int <= 55
}

/// The value of a sequence of octal digits.
pub open spec fn octal_value(d: Seq<char>) -> int
    decreases d.len(),
{
    if d.len() == 0 {
        0
    } else {
        octal_value(d.drop_last()) * 8 + (d.last() as int - 48)
    }
}

/// Whether a string is an acceptable umask: at most an optional plus sign,
/// then at least one octal digit, with a value of at most `0o777`.
pub open spec fn valid_umask_str(s: Seq<char>) -> bool {
    let d = umask_digits(s);
    d.len() > 0 && (forall|i: int| 0 <= i < d.len() ==> is_octal_digit(#[trigger] d[i]))
        && octal_value(d) <= 0o777
}

/// The value of a longer digit string is at least the value of any of its
/// prefixes.
proof fn lemma_octal_value_prefix(d: Seq<char>, k: int)
    requires
        0 <= k <= d.len(),
        forall|i: int| 0 <= i < d.len() ==> is_octal_digit(#[trigger] d[i]),
    ensures
        octal_value(d) >= octal_value(d.subrange(0, k)),
        octal_value(d.subrange(0, k)) >= 0,
    decreases d.len() - k,
{
    if k == d.len() {
        assert(d.subrange(0, k) =~= d);
        lemma_octal_value_nonneg(d);
    } else {
        lemma_octal_value_prefix(d, k + 1);
        let a = d.subrange(0, k);
        let b = d.subrange(0, k + 1);
        assert(b.drop_last() =~= a);
        lemma_octal_value_nonneg(a);
    }
}

/// The value of a valid digit string is not negative.
proof fn lemma_octal_value_nonneg(d: Seq<char>)
    requires
        forall|i: int| 0 <= i < d.len() ==> is_octal_digit(#[trigger] d[i]),
    ensures
        octal_value(d) >= 0,
    decreases d.len(),
{
    if d.len() > 0 {
        lemma_octal_value_nonneg(d.drop_last());
    }
}

/// Decodes a umask from an octal string, accepting exactly the strings of
/// [`valid_umask_str`] and returning the value of the digits.
pub fn parse_umask(s: &str) -> (r: Option<u16>)
    ensures
        r matches Some(v) ==> valid_umask_str(s@) && v == octal_value(umask_digits(s@)),
        r is None ==> !valid_umask_str(s@),
{
    let n = s.unicode_len();
    let ghost d = umask_digits(s@);
    let mut i: usize = 0;
    if n > 0 && s.get_char(0) == '+' {
        i = 1;
    }
    let ghost start = i as int;
    proof {
        assert(d =~= s@.subrange(start, n as int));
    }
    if i == n {
        return None;
    }
    let mut acc: u32 = 0;
    while i < n
        invariant
            n == s@.len(),
            0 <= start <= i as int <= n,
            d == umask_digits(s@),
            d == s@.subrange(start, n as int),
            d.len() == n - start,
            forall|j: int| 0 <= j < i - start ==> is_octal_digit(#[trigger] d[j]),
            acc == octal_value(d.subrange(0, i - start)),
            acc <= 0o777,
        decreases n - i,
    {
        let c = s.get_char(i);
        let cv = c as u32;
        if cv < 48 || cv > 55 {
            proof {
                assert(0 <= i - start < d.len());
                assert(d[i - start] == s@[start + (i - start)]);
                assert(s@[i as int] == c);
                assert(!is_octal_digit(d[i - start]));
            }
            return None;
        }
        acc = acc * 8 + (cv - 48);
        i = i + 1;
        proof {
            assert(d.subrange(0, i - start).drop_last() =~= d.subrange(0, i - 1 - start));
            assert(d.subrange(0, i - start).last() == c);
        }
        if acc > 0o777 {
            proof {
                if forall|j: int| 0 <= j < d.len() ==> is_octal_digit(#[trigger] d[j]) {
                    lemma_octal_value_prefix(d, i - start);
                }
            }
            return None;
        }
    }
    proof {
        assert(d.subrange(0, n - start) =~= d);
    }
    Some(acc as u16)
}

/// Completes an archive specification: every pattern must carry a valid
/// marker, and a compression setting and a repository location must be
/// present, on the archive itself or among the defaults. Checked in that
/// order, and the first offending pattern is the one reported.
pub fn finish_archive(
    compression: Option<String>,
    repository: Option<String>,
    root: String,
    btrfs_snapshot: bool,
    patterns: Vec<String>,
    default_compression: &Option<String>,
    default_repository: &Option<String>,
) -> (r: Result<Archive, ConfigError>)
    ensures
        ({
            let dv = patterns.deep_view();
            if exists|i: int| 0 <= i < dv.len() && !spec_valid_pattern(#[trigger] dv[i]) {
                r matches Err(ConfigError::BadPattern(p)) && exists|i: int|
                    0 <= i < dv.len() && !spec_valid_pattern(#[trigger] dv[i]) && p@ == dv[i]
                        && (forall|j: int| 0 <= j < i ==> spec_valid_pattern(#[trigger] dv[j]))
            } else if compression is None && *default_compression is None {
                r == Err::<Archive, ConfigError>(ConfigError::MissingCompression)
            } else if repository is None && *default_repository is None {
                r == Err::<Archive, ConfigError>(ConfigError::MissingRepository)
            } else {
                r matches Ok(a) && a.compression@ == (if compression is Some {
                    compression->0@
                } else {
                    default_compression->0@
                }) && a.repository@ == (if repository is Some {
                    repository->0@
                } else {
                    default_repository->0@
                }) && a.root == root && a.btrfs_snapshot == btrfs_snapshot
                    && a.patterns.deep_view() == dv
            }
        }),
{
    let mut i: usize = 0;
    let n = patterns.len();
    while i < n
        invariant
            n == patterns.len(),
            i <= n,
            forall|j: int|
                0 <= j < i as int ==> spec_valid_pattern(#[trigger] patterns.deep_view()[j]),
        decreases n - i,
    {
        if !valid_pattern(patterns[i].as_str()) {
            proof {
                assert(!spec_valid_pattern(patterns.deep_view()[i as int]));
            }
            let p = patterns[i].clone();
            return Err(ConfigError::BadPattern(p));
        }
        i = i + 1;
    }
    let compression = match compression {
        Some(c) => c,
        None => match default_compression {
            Some(c) => c.clone(),
            None => {
                return Err(ConfigError::MissingCompression);
            },
        },
    };
    let repository = match repository {
        Some(v) => v,
        None => match default_repository {
            Some(v) => v.clone(),
            None => {
                return Err(ConfigError::MissingRepository);
            },
        },
    };
    Ok(Archive { compression, repository, root, btrfs_snapshot, patterns })
}

} // verus!
