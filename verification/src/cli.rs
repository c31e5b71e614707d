//! The decisions of the `polyhorn` launcher, a small version manager for the
//! Polyhorn command line interface: where the project is, which CLI version
//! is installed, and whether to install, forward or create a project.

use vstd::prelude::*;
use semver::Version;
use crate::text::{str_eq, str_starts_with};

verus! {

/// A semantic version (`semver::Version`).
#[verifier::external_type_specification]
#[verifier::external_body]
pub struct ExVersion(semver::Version);

/// Whether `semver::Version::parse` accepts the given text.
pub uninterp spec fn semver_valid(text: Seq<char>) -> bool;

/// Whether the version that the text `a` denotes is at least the version
/// that the text `b` denotes, in the order of `semver::Version`.
pub uninterp spec fn semver_at_least(a: Seq<char>, b: Seq<char>) -> bool;

/// A semantic version together with the text it was read from.
#[derive(Debug)]
pub struct ParsedVersion {
    text: String,
    version: Version,
}

impl View for ParsedVersion {
    type V = Seq<char>;

    /// The text that the version was read from.
    closed spec fn view(&self) -> Seq<char> {
        self.text@
    }
}

/// Calls `semver::Version::parse`. Claimed: it returns a version exactly when
/// the text is a valid semantic version (which is a function of the text
/// alone), and the version keeps the text it was read from. Nothing is
/// claimed of the parts of the version.
#[verifier::external_body]
fn parse_version(text: &str) -> (r: Option<ParsedVersion>)
    ensures
        r is Some <==> semver_valid(text@),
        r matches Some(v) ==> v@ == text@,
{
    match Version::parse(text) {
        Ok(version) => Some(ParsedVersion { text: text.to_string(), version }),
        Err(_) => None,
    }
}

/// Calls `>=` on the two `semver::Version`s. Claimed: the result is the
/// order of `semver::Version` on the versions that the texts of `a` and `b`
/// denote, which each of them was read from by `parse_version`.
#[verifier::external_body]
fn version_at_least(a: &ParsedVersion, b: &ParsedVersion) -> (r: bool)
    ensures
        r == semver_at_least(a@, b@),
{
    a.version >= b.version
}

impl ParsedVersion {
    /// Reads a semantic version from the given text, if it is one.
    pub fn parse(text: &str) -> (r: Option<ParsedVersion>)
        ensures
            r is Some <==> semver_valid(text@),
            r matches Some(v) ==> v@ == text@,
    {
        parse_version(text)
    }

    /// Returns the text that this version was read from.
    pub fn text(&self) -> (r: &str)
        ensures
            r@ == self@,
    {
        self.text.as_str()
    }

    /// Returns the version.
    pub fn version(&self) -> (r: &Version) {
        &self.version
    }
}

/// The position of the value that follows the first `--manifest-path` flag,
/// if it has one.
pub open spec fn spec_manifest_argument(args: Seq<String>) -> Option<int> {
    if exists|i: int| 0 <= i < args.len() && args[i]@ == "--manifest-path"@ {
        let i = choose|i: int|
            0 <= i < args.len() && args[i]@ == "--manifest-path"@ && forall|j: int|
                0 <= j < i ==> args[j]@ != "--manifest-path"@;
        if i + 1 < args.len() {
            Some(i + 1)
        } else {
            None
        }
    } else {
        None
    }
}

/// Returns the position of the argument that follows the first
/// `--manifest-path` flag, if there is such an argument.
pub fn manifest_argument(args: &[String]) -> (r: Option<usize>)
    ensures
        match r {
            Some(k) => spec_manifest_argument(args@) == Some(k as int),
            None => spec_manifest_argument(args@) is None,
        },
{
    let mut i: usize = 0;
    while i < args.len()
        invariant
            i <= args@.len(),
            forall|j: int| 0 <= j < i ==> args@[j]@ != "--manifest-path"@,
        decreases args@.len() - i,
    {
        if str_eq(args[i].as_str(), "--manifest-path") {
            proof {
                let c = choose|c: int|
                    0 <= c < args@.len() && args@[c]@ == "--manifest-path"@ && forall|j: int|
                        0 <= j < c ==> args@[j]@ != "--manifest-path"@;
                assert(0 <= i < args@.len() && args@[i as int]@ == "--manifest-path"@ && forall|j: int|
                    0 <= j < i ==> args@[j]@ != "--manifest-path"@);
                if c < i {
                    assert(args@[c]@ != "--manifest-path"@);
                }
                if c > i {
                    assert(args@[i as int]@ != "--manifest-path"@);
                }
                assert(c == i);
            }
            if i + 1 < args.len() {
                return Some(i + 1);
            } else {
                return None;
            }
        }
        i = i + 1;
    }
    None
}

/// Returns whether a lock file has to be generated first: there is a
/// manifest but no lock file.
pub fn needs_lockfile(has_manifest: bool, has_lockfile: bool) -> (r: bool)
    ensures
        r == (has_manifest && !has_lockfile),
{
    has_manifest && !has_lockfile
}

/// The position of the first package named `polyhorn`, the library that a
/// Polyhorn project depends on.
pub open spec fn spec_polyhorn_package(names: Seq<String>) -> Option<int> {
    if exists|i: int| 0 <= i < names.len() && names[i]@ == "polyhorn"@ {
        Some(choose|i: int| 0 <= i < names.len() && names[i]@ == "polyhorn"@ && forall|j: int| 0 <= j < i ==> names[j]@ != "polyhorn"@)
    } else {
        None
    }
}

/// Returns the position of the first package named `polyhorn` among the
/// names of the packages of a lock file.
pub fn polyhorn_package(names: &[String]) -> (r: Option<usize>)
    ensures
        r matches Some(k) ==> k < names@.len() && names@[k as int]@ == "polyhorn"@,
        match r {
            Some(k) => spec_polyhorn_package(names@) == Some(k as int),
            None => spec_polyhorn_package(names@) is None,
        },
{
    let mut i: usize = 0;
    while i < names.len()
        invariant
            i <= names@.len(),
            forall|j: int| 0 <= j < i ==> names@[j]@ != "polyhorn"@,
        decreases names@.len() - i,
    {
        if str_eq(names[i].as_str(), "polyhorn") {
            proof {
                let c = choose|c: int| 0 <= c < names@.len() && names@[c]@ == "polyhorn"@ && forall|j: int| 0 <= j < c ==> names@[j]@ != "polyhorn"@;
                assert(0 <= i < names@.len() && names@[i as int]@ == "polyhorn"@ && forall|j: int| 0 <= j < i ==> names@[j]@ != "polyhorn"@);
                if c < i {
                    assert(names@[c]@ != "polyhorn"@);
                }
                if c > i {
                    assert(names@[i as int]@ != "polyhorn"@);
                }
            }
            return Some(i);
        }
        i = i + 1;
    }
    None
}

/// The key of the installed CLI in the `v1` table of `.crates.toml` starts
/// with this prefix.
pub open spec fn is_cli_key(key: Seq<char>) -> bool {
    key.len() >= 13 && key.subrange(0, 13) == "polyhorn-cli "@
}

/// The position of the first key that names the installed CLI.
pub open spec fn spec_find_cli_key(keys: Seq<String>) -> Option<int> {
    if exists|i: int| 0 <= i < keys.len() && is_cli_key(keys[i]@) {
        Some(choose|i: int| 0 <= i < keys.len() && is_cli_key(keys[i]@) && forall|j: int| 0 <= j < i ==> !is_cli_key(keys[j]@))
    } else {
        None
    }
}

/// Returns the position of the first key that names the installed CLI.
pub fn find_cli_key(keys: &[String]) -> (r: Option<usize>)
    ensures
        r matches Some(k) ==> k < keys@.len() && is_cli_key(keys@[k as int]@),
        match r {
            Some(k) => spec_find_cli_key(keys@) == Some(k as int),
            None => spec_find_cli_key(keys@) is None,
        },
{
    let mut i: usize = 0;
    while i < keys.len()
        invariant
            i <= keys@.len(),
            forall|j: int| 0 <= j < i ==> !is_cli_key(keys@[j]@),
        decreases keys@.len() - i,
    {
        if str_starts_with(keys[i].as_str(), "polyhorn-cli ") {
            proof {
                reveal_strlit("polyhorn-cli ");
                let c = choose|c: int| 0 <= c < keys@.len() && is_cli_key(keys@[c]@) && forall|j: int| 0 <= j < c ==> !is_cli_key(keys@[j]@);
                assert(is_cli_key(keys@[i as int]@));
                if c < i {
                    assert(!is_cli_key(keys@[c]@));
                }
                if c > i {
                    assert(!is_cli_key(keys@[i as int]@));
                }
            }
            return Some(i);
        }
        proof {
            reveal_strlit("polyhorn-cli ");
        }
        i = i + 1;
    }
    None
}

/// The second field of a key whose fields are separated by single spaces:
/// the text after the first space, up to the next space.
pub open spec fn spec_version_field(key: Seq<char>) -> Option<Seq<char>> {
    if exists|i: int| 0 <= i < key.len() && key[i] == ' ' {
        let i = choose|i: int| 0 <= i < key.len() && key[i] == ' ' && forall|j: int| 0 <= j < i ==> key[j] != ' ';
        let rest = key.subrange(i + 1, key.len() as int);
        if exists|k: int| 0 <= k < rest.len() && rest[k] == ' ' {
            let k = choose|k: int| 0 <= k < rest.len() && rest[k] == ' ' && forall|j: int| 0 <= j < k ==> rest[j] != ' ';
            Some(rest.subrange(0, k))
        } else {
            Some(rest)
        }
    } else {
        None
    }
}

/// Returns the position of the first space at or after `start`, or the
/// length of the text if there is none.
fn next_space(text: &str, start: usize) -> (r: usize)
    requires
        start <= text@.len(),
    ensures
        start <= r <= text@.len(),
        forall|j: int| start <= j < r ==> text@[j] != ' ',
        r < text@.len() ==> text@[r as int] == ' ',
{
    let n = text.unicode_len();
    let mut i = start;
    while i < n
        invariant
            start <= i <= n,
            n == text@.len(),
            forall|j: int| start <= j < i ==> text@[j] != ' ',
        decreases n - i,
    {
        if text.get_char(i) == ' ' {
            return i;
        }
        i = i + 1;
    }
    i
}

/// Returns the text after the first space of `key`, up to the next space.
pub fn version_field(key: &str) -> (r: Option<&str>)
    ensures
        match r {
            Some(f) => spec_version_field(key@) == Some(f@),
            None => spec_version_field(key@) is None,
        },
{
    let n = key.unicode_len();
    let i = next_space(key, 0);
    if i == n {
        assert forall|c: int| 0 <= c < key@.len() implies key@[c] != ' ' by {}
        return None;
    }
    let k = next_space(key, i + 1);
    let f = key.substring_char(i + 1, k);
    proof {
        let c = choose|c: int| 0 <= c < key@.len() && key@[c] == ' ' && forall|j: int| 0 <= j < c ==> key@[j] != ' ';
        assert(0 <= i < key@.len() && key@[i as int] == ' ');
        if c < i {
            assert(key@[c] != ' ');
        }
        if c > i {
            assert(key@[i as int] != ' ');
        }
        assert(c == i);
        let rest = key@.subrange(i + 1, key@.len() as int);
        if k < n {
            assert(rest[k - i - 1] == ' ');
            let d = choose|d: int| 0 <= d < rest.len() && rest[d] == ' ' && forall|j: int| 0 <= j < d ==> rest[j] != ' ';
            if d < k - i - 1 {
                assert(rest[d] == key@[i + 1 + d]);
            }
            if d > k - i - 1 {
                assert(rest[k - i - 1] != ' ');
            }
            assert(d == k - i - 1);
            assert(f@ =~= rest.subrange(0, d));
        } else {
            assert forall|d: int| 0 <= d < rest.len() implies rest[d] != ' ' by {
                assert(rest[d] == key@[i + 1 + d]);
            }
            assert(f@ =~= rest);
        }
    }
    Some(f)
}

/// Returns the version of the installed CLI, given the keys of the `v1`
/// table of `.crates.toml`: the second field of the first key that names the
/// CLI, parsed as a semantic version.
pub fn cli_version(keys: &[String]) -> (r: Option<ParsedVersion>)
    ensures
        r is Some <==> (match spec_find_cli_key(keys@) {
            Some(k) => match spec_version_field(keys@[k]@) {
                Some(f) => semver_valid(f),
                None => false,
            },
            None => false,
        }),
        r matches Some(v) ==> Some(v@) == spec_version_field(keys@[spec_find_cli_key(keys@)->0]@),
{
    let k = match find_cli_key(keys) {
        Some(k) => k,
        None => return None,
    };
    match version_field(keys[k].as_str()) {
        Some(f) => parse_version(f),
        None => None,
    }
}

/// Returns whether the installed CLI is at least as recent as the Polyhorn
/// library that the project depends on: never when no CLI is installed.
pub fn cli_is_current(cli: Option<&ParsedVersion>, package: &ParsedVersion) -> (r: bool)
    ensures
        r == (match cli {
            Some(v) => semver_at_least(v@, package@),
            None => false,
        }),
{
    match cli {
        Some(v) => version_at_least(v, package),
        None => false,
    }
}

/// What the launcher does.
#[derive(Clone, Debug, PartialEq, Eq)]
pub enum Launch {
    /// Installs the CLI first if `install` holds, then forwards the
    /// arguments after the program name to it.
    Forward {
        /// Whether the CLI has to be installed first.
        install: bool,
    },
    /// Creates the project directory of the given name, installs the CLI
    /// into it and runs `init` with the name.
    New(String),
    /// Reports that Polyhorn is not installed in this directory and exits
    /// with status 1.
    NotInstalled,
}

/// Returns what the launcher does: in a project that depends on Polyhorn,
/// forward to the CLI after installing it unless it is current
/// (`cli_current` is `Some`); elsewhere, only `polyhorn new [name]` creates a
/// project.
pub fn launch(cli_current: Option<bool>, args: &[String]) -> (r: Launch)
    ensures
        match cli_current {
            Some(current) => r == Launch::Forward { install: !current },
            None => if args@.len() == 3 && args@[1]@ == "new"@ {
                r matches Launch::New(name) && name@ == args@[2]@
            } else {
                r == Launch::NotInstalled
            },
        },
{
    match cli_current {
        Some(current) => Launch::Forward { install: !current },
        None => {
            if args.len() == 3 && str_eq(args[1].as_str(), "new") {
                Launch::New(args[2].clone())
            } else {
                Launch::NotInstalled
            }
        },
    }
}

} // verus!
