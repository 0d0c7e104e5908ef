use vstd::prelude::*;
use vstd::string::StringExecFns;
use crate::decimal::{parse_digits, push_decimal, spec_decimal, spec_parse_digits};
use crate::scan::{split, spec_split};
use crate::text::{chars_of, views};

verus! {

/// Smallest GCC major release that can be built.
pub const MIN_MAJOR: u32 = 10;

/// Largest GCC major release that can be built.
pub const MAX_MAJOR: u32 = 15;

/// Directory under which a version is installed when the user names none.
pub const DEFAULT_PREFIX_BASE: &'static str = "/usr/local/programs";

/// Whether `major` names a release line that can be built.
pub open spec fn spec_is_available(major: int) -> bool {
    MIN_MAJOR <= major <= MAX_MAJOR
}

/// Whether `major` names a release line that can be built.
pub fn is_available(major: u32) -> (res: bool)
    ensures
        res == spec_is_available(major as int),
{
    MIN_MAJOR <= major && major <= MAX_MAJOR
}

/// The canonical text of a version: its three numbers joined by dots.
pub open spec fn spec_version_text(major: int, minor: int, patch: int) -> Seq<char> {
    spec_decimal(major as nat) + "."@ + spec_decimal(minor as nat) + "."@ + spec_decimal(
        patch as nat,
    )
}

/// One release of GCC.
#[derive(Debug)]
pub struct GccVersion {
    pub major: u8,
    pub minor: u8,
    pub patch: u8,
    pub full: String,
}

impl Clone for GccVersion {
    fn clone(&self) -> (res: Self)
        ensures
            res.major == self.major,
            res.minor == self.minor,
            res.patch == self.patch,
            res.full@ == self.full@,
    {
        GccVersion {
            major: self.major,
            minor: self.minor,
            patch: self.patch,
            full: self.full.clone(),
        }
    }
}

impl PartialEq for GccVersion {
    fn eq(&self, other: &Self) -> (res: bool) {
        self.major == other.major && self.minor == other.minor && self.patch == other.patch
    }
}

impl vstd::std_specs::cmp::PartialEqSpecImpl for GccVersion {
    open spec fn obeys_eq_spec() -> bool {
        true
    }

    open spec fn eq_spec(&self, other: &Self) -> bool {
        self.major == other.major && self.minor == other.minor && self.patch == other.patch
    }
}

/// The known newest release of each line, for use when the server cannot be asked.
pub open spec fn spec_known_version(major: int) -> Option<(int, int, int)> {
    if major == 10 {
        Some((10, 5, 0))
    } else if major == 11 {
        Some((11, 5, 0))
    } else if major == 12 {
        Some((12, 4, 0))
    } else if major == 13 {
        Some((13, 3, 0))
    } else if major == 14 {
        Some((14, 2, 0))
    } else if major == 15 {
        Some((15, 2, 0))
    } else {
        None
    }
}

/// What a version text means: three runs of digits joined by dots, each at
/// most 255, the first a release line that can be built.
pub open spec fn spec_parse_version(text: Seq<char>) -> Option<(int, int, int)> {
    let pieces = spec_split(text, '.');
    if pieces.len() != 3 {
        None
    } else {
        match (
            spec_parse_digits(pieces[0], 255),
            spec_parse_digits(pieces[1], 255),
            spec_parse_digits(pieces[2], 255),
        ) {
            (Some(a), Some(b), Some(c)) => if spec_is_available(a as int) {
                Some((a as int, b as int, c as int))
            } else {
                None
            },
            _ => None,
        }
    }
}

/// `base` with one more component, as a path: a slash stands between them
/// unless `base` is empty or already ends in one.
pub open spec fn spec_path_join(base: Seq<char>, name: Seq<char>) -> Seq<char> {
    if base.len() == 0 || base.last() == '/' {
        base + name
    } else {
        base + "/"@ + name
    }
}

/// `base` with one more component, as a path.
pub fn path_join(base: &str, name: &str) -> (res: String)
    ensures
        res@ == spec_path_join(base@, name@),
{
    let b = chars_of(base);
    let mut out = base.to_owned();
    if b.len() > 0 && b[b.len() - 1] != '/' {
        proof {
            reveal_strlit("/");
        }
        out.append("/");
    }
    out.append(name);
    out
}

impl GccVersion {
    /// The three numbers of the version.
    pub open spec fn triple(&self) -> (int, int, int) {
        (self.major as int, self.minor as int, self.patch as int)
    }

    /// The version is one that can be built and `full` is its canonical text.
    pub open spec fn wf(&self) -> bool {
        &&& spec_is_available(self.major as int)
        &&& self.full@ == spec_version_text(
            self.major as int,
            self.minor as int,
            self.patch as int,
        )
    }

    /// The version with these three numbers, if its line can be built.
    pub fn new(major: u8, minor: u8, patch: u8) -> (res: Option<GccVersion>)
        ensures
            res is Some <==> spec_is_available(major as int),
            res matches Some(v) ==> v.wf() && v.triple() == (major as int, minor as int, patch as int),
    {
        if !is_available(major as u32) {
            return None;
        }
        let mut full = String::new();
        push_decimal(&mut full, major as u64);
        full.append(".");
        push_decimal(&mut full, minor as u64);
        full.append(".");
        push_decimal(&mut full, patch as u64);
        assert(full@ == spec_version_text(major as int, minor as int, patch as int));
        Some(GccVersion { major, minor, patch, full })
    }

    /// The version that stands for "newest release of this line": it must be
    /// resolved before anything is fetched.
    pub fn latest_of(major: u8) -> (res: Option<GccVersion>)
        ensures
            res is Some <==> spec_is_available(major as int),
            res matches Some(v) ==> v.wf() && v.triple() == (major as int, 0int, 0int),
    {
        GccVersion::new(major, 0, 0)
    }

    /// Reads a version from its text.
    pub fn parse(text: &str) -> (res: Option<GccVersion>)
        ensures
            res is Some <==> spec_parse_version(text@) is Some,
            res matches Some(v) ==> v.wf() && Some(v.triple()) == spec_parse_version(text@),
    {
        let t = chars_of(text);
        let pieces = split(&t, '.');
        assert(views(pieces@).len() == pieces@.len());
        if pieces.len() != 3 {
            return None;
        }
        assert(views(pieces@)[0] == pieces@[0]@);
        assert(views(pieces@)[1] == pieces@[1]@);
        assert(views(pieces@)[2] == pieces@[2]@);
        let a = parse_digits(&pieces[0], 255);
        let b = parse_digits(&pieces[1], 255);
        let c = parse_digits(&pieces[2], 255);
        match (a, b, c) {
            (Some(x), Some(y), Some(z)) => GccVersion::new(x as u8, y as u8, z as u8),
            _ => None,
        }
    }

    /// Whether this version only names a release line and still has to be resolved.
    pub fn is_unresolved(&self) -> (res: bool)
        ensures
            res == (self.minor == 0 && self.patch == 0),
    {
        self.minor == 0 && self.patch == 0
    }

    /// Whether this version is older than `other`, by major, then minor, then patch.
    pub open spec fn spec_precedes(&self, other: &GccVersion) -> bool {
        self.major < other.major || (self.major == other.major && (self.minor < other.minor || (
        self.minor == other.minor && self.patch < other.patch)))
    }

    /// Whether this version is older than `other`.
    pub fn precedes(&self, other: &GccVersion) -> (res: bool)
        ensures
            res == self.spec_precedes(other),
    {
        self.major < other.major || (self.major == other.major && (self.minor < other.minor || (
        self.minor == other.minor && self.patch < other.patch)))
    }

    /// Whether this version and `other` are the same release.
    pub fn same_release(&self, other: &GccVersion) -> (res: bool)
        ensures
            res == (self.triple() == other.triple()),
    {
        self.major == other.major && self.minor == other.minor && self.patch == other.patch
    }

    /// The directory into which this version is installed.
    pub fn install_prefix(&self, user_prefix: Option<&String>) -> (res: String)
        ensures
            res@ == match user_prefix {
                Some(p) => spec_path_join(p@, "gcc-"@ + self.full@),
                None => DEFAULT_PREFIX_BASE@ + "/gcc-"@ + self.full@,
            },
    {
        match user_prefix {
            Some(p) => {
                let mut name = "gcc-".to_owned();
                name.append(self.full.as_str());
                path_join(p.as_str(), name.as_str())
            },
            None => {
                let mut out = DEFAULT_PREFIX_BASE.to_owned();
                out.append("/gcc-");
                out.append(self.full.as_str());
                out
            },
        }
    }

    /// The file name of the source archive of this version.
    pub fn tarball_name(&self) -> (res: String)
        ensures
            res@ == "gcc-"@ + self.full@ + ".tar.xz"@,
    {
        let mut out = "gcc-".to_owned();
        out.append(self.full.as_str());
        out.append(".tar.xz");
        out
    }

    /// The name under which this version is shown to the user.
    pub fn display_name(&self) -> (res: String)
        ensures
            res@ == "GCC "@ + self.full@,
    {
        let mut out = "GCC ".to_owned();
        out.append(self.full.as_str());
        out
    }
}

/// The known newest release of a line, for use when the server cannot be asked.
pub fn get_known_version(major: u32) -> (res: Option<GccVersion>)
    ensures
        res is Some <==> spec_known_version(major as int) is Some,
        res matches Some(v) ==> v.wf() && Some(v.triple()) == spec_known_version(major as int),
{
    match major {
        10 => GccVersion::new(10, 5, 0),
        11 => GccVersion::new(11, 5, 0),
        12 => GccVersion::new(12, 4, 0),
        13 => GccVersion::new(13, 3, 0),
        14 => GccVersion::new(14, 2, 0),
        15 => GccVersion::new(15, 2, 0),
        _ => None,
    }
}

} // verus!
