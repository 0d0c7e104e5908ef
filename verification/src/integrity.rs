use vstd::prelude::*;
use vstd::string::StringExecFns;
use crate::digest::{sha512_hex, spec_hex_lower, spec_sha512};
use crate::pattern::{lowercase, spec_lowercase};
use crate::scan::{lines, spec_lines, spec_words, split_whitespace};
use crate::text::{chars_of, contains, spec_contains, str_contains, str_eq, string_of, views};
use crate::version::GccVersion;

verus! {

/// Where the releases of GCC are published.
pub const GCC_RELEASES_URL: &'static str = "https://gcc.gnu.org/ftp/gcc/releases";

/// A source archive must be larger than this many bytes to be taken for whole.
pub const MIN_SOURCE_BYTES: u64 = 50000000;

/// A download that is not larger than this many bytes is no source archive at all.
pub const MIN_DOWNLOAD_BYTES: u64 = 10000000;

/// The first release line whose archives come with a list of SHA-512 checksums.
pub const FIRST_SHA512_MAJOR: u8 = 14;

/// How long, in seconds, the hashing of an archive may take.
pub const HASH_TIMEOUT_SECS: u64 = 300;

/// How large, in bytes, the pieces are in which an archive is read for hashing.
pub const HASH_CHUNK_BYTES: usize = 8388608;

/// How an archive is checked.
#[derive(Debug, Clone, Copy, PartialEq, Eq, Structural)]
pub enum VerificationKind {
    /// Against the published list of SHA-512 checksums.
    Sha512,
    /// Against the detached signature of the release managers.
    Gpg,
    /// Not at all.
    Skip,
}

/// What came of fetching a small file from the server.
#[derive(Debug)]
pub enum FetchOutcome {
    /// The file, as text.
    Body(String),
    /// The server answered with this status and no file.
    HttpError(u16),
    /// The server could not be reached.
    NetworkError,
}

/// What a check of an archive comes to.
#[derive(Debug, Clone, Copy, PartialEq, Eq, Structural)]
pub enum Verdict {
    /// The archive is what was published.
    Verified,
    /// The archive is not what was published. It must not be used.
    Mismatch,
    /// The check could not be made; the archive is taken on trust.
    Unchecked,
}

/// What running `gpg --verify` came to.
#[derive(Debug)]
pub struct GpgOutcome {
    /// The program left with status zero.
    pub success: bool,
    /// What it wrote to its error stream.
    pub stderr: String,
}

/// How archives of a release line are checked.
pub open spec fn spec_verification_kind(major: u8, skip_checksum: bool) -> VerificationKind {
    if skip_checksum {
        VerificationKind::Skip
    } else if major >= FIRST_SHA512_MAJOR {
        VerificationKind::Sha512
    } else {
        VerificationKind::Gpg
    }
}

/// Whether a source archive is taken for whole: it is larger than fifty
/// megabytes and `tar` can list it.
pub open spec fn spec_tarball_acceptable(size_bytes: u64, tar_listable: bool) -> bool {
    size_bytes > MIN_SOURCE_BYTES && tar_listable
}

/// Whether `line` is the line of a checksum list that speaks of `filename`:
/// the name stands in it, and it has a first word.
pub open spec fn spec_speaks_of(line: Seq<char>, filename: Seq<char>) -> bool {
    spec_contains(line, filename) && spec_words(line).len() > 0
}

/// The place of the first of the first `k` lines that speaks of
/// `filename`; `k` where none does.
pub open spec fn spec_first_speaking(all: Seq<Seq<char>>, filename: Seq<char>, k: int) -> int
    decreases k,
{
    if k <= 0 {
        0
    } else {
        let before = spec_first_speaking(all, filename, k - 1);
        if before < k - 1 {
            before
        } else if spec_speaks_of(all[k - 1], filename) {
            k - 1
        } else {
            k
        }
    }
}

/// The checksum that a checksum list gives for `filename`: the first word
/// of the first line that speaks of it.
pub open spec fn spec_expected_checksum(list: Seq<char>, filename: Seq<char>) -> Option<Seq<char>> {
    let all = spec_lines(list);
    let i = spec_first_speaking(all, filename, all.len() as int);
    if i < all.len() {
        Some(spec_words(all[i])[0])
    } else {
        None
    }
}

/// Whether two checksums are the same but for the case of their letters.
pub open spec fn spec_checksums_match(expected: Seq<char>, actual: Seq<char>) -> bool {
    spec_lowercase(expected) == spec_lowercase(actual)
}

/// What comparing an archive with a checksum list comes to. Where the
/// list could not be fetched, or does not speak of the archive, the check
/// cannot be made. Else the archive is verified exactly if its checksum is
/// the published one.
pub open spec fn spec_judge_checksum(
    list: Option<Seq<char>>,
    filename: Seq<char>,
    actual: Seq<char>,
) -> Verdict {
    match list {
        None => Verdict::Unchecked,
        Some(text) => match spec_expected_checksum(text, filename) {
            None => Verdict::Unchecked,
            Some(expected) => if spec_checksums_match(expected, actual) {
                Verdict::Verified
            } else {
                Verdict::Mismatch
            },
        },
    }
}

/// What checking a signature comes to. Where the signature could not be
/// fetched the check cannot be made. A signature that verifies is
/// accepted. One that does not is taken on trust where the key is not at
/// hand, and is a mismatch otherwise.
pub open spec fn spec_judge_signature(
    signature_fetched: bool,
    gpg: Option<(bool, Seq<char>)>,
) -> Verdict {
    if !signature_fetched {
        Verdict::Unchecked
    } else {
        match gpg {
            None => Verdict::Unchecked,
            Some((success, stderr)) => if success {
                Verdict::Verified
            } else if spec_contains(stderr, "No public key"@) || spec_contains(
                stderr,
                "unknown key"@,
            ) {
                Verdict::Unchecked
            } else {
                Verdict::Mismatch
            },
        }
    }
}

/// The text of a fetched file, if it was fetched.
pub open spec fn spec_body(fetch: FetchOutcome) -> Option<Seq<char>> {
    match fetch {
        FetchOutcome::Body(text) => Some(text@),
        _ => None,
    }
}

/// How archives of a release line are checked.
pub fn verification_kind(major: u8, skip_checksum: bool) -> (res: VerificationKind)
    ensures
        res == spec_verification_kind(major, skip_checksum),
{
    if skip_checksum {
        VerificationKind::Skip
    } else if major >= FIRST_SHA512_MAJOR {
        VerificationKind::Sha512
    } else {
        VerificationKind::Gpg
    }
}

/// Whether a source archive is taken for whole.
pub fn tarball_acceptable(size_bytes: u64, tar_listable: bool) -> (res: bool)
    ensures
        res == spec_tarball_acceptable(size_bytes, tar_listable),
{
    size_bytes > MIN_SOURCE_BYTES && tar_listable
}

/// Whether a check lets the archive be used: everything but a mismatch does.
pub fn verdict_accepts(v: Verdict) -> (res: bool)
    ensures
        res == (v != Verdict::Mismatch),
{
    match v {
        Verdict::Mismatch => false,
        _ => true,
    }
}

/// The address of the source archive of `version`.
pub fn tarball_url(version: &GccVersion) -> (res: String)
    ensures
        res@ == GCC_RELEASES_URL@ + "/gcc-"@ + version.full@ + "/gcc-"@ + version.full@
            + ".tar.xz"@,
{
    let mut url = GCC_RELEASES_URL.to_owned();
    url.append("/gcc-");
    url.append(version.full.as_str());
    url.append("/gcc-");
    url.append(version.full.as_str());
    url.append(".tar.xz");
    url
}

/// The address of the checksum list of `version`.
pub fn checksum_url(version: &GccVersion) -> (res: String)
    ensures
        res@ == GCC_RELEASES_URL@ + "/gcc-"@ + version.full@ + "/sha512.sum"@,
{
    let mut url = GCC_RELEASES_URL.to_owned();
    url.append("/gcc-");
    url.append(version.full.as_str());
    url.append("/sha512.sum");
    url
}

/// The address of the signature of the source archive of `version`.
pub fn signature_url(version: &GccVersion) -> (res: String)
    ensures
        res@ == GCC_RELEASES_URL@ + "/gcc-"@ + version.full@ + "/gcc-"@ + version.full@
            + ".tar.xz.sig"@,
{
    let mut url = GCC_RELEASES_URL.to_owned();
    url.append("/gcc-");
    url.append(version.full.as_str());
    url.append("/gcc-");
    url.append(version.full.as_str());
    url.append(".tar.xz.sig");
    url
}

/// The fingerprints of the keys with which releases are signed.
pub fn release_key_fingerprints() -> (res: Vec<String>)
    ensures
        crate::text::string_views(res@) == seq![
            "33C235A34C46AA3FFB293709A328C3A2C3C45C06"@,
            "7F74F97C103468EE5D750B583AB00996FC26A641"@,
            "13975A70E63C361C73AE69EF6EEB81F8981C74C7"@,
        ],
{
    let mut keys: Vec<String> = Vec::new();
    assert(crate::text::string_views(keys@) =~= Seq::<Seq<char>>::empty());
    crate::text::push_str(&mut keys, "33C235A34C46AA3FFB293709A328C3A2C3C45C06");
    crate::text::push_str(&mut keys, "7F74F97C103468EE5D750B583AB00996FC26A641");
    crate::text::push_str(&mut keys, "13975A70E63C361C73AE69EF6EEB81F8981C74C7");
    keys
}

/// The checksum that a checksum list gives for `filename`.
pub fn expected_checksum(list: &str, filename: &str) -> (res: Option<String>)
    ensures
        res is Some <==> spec_expected_checksum(list@, filename@) is Some,
        res matches Some(c) ==> Some(c@) == spec_expected_checksum(list@, filename@),
{
    let text = chars_of(list);
    let name = chars_of(filename);
    let all = lines(&text);
    let ghost ls = spec_lines(list@);
    let mut i: usize = 0;
    while i < all.len()
        invariant
            i <= all.len(),
            views(all@) == ls,
            ls == spec_lines(list@),
            name@ == filename@,
            spec_first_speaking(ls, filename@, i as int) == i,
        decreases all.len() - i,
    {
        assert(views(all@)[i as int] == all@[i as int]@);
        if contains(&all[i], &name) {
            let words = split_whitespace(&all[i]);
            assert(views(words@).len() == words@.len());
            if words.len() > 0 {
                assert(views(words@)[0] == words@[0]@);
                proof {
                    lemma_first_speaking_stays(ls, filename@, i as int + 1, ls.len() as int);
                }
                return Some(string_of(&words[0]));
            }
        }
        i += 1;
    }
    None
}

/// Once a line that speaks of the name is found, looking further does not
/// change which one is the first.
pub proof fn lemma_first_speaking_stays(all: Seq<Seq<char>>, filename: Seq<char>, k: int, n: int)
    requires
        1 <= k <= n,
        spec_first_speaking(all, filename, k) == k - 1,
    ensures
        spec_first_speaking(all, filename, n) == k - 1,
    decreases n - k,
{
    if k < n {
        lemma_first_speaking_stays(all, filename, k, n - 1);
    }
}

/// Whether two checksums are the same but for the case of their letters.
pub fn checksums_match(expected: &str, actual: &str) -> (res: bool)
    ensures
        res == spec_checksums_match(expected@, actual@),
{
    let a = lowercase(expected);
    let b = lowercase(actual);
    str_eq(a.as_str(), b.as_str())
}

/// Compares the checksum `actual` of the archive called `filename` with
/// what the fetched checksum list says.
pub fn judge_checksum(fetch: &FetchOutcome, filename: &str, actual: &str) -> (res: Verdict)
    ensures
        res == spec_judge_checksum(spec_body(*fetch), filename@, actual@),
{
    match fetch {
        FetchOutcome::Body(text) => {
            match expected_checksum(text.as_str(), filename) {
                Some(expected) => {
                    if checksums_match(expected.as_str(), actual) {
                        Verdict::Verified
                    } else {
                        Verdict::Mismatch
                    }
                },
                None => Verdict::Unchecked,
            }
        },
        _ => Verdict::Unchecked,
    }
}

/// Checks the bytes of the archive called `filename` against the fetched
/// checksum list.
pub fn verify_sha512(fetch: &FetchOutcome, filename: &str, data: &[u8]) -> (res: Verdict)
    ensures
        res == spec_judge_checksum(
            spec_body(*fetch),
            filename@,
            spec_hex_lower(spec_sha512(data@)),
        ),
{
    match fetch {
        FetchOutcome::Body(_) => {
            let actual = sha512_hex(data);
            judge_checksum(fetch, filename, actual.as_str())
        },
        _ => Verdict::Unchecked,
    }
}

/// Judges the signature of an archive from whether the signature could be
/// fetched and from what `gpg --verify` then did.
pub fn verify_gpg(signature_fetched: bool, gpg: Option<&GpgOutcome>) -> (res: Verdict)
    ensures
        res == spec_judge_signature(
            signature_fetched,
            match gpg {
                Some(g) => Some((g.success, g.stderr@)),
                None => None,
            },
        ),
{
    if !signature_fetched {
        return Verdict::Unchecked;
    }
    match gpg {
        None => Verdict::Unchecked,
        Some(g) => {
            if g.success {
                Verdict::Verified
            } else if str_contains(g.stderr.as_str(), "No public key") || str_contains(
                g.stderr.as_str(),
                "unknown key",
            ) {
                Verdict::Unchecked
            } else {
                Verdict::Mismatch
            }
        },
    }
}

} // verus!
