use vstd::prelude::*;
use vstd::string::StringExecFns;
use crate::decimal::{push_decimal, spec_decimal};
use crate::error::{spec_error_message, BuildError};
use crate::pattern::{regex_is_match, spec_regex_is_match};
use crate::text::{clone_strings, push_str, string_views};

verus! {

/// How grave the trouble is that an advice answers.
#[derive(Debug, Clone, Copy, PartialEq, Eq, Structural)]
pub enum SuggestionSeverity {
    Info,
    Warning,
    Error,
    Critical,
}

/// An advice on how to get a failed build going.
#[derive(Debug)]
pub struct Suggestion {
    pub title: String,
    pub description: String,
    pub commands: Vec<String>,
    pub severity: SuggestionSeverity,
}

/// A kind of failure, known by a regular expression, with the advice for it.
#[derive(Debug)]
pub struct ErrorPattern {
    pub name: String,
    pub regex: String,
    pub suggestions: Vec<Suggestion>,
}

/// Finds the advice that fits a failure.
#[derive(Debug)]
pub struct SuggestionEngine {
    pub patterns: Vec<ErrorPattern>,
}

/// How many kinds of failure are known.
pub const PATTERN_COUNT: usize = 10;

/// An advice as texts.
pub struct SuggestionView {
    pub title: Seq<char>,
    pub description: Seq<char>,
    pub commands: Seq<Seq<char>>,
    pub severity: SuggestionSeverity,
}

/// The texts of an advice.
pub open spec fn spec_suggestion_view(s: Suggestion) -> SuggestionView {
    SuggestionView {
        title: s.title@,
        description: s.description@,
        commands: string_views(s.commands@),
        severity: s.severity,
    }
}

/// The texts of a list of advice.
pub open spec fn spec_suggestion_views(list: Seq<Suggestion>) -> Seq<SuggestionView> {
    Seq::new(list.len(), |i: int| spec_suggestion_view(list[i]))
}
/// The name of each known kind of failure.
pub open spec fn spec_pattern_name(i: int) -> Seq<char> {
    if i == 0 {
        "missing_gmp"@
    } else if i == 1 {
        "missing_mpfr"@
    } else if i == 2 {
        "missing_mpc"@
    } else if i == 3 {
        "out_of_memory"@
    } else if i == 4 {
        "disk_space"@
    } else if i == 5 {
        "permission_denied"@
    } else if i == 6 {
        "network_error"@
    } else if i == 7 {
        "configure_error"@
    } else if i == 8 {
        "missing_make"@
    } else {
        "isl_version"@
    }
}

/// The regular expression by which each known kind of failure is known.
pub open spec fn spec_pattern_regex(i: int) -> Seq<char> {
    if i == 0 {
        "(?i)(gmp|libgmp).*not found|cannot find.*gmp"@
    } else if i == 1 {
        "(?i)(mpfr|libmpfr).*not found|cannot find.*mpfr"@
    } else if i == 2 {
        "(?i)(mpc|libmpc).*not found|cannot find.*mpc"@
    } else if i == 3 {
        "(?i)out of memory|memory exhausted|cannot allocate|oom|killed.*signal 9"@
    } else if i == 4 {
        "(?i)no space left|disk full|ENOSPC"@
    } else if i == 5 {
        "(?i)permission denied|EACCES|cannot create.*directory"@
    } else if i == 6 {
        "(?i)connection.*refused|timeout|could not resolve|network.*unreachable"@
    } else if i == 7 {
        "(?i)configure: error:|configuration failed"@
    } else if i == 8 {
        "(?i)make.*not found|gmake.*not found"@
    } else {
        "(?i)isl.*version.*required|libisl"@
    }
}

/// The advice for each known kind of failure.
pub open spec fn spec_pattern_advice(i: int) -> Seq<SuggestionView> {
    if i == 0 {
        seq![
        SuggestionView {
            title: "Install GMP development package"@,
            description: "GCC requires GMP (GNU Multiple Precision) library"@,
            commands: seq!["# Ubuntu/Debian:"@, "sudo apt-get install libgmp-dev"@, "# RHEL/CentOS/Fedora:"@, "sudo yum install gmp-devel"@],
            severity: SuggestionSeverity::Critical,
        },
        ]
    } else if i == 1 {
        seq![
        SuggestionView {
            title: "Install MPFR development package"@,
            description: "GCC requires MPFR (Multiple Precision Floating-Point) library"@,
            commands: seq!["# Ubuntu/Debian:"@, "sudo apt-get install libmpfr-dev"@, "# RHEL/CentOS/Fedora:"@, "sudo yum install mpfr-devel"@],
            severity: SuggestionSeverity::Critical,
        },
        ]
    } else if i == 2 {
        seq![
        SuggestionView {
            title: "Install MPC development package"@,
            description: "GCC requires MPC (Multiple Precision Complex) library"@,
            commands: seq!["# Ubuntu/Debian:"@, "sudo apt-get install libmpc-dev"@, "# RHEL/CentOS/Fedora:"@, "sudo yum install libmpc-devel"@],
            severity: SuggestionSeverity::Critical,
        },
        ]
    } else if i == 3 {
        seq![
        SuggestionView {
            title: "Reduce parallel jobs"@,
            description: "The build ran out of memory. Try reducing parallelism."@,
            commands: seq!["# Reduce parallel jobs:"@, "./gcc-builder --jobs 2 ..."@, "# Or use minimal preset:"@, "./gcc-builder --preset minimal ..."@],
            severity: SuggestionSeverity::Error,
        },
        SuggestionView {
            title: "Add swap space"@,
            description: "Consider adding temporary swap space for the build"@,
            commands: seq!["# Create 8GB swap file:"@, "sudo fallocate -l 8G /swapfile"@, "sudo chmod 600 /swapfile"@, "sudo mkswap /swapfile"@, "sudo swapon /swapfile"@],
            severity: SuggestionSeverity::Warning,
        },
        ]
    } else if i == 4 {
        seq![
        SuggestionView {
            title: "Free up disk space"@,
            description: "The build requires significant disk space (25GB+ per version)"@,
            commands: seq!["# Check disk usage:"@, "df -h"@, "# Clean build directory:"@, "rm -rf /tmp/gcc-build-*"@, "# Use different build directory:"@, "./gcc-builder --build-dir /path/with/space ..."@],
            severity: SuggestionSeverity::Critical,
        },
        ]
    } else if i == 5 {
        seq![
        SuggestionView {
            title: "Check directory permissions"@,
            description: "Ensure you have write permissions to the installation directory"@,
            commands: seq!["# Use a different prefix:"@, "./gcc-builder --prefix $HOME/gcc ..."@, "# Or fix permissions:"@, "sudo chown -R $USER:$USER /path/to/directory"@],
            severity: SuggestionSeverity::Error,
        },
        ]
    } else if i == 6 {
        seq![
        SuggestionView {
            title: "Check network connectivity"@,
            description: "Unable to download files. Check your internet connection."@,
            commands: seq!["# Test connectivity:"@, "ping -c 4 ftp.gnu.org"@, "# Check DNS:"@, "nslookup ftp.gnu.org"@, "# Use proxy if needed:"@, "export https_proxy=http://proxy:port"@],
            severity: SuggestionSeverity::Error,
        },
        ]
    } else if i == 7 {
        seq![
        SuggestionView {
            title: "Check configure log"@,
            description: "Configuration failed. Check config.log for details."@,
            commands: seq!["# View configure log:"@, "less /tmp/gcc-build-*/workspace/gcc-*/build-gcc/config.log"@, "# Common fixes:"@, "# - Install missing development packages"@, "# - Use --disable-multilib if 32-bit libs missing"@],
            severity: SuggestionSeverity::Error,
        },
        ]
    } else if i == 8 {
        seq![
        SuggestionView {
            title: "Install build essentials"@,
            description: "Basic build tools are missing"@,
            commands: seq!["# Ubuntu/Debian:"@, "sudo apt-get install build-essential"@, "# RHEL/CentOS/Fedora:"@, "sudo yum groupinstall 'Development Tools'"@],
            severity: SuggestionSeverity::Critical,
        },
        ]
    } else {
        seq![
        SuggestionView {
            title: "ISL version mismatch"@,
            description: "GCC requires a specific ISL version for Graphite optimizations"@,
            commands: seq!["# Disable Graphite to avoid ISL:"@, "./gcc-builder --versions X ... # (ISL handled automatically)"@, "# Or install ISL:"@, "sudo apt-get install libisl-dev  # Ubuntu/Debian"@],
            severity: SuggestionSeverity::Warning,
        },
        ]
    }
}

/// The advice that is given where no known kind of failure is recognized.
pub open spec fn spec_generic_advice() -> SuggestionView {
    SuggestionView {
        title: "Check build logs"@,
        description: "Review the detailed build logs for more information"@,
        commands: seq![
            "# Enable verbose output:"@,
            "./gcc-builder --verbose --debug ..."@,
            "# Save logs to file:"@,
            "./gcc-builder --log-file build.log ..."@,
        ],
        severity: SuggestionSeverity::Info,
    }
}

/// An advice with these texts.
pub fn make_suggestion(
    title: &str,
    description: &str,
    commands: Vec<String>,
    severity: SuggestionSeverity,
) -> (res: Suggestion)
    ensures
        spec_suggestion_view(res) == (SuggestionView {
            title: title@,
            description: description@,
            commands: string_views(commands@),
            severity,
        }),
{
    Suggestion { title: title.to_owned(), description: description.to_owned(), commands, severity }
}

fn pattern_0() -> (res: ErrorPattern)
    ensures
        res.name@ == spec_pattern_name(0),
        res.regex@ == spec_pattern_regex(0),
        spec_suggestion_views(res.suggestions@) == spec_pattern_advice(0),
{
    let mut suggestions: Vec<Suggestion> = Vec::new();
    let mut commands: Vec<String> = Vec::new();
    assert(string_views(commands@) =~= Seq::<Seq<char>>::empty());
    push_str(&mut commands, "# Ubuntu/Debian:");
    push_str(&mut commands, "sudo apt-get install libgmp-dev");
    push_str(&mut commands, "# RHEL/CentOS/Fedora:");
    push_str(&mut commands, "sudo yum install gmp-devel");
    assert(string_views(commands@) =~= seq!["# Ubuntu/Debian:"@, "sudo apt-get install libgmp-dev"@, "# RHEL/CentOS/Fedora:"@, "sudo yum install gmp-devel"@]);
    suggestions.push(
        make_suggestion(
            "Install GMP development package",
            "GCC requires GMP (GNU Multiple Precision) library",
            commands,
            SuggestionSeverity::Critical,
        ),
    );
    assert(spec_suggestion_views(suggestions@) =~= spec_pattern_advice(0));
    ErrorPattern { name: "missing_gmp".to_owned(), regex: "(?i)(gmp|libgmp).*not found|cannot find.*gmp".to_owned(), suggestions }
}

fn pattern_1() -> (res: ErrorPattern)
    ensures
        res.name@ == spec_pattern_name(1),
        res.regex@ == spec_pattern_regex(1),
        spec_suggestion_views(res.suggestions@) == spec_pattern_advice(1),
{
    let mut suggestions: Vec<Suggestion> = Vec::new();
    let mut commands: Vec<String> = Vec::new();
    assert(string_views(commands@) =~= Seq::<Seq<char>>::empty());
    push_str(&mut commands, "# Ubuntu/Debian:");
    push_str(&mut commands, "sudo apt-get install libmpfr-dev");
    push_str(&mut commands, "# RHEL/CentOS/Fedora:");
    push_str(&mut commands, "sudo yum install mpfr-devel");
    assert(string_views(commands@) =~= seq!["# Ubuntu/Debian:"@, "sudo apt-get install libmpfr-dev"@, "# RHEL/CentOS/Fedora:"@, "sudo yum install mpfr-devel"@]);
    suggestions.push(
        make_suggestion(
            "Install MPFR development package",
            "GCC requires MPFR (Multiple Precision Floating-Point) library",
            commands,
            SuggestionSeverity::Critical,
        ),
    );
    assert(spec_suggestion_views(suggestions@) =~= spec_pattern_advice(1));
    ErrorPattern { name: "missing_mpfr".to_owned(), regex: "(?i)(mpfr|libmpfr).*not found|cannot find.*mpfr".to_owned(), suggestions }
}

fn pattern_2() -> (res: ErrorPattern)
    ensures
        res.name@ == spec_pattern_name(2),
        res.regex@ == spec_pattern_regex(2),
        spec_suggestion_views(res.suggestions@) == spec_pattern_advice(2),
{
    let mut suggestions: Vec<Suggestion> = Vec::new();
    let mut commands: Vec<String> = Vec::new();
    assert(string_views(commands@) =~= Seq::<Seq<char>>::empty());
    push_str(&mut commands, "# Ubuntu/Debian:");
    push_str(&mut commands, "sudo apt-get install libmpc-dev");
    push_str(&mut commands, "# RHEL/CentOS/Fedora:");
    push_str(&mut commands, "sudo yum install libmpc-devel");
    assert(string_views(commands@) =~= seq!["# Ubuntu/Debian:"@, "sudo apt-get install libmpc-dev"@, "# RHEL/CentOS/Fedora:"@, "sudo yum install libmpc-devel"@]);
    suggestions.push(
        make_suggestion(
            "Install MPC development package",
            "GCC requires MPC (Multiple Precision Complex) library",
            commands,
            SuggestionSeverity::Critical,
        ),
    );
    assert(spec_suggestion_views(suggestions@) =~= spec_pattern_advice(2));
    ErrorPattern { name: "missing_mpc".to_owned(), regex: "(?i)(mpc|libmpc).*not found|cannot find.*mpc".to_owned(), suggestions }
}

fn pattern_3() -> (res: ErrorPattern)
    ensures
        res.name@ == spec_pattern_name(3),
        res.regex@ == spec_pattern_regex(3),
        spec_suggestion_views(res.suggestions@) == spec_pattern_advice(3),
{
    let mut suggestions: Vec<Suggestion> = Vec::new();
    let mut commands: Vec<String> = Vec::new();
    assert(string_views(commands@) =~= Seq::<Seq<char>>::empty());
    push_str(&mut commands, "# Reduce parallel jobs:");
    push_str(&mut commands, "./gcc-builder --jobs 2 ...");
    push_str(&mut commands, "# Or use minimal preset:");
    push_str(&mut commands, "./gcc-builder --preset minimal ...");
    assert(string_views(commands@) =~= seq!["# Reduce parallel jobs:"@, "./gcc-builder --jobs 2 ..."@, "# Or use minimal preset:"@, "./gcc-builder --preset minimal ..."@]);
    suggestions.push(
        make_suggestion(
            "Reduce parallel jobs",
            "The build ran out of memory. Try reducing parallelism.",
            commands,
            SuggestionSeverity::Error,
        ),
    );
    let mut commands: Vec<String> = Vec::new();
    assert(string_views(commands@) =~= Seq::<Seq<char>>::empty());
    push_str(&mut commands, "# Create 8GB swap file:");
    push_str(&mut commands, "sudo fallocate -l 8G /swapfile");
    push_str(&mut commands, "sudo chmod 600 /swapfile");
    push_str(&mut commands, "sudo mkswap /swapfile");
    push_str(&mut commands, "sudo swapon /swapfile");
    assert(string_views(commands@) =~= seq!["# Create 8GB swap file:"@, "sudo fallocate -l 8G /swapfile"@, "sudo chmod 600 /swapfile"@, "sudo mkswap /swapfile"@, "sudo swapon /swapfile"@]);
    suggestions.push(
        make_suggestion(
            "Add swap space",
            "Consider adding temporary swap space for the build",
            commands,
            SuggestionSeverity::Warning,
        ),
    );
    assert(spec_suggestion_views(suggestions@) =~= spec_pattern_advice(3));
    ErrorPattern { name: "out_of_memory".to_owned(), regex: "(?i)out of memory|memory exhausted|cannot allocate|oom|killed.*signal 9".to_owned(), suggestions }
}

fn pattern_4() -> (res: ErrorPattern)
    ensures
        res.name@ == spec_pattern_name(4),
        res.regex@ == spec_pattern_regex(4),
        spec_suggestion_views(res.suggestions@) == spec_pattern_advice(4),
{
    let mut suggestions: Vec<Suggestion> = Vec::new();
    let mut commands: Vec<String> = Vec::new();
    assert(string_views(commands@) =~= Seq::<Seq<char>>::empty());
    push_str(&mut commands, "# Check disk usage:");
    push_str(&mut commands, "df -h");
    push_str(&mut commands, "# Clean build directory:");
    push_str(&mut commands, "rm -rf /tmp/gcc-build-*");
    push_str(&mut commands, "# Use different build directory:");
    push_str(&mut commands, "./gcc-builder --build-dir /path/with/space ...");
    assert(string_views(commands@) =~= seq!["# Check disk usage:"@, "df -h"@, "# Clean build directory:"@, "rm -rf /tmp/gcc-build-*"@, "# Use different build directory:"@, "./gcc-builder --build-dir /path/with/space ..."@]);
    suggestions.push(
        make_suggestion(
            "Free up disk space",
            "The build requires significant disk space (25GB+ per version)",
            commands,
            SuggestionSeverity::Critical,
        ),
    );
    assert(spec_suggestion_views(suggestions@) =~= spec_pattern_advice(4));
    ErrorPattern { name: "disk_space".to_owned(), regex: "(?i)no space left|disk full|ENOSPC".to_owned(), suggestions }
}

fn pattern_5() -> (res: ErrorPattern)
    ensures
        res.name@ == spec_pattern_name(5),
        res.regex@ == spec_pattern_regex(5),
        spec_suggestion_views(res.suggestions@) == spec_pattern_advice(5),
{
    let mut suggestions: Vec<Suggestion> = Vec::new();
    let mut commands: Vec<String> = Vec::new();
    assert(string_views(commands@) =~= Seq::<Seq<char>>::empty());
    push_str(&mut commands, "# Use a different prefix:");
    push_str(&mut commands, "./gcc-builder --prefix $HOME/gcc ...");
    push_str(&mut commands, "# Or fix permissions:");
    push_str(&mut commands, "sudo chown -R $USER:$USER /path/to/directory");
    assert(string_views(commands@) =~= seq!["# Use a different prefix:"@, "./gcc-builder --prefix $HOME/gcc ..."@, "# Or fix permissions:"@, "sudo chown -R $USER:$USER /path/to/directory"@]);
    suggestions.push(
        make_suggestion(
            "Check directory permissions",
            "Ensure you have write permissions to the installation directory",
            commands,
            SuggestionSeverity::Error,
        ),
    );
    assert(spec_suggestion_views(suggestions@) =~= spec_pattern_advice(5));
    ErrorPattern { name: "permission_denied".to_owned(), regex: "(?i)permission denied|EACCES|cannot create.*directory".to_owned(), suggestions }
}

fn pattern_6() -> (res: ErrorPattern)
    ensures
        res.name@ == spec_pattern_name(6),
        res.regex@ == spec_pattern_regex(6),
        spec_suggestion_views(res.suggestions@) == spec_pattern_advice(6),
{
    let mut suggestions: Vec<Suggestion> = Vec::new();
    let mut commands: Vec<String> = Vec::new();
    assert(string_views(commands@) =~= Seq::<Seq<char>>::empty());
    push_str(&mut commands, "# Test connectivity:");
    push_str(&mut commands, "ping -c 4 ftp.gnu.org");
    push_str(&mut commands, "# Check DNS:");
    push_str(&mut commands, "nslookup ftp.gnu.org");
    push_str(&mut commands, "# Use proxy if needed:");
    push_str(&mut commands, "export https_proxy=http://proxy:port");
    assert(string_views(commands@) =~= seq!["# Test connectivity:"@, "ping -c 4 ftp.gnu.org"@, "# Check DNS:"@, "nslookup ftp.gnu.org"@, "# Use proxy if needed:"@, "export https_proxy=http://proxy:port"@]);
    suggestions.push(
        make_suggestion(
            "Check network connectivity",
            "Unable to download files. Check your internet connection.",
            commands,
            SuggestionSeverity::Error,
        ),
    );
    assert(spec_suggestion_views(suggestions@) =~= spec_pattern_advice(6));
    ErrorPattern { name: "network_error".to_owned(), regex: "(?i)connection.*refused|timeout|could not resolve|network.*unreachable".to_owned(), suggestions }
}

fn pattern_7() -> (res: ErrorPattern)
    ensures
        res.name@ == spec_pattern_name(7),
        res.regex@ == spec_pattern_regex(7),
        spec_suggestion_views(res.suggestions@) == spec_pattern_advice(7),
{
    let mut suggestions: Vec<Suggestion> = Vec::new();
    let mut commands: Vec<String> = Vec::new();
    assert(string_views(commands@) =~= Seq::<Seq<char>>::empty());
    push_str(&mut commands, "# View configure log:");
    push_str(&mut commands, "less /tmp/gcc-build-*/workspace/gcc-*/build-gcc/config.log");
    push_str(&mut commands, "# Common fixes:");
    push_str(&mut commands, "# - Install missing development packages");
    push_str(&mut commands, "# - Use --disable-multilib if 32-bit libs missing");
    assert(string_views(commands@) =~= seq!["# View configure log:"@, "less /tmp/gcc-build-*/workspace/gcc-*/build-gcc/config.log"@, "# Common fixes:"@, "# - Install missing development packages"@, "# - Use --disable-multilib if 32-bit libs missing"@]);
    suggestions.push(
        make_suggestion(
            "Check configure log",
            "Configuration failed. Check config.log for details.",
            commands,
            SuggestionSeverity::Error,
        ),
    );
    assert(spec_suggestion_views(suggestions@) =~= spec_pattern_advice(7));
    ErrorPattern { name: "configure_error".to_owned(), regex: "(?i)configure: error:|configuration failed".to_owned(), suggestions }
}

fn pattern_8() -> (res: ErrorPattern)
    ensures
        res.name@ == spec_pattern_name(8),
        res.regex@ == spec_pattern_regex(8),
        spec_suggestion_views(res.suggestions@) == spec_pattern_advice(8),
{
    let mut suggestions: Vec<Suggestion> = Vec::new();
    let mut commands: Vec<String> = Vec::new();
    assert(string_views(commands@) =~= Seq::<Seq<char>>::empty());
    push_str(&mut commands, "# Ubuntu/Debian:");
    push_str(&mut commands, "sudo apt-get install build-essential");
    push_str(&mut commands, "# RHEL/CentOS/Fedora:");
    push_str(&mut commands, "sudo yum groupinstall 'Development Tools'");
    assert(string_views(commands@) =~= seq!["# Ubuntu/Debian:"@, "sudo apt-get install build-essential"@, "# RHEL/CentOS/Fedora:"@, "sudo yum groupinstall 'Development Tools'"@]);
    suggestions.push(
        make_suggestion(
            "Install build essentials",
            "Basic build tools are missing",
            commands,
            SuggestionSeverity::Critical,
        ),
    );
    assert(spec_suggestion_views(suggestions@) =~= spec_pattern_advice(8));
    ErrorPattern { name: "missing_make".to_owned(), regex: "(?i)make.*not found|gmake.*not found".to_owned(), suggestions }
}

fn pattern_9() -> (res: ErrorPattern)
    ensures
        res.name@ == spec_pattern_name(9),
        res.regex@ == spec_pattern_regex(9),
        spec_suggestion_views(res.suggestions@) == spec_pattern_advice(9),
{
    let mut suggestions: Vec<Suggestion> = Vec::new();
    let mut commands: Vec<String> = Vec::new();
    assert(string_views(commands@) =~= Seq::<Seq<char>>::empty());
    push_str(&mut commands, "# Disable Graphite to avoid ISL:");
    push_str(&mut commands, "./gcc-builder --versions X ... # (ISL handled automatically)");
    push_str(&mut commands, "# Or install ISL:");
    push_str(&mut commands, "sudo apt-get install libisl-dev  # Ubuntu/Debian");
    assert(string_views(commands@) =~= seq!["# Disable Graphite to avoid ISL:"@, "./gcc-builder --versions X ... # (ISL handled automatically)"@, "# Or install ISL:"@, "sudo apt-get install libisl-dev  # Ubuntu/Debian"@]);
    suggestions.push(
        make_suggestion(
            "ISL version mismatch",
            "GCC requires a specific ISL version for Graphite optimizations",
            commands,
            SuggestionSeverity::Warning,
        ),
    );
    assert(spec_suggestion_views(suggestions@) =~= spec_pattern_advice(9));
    ErrorPattern { name: "isl_version".to_owned(), regex: "(?i)isl.*version.*required|libisl".to_owned(), suggestions }
}

/// Whether the regular expression of a pattern matches in `text`.
pub open spec fn spec_pattern_matches(regex: Seq<char>, text: Seq<char>) -> bool {
    spec_regex_is_match(regex, text) == Some(true)
}

/// A pattern as texts: its regular expression and its advice.
pub struct PatternView {
    pub regex: Seq<char>,
    pub advice: Seq<SuggestionView>,
}

/// The patterns as texts.
pub open spec fn spec_pattern_views(patterns: Seq<ErrorPattern>) -> Seq<PatternView> {
    Seq::new(
        patterns.len(),
        |i: int|
            PatternView {
                regex: patterns[i].regex@,
                advice: spec_suggestion_views(patterns[i].suggestions@),
            },
    )
}

/// The usual kinds of failure, as texts.
pub open spec fn spec_standard_patterns() -> Seq<PatternView> {
    Seq::new(
        PATTERN_COUNT as nat,
        |i: int| PatternView { regex: spec_pattern_regex(i), advice: spec_pattern_advice(i) },
    )
}

/// The advice of those of the first `k` patterns that match in `text`,
/// in the order of the patterns.
pub open spec fn spec_matched_advice(patterns: Seq<PatternView>, text: Seq<char>, k: int) -> Seq<
    SuggestionView,
>
    decreases k,
{
    if k <= 0 {
        Seq::empty()
    } else if spec_pattern_matches(patterns[k - 1].regex, text) {
        spec_matched_advice(patterns, text, k - 1) + patterns[k - 1].advice
    } else {
        spec_matched_advice(patterns, text, k - 1)
    }
}

/// The advice for a failure with this text: that of the patterns that
/// match, or the generic advice where none gives any.
pub open spec fn spec_advice(patterns: Seq<PatternView>, text: Seq<char>) -> Seq<SuggestionView> {
    let matched = spec_matched_advice(patterns, text, patterns.len() as int);
    if matched.len() == 0 {
        seq![spec_generic_advice()]
    } else {
        matched
    }
}

/// The advice of those of the first `k` patterns that `hits` marks, in
/// the order of the patterns.
pub open spec fn spec_marked_advice(patterns: Seq<PatternView>, hits: Seq<bool>, k: int) -> Seq<
    SuggestionView,
>
    decreases k,
{
    if k <= 0 {
        Seq::empty()
    } else if hits[k - 1] {
        spec_marked_advice(patterns, hits, k - 1) + patterns[k - 1].advice
    } else {
        spec_marked_advice(patterns, hits, k - 1)
    }
}

/// The advice where `hits` tells of each pattern whether it matched: that
/// of the patterns that matched, or the generic advice where none gives any.
pub open spec fn spec_advice_of(patterns: Seq<PatternView>, hits: Seq<bool>) -> Seq<SuggestionView> {
    let marked = spec_marked_advice(patterns, hits, patterns.len() as int);
    if marked.len() == 0 {
        seq![spec_generic_advice()]
    } else {
        marked
    }
}

/// Marks that tell of each pattern whether it matches in a text choose
/// the advice of the patterns that match in it.
pub proof fn lemma_marks_choose_matches(
    patterns: Seq<PatternView>,
    text: Seq<char>,
    hits: Seq<bool>,
    k: int,
)
    requires
        0 <= k <= patterns.len(),
        hits.len() == patterns.len(),
        forall|i: int| 0 <= i < k ==> hits[i] == spec_pattern_matches(#[trigger] patterns[i].regex, text),
    ensures
        spec_marked_advice(patterns, hits, k) == spec_matched_advice(patterns, text, k),
    decreases k,
{
    if k > 0 {
        lemma_marks_choose_matches(patterns, text, hits, k - 1);
        assert(hits[k - 1] == spec_pattern_matches(patterns[k - 1].regex, text));
    }
}

/// A copy of an advice.
pub fn copy_suggestion(s: &Suggestion) -> (res: Suggestion)
    ensures
        spec_suggestion_view(res) == spec_suggestion_view(*s),
{
    Suggestion {
        title: s.title.clone(),
        description: s.description.clone(),
        commands: clone_strings(&s.commands),
        severity: s.severity,
    }
}

impl SuggestionEngine {
    /// An engine that knows the usual kinds of failure.
    pub fn new() -> (res: Self)
        ensures
            res.patterns@.len() == PATTERN_COUNT,
            forall|i: int|
                0 <= i < PATTERN_COUNT ==> (#[trigger] res.patterns@[i]).name@ == spec_pattern_name(
                    i,
                ),
            spec_pattern_views(res.patterns@) == spec_standard_patterns(),
    {
        let mut patterns: Vec<ErrorPattern> = Vec::new();
        patterns.push(pattern_0());
        patterns.push(pattern_1());
        patterns.push(pattern_2());
        patterns.push(pattern_3());
        patterns.push(pattern_4());
        patterns.push(pattern_5());
        patterns.push(pattern_6());
        patterns.push(pattern_7());
        patterns.push(pattern_8());
        patterns.push(pattern_9());
        assert(spec_pattern_views(patterns@) =~= spec_standard_patterns());
        SuggestionEngine { patterns }
    }

    /// The advice where `hits` tells of each pattern whether it matched.
    pub fn advice_for(&self, hits: &Vec<bool>) -> (res: Vec<Suggestion>)
        requires
            hits@.len() == self.patterns@.len(),
        ensures
            spec_suggestion_views(res@) == spec_advice_of(spec_pattern_views(self.patterns@), hits@),
    {
        let mut out: Vec<Suggestion> = Vec::new();
        assert(spec_suggestion_views(out@) =~= Seq::<SuggestionView>::empty());
        let mut i: usize = 0;
        while i < self.patterns.len()
            invariant
                i <= self.patterns@.len(),
                hits@.len() == self.patterns@.len(),
                spec_suggestion_views(out@) == spec_marked_advice(
                    spec_pattern_views(self.patterns@),
                    hits@,
                    i as int,
                ),
            decreases self.patterns@.len() - i,
        {
            let p = &self.patterns[i];
            if hits[i] {
                let ghost base = spec_suggestion_views(out@);
                let mut k: usize = 0;
                while k < p.suggestions.len()
                    invariant
                        k <= p.suggestions@.len(),
                        spec_suggestion_views(out@) == base + spec_suggestion_views(
                            p.suggestions@,
                        ).take(k as int),
                    decreases p.suggestions@.len() - k,
                {
                    let ghost before = spec_suggestion_views(out@);
                    out.push(copy_suggestion(&p.suggestions[k]));
                    assert(spec_suggestion_views(out@) =~= before.push(
                        spec_suggestion_view(p.suggestions@[k as int]),
                    ));
                    assert(spec_suggestion_views(p.suggestions@).take(k + 1)
                        =~= spec_suggestion_views(p.suggestions@).take(k as int).push(
                        spec_suggestion_view(p.suggestions@[k as int]),
                    ));
                    k += 1;
                }
                assert(spec_suggestion_views(p.suggestions@).take(p.suggestions@.len() as int)
                    == spec_suggestion_views(p.suggestions@));
            }
            i += 1;
        }
        if out.len() == 0 {
            let mut commands: Vec<String> = Vec::new();
            assert(string_views(commands@) =~= Seq::<Seq<char>>::empty());
            push_str(&mut commands, "# Enable verbose output:");
            push_str(&mut commands, "./gcc-builder --verbose --debug ...");
            push_str(&mut commands, "# Save logs to file:");
            push_str(&mut commands, "./gcc-builder --log-file build.log ...");
            assert(string_views(commands@) =~= seq![
                "# Enable verbose output:"@,
                "./gcc-builder --verbose --debug ..."@,
                "# Save logs to file:"@,
                "./gcc-builder --log-file build.log ..."@,
            ]);
            out.push(
                make_suggestion(
                    "Check build logs",
                    "Review the detailed build logs for more information",
                    commands,
                    SuggestionSeverity::Info,
                ),
            );
            assert(spec_suggestion_views(out@) =~= seq![spec_generic_advice()]);
        }
        out
    }

    /// The advice for a failure with this text.
    pub fn analyze_text(&self, error_text: &str) -> (res: Vec<Suggestion>)
        ensures
            spec_suggestion_views(res@) == spec_advice(
                spec_pattern_views(self.patterns@),
                error_text@,
            ),
    {
        let mut hits: Vec<bool> = Vec::new();
        let mut i: usize = 0;
        while i < self.patterns.len()
            invariant
                i <= self.patterns@.len(),
                hits@.len() == i,
                forall|j: int|
                    0 <= j < i ==> hits@[j] == spec_pattern_matches(
                        #[trigger] self.patterns@[j].regex@,
                        error_text@,
                    ),
            decreases self.patterns@.len() - i,
        {
            let hit = match regex_is_match(self.patterns[i].regex.as_str(), error_text) {
                Some(b) => b,
                None => false,
            };
            hits.push(hit);
            i += 1;
        }
        proof {
            let views = spec_pattern_views(self.patterns@);
            assert forall|j: int| 0 <= j < views.len() implies hits@[j] == spec_pattern_matches(
                #[trigger] views[j].regex,
                error_text@,
            ) by {
                assert(views[j].regex == self.patterns@[j].regex@);
            }
            lemma_marks_choose_matches(views, error_text@, hits@, views.len() as int);
        }
        self.advice_for(&hits)
    }

    /// The advice for an error.
    pub fn analyze(&self, error: &BuildError) -> (res: Vec<Suggestion>)
        ensures
            spec_suggestion_views(res@) == spec_advice(
                spec_pattern_views(self.patterns@),
                spec_error_message(*error),
            ),
    {
        let text = error.message();
        self.analyze_text(text.as_str())
    }

    /// A list of advice as it is shown to the user.
    pub fn format_suggestions(suggestions: &Vec<Suggestion>) -> (res: String)
        ensures
            res@ == spec_formatted(spec_suggestion_views(suggestions@)),
    {
        if suggestions.len() == 0 {
            return String::new();
        }
        let mut out = "\nSuggestions to resolve this issue:\n".to_owned();
        out.append("--------------------------------------------------");
        out.append("\n");
        let ghost vs = spec_suggestion_views(suggestions@);
        let mut i: usize = 0;
        while i < suggestions.len()
            invariant
                i <= suggestions@.len(),
                vs == spec_suggestion_views(suggestions@),
                out@ == spec_formatted_items(vs, i as int),
            decreases suggestions@.len() - i,
        {
            let block = format_one(&suggestions[i], i);
            out.append(block.as_str());
            i += 1;
        }
        out.append("--------------------------------------------------");
        out
    }
}

/// The mark that shows how grave an advice is.
pub open spec fn spec_severity_mark(severity: SuggestionSeverity) -> Seq<char> {
    match severity {
        SuggestionSeverity::Info => "[info]"@,
        SuggestionSeverity::Warning => "[warning]"@,
        SuggestionSeverity::Error => "[error]"@,
        SuggestionSeverity::Critical => "[critical]"@,
    }
}

/// The lines that show the first `k` commands of an advice.
pub open spec fn spec_command_lines(commands: Seq<Seq<char>>, k: int) -> Seq<char>
    decreases k,
{
    if k <= 0 {
        Seq::empty()
    } else {
        spec_command_lines(commands, k - 1) + "   "@ + commands[k - 1] + "\n"@
    }
}

/// The lines that show one advice, numbered from one.
pub open spec fn spec_formatted_one(s: SuggestionView, index: int) -> Seq<char> {
    "\n"@ + spec_severity_mark(s.severity) + " "@ + spec_decimal((index + 1) as nat) + ". "@
        + s.title + "\n"@ + "   "@ + s.description + "\n"@ + (if s.commands.len() > 0 {
        "\n   Commands:\n"@ + spec_command_lines(s.commands, s.commands.len() as int)
    } else {
        Seq::empty()
    })
}

/// The heading and the lines that show the first `k` of a list of advice.
pub open spec fn spec_formatted_items(list: Seq<SuggestionView>, k: int) -> Seq<char>
    decreases k,
{
    if k <= 0 {
        "\nSuggestions to resolve this issue:\n"@
            + "--------------------------------------------------"@ + "\n"@
    } else {
        spec_formatted_items(list, k - 1) + spec_formatted_one(list[k - 1], k - 1)
    }
}

/// A list of advice as it is shown to the user: nothing for an empty
/// list, else a heading, the advice, and a closing rule.
pub open spec fn spec_formatted(list: Seq<SuggestionView>) -> Seq<char> {
    if list.len() == 0 {
        Seq::empty()
    } else {
        spec_formatted_items(list, list.len() as int)
            + "--------------------------------------------------"@
    }
}

/// The lines that show one advice, numbered from one.
pub fn format_one(s: &Suggestion, index: usize) -> (res: String)
    requires
        index < usize::MAX,
    ensures
        res@ == spec_formatted_one(spec_suggestion_view(*s), index as int),
{
    let mut head = "\n".to_owned();
    head.append(match s.severity {
        SuggestionSeverity::Info => "[info]",
        SuggestionSeverity::Warning => "[warning]",
        SuggestionSeverity::Error => "[error]",
        SuggestionSeverity::Critical => "[critical]",
    });
    head.append(" ");
    push_decimal(&mut head, (index + 1) as u64);
    head.append(". ");
    head.append(s.title.as_str());
    head.append("\n");
    head.append("   ");
    head.append(s.description.as_str());
    head.append("\n");
    let ghost h = head@;
    assert(h == "\n"@ + spec_severity_mark(s.severity) + " "@ + spec_decimal((index + 1) as nat)
        + ". "@ + s.title@ + "\n"@ + "   "@ + s.description@ + "\n"@);
    if s.commands.len() > 0 {
        let mut lines = String::new();
        let ghost cs = string_views(s.commands@);
        let mut k: usize = 0;
        while k < s.commands.len()
            invariant
                k <= s.commands@.len(),
                cs == string_views(s.commands@),
                lines@ == spec_command_lines(cs, k as int),
            decreases s.commands@.len() - k,
        {
            assert(cs[k as int] == s.commands@[k as int]@);
            lines.append("   ");
            lines.append(s.commands[k].as_str());
            lines.append("\n");
            k += 1;
        }
        head.append("\n   Commands:\n");
        head.append(lines.as_str());
        assert(head@ =~= h + ("\n   Commands:\n"@ + spec_command_lines(cs, cs.len() as int)));
    } else {
        assert(head@ =~= h + Seq::<char>::empty());
    }
    head
}

/// The advice for an error, from an engine that knows the usual kinds of failure.
pub fn get_suggestions(error: &BuildError) -> (res: Vec<Suggestion>)
    ensures
        spec_suggestion_views(res@) == spec_advice(
            spec_standard_patterns(),
            spec_error_message(*error),
        ),
        res@.len() > 0,
{
    let engine = SuggestionEngine::new();
    let r = engine.analyze(error);
    assert(spec_suggestion_views(r@).len() == r@.len());
    proof {
        lemma_advice_nonempty(spec_standard_patterns(), spec_error_message(*error));
    }
    r
}

/// There is always some advice.
pub proof fn lemma_advice_nonempty(patterns: Seq<PatternView>, text: Seq<char>)
    ensures
        spec_advice(patterns, text).len() > 0,
{
}

/// The advice for an error as it is shown to the user.
pub fn display_suggestions(error: &BuildError) -> (res: String)
    ensures
        res@ == spec_formatted(spec_advice(spec_standard_patterns(), spec_error_message(*error))),
{
    let suggestions = get_suggestions(error);
    SuggestionEngine::format_suggestions(&suggestions)
}

} // verus!
