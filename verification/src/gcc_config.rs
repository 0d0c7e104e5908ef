use vstd::prelude::*;
use vstd::string::StringExecFns;
use crate::config::{spec_cflags, spec_ldflags, BuildConfig, LibraryDirs};
use crate::decimal::{push_decimal, spec_decimal};
use crate::error::BuildError;
use crate::scan::{spec_trim, trim};
use crate::text::{
    chars_of,
    find_last,
    join,
    push_str,
    push_string,
    slice,
    spec_contains,
    spec_join,
    spec_last_offset,
    spec_starts_with,
    str_eq,
    str_starts_with,
    string_views,
};
use crate::version::GccVersion;

verus! {

/// The options that every configure run gets.
pub open spec fn spec_required_options(
    prefix: Seq<char>,
    triple: Seq<char>,
    major: int,
) -> Seq<Seq<char>> {
    seq![
        "--prefix="@ + prefix,
        "--build="@ + triple,
        "--host="@ + triple,
        "--target="@ + triple,
        "--enable-languages=all"@,
        "--disable-bootstrap"@,
        "--enable-checking=release"@,
        "--disable-nls"@,
        "--enable-shared"@,
        "--enable-threads=posix"@,
        "--with-system-zlib"@,
        "--program-suffix=-"@ + spec_decimal(major as nat),
        "--with-gcc-major-version-only"@,
    ]
}

/// The options that depend on the release line.
pub open spec fn spec_version_options(major: int) -> Seq<Seq<char>> {
    if 10 <= major <= 11 {
        seq!["--enable-default-pie"@, "--enable-gnu-unique-object"@]
    } else if major == 12 {
        seq![
            "--enable-default-pie"@,
            "--enable-gnu-unique-object"@,
            "--with-link-serialization=2"@,
        ]
    } else if 13 <= major <= 15 {
        seq![
            "--enable-default-pie"@,
            "--enable-gnu-unique-object"@,
            "--with-link-serialization=2"@,
            "--enable-cet"@,
        ]
    } else {
        Seq::<Seq<char>>::empty()
    }
}

/// The multilib switch: exactly one of the two.
pub open spec fn spec_multilib_option(enable: bool) -> Seq<char> {
    if enable {
        "--enable-multilib"@
    } else {
        "--disable-multilib"@
    }
}

/// All options of a configure run, in order: the required ones, the
/// multilib switch, the tuning if it is generic, those of the release line,
/// and the offload target where there is one.
pub open spec fn spec_configure_options(
    prefix: Seq<char>,
    triple: Seq<char>,
    major: int,
    multilib: bool,
    generic: bool,
    offload: Option<Seq<char>>,
) -> Seq<Seq<char>> {
    spec_required_options(prefix, triple, major) + seq![spec_multilib_option(multilib)] + (
    if generic {
        seq!["--with-tune=generic"@]
    } else {
        Seq::<Seq<char>>::empty()
    }) + spec_version_options(major) + (match offload {
        Some(o) => seq![o],
        None => Seq::<Seq<char>>::empty(),
    })
}

/// The offload option for a CUDA compiler found at `nvcc_path`: none where
/// the path is blank; else the target alone, or the target with the
/// installation root where the path ends in `/bin/nvcc` somewhere.
pub open spec fn spec_offload_option(nvcc_path: Seq<char>) -> Option<Seq<char>> {
    let path = spec_trim(nvcc_path);
    if path.len() == 0 {
        None
    } else if spec_contains(path, "/bin/nvcc"@) {
        Some("--enable-offload-targets=nvptx-none="@ + path.take(spec_last_offset(path, "/bin/nvcc"@)))
    } else {
        Some("--enable-offload-targets=nvptx-none"@)
    }
}

/// Whether some option of the list is exactly `word`.
pub open spec fn spec_has_option(options: Seq<Seq<char>>, word: Seq<char>) -> bool {
    exists|i: int| 0 <= i < options.len() && #[trigger] options[i] == word
}

/// Whether some option of the list begins with `head`.
pub open spec fn spec_has_prefix(options: Seq<Seq<char>>, head: Seq<char>) -> bool {
    exists|i: int| 0 <= i < options.len() && spec_starts_with(#[trigger] options[i], head)
}

/// The first of the required option heads that no option of the list begins with.
pub open spec fn spec_missing_head(options: Seq<Seq<char>>) -> Option<Seq<char>> {
    if !spec_has_prefix(options, "--prefix="@) {
        Some("--prefix="@)
    } else if !spec_has_prefix(options, "--build="@) {
        Some("--build="@)
    } else if !spec_has_prefix(options, "--host="@) {
        Some("--host="@)
    } else if !spec_has_prefix(options, "--target="@) {
        Some("--target="@)
    } else if !spec_has_prefix(options, "--enable-languages="@) {
        Some("--enable-languages="@)
    } else {
        None
    }
}

/// What checking a list of configure options yields: a complaint where
/// both multilib switches stand in it, else where a required option is
/// missing; nothing where the list is in order.
pub open spec fn spec_option_complaint(options: Seq<Seq<char>>) -> Option<Seq<char>> {
    if spec_has_option(options, "--enable-multilib"@) && spec_has_option(
        options,
        "--disable-multilib"@,
    ) {
        Some("Conflicting multilib options detected"@)
    } else {
        match spec_missing_head(options) {
            Some(h) => Some("Missing required configure option: "@ + h),
            None => None,
        }
    }
}

/// The configure command as it is logged: one option per line.
pub open spec fn spec_command_text(options: Seq<Seq<char>>) -> Seq<char>
    decreases options.len(),
{
    if options.len() == 0 {
        "../configure"@
    } else {
        spec_command_text(options.drop_last()) + " \\\n    "@ + options.last()
    }
}

/// Whether some option of the list is exactly `word`.
pub fn has_option(options: &Vec<String>, word: &str) -> (res: bool)
    ensures
        res == spec_has_option(string_views(options@), word@),
{
    let mut i: usize = 0;
    while i < options.len()
        invariant
            i <= options.len(),
            forall|j: int| 0 <= j < i ==> string_views(options@)[j] != word@,
        decreases options.len() - i,
    {
        assert(string_views(options@)[i as int] == options@[i as int]@);
        if str_eq(options[i].as_str(), word) {
            return true;
        }
        i += 1;
    }
    false
}

/// Whether some option of the list begins with `head`.
pub fn has_prefix(options: &Vec<String>, head: &str) -> (res: bool)
    ensures
        res == spec_has_prefix(string_views(options@), head@),
{
    let mut i: usize = 0;
    while i < options.len()
        invariant
            i <= options.len(),
            forall|j: int| 0 <= j < i ==> !spec_starts_with(string_views(options@)[j], head@),
        decreases options.len() - i,
    {
        assert(string_views(options@)[i as int] == options@[i as int]@);
        if str_starts_with(options[i].as_str(), head) {
            return true;
        }
        i += 1;
    }
    false
}

/// Checks a list of configure options: the two multilib switches must not
/// both stand in it, and prefix, build, host, target and languages must.
pub fn validate_options(options: &Vec<String>) -> (res: Result<(), BuildError>)
    ensures
        res is Ok <==> spec_option_complaint(string_views(options@)) is None,
        res matches Err(e) ==> e matches BuildError::Configuration { message } && Some(message@)
            == spec_option_complaint(string_views(options@)),
{
    if has_option(options, "--enable-multilib") && has_option(options, "--disable-multilib") {
        let r: Result<(), BuildError> = Err(
            BuildError::Configuration {
                message: "Conflicting multilib options detected".to_owned(),
            },
        );
        assert(r matches Err(BuildError::Configuration { message }) && message@
            == "Conflicting multilib options detected"@);
        return r;
    }
    let head: Option<&'static str> = if !has_prefix(options, "--prefix=") {
        Some("--prefix=")
    } else if !has_prefix(options, "--build=") {
        Some("--build=")
    } else if !has_prefix(options, "--host=") {
        Some("--host=")
    } else if !has_prefix(options, "--target=") {
        Some("--target=")
    } else if !has_prefix(options, "--enable-languages=") {
        Some("--enable-languages=")
    } else {
        None
    };
    match head {
        Some(h) => {
            let mut m = "Missing required configure option: ".to_owned();
            m.append(h);
            let r: Result<(), BuildError> = Err(BuildError::Configuration { message: m });
            assert(r matches Err(BuildError::Configuration { message }) && message@
                == "Missing required configure option: "@ + h@);
            r
        },
        None => Ok(()),
    }
}

/// The offload option for a CUDA compiler found at `nvcc_path`.
pub fn offload_option(nvcc_path: &str) -> (res: Option<String>)
    ensures
        res is Some <==> spec_offload_option(nvcc_path@) is Some,
        res matches Some(o) ==> Some(o@) == spec_offload_option(nvcc_path@),
{
    let raw = chars_of(nvcc_path);
    let path = trim(&raw);
    if path.len() == 0 {
        return None;
    }
    let tail = chars_of("/bin/nvcc");
    match find_last(&path, &tail) {
        Some(pos) => {
            let root = slice(&path, 0, pos);
            let mut o = "--enable-offload-targets=nvptx-none=".to_owned();
            crate::text::push_chars(&mut o, &root);
            assert(path@.subrange(0, pos as int) == path@.take(pos as int));
            Some(o)
        },
        None => Some("--enable-offload-targets=nvptx-none".to_owned()),
    }
}

/// Writes the options of configure runs.
#[derive(Debug)]
pub struct GccConfigGenerator {
    /// The option that turns on offloading to a CUDA device, where the
    /// machine has the CUDA compiler.
    pub offload: Option<String>,
}

impl GccConfigGenerator {
    /// A generator for a machine without a CUDA compiler.
    pub fn new() -> (res: Self)
        ensures
            res.offload is None,
    {
        GccConfigGenerator { offload: None }
    }

    /// A generator for a machine whose CUDA compiler, if it has one, stands at `nvcc_path`.
    pub fn with_cuda(nvcc_path: Option<&str>) -> (res: Self)
        ensures
            res.spec_offload() == match nvcc_path {
                Some(p) => spec_offload_option(p@),
                None => None,
            },
    {
        match nvcc_path {
            Some(p) => GccConfigGenerator { offload: offload_option(p) },
            None => GccConfigGenerator { offload: None },
        }
    }

    /// The offload option as a text.
    pub open spec fn spec_offload(&self) -> Option<Seq<char>> {
        match self.offload {
            Some(o) => Some(o@),
            None => None,
        }
    }

    /// The options with which `gcc_version` is configured under `config`.
    pub fn get_gcc_configure_options(&self, gcc_version: &GccVersion, config: &BuildConfig) -> (res:
        Vec<String>)
        ensures
            string_views(res@) == spec_configure_options(
                config.spec_install_prefix(gcc_version),
                config.target_arch@,
                gcc_version.major as int,
                config.enable_multilib,
                config.generic,
                self.spec_offload(),
            ),
    {
        let prefix = config.get_install_prefix(gcc_version);
        let major = gcc_version.major;
        let mut options: Vec<String> = Vec::new();
        assert(string_views(options@) =~= Seq::<Seq<char>>::empty());
        let mut o = "--prefix=".to_owned();
        o.append(prefix.as_str());
        push_string(&mut options, o);
        let mut o = "--build=".to_owned();
        o.append(config.target_arch.as_str());
        push_string(&mut options, o);
        let mut o = "--host=".to_owned();
        o.append(config.target_arch.as_str());
        push_string(&mut options, o);
        let mut o = "--target=".to_owned();
        o.append(config.target_arch.as_str());
        push_string(&mut options, o);
        push_str(&mut options, "--enable-languages=all");
        push_str(&mut options, "--disable-bootstrap");
        push_str(&mut options, "--enable-checking=release");
        push_str(&mut options, "--disable-nls");
        push_str(&mut options, "--enable-shared");
        push_str(&mut options, "--enable-threads=posix");
        push_str(&mut options, "--with-system-zlib");
        let mut o = "--program-suffix=-".to_owned();
        push_decimal(&mut o, major as u64);
        push_string(&mut options, o);
        push_str(&mut options, "--with-gcc-major-version-only");
        assert(string_views(options@) =~= spec_required_options(
            prefix@,
            config.target_arch@,
            major as int,
        ));
        if config.enable_multilib {
            push_str(&mut options, "--enable-multilib");
        } else {
            push_str(&mut options, "--disable-multilib");
        }
        if config.generic {
            push_str(&mut options, "--with-tune=generic");
        }
        let ghost before_version = string_views(options@);
        assert(before_version =~= spec_required_options(
            prefix@,
            config.target_arch@,
            major as int,
        ) + seq![spec_multilib_option(config.enable_multilib)] + (if config.generic {
            seq!["--with-tune=generic"@]
        } else {
            Seq::<Seq<char>>::empty()
        }));
        if 10 <= major && major <= 15 {
            push_str(&mut options, "--enable-default-pie");
            push_str(&mut options, "--enable-gnu-unique-object");
            if major >= 12 {
                push_str(&mut options, "--with-link-serialization=2");
            }
            if major >= 13 {
                push_str(&mut options, "--enable-cet");
            }
        }
        let ghost before_offload = string_views(options@);
        assert(before_offload =~= before_version + spec_version_options(major as int));
        match &self.offload {
            Some(off) => {
                push_string(&mut options, off.clone());
            },
            None => {},
        }
        assert(string_views(options@) =~= before_offload + (match self.spec_offload() {
            Some(x) => seq![x],
            None => Seq::<Seq<char>>::empty(),
        }));
        options
    }

    /// The configure command for `gcc_version` as it is logged.
    pub fn format_configure_command(&self, gcc_version: &GccVersion, config: &BuildConfig) -> (res:
        String)
        ensures
            res@ == spec_command_text(
                spec_configure_options(
                    config.spec_install_prefix(gcc_version),
                    config.target_arch@,
                    gcc_version.major as int,
                    config.enable_multilib,
                    config.generic,
                    self.spec_offload(),
                ),
            ),
    {
        let options = self.get_gcc_configure_options(gcc_version, config);
        format_command(&options)
    }

    /// Checks the options with which `gcc_version` would be configured.
    /// They are in order whenever the offload option is not itself a
    /// multilib switch.
    pub fn validate_configure_options(&self, gcc_version: &GccVersion, config: &BuildConfig) -> (res:
        Result<(), BuildError>)
        ensures
            res is Ok <==> spec_option_complaint(
                spec_configure_options(
                    config.spec_install_prefix(gcc_version),
                    config.target_arch@,
                    gcc_version.major as int,
                    config.enable_multilib,
                    config.generic,
                    self.spec_offload(),
                ),
            ) is None,
            res matches Err(e) ==> e matches BuildError::Configuration { message } && Some(message@)
                == spec_option_complaint(
                spec_configure_options(
                    config.spec_install_prefix(gcc_version),
                    config.target_arch@,
                    gcc_version.major as int,
                    config.enable_multilib,
                    config.generic,
                    self.spec_offload(),
                ),
            ),
            (self.spec_offload() matches Some(o) ==> o != "--enable-multilib"@ && o
                != "--disable-multilib"@) ==> res is Ok,
    {
        let options = self.get_gcc_configure_options(gcc_version, config);
        proof {
            if self.spec_offload() matches Some(o) ==> o != "--enable-multilib"@ && o
                != "--disable-multilib"@ {
                lemma_generated_options_valid(
                    config.spec_install_prefix(gcc_version),
                    config.target_arch@,
                    gcc_version.major as int,
                    config.enable_multilib,
                    config.generic,
                    self.spec_offload(),
                );
            }
        }
        validate_options(&options)
    }

    /// The variables with which configure and make run: the compilers, their
    /// flags, and the number of make jobs.
    pub fn get_build_environment(&self, config: &BuildConfig, dirs: LibraryDirs, jobs: u16) -> (res:
        Vec<(String, String)>)
        ensures
            spec_env_views(res@) == spec_build_environment(
                config.optimization@,
                config.generic,
                config.static_build,
                config.target_arch@,
                dirs,
                jobs as int,
            ),
    {
        let mut env: Vec<(String, String)> = Vec::new();
        env.push(("CC".to_owned(), "gcc".to_owned()));
        env.push(("CXX".to_owned(), "g++".to_owned()));
        env.push(("CFLAGS".to_owned(), config.cflags()));
        env.push(("CXXFLAGS".to_owned(), config.cxxflags()));
        env.push(("CPPFLAGS".to_owned(), config.cppflags()));
        env.push(("LDFLAGS".to_owned(), config.ldflags(dirs)));
        let mut j = "-j".to_owned();
        push_decimal(&mut j, jobs as u64);
        env.push(("MAKEFLAGS".to_owned(), j));
        assert(spec_env_views(env@) =~= spec_build_environment(
            config.optimization@,
            config.generic,
            config.static_build,
            config.target_arch@,
            dirs,
            jobs as int,
        ));
        env
    }

    /// The option that chooses the languages to build: all of them where
    /// none is named or `all` is among those named.
    pub fn get_language_options(&self, languages: &Vec<String>) -> (res: Vec<String>)
        ensures
            string_views(res@) == seq![
                if languages@.len() == 0 || spec_has_option(string_views(languages@), "all"@) {
                    "--enable-languages=all"@
                } else {
                    "--enable-languages="@ + spec_join(string_views(languages@), ","@)
                },
            ],
    {
        let mut out: Vec<String> = Vec::new();
        assert(string_views(out@) =~= Seq::<Seq<char>>::empty());
        if languages.len() == 0 || has_option(languages, "all") {
            push_str(&mut out, "--enable-languages=all");
        } else {
            let mut o = "--enable-languages=".to_owned();
            let joined = join(languages, ",");
            o.append(joined.as_str());
            push_string(&mut out, o);
        }
        out
    }

    /// The options that turn on link-time optimization, plugins and OpenMP.
    pub fn get_optimization_options(&self, _config: &BuildConfig) -> (res: Vec<String>)
        ensures
            string_views(res@) == seq!["--enable-lto"@, "--enable-plugin"@, "--enable-libgomp"@],
    {
        let mut out: Vec<String> = Vec::new();
        assert(string_views(out@) =~= Seq::<Seq<char>>::empty());
        push_str(&mut out, "--enable-lto");
        push_str(&mut out, "--enable-plugin");
        push_str(&mut out, "--enable-libgomp");
        out
    }

    /// The options that harden the programs that the new compiler builds.
    pub fn get_security_options(&self) -> (res: Vec<String>)
        ensures
            string_views(res@) == seq!["--enable-default-ssp"@, "--enable-default-pie"@],
    {
        let mut out: Vec<String> = Vec::new();
        assert(string_views(out@) =~= Seq::<Seq<char>>::empty());
        push_str(&mut out, "--enable-default-ssp");
        push_str(&mut out, "--enable-default-pie");
        out
    }
}

/// The names and values of a list of variables.
pub open spec fn spec_env_views(env: Seq<(String, String)>) -> Seq<(Seq<char>, Seq<char>)> {
    Seq::new(env.len(), |i: int| (env[i].0@, env[i].1@))
}

/// The variables with which configure and make run.
pub open spec fn spec_build_environment(
    optimization: Seq<char>,
    generic: bool,
    static_build: bool,
    target_arch: Seq<char>,
    dirs: LibraryDirs,
    jobs: int,
) -> Seq<(Seq<char>, Seq<char>)> {
    seq![
        ("CC"@, "gcc"@),
        ("CXX"@, "g++"@),
        ("CFLAGS"@, spec_cflags(optimization, generic)),
        ("CXXFLAGS"@, spec_cflags(optimization, generic)),
        ("CPPFLAGS"@, "-D_FORTIFY_SOURCE=2"@),
        ("LDFLAGS"@, spec_ldflags(static_build, target_arch, dirs)),
        ("MAKEFLAGS"@, "-j"@ + spec_decimal(jobs as nat)),
    ]
}

/// The configure command for a list of options as it is logged.
pub fn format_command(options: &Vec<String>) -> (res: String)
    ensures
        res@ == spec_command_text(string_views(options@)),
{
    let mut command = "../configure".to_owned();
    let mut i: usize = 0;
    while i < options.len()
        invariant
            i <= options.len(),
            command@ == spec_command_text(string_views(options@).take(i as int)),
        decreases options.len() - i,
    {
        let ghost now = string_views(options@).take(i + 1);
        assert(now.drop_last() == string_views(options@).take(i as int));
        assert(now.last() == options@[i as int]@);
        command.append(" \\\n    ");
        command.append(options[i].as_str());
        i += 1;
    }
    assert(string_views(options@).take(options.len() as int) == string_views(options@));
    command
}

/// The options that the generator writes are in order: exactly one multilib
/// switch stands among them, and none of the required options is missing.
pub proof fn lemma_generated_options_valid(
    prefix: Seq<char>,
    triple: Seq<char>,
    major: int,
    multilib: bool,
    generic: bool,
    offload: Option<Seq<char>>,
)
    requires
        offload matches Some(o) ==> o != "--enable-multilib"@ && o != "--disable-multilib"@,
    ensures
        spec_option_complaint(
            spec_configure_options(prefix, triple, major, multilib, generic, offload),
        ) is None,
        spec_has_option(
            spec_configure_options(prefix, triple, major, multilib, generic, offload),
            "--enable-multilib"@,
        ) != spec_has_option(
            spec_configure_options(prefix, triple, major, multilib, generic, offload),
            "--disable-multilib"@,
        ),
{
    let options = spec_configure_options(prefix, triple, major, multilib, generic, offload);
    let req = spec_required_options(prefix, triple, major);
    reveal_strlit("--prefix=");
    reveal_strlit("--build=");
    reveal_strlit("--host=");
    reveal_strlit("--target=");
    reveal_strlit("--enable-languages=");
    reveal_strlit("--enable-languages=all");
    reveal_strlit("--disable-bootstrap");
    reveal_strlit("--enable-checking=release");
    reveal_strlit("--disable-nls");
    reveal_strlit("--enable-shared");
    reveal_strlit("--enable-threads=posix");
    reveal_strlit("--with-system-zlib");
    reveal_strlit("--program-suffix=-");
    reveal_strlit("--with-gcc-major-version-only");
    reveal_strlit("--enable-multilib");
    reveal_strlit("--disable-multilib");
    reveal_strlit("--with-tune=generic");
    reveal_strlit("--enable-default-pie");
    reveal_strlit("--enable-gnu-unique-object");
    reveal_strlit("--with-link-serialization=2");
    reveal_strlit("--enable-cet");
    assert(options[0] == "--prefix="@ + prefix);
    assert(spec_starts_with(options[0], "--prefix="@)) by {
        assert(options[0].subrange(0, 9) =~= "--prefix="@);
    }
    assert(options[1] == "--build="@ + triple);
    assert(spec_starts_with(options[1], "--build="@)) by {
        assert(options[1].subrange(0, 8) =~= "--build="@);
    }
    assert(options[2] == "--host="@ + triple);
    assert(spec_starts_with(options[2], "--host="@)) by {
        assert(options[2].subrange(0, 7) =~= "--host="@);
    }
    assert(options[3] == "--target="@ + triple);
    assert(spec_starts_with(options[3], "--target="@)) by {
        assert(options[3].subrange(0, 9) =~= "--target="@);
    }
    assert(options[4] == "--enable-languages=all"@);
    assert(spec_starts_with(options[4], "--enable-languages="@)) by {
        assert(options[4].subrange(0, 19) =~= "--enable-languages="@);
    }
    assert(options[13] == spec_multilib_option(multilib));
    let other = spec_multilib_option(!multilib);
    assert(other != spec_multilib_option(multilib)) by {
        assert("--enable-multilib"@[2] != "--disable-multilib"@[2]);
    }
    assert forall|i: int| 0 <= i < options.len() implies #[trigger] options[i] != other by {
        if i < 13 {
            assert(options[i] == req[i]);
            if i == 0 {
                assert(options[i][2] == 'p');
            } else if i == 1 {
                assert(options[i][2] == 'b');
            } else if i == 2 {
                assert(options[i][2] == 'h');
            } else if i == 3 {
                assert(options[i][2] == 't');
            } else if i == 4 {
                assert(options[i].len() == 22);
            } else if i == 5 {
                assert(options[i].len() == 19);
            } else if i == 6 {
                assert(options[i].len() == 25);
            } else if i == 7 {
                assert(options[i].len() == 13);
            } else if i == 8 {
                assert(options[i].len() == 15);
            } else if i == 9 {
                assert(options[i].len() == 22);
            } else if i == 10 {
                assert(options[i][2] == 'w');
            } else if i == 11 {
                assert(options[i][2] == 'p');
            } else {
                assert(options[i][2] == 'w');
            }
        } else if i == 13 {
        } else {
            let tune = if generic {
                seq!["--with-tune=generic"@]
            } else {
                Seq::<Seq<char>>::empty()
            };
            let vers = spec_version_options(major);
            let k = i - 14;
            if k < tune.len() {
                assert(options[i] == tune[k]);
                assert(options[i][2] == 'w');
            } else if k < tune.len() + vers.len() {
                let m = k - tune.len();
                assert(options[i] == vers[m]);
                assert(vers[m].len() != 17 && vers[m].len() != 18);
            } else {
                assert(options[i] == offload->0);
            }
        }
    }
    if multilib {
        assert(!spec_has_option(options, "--disable-multilib"@));
    } else {
        assert(!spec_has_option(options, "--enable-multilib"@));
    }
}

/// The options with which `gcc_version` is configured under `config`, on a
/// machine without a CUDA compiler.
pub fn get_configure_options(gcc_version: &GccVersion, config: &BuildConfig) -> (res: Vec<String>)
    ensures
        string_views(res@) == spec_configure_options(
            config.spec_install_prefix(gcc_version),
            config.target_arch@,
            gcc_version.major as int,
            config.enable_multilib,
            config.generic,
            None,
        ),
{
    let generator = GccConfigGenerator::new();
    generator.get_gcc_configure_options(gcc_version, config)
}

/// The variables with which configure and make run under `config`.
pub fn get_build_environment(config: &BuildConfig, dirs: LibraryDirs, jobs: u16) -> (res: Vec<
    (String, String),
>)
    ensures
        spec_env_views(res@) == spec_build_environment(
            config.optimization@,
            config.generic,
            config.static_build,
            config.target_arch@,
            dirs,
            jobs as int,
        ),
{
    let generator = GccConfigGenerator::new();
    generator.get_build_environment(config, dirs, jobs)
}

} // verus!
