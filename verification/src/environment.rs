use vstd::prelude::*;
use vstd::string::StringExecFns;
use crate::config::{spec_cflags, spec_ldflags, BuildConfig, LibraryDirs};
use crate::gcc_config::spec_env_views;
use crate::text::{join, push_str, push_string, spec_join, str_eq, string_views};
use crate::version::{path_join, spec_path_join};

verus! {

/// The search path of a build: the compiler cache first, then the
/// programs of the workspace, then what the path held.
pub open spec fn spec_build_path(workspace: Seq<char>, current: Seq<char>) -> Seq<char> {
    "/usr/lib/ccache:"@ + spec_path_join(workspace, "bin"@) + ":"@ + current
}

/// The directories in which package descriptions are looked for.
pub open spec fn spec_pkg_config_dirs(target_arch: Seq<char>) -> Seq<Seq<char>> {
    let common = seq![
        "/usr/local/lib/pkgconfig"@,
        "/usr/local/lib64/pkgconfig"@,
        "/usr/local/share/pkgconfig"@,
        "/usr/lib/pkgconfig"@,
        "/usr/lib64/pkgconfig"@,
        "/usr/share/pkgconfig"@,
        "/usr/local/cuda/lib64/pkgconfig"@,
        "/usr/local/cuda/lib/pkgconfig"@,
        "/opt/cuda/lib64/pkgconfig"@,
        "/opt/cuda/lib/pkgconfig"@,
        "/usr/lib/"@ + target_arch + "/pkgconfig"@,
    ];
    if target_arch == "x86_64-linux-gnu"@ {
        common + seq![
            "/usr/lib/i386-linux-gnu/pkgconfig"@,
            "/usr/lib/arm-linux-gnueabihf/pkgconfig"@,
            "/usr/lib/aarch64-linux-gnu/pkgconfig"@,
        ]
    } else {
        common
    }
}

/// The search path for package descriptions: the usual directories, and
/// behind them what the path held.
pub open spec fn spec_pkg_config_path(target_arch: Seq<char>, existing: Seq<char>) -> Seq<char> {
    if existing.len() == 0 {
        spec_join(spec_pkg_config_dirs(target_arch), ":"@)
    } else {
        spec_join(spec_pkg_config_dirs(target_arch), ":"@) + ":"@ + existing
    }
}

/// The settings of the compiler cache.
pub open spec fn spec_ccache_settings() -> Seq<(Seq<char>, Seq<char>)> {
    seq![("CCACHE_MAXSIZE"@, "10G"@), ("CCACHE_COMPRESS"@, "1"@)]
}

/// The search path of a build.
pub fn setup_path(workspace: &str, current_path: &str) -> (res: String)
    ensures
        res@ == spec_build_path(workspace@, current_path@),
{
    let mut p = "/usr/lib/ccache:".to_owned();
    let bin = path_join(workspace, "bin");
    p.append(bin.as_str());
    p.append(":");
    p.append(current_path);
    p
}

/// The directories in which package descriptions are looked for.
pub fn pkg_config_dirs(target_arch: &str) -> (res: Vec<String>)
    ensures
        string_views(res@) == spec_pkg_config_dirs(target_arch@),
{
    let mut dirs: Vec<String> = Vec::new();
    assert(string_views(dirs@) =~= Seq::<Seq<char>>::empty());
    push_str(&mut dirs, "/usr/local/lib/pkgconfig");
    push_str(&mut dirs, "/usr/local/lib64/pkgconfig");
    push_str(&mut dirs, "/usr/local/share/pkgconfig");
    push_str(&mut dirs, "/usr/lib/pkgconfig");
    push_str(&mut dirs, "/usr/lib64/pkgconfig");
    push_str(&mut dirs, "/usr/share/pkgconfig");
    push_str(&mut dirs, "/usr/local/cuda/lib64/pkgconfig");
    push_str(&mut dirs, "/usr/local/cuda/lib/pkgconfig");
    push_str(&mut dirs, "/opt/cuda/lib64/pkgconfig");
    push_str(&mut dirs, "/opt/cuda/lib/pkgconfig");
    let mut arch = "/usr/lib/".to_owned();
    arch.append(target_arch);
    arch.append("/pkgconfig");
    push_string(&mut dirs, arch);
    let ghost common = string_views(dirs@);
    if str_eq(target_arch, "x86_64-linux-gnu") {
        push_str(&mut dirs, "/usr/lib/i386-linux-gnu/pkgconfig");
        push_str(&mut dirs, "/usr/lib/arm-linux-gnueabihf/pkgconfig");
        push_str(&mut dirs, "/usr/lib/aarch64-linux-gnu/pkgconfig");
        assert(string_views(dirs@) =~= common + seq![
            "/usr/lib/i386-linux-gnu/pkgconfig"@,
            "/usr/lib/arm-linux-gnueabihf/pkgconfig"@,
            "/usr/lib/aarch64-linux-gnu/pkgconfig"@,
        ]);
    }
    dirs
}

/// The search path for package descriptions.
pub fn setup_pkg_config_path(target_arch: &str, existing: &str) -> (res: String)
    ensures
        res@ == spec_pkg_config_path(target_arch@, existing@),
{
    let dirs = pkg_config_dirs(target_arch);
    let mut p = join(&dirs, ":");
    if crate::text::chars_of(existing).len() > 0 {
        p.append(":");
        p.append(existing);
    }
    p
}

/// The settings with which the compiler cache is used.
pub fn ccache_settings() -> (res: Vec<(String, String)>)
    ensures
        crate::gcc_config::spec_env_views(res@) == spec_ccache_settings(),
{
    let mut env: Vec<(String, String)> = Vec::new();
    env.push(("CCACHE_MAXSIZE".to_owned(), "10G".to_owned()));
    env.push(("CCACHE_COMPRESS".to_owned(), "1".to_owned()));
    assert(crate::gcc_config::spec_env_views(env@) =~= spec_ccache_settings());
    env
}

/// The variables of a build: the compilers and their flags, and the two
/// search paths where they are set.
pub open spec fn spec_build_env(
    optimization: Seq<char>,
    generic: bool,
    static_build: bool,
    target_arch: Seq<char>,
    dirs: LibraryDirs,
    path: Option<Seq<char>>,
    pkg_config_path: Option<Seq<char>>,
) -> Seq<(Seq<char>, Seq<char>)> {
    seq![
        ("CC"@, "gcc"@),
        ("CXX"@, "g++"@),
        ("CFLAGS"@, spec_cflags(optimization, generic)),
        ("CXXFLAGS"@, spec_cflags(optimization, generic)),
        ("CPPFLAGS"@, "-D_FORTIFY_SOURCE=2"@),
        ("LDFLAGS"@, spec_ldflags(static_build, target_arch, dirs)),
    ] + (match path {
        Some(p) => seq![("PATH"@, p)],
        None => Seq::empty(),
    }) + (match pkg_config_path {
        Some(p) => seq![("PKG_CONFIG_PATH"@, p)],
        None => Seq::empty(),
    })
}

/// The variables of a build under `config`.
pub fn get_build_env(
    config: &BuildConfig,
    dirs: LibraryDirs,
    path: Option<&str>,
    pkg_config_path: Option<&str>,
) -> (res: Vec<(String, String)>)
    ensures
        spec_env_views(res@) == spec_build_env(
            config.optimization@,
            config.generic,
            config.static_build,
            config.target_arch@,
            dirs,
            match path {
                Some(p) => Some(p@),
                None => None,
            },
            match pkg_config_path {
                Some(p) => Some(p@),
                None => None,
            },
        ),
{
    let mut env: Vec<(String, String)> = Vec::new();
    env.push(("CC".to_owned(), "gcc".to_owned()));
    env.push(("CXX".to_owned(), "g++".to_owned()));
    env.push(("CFLAGS".to_owned(), config.cflags()));
    env.push(("CXXFLAGS".to_owned(), config.cxxflags()));
    env.push(("CPPFLAGS".to_owned(), config.cppflags()));
    env.push(("LDFLAGS".to_owned(), config.ldflags(dirs)));
    let ghost base = spec_env_views(env@);
    assert(base =~= seq![
        ("CC"@, "gcc"@),
        ("CXX"@, "g++"@),
        ("CFLAGS"@, spec_cflags(config.optimization@, config.generic)),
        ("CXXFLAGS"@, spec_cflags(config.optimization@, config.generic)),
        ("CPPFLAGS"@, "-D_FORTIFY_SOURCE=2"@),
        ("LDFLAGS"@, spec_ldflags(config.static_build, config.target_arch@, dirs)),
    ]);
    match path {
        Some(p) => {
            env.push(("PATH".to_owned(), p.to_owned()));
        },
        None => {},
    }
    let ghost mid = spec_env_views(env@);
    assert(mid =~= base + (match path {
        Some(p) => seq![("PATH"@, p@)],
        None => Seq::<(Seq<char>, Seq<char>)>::empty(),
    }));
    match pkg_config_path {
        Some(p) => {
            env.push(("PKG_CONFIG_PATH".to_owned(), p.to_owned()));
        },
        None => {},
    }
    assert(spec_env_views(env@) =~= mid + (match pkg_config_path {
        Some(p) => seq![("PKG_CONFIG_PATH"@, p@)],
        None => Seq::<(Seq<char>, Seq<char>)>::empty(),
    }));
    env
}

} // verus!
