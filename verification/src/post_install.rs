use vstd::prelude::*;
use vstd::string::StringExecFns;
use crate::decimal::{push_decimal, spec_decimal};
use crate::text::{
    chars_of,
    push_str,
    push_string,
    slice,
    spec_ends_with,
    spec_starts_with,
    starts_with,
    str_ends_with,
    str_eq,
    str_starts_with,
    string_of,
    string_views,
};
use crate::version::{path_join, spec_path_join, GccVersion};

verus! {

/// Where the links to the installed programs are made.
pub const SYMLINK_DIR: &'static str = "/usr/local/bin";

/// Where the files for the dynamic linker are written.
pub const LD_CONF_DIR: &'static str = "/etc/ld.so.conf.d";

/// What was seen of one entry of the directory of binaries.
#[derive(Debug)]
pub struct BinEntry {
    pub name: String,
    /// The entry is a regular file.
    pub is_file: bool,
    /// Some execute bit is set.
    pub executable: bool,
}

/// What was seen at the place where a link is to be made.
#[derive(Debug)]
pub enum LinkState {
    /// Nothing is there.
    Absent,
    /// A symbolic link that points to this path.
    SymlinkTo(String),
    /// Something that is no symbolic link.
    OtherFile,
}

/// What is done about the link for one entry.
#[derive(Debug, Clone, Copy, PartialEq, Eq, Structural)]
pub enum SymlinkAction {
    /// The entry gets no link: it is no executable file of this version.
    NotCandidate,
    /// The right link is there already; it is left as it is.
    AlreadyCorrect,
    /// The place is taken by something that is no link; nothing is done.
    Conflict,
    /// The link is made, in place of a link that points elsewhere.
    Create,
}

/// The steps that finish an installation.
#[derive(Debug, Clone, Copy, PartialEq, Eq, Structural)]
pub enum PostInstallStep {
    LibtoolFinish,
    Symlinks,
    TrimBinaries,
    SaveStaticBinaries,
    /// The update of the cache of the dynamic linker. It comes last.
    Ldconfig,
}

/// Which library directories of an installation exist.
#[derive(Debug, Clone, Copy, PartialEq, Eq, Structural)]
pub struct InstalledLibs {
    pub lib: bool,
    pub lib64: bool,
    pub lib32: bool,
    /// `lib/gcc/<triple>/<version>`.
    pub gcc_lib: bool,
}

/// The endings by which the programs of a version are known: the major,
/// the major and minor, and the full version, each behind a hyphen.
pub open spec fn spec_version_suffixes(major: u8, minor: u8, full: Seq<char>) -> Seq<Seq<char>> {
    seq![
        "-"@ + spec_decimal(major as nat),
        "-"@ + spec_decimal(major as nat) + "."@ + spec_decimal(minor as nat),
        "-"@ + full,
    ]
}

/// Whether `name` ends with one of `endings`.
pub open spec fn spec_ends_with_any(name: Seq<char>, endings: Seq<Seq<char>>) -> bool {
    exists|i: int| 0 <= i < endings.len() && spec_ends_with(name, #[trigger] endings[i])
}

/// Whether an entry gets a link: it is an executable file whose name ends
/// as the programs of the version do.
pub open spec fn spec_is_candidate(
    name: Seq<char>,
    is_file: bool,
    executable: bool,
    endings: Seq<Seq<char>>,
) -> bool {
    is_file && executable && spec_ends_with_any(name, endings)
}

/// What is done about the link for an entry whose program stands at
/// `source`, given what is at the place of the link.
pub open spec fn spec_symlink_action(candidate: bool, source: Seq<char>, link: LinkState) -> SymlinkAction {
    if !candidate {
        SymlinkAction::NotCandidate
    } else {
        match link {
            LinkState::Absent => SymlinkAction::Create,
            LinkState::SymlinkTo(target) => if target@ == source {
                SymlinkAction::AlreadyCorrect
            } else {
                SymlinkAction::Create
            },
            LinkState::OtherFile => SymlinkAction::Conflict,
        }
    }
}

/// Whether the place of a link holds a link to `source`.
pub open spec fn spec_points_to(link: LinkState, source: Seq<char>) -> bool {
    link matches LinkState::SymlinkTo(t) && t@ == source
}

/// Making the links twice makes them once: where a link has been made,
/// or was right already, the place holds a link to the program, and for
/// such a place nothing is made again.
pub proof fn lemma_symlinks_idempotent(source: Seq<char>, link: LinkState, after: LinkState)
    requires
        spec_symlink_action(true, source, link) == SymlinkAction::Create ==> spec_points_to(
            after,
            source,
        ),
        spec_symlink_action(true, source, link) != SymlinkAction::Create ==> after == link,
    ensures
        spec_symlink_action(true, source, after) != SymlinkAction::Create,
        spec_symlink_action(true, source, after) == SymlinkAction::Conflict <==> link
            is OtherFile,
{
}

/// Whether `name` ends with one of `endings`.
pub fn ends_with_any(name: &str, endings: &Vec<String>) -> (res: bool)
    ensures
        res == spec_ends_with_any(name@, string_views(endings@)),
{
    let mut i: usize = 0;
    while i < endings.len()
        invariant
            i <= endings.len(),
            forall|j: int| 0 <= j < i ==> !spec_ends_with(name@, string_views(endings@)[j]),
        decreases endings.len() - i,
    {
        assert(string_views(endings@)[i as int] == endings@[i as int]@);
        if str_ends_with(name, endings[i].as_str()) {
            return true;
        }
        i += 1;
    }
    false
}

/// The endings by which the programs of `version` are known.
pub fn version_suffixes(version: &GccVersion) -> (res: Vec<String>)
    ensures
        string_views(res@) == spec_version_suffixes(version.major, version.minor, version.full@),
{
    let mut out: Vec<String> = Vec::new();
    assert(string_views(out@) =~= Seq::<Seq<char>>::empty());
    let mut a = "-".to_owned();
    push_decimal(&mut a, version.major as u64);
    push_string(&mut out, a);
    let mut b = "-".to_owned();
    push_decimal(&mut b, version.major as u64);
    b.append(".");
    push_decimal(&mut b, version.minor as u64);
    push_string(&mut out, b);
    let mut c = "-".to_owned();
    c.append(version.full.as_str());
    push_string(&mut out, c);
    out
}

/// What is done about the link for `entry`, whose program stands at
/// `source`, given what is at the place of the link.
pub fn symlink_action(entry: &BinEntry, endings: &Vec<String>, source: &str, link: &LinkState) -> (res:
    SymlinkAction)
    ensures
        res == spec_symlink_action(
            spec_is_candidate(
                entry.name@,
                entry.is_file,
                entry.executable,
                string_views(endings@),
            ),
            source@,
            *link,
        ),
{
    if !(entry.is_file && entry.executable && ends_with_any(entry.name.as_str(), endings)) {
        return SymlinkAction::NotCandidate;
    }
    match link {
        LinkState::Absent => SymlinkAction::Create,
        LinkState::SymlinkTo(target) => {
            if str_eq(target.as_str(), source) {
                SymlinkAction::AlreadyCorrect
            } else {
                SymlinkAction::Create
            }
        },
        LinkState::OtherFile => SymlinkAction::Conflict,
    }
}

/// A link that is to be made.
#[derive(Debug)]
pub struct LinkOrder {
    /// The installed program.
    pub source: String,
    /// The place of the link.
    pub link: String,
}

/// The link for the program called `name` in the directory of binaries.
pub fn link_order(bin_dir: &str, name: &str) -> (res: LinkOrder)
    ensures
        res.source@ == spec_path_join(bin_dir@, name@),
        res.link@ == spec_path_join(SYMLINK_DIR@, name@),
{
    LinkOrder { source: path_join(bin_dir, name), link: path_join(SYMLINK_DIR, name) }
}

/// What is done about the link of each entry of the directory of
/// binaries of an installation. `links` tells, for each entry, what is at
/// the place of its link. A link is made for every executable file whose
/// name ends as the programs of the version do, unless the right link is
/// there already or the place is taken by something that is no link.
pub fn create_symlinks(
    version: &GccVersion,
    bin_dir: &str,
    entries: &Vec<BinEntry>,
    links: &Vec<LinkState>,
) -> (res: Vec<SymlinkAction>)
    requires
        links@.len() == entries@.len(),
    ensures
        res@.len() == entries@.len(),
        forall|i: int|
            0 <= i < entries@.len() ==> (#[trigger] res@[i]) == spec_symlink_action(
                spec_is_candidate(
                    entries@[i].name@,
                    entries@[i].is_file,
                    entries@[i].executable,
                    spec_version_suffixes(version.major, version.minor, version.full@),
                ),
                spec_path_join(bin_dir@, entries@[i].name@),
                links@[i],
            ),
{
    let endings = version_suffixes(version);
    let mut out: Vec<SymlinkAction> = Vec::new();
    let mut i: usize = 0;
    while i < entries.len()
        invariant
            i <= entries.len(),
            links@.len() == entries@.len(),
            string_views(endings@) == spec_version_suffixes(
                version.major,
                version.minor,
                version.full@,
            ),
            out@.len() == i,
            forall|j: int|
                0 <= j < i ==> (#[trigger] out@[j]) == spec_symlink_action(
                    spec_is_candidate(
                        entries@[j].name@,
                        entries@[j].is_file,
                        entries@[j].executable,
                        string_views(endings@),
                    ),
                    spec_path_join(bin_dir@, entries@[j].name@),
                    links@[j],
                ),
        decreases entries.len() - i,
    {
        let source = path_join(bin_dir, entries[i].name.as_str());
        let action = symlink_action(&entries[i], &endings, source.as_str(), &links[i]);
        out.push(action);
        i += 1;
    }
    out
}

/// `name` without the beginnings `prefix` that it has, however many.
pub open spec fn spec_trim_start(name: Seq<char>, prefix: Seq<char>) -> Seq<char>
    decreases name.len(),
{
    if prefix.len() > 0 && spec_starts_with(name, prefix) {
        spec_trim_start(name.skip(prefix.len() as int), prefix)
    } else {
        name
    }
}

/// `name` without the beginnings `prefix` that it has.
pub fn trim_start(name: &str, prefix: &str) -> (res: String)
    ensures
        res@ == spec_trim_start(name@, prefix@),
{
    let n = chars_of(name);
    let p = chars_of(prefix);
    if p.len() == 0 {
        return string_of(&n);
    }
    let mut from: usize = 0;
    assert(n@.skip(0) == n@);
    loop
        invariant
            from <= n.len(),
            p.len() > 0,
            n@ == name@,
            p@ == prefix@,
            spec_trim_start(name@, prefix@) == spec_trim_start(n@.skip(from as int), prefix@),
        decreases n.len() - from,
    {
        let tail = slice(&n, from, n.len());
        assert(tail@ == n@.skip(from as int));
        if !starts_with(&tail, &p) {
            return string_of(&tail);
        }
        assert(tail@.skip(p@.len() as int) == n@.skip(from + p.len()));
        from = from + p.len();
    }
}

/// The new name of a binary whose name carries the target triple in
/// front: the name without it. Nothing where the triple is empty, where
/// the name does not begin with the triple and a hyphen, or where a file of
/// the new name exists already.
pub open spec fn spec_trimmed_name(
    name: Seq<char>,
    target_arch: Seq<char>,
    trimmed_exists: bool,
) -> Option<Seq<char>> {
    if target_arch.len() == 0 || !spec_starts_with(name, target_arch + "-"@) || trimmed_exists {
        None
    } else {
        Some(spec_trim_start(name, target_arch + "-"@))
    }
}

/// The name that a binary gets when the target triple in front of its
/// name is dropped, whether or not a file of that name exists.
pub fn trimmed_candidate(name: &str, target_arch: &str) -> (res: Option<String>)
    ensures
        res is Some <==> target_arch@.len() > 0 && spec_starts_with(name@, target_arch@ + "-"@),
        res matches Some(n) ==> n@ == spec_trim_start(name@, target_arch@ + "-"@),
{
    if chars_of(target_arch).len() == 0 {
        return None;
    }
    let mut prefix = target_arch.to_owned();
    prefix.append("-");
    if !str_starts_with(name, prefix.as_str()) {
        return None;
    }
    Some(trim_start(name, prefix.as_str()))
}

/// The new name of a binary whose name carries the target triple in front.
pub fn trim_binaries(name: &str, target_arch: &str, trimmed_exists: bool) -> (res: Option<String>)
    ensures
        res is Some <==> spec_trimmed_name(name@, target_arch@, trimmed_exists) is Some,
        res matches Some(n) ==> Some(n@) == spec_trimmed_name(name@, target_arch@, trimmed_exists),
{
    if trimmed_exists {
        return None;
    }
    trimmed_candidate(name, target_arch)
}

/// The file that tells the dynamic linker of the libraries of a version.
pub open spec fn spec_ld_conf_path(full: Seq<char>) -> Seq<char> {
    LD_CONF_DIR@ + "/gcc-"@ + full + ".conf"@
}

/// What that file holds: the library directories of the installation
/// that exist, one on each line.
pub open spec fn spec_ld_conf_content(
    prefix: Seq<char>,
    target_arch: Seq<char>,
    full: Seq<char>,
    libs: InstalledLibs,
) -> Seq<char> {
    (if libs.lib {
        spec_path_join(prefix, "lib"@) + "\n"@
    } else {
        Seq::<char>::empty()
    }) + (if libs.lib64 {
        spec_path_join(prefix, "lib64"@) + "\n"@
    } else {
        Seq::<char>::empty()
    }) + (if libs.lib32 {
        spec_path_join(prefix, "lib32"@) + "\n"@
    } else {
        Seq::<char>::empty()
    }) + (if libs.gcc_lib {
        spec_path_join(prefix, "lib/gcc/"@ + target_arch + "/"@ + full) + "\n"@
    } else {
        Seq::<char>::empty()
    })
}

/// The file that tells the dynamic linker of the libraries of `version`.
pub fn ld_conf_path(version: &GccVersion) -> (res: String)
    ensures
        res@ == spec_ld_conf_path(version.full@),
{
    let mut p = LD_CONF_DIR.to_owned();
    p.append("/gcc-");
    p.append(version.full.as_str());
    p.append(".conf");
    p
}

/// The path of the private libraries of the compiler, below the prefix.
pub fn gcc_lib_dir(install_dir: &str, target_arch: &str, version: &GccVersion) -> (res: String)
    ensures
        res@ == spec_path_join(install_dir@, "lib/gcc/"@ + target_arch@ + "/"@ + version.full@),
{
    let mut rel = "lib/gcc/".to_owned();
    rel.append(target_arch);
    rel.append("/");
    rel.append(version.full.as_str());
    path_join(install_dir, rel.as_str())
}

/// What is written for the dynamic linker, and whether its cache has to
/// be updated: it has to where some library directory exists.
pub fn update_ldconfig(
    version: &GccVersion,
    install_dir: &str,
    target_arch: &str,
    libs: InstalledLibs,
) -> (res: (String, bool))
    ensures
        res.0@ == spec_ld_conf_content(install_dir@, target_arch@, version.full@, libs),
        res.1 == (libs.lib || libs.lib64 || libs.lib32 || libs.gcc_lib),
{
    let mut content = String::new();
    assert(content@ =~= Seq::<char>::empty() + Seq::<char>::empty());
    if libs.lib {
        let p = path_join(install_dir, "lib");
        content.append(p.as_str());
        content.append("\n");
    }
    let ghost c1 = content@;
    assert(c1 =~= (if libs.lib {
        spec_path_join(install_dir@, "lib"@) + "\n"@
    } else {
        Seq::<char>::empty()
    }));
    if libs.lib64 {
        let p = path_join(install_dir, "lib64");
        content.append(p.as_str());
        content.append("\n");
    }
    let ghost c2 = content@;
    assert(c2 =~= c1 + (if libs.lib64 {
        spec_path_join(install_dir@, "lib64"@) + "\n"@
    } else {
        Seq::<char>::empty()
    }));
    if libs.lib32 {
        let p = path_join(install_dir, "lib32");
        content.append(p.as_str());
        content.append("\n");
    }
    let ghost c3 = content@;
    assert(c3 =~= c2 + (if libs.lib32 {
        spec_path_join(install_dir@, "lib32"@) + "\n"@
    } else {
        Seq::<char>::empty()
    }));
    if libs.gcc_lib {
        let p = gcc_lib_dir(install_dir, target_arch, version);
        content.append(p.as_str());
        content.append("\n");
    }
    assert(content@ =~= c3 + (if libs.gcc_lib {
        spec_path_join(install_dir@, "lib/gcc/"@ + target_arch@ + "/"@ + version.full@) + "\n"@
    } else {
        Seq::<char>::empty()
    }));
    (content, libs.lib || libs.lib64 || libs.lib32 || libs.gcc_lib)
}

/// The directory on which `libtool --finish` is run, and the arguments
/// of that run, where the directory exists; nothing where it does not.
pub fn run_libtool_finish(
    version: &GccVersion,
    install_dir: &str,
    target_arch: &str,
    libexec_exists: bool,
) -> (res: Option<Vec<String>>)
    ensures
        res is Some <==> libexec_exists,
        res matches Some(args) ==> string_views(args@) == seq![
            "--finish"@,
            spec_path_join(install_dir@, "libexec/gcc/"@ + target_arch@ + "/"@ + version.full@),
        ],
{
    if !libexec_exists {
        return None;
    }
    let mut rel = "libexec/gcc/".to_owned();
    rel.append(target_arch);
    rel.append("/");
    rel.append(version.full.as_str());
    let dir = path_join(install_dir, rel.as_str());
    let mut args: Vec<String> = Vec::new();
    assert(string_views(args@) =~= Seq::<Seq<char>>::empty());
    push_str(&mut args, "--finish");
    push_string(&mut args, dir);
    Some(args)
}

/// The programs that are saved from a static build, and the directory
/// they are saved to.
pub fn save_static_binaries(version: &GccVersion, install_dir: &str, save_root: &str) -> (res: (
    String,
    Vec<String>,
))
    ensures
        res.0@ == spec_path_join(save_root@, "gcc-"@ + version.full@),
        string_views(res.1@) == seq![
            spec_path_join(
                spec_path_join(install_dir@, "bin"@),
                "gcc-"@ + spec_decimal(version.major as nat),
            ),
            spec_path_join(
                spec_path_join(install_dir@, "bin"@),
                "g++-"@ + spec_decimal(version.major as nat),
            ),
        ],
{
    let mut dir_name = "gcc-".to_owned();
    dir_name.append(version.full.as_str());
    let dest = path_join(save_root, dir_name.as_str());
    let bin = path_join(install_dir, "bin");
    let mut programs: Vec<String> = Vec::new();
    assert(string_views(programs@) =~= Seq::<Seq<char>>::empty());
    let mut a = "gcc-".to_owned();
    push_decimal(&mut a, version.major as u64);
    push_string(&mut programs, path_join(bin.as_str(), a.as_str()));
    let mut b = "g++-".to_owned();
    push_decimal(&mut b, version.major as u64);
    push_string(&mut programs, path_join(bin.as_str(), b.as_str()));
    (dest, programs)
}

/// The steps that finish an installation, in an order in which they can
/// be run: the static binaries are saved only from a static build that
/// asks for it, and the update of the linker cache comes last.
pub open spec fn spec_post_install_steps(static_build: bool, save_binaries: bool) -> Seq<
    PostInstallStep,
> {
    if static_build && save_binaries {
        seq![
            PostInstallStep::LibtoolFinish,
            PostInstallStep::Symlinks,
            PostInstallStep::TrimBinaries,
            PostInstallStep::SaveStaticBinaries,
            PostInstallStep::Ldconfig,
        ]
    } else {
        seq![
            PostInstallStep::LibtoolFinish,
            PostInstallStep::Symlinks,
            PostInstallStep::TrimBinaries,
            PostInstallStep::Ldconfig,
        ]
    }
}

/// The steps that finish an installation.
pub fn run_post_install(static_build: bool, save_binaries: bool) -> (res: Vec<PostInstallStep>)
    ensures
        res@ == spec_post_install_steps(static_build, save_binaries),
        res@.last() == PostInstallStep::Ldconfig,
        forall|i: int| 0 <= i < res@.len() - 1 ==> res@[i] != PostInstallStep::Ldconfig,
{
    let mut steps: Vec<PostInstallStep> = Vec::new();
    steps.push(PostInstallStep::LibtoolFinish);
    steps.push(PostInstallStep::Symlinks);
    steps.push(PostInstallStep::TrimBinaries);
    if static_build && save_binaries {
        steps.push(PostInstallStep::SaveStaticBinaries);
    }
    steps.push(PostInstallStep::Ldconfig);
    steps
}

/// Whether a failed step leaves the installation unusable and is worth
/// another try: the links and the linker cache are; the rest is only logged.
pub fn step_is_critical(step: PostInstallStep) -> (res: bool)
    ensures
        res == (step == PostInstallStep::Symlinks || step == PostInstallStep::Ldconfig),
{
    match step {
        PostInstallStep::Symlinks => true,
        PostInstallStep::Ldconfig => true,
        _ => false,
    }
}

} // verus!
