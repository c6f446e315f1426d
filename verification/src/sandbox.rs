//! The environment in which a helper runs: the command that starts it, the
//! directories that it sees, the memory that it may use, and the calls into
//! the operating system that it may make.

use crate::api_common::SandboxMechanism;
use crate::text::{
    after, before, decimal, parse_u64, signed_decimal, skip_spaces, split_first, starts_with,
    str_equal, to_decimal, to_signed_decimal, unsigned_number, without_leading_spaces,
};
use vstd::prelude::*;
use vstd::string::*;

verus! {

/// Whether the components of `base` are the first components of `path`.
pub uninterp spec fn path_starts_with(path: Seq<char>, base: Seq<char>) -> bool;

/// Calls `std::path::Path::starts_with`: whether `base` is a prefix of `path`,
/// taken component by component. The result depends on the two paths alone.
#[verifier::external_body]
fn starts_with_path(path: &str, base: &str) -> (prefix: bool)
    ensures
        prefix == path_starts_with(path@, base@),
{
    std::path::Path::new(path).starts_with(base)
}

/// The texts of a list of texts.
pub open spec fn texts(list: Seq<String>) -> Seq<Seq<char>> {
    Seq::new(list.len(), |i: int| list[i]@)
}

/// What the root directory holds that matters for a sandbox.
#[derive(Debug, Clone, PartialEq, Eq)]
pub struct SystemSetup {
    /// Dirs that need to be symlinked (UsrMerge): the link and where it leads
    pub lib_symlinks: Vec<(String, String)>,
    /// Dirs that need mounting (not UsrMerged)
    pub lib_dirs: Vec<String>,
}

/// What kind of file an entry of a directory is.
#[derive(Debug, Clone, PartialEq, Eq)]
pub enum EntryKind {
    Directory,
    /// A symbolic link, with the path to which it leads in the end
    Symlink(String),
    Other,
}

/// An entry of the root directory.
#[derive(Debug, Clone, PartialEq, Eq)]
pub struct RootEntry {
    /// Path of the entry
    pub path: String,
    /// Last segment of the path
    pub name: String,
    pub kind: EntryKind,
}

/// The links and their targets as texts.
pub open spec fn link_texts(links: Seq<(String, String)>) -> Seq<(Seq<char>, Seq<char>)> {
    Seq::new(links.len(), |i: int| (links[i].0@, links[i].1@))
}

/// What the system setup holds.
pub struct SetupState {
    pub lib_symlinks: Seq<(Seq<char>, Seq<char>)>,
    pub lib_dirs: Seq<Seq<char>>,
}

impl View for SystemSetup {
    type V = SetupState;

    open spec fn view(&self) -> SetupState {
        SetupState {
            lib_symlinks: link_texts(self.lib_symlinks@),
            lib_dirs: texts(self.lib_dirs@),
        }
    }
}

/// The setup with one entry of the root directory taken in. Only entries
/// whose name begins with `lib` count: directories are mounted, and links
/// that lead below `/usr` are made again.
pub open spec fn setup_with(setup: SetupState, entry: RootEntry, leads_into_usr: bool) -> SetupState {
    if !"lib"@.is_prefix_of(entry.name@) {
        setup
    } else {
        match entry.kind {
            EntryKind::Directory => SetupState {
                lib_dirs: setup.lib_dirs.push(entry.path@),
                ..setup
            },
            EntryKind::Symlink(target) => if leads_into_usr {
                SetupState {
                    lib_symlinks: setup.lib_symlinks.push((entry.path@, target@)),
                    ..setup
                }
            } else {
                setup
            },
            EntryKind::Other => setup,
        }
    }
}

/// Whether the link of an entry leads below `/usr`.
pub open spec fn leads_into_usr(entry: RootEntry) -> bool {
    match entry.kind {
        EntryKind::Symlink(target) => path_starts_with(target@, "/usr/"@),
        _ => false,
    }
}

impl SystemSetup {
    /// A setup without library directories.
    pub fn new() -> (setup: SystemSetup)
        ensures
            setup@.lib_symlinks == Seq::<(Seq<char>, Seq<char>)>::empty(),
            setup@.lib_dirs == Seq::<Seq<char>>::empty(),
    {
        let setup = SystemSetup { lib_symlinks: Vec::new(), lib_dirs: Vec::new() };
        assert(setup@.lib_symlinks =~= Seq::<(Seq<char>, Seq<char>)>::empty());
        assert(setup@.lib_dirs =~= Seq::<Seq<char>>::empty());
        setup
    }

    /// Takes in an entry of the root directory, given whether its link leads
    /// below `/usr`.
    pub fn add_entry(&mut self, entry: &RootEntry, leads_into_usr: bool)
        ensures
            final(self)@ == setup_with(old(self)@, *entry, leads_into_usr),
    {
        if !starts_with(entry.name.as_str(), "lib") {
            return ;
        }
        match &entry.kind {
            EntryKind::Directory => {
                self.lib_dirs.push(entry.path.clone());
                assert(self@.lib_dirs =~= old(self)@.lib_dirs.push(entry.path@));
            },
            EntryKind::Symlink(target) => {
                if leads_into_usr {
                    self.lib_symlinks.push((entry.path.clone(), target.clone()));
                    assert(self@.lib_symlinks =~= old(self)@.lib_symlinks.push(
                        (entry.path@, target@),
                    ));
                }
            },
            EntryKind::Other => {},
        }
    }

    /// Takes in an entry of the root directory.
    pub fn add_dir(&mut self, entry: &RootEntry)
        ensures
            final(self)@ == setup_with(old(self)@, *entry, leads_into_usr(*entry)),
    {
        let into_usr = match &entry.kind {
            EntryKind::Symlink(target) => starts_with_path(target.as_str(), "/usr/"),
            _ => false,
        };
        self.add_entry(entry, into_usr);
    }

    /// Takes in the entries of the root directory in their order.
    pub fn load_lib_dirs(&mut self, entries: &Vec<RootEntry>)
        ensures
            final(self)@ == setup_with_all(old(self)@, entries@, entries@.len()),
    {
        let ghost before = self@;
        let mut i: usize = 0;
        while i < entries.len()
            invariant
                i <= entries@.len(),
                self@ == setup_with_all(before, entries@, i as nat),
            decreases entries@.len() - i,
        {
            self.add_dir(&entries[i]);
            i += 1;
        }
    }
}

/// The setup with the first `count` entries taken in.
pub open spec fn setup_with_all(setup: SetupState, entries: Seq<RootEntry>, count: nat) -> SetupState
    decreases count,
{
    if count == 0 {
        setup
    } else {
        let before = setup_with_all(setup, entries, (count - 1) as nat);
        setup_with(before, entries[count - 1], leads_into_usr(entries[count - 1]))
    }
}

/// The arguments with which every sandbox of namespaces starts: nothing is
/// shared, the helper dies with its parent, `/usr` is there to read, and home
/// and runtime directory are empty.
pub open spec fn bwrap_base_args() -> Seq<Seq<char>> {
    seq![
        "--unshare-all"@,
        "--die-with-parent"@,
        "--chdir"@,
        "/"@,
        "--ro-bind"@,
        "/usr"@,
        "/usr"@,
        "--dev"@,
        "/dev"@,
        "--ro-bind-try"@,
        "/etc/ld.so.cache"@,
        "/etc/ld.so.cache"@,
        "--tmpfs"@,
        "/tmp-home"@,
        "--setenv"@,
        "HOME"@,
        "/tmp-home"@,
        "--tmpfs"@,
        "/tmp-run"@,
        "--setenv"@,
        "XDG_RUNTIME_DIR"@,
        "/tmp-run"@,
    ]
}

/// For each link the arguments that make it again: the target first.
pub open spec fn symlink_args(links: Seq<(Seq<char>, Seq<char>)>, count: nat) -> Seq<Seq<char>>
    decreases count,
{
    if count == 0 {
        Seq::empty()
    } else {
        symlink_args(links, (count - 1) as nat) + seq![
            "--symlink"@,
            links[count - 1].1,
            links[count - 1].0,
        ]
    }
}

/// For each path the arguments that bind it to its own place with `option`.
pub open spec fn bind_args(option: Seq<char>, paths: Seq<Seq<char>>, count: nat) -> Seq<Seq<char>>
    decreases count,
{
    if count == 0 {
        Seq::empty()
    } else {
        bind_args(option, paths, (count - 1) as nat) + seq![
            option,
            paths[count - 1],
            paths[count - 1],
        ]
    }
}

/// The cache directory of a helper: below `glycin` in the cache directory of
/// the user, the path of the program.
pub open spec fn helper_cache_dir(user_cache_dir: Seq<char>, program: Seq<char>) -> Seq<char> {
    user_cache_dir + "/glycin"@ + (if program.len() > 0 && program[0] == '/' {
        program
    } else {
        "/"@ + program
    })
}

/// The directory in which the fonts of a helper are cached.
pub open spec fn fontconfig_cache_dir(user_cache_dir: Seq<char>, program: Seq<char>) -> Seq<char> {
    helper_cache_dir(user_cache_dir, program) + "/fontconfig"@
}

/// What is known of the fonts of the system when a sandbox is built.
#[derive(Debug, Clone, PartialEq, Eq)]
pub struct FontSetup {
    /// Paths to fonts, configurations and caches
    pub paths: Vec<String>,
    /// The cache directory of the helper, where it could be made
    pub cache_dir: Option<String>,
}

/// The arguments that give a helper the fonts of the system: each path to
/// read, and the cache directory to write, as the cache home of the helper.
pub open spec fn font_args(paths: Seq<Seq<char>>, cache_dir: Option<Seq<char>>) -> Seq<Seq<char>> {
    bind_args("--ro-bind-try"@, paths, paths.len()) + (match cache_dir {
        Some(dir) => seq!["--bind-try"@, dir, dir, "--setenv"@, "XDG_CACHE_HOME"@, dir],
        None => Seq::empty(),
    })
}

/// The text of an optional text.
pub open spec fn text_of(text: Option<String>) -> Option<Seq<char>> {
    match text {
        Some(t) => Some(t@),
        None => None,
    }
}

/// The arguments for the sandbox of namespaces.
///
/// After the arguments of every sandbox come the library links and
/// directories of the system, the directories that the caller adds, the
/// program itself where it does not lie below `/usr`, and the fonts where the
/// helper uses them and they are known.
pub open spec fn bwrap_args_of(
    program: Seq<char>,
    program_in_usr: bool,
    fontconfig: bool,
    setup: SetupState,
    ro_bind_extra: Seq<Seq<char>>,
    fonts: Option<FontSetup>,
) -> Seq<Seq<char>> {
    bwrap_base_args() + symlink_args(setup.lib_symlinks, setup.lib_symlinks.len()) + bind_args(
        "--ro-bind"@,
        setup.lib_dirs,
        setup.lib_dirs.len(),
    ) + bind_args("--ro-bind"@, ro_bind_extra, ro_bind_extra.len()) + (if program_in_usr {
        Seq::empty()
    } else {
        seq!["--ro-bind"@, program, program]
    }) + (match fonts {
        Some(fonts) => if fontconfig {
            font_args(texts(fonts.paths@), text_of(fonts.cache_dir))
        } else {
            Seq::empty()
        },
        None => Seq::empty(),
    })
}

/// Appends a text of its own to the arguments.
fn push_arg(args: &mut Vec<String>, arg: &str)
    ensures
        texts(final(args)@) == texts(old(args)@).push(arg@),
{
    args.push(arg.to_owned());
    assert(texts(args@) =~= texts(old(args)@).push(arg@));
}

/// Appends the arguments that bind each path to its own place.
fn push_binds(args: &mut Vec<String>, option: &str, paths: &Vec<String>)
    ensures
        texts(final(args)@) == texts(old(args)@) + bind_args(
            option@,
            texts(paths@),
            paths@.len(),
        ),
{
    let ghost before = texts(args@);
    let mut i: usize = 0;
    while i < paths.len()
        invariant
            i <= paths@.len(),
            texts(args@) == before + bind_args(option@, texts(paths@), i as nat),
        decreases paths@.len() - i,
    {
        let ghost so_far = texts(args@);
        push_arg(args, option);
        push_arg(args, paths[i].as_str());
        push_arg(args, paths[i].as_str());
        assert(texts(args@) =~= so_far + seq![option@, paths@[i as int]@, paths@[i as int]@]);
        i += 1;
    }
}

/// The cache directory of a helper.
pub fn cache_dir_for(user_cache_dir: &str, program: &str) -> (dir: String)
    ensures
        dir@ == helper_cache_dir(user_cache_dir@, program@),
{
    let base = user_cache_dir.to_owned().concat("/glycin");
    if program.unicode_len() > 0 && program.get_char(0) == '/' {
        base.concat(program)
    } else {
        base.concat("/").concat(program)
    }
}

/// The directory that has to be there before a helper with fonts is started.
pub fn fontconfig_cache_dir_for(user_cache_dir: &str, program: &str) -> (dir: String)
    ensures
        dir@ == fontconfig_cache_dir(user_cache_dir@, program@),
{
    cache_dir_for(user_cache_dir, program).concat("/fontconfig")
}

/// Builds the arguments for the sandbox of namespaces, given whether the
/// program lies below `/usr`.
pub fn bwrap_args_for(
    program: &str,
    program_in_usr: bool,
    fontconfig: bool,
    setup: &SystemSetup,
    ro_bind_extra: &Vec<String>,
    fonts: &Option<FontSetup>,
) -> (args: Vec<String>)
    ensures
        texts(args@) == bwrap_args_of(
            program@,
            program_in_usr,
            fontconfig,
            setup@,
            texts(ro_bind_extra@),
            *fonts,
        ),
{
    let mut args: Vec<String> = Vec::new();
    assert(texts(args@) =~= Seq::<Seq<char>>::empty());
    push_arg(&mut args, "--unshare-all");
    push_arg(&mut args, "--die-with-parent");
    // change working directory to something that exists
    push_arg(&mut args, "--chdir");
    push_arg(&mut args, "/");
    // Make /usr available as read only
    push_arg(&mut args, "--ro-bind");
    push_arg(&mut args, "/usr");
    push_arg(&mut args, "/usr");
    // Make tmpfs dev available
    push_arg(&mut args, "--dev");
    push_arg(&mut args, "/dev");
    // Additional linker configuration via /etc/ld.so.conf if available
    push_arg(&mut args, "--ro-bind-try");
    push_arg(&mut args, "/etc/ld.so.cache");
    push_arg(&mut args, "/etc/ld.so.cache");
    // Create a fake HOME for glib to not throw warnings
    push_arg(&mut args, "--tmpfs");
    push_arg(&mut args, "/tmp-home");
    push_arg(&mut args, "--setenv");
    push_arg(&mut args, "HOME");
    push_arg(&mut args, "/tmp-home");
    // Create a fake runtime dir for glib to not throw warnings
    push_arg(&mut args, "--tmpfs");
    push_arg(&mut args, "/tmp-run");
    push_arg(&mut args, "--setenv");
    push_arg(&mut args, "XDG_RUNTIME_DIR");
    push_arg(&mut args, "/tmp-run");
    assert(texts(args@) =~= bwrap_base_args());

    // Symlink paths like /usr/lib64 to /lib64
    let ghost links = setup@.lib_symlinks;
    let mut i: usize = 0;
    while i < setup.lib_symlinks.len()
        invariant
            i <= setup.lib_symlinks@.len(),
            links == setup@.lib_symlinks,
            texts(args@) == bwrap_base_args() + symlink_args(links, i as nat),
        decreases setup.lib_symlinks@.len() - i,
    {
        let ghost so_far = texts(args@);
        push_arg(&mut args, "--symlink");
        push_arg(&mut args, setup.lib_symlinks[i].1.as_str());
        push_arg(&mut args, setup.lib_symlinks[i].0.as_str());
        assert(texts(args@) =~= so_far + seq![
            "--symlink"@,
            links[i as int].1,
            links[i as int].0,
        ]);
        i += 1;
    }

    // Mount paths like /lib64 if they exist
    push_binds(&mut args, "--ro-bind", &setup.lib_dirs);

    // Make extra dirs available
    push_binds(&mut args, "--ro-bind", ro_bind_extra);

    // Make loader binary available if not in /usr. This is useful for testing and
    // adding loaders in user (/home) configurations.
    let ghost with_binds = texts(args@);
    if !program_in_usr {
        push_arg(&mut args, "--ro-bind");
        push_arg(&mut args, program);
        push_arg(&mut args, program);
        assert(texts(args@) =~= with_binds + seq!["--ro-bind"@, program@, program@]);
    } else {
        assert(texts(args@) =~= with_binds + Seq::<Seq<char>>::empty());
    }

    // Fontconfig
    let ghost with_program = texts(args@);
    match fonts {
        Some(fonts) => {
            if fontconfig {
                // Expose paths to fonts, configs, and caches
                push_binds(&mut args, "--ro-bind-try", &fonts.paths);
                let ghost with_fonts = texts(args@);
                // Fontconfig needs a writeable cache if the cache is outdated
                match &fonts.cache_dir {
                    Some(dir) => {
                        push_arg(&mut args, "--bind-try");
                        push_arg(&mut args, dir.as_str());
                        push_arg(&mut args, dir.as_str());
                        push_arg(&mut args, "--setenv");
                        push_arg(&mut args, "XDG_CACHE_HOME");
                        push_arg(&mut args, dir.as_str());
                        assert(texts(args@) =~= with_fonts + seq![
                            "--bind-try"@,
                            dir@,
                            dir@,
                            "--setenv"@,
                            "XDG_CACHE_HOME"@,
                            dir@,
                        ]);
                    },
                    None => {
                        assert(texts(args@) =~= with_fonts + Seq::<Seq<char>>::empty());
                    },
                }
                assert(texts(args@) =~= with_program + font_args(
                    texts(fonts.paths@),
                    text_of(fonts.cache_dir),
                ));
            } else {
                assert(texts(args@) =~= with_program + Seq::<Seq<char>>::empty());
            }
        },
        None => {
            assert(texts(args@) =~= with_program + Seq::<Seq<char>>::empty());
        },
    }
    args
}

/// Builds the arguments for the sandbox of namespaces.
pub fn bwrap_args(
    program: &str,
    fontconfig: bool,
    setup: &SystemSetup,
    ro_bind_extra: &Vec<String>,
    fonts: &Option<FontSetup>,
) -> (args: Vec<String>)
    ensures
        texts(args@) == bwrap_args_of(
            program@,
            path_starts_with(program@, "/usr"@),
            fontconfig,
            setup@,
            texts(ro_bind_extra@),
            *fonts,
        ),
{
    let in_usr = starts_with_path(program, "/usr");
    bwrap_args_for(program, in_usr, fontconfig, setup, ro_bind_extra, fonts)
}

/// 20 GiB: the most memory that is looked at.
pub const MEMORY_CONSIDERED_MAX: u64 = 21_474_836_480;

/// 200 MiB: the memory that stays free.
pub const MEMORY_KEPT_FREE: u64 = 209_715_200;

/// 1 GiB: the limit where the available memory is not known.
pub const MEMORY_LIMIT_FALLBACK: u64 = 1_073_741_824;

/// The memory that a sandbox may use where `available` bytes are free: of no
/// more than 20 GiB, less 200 MiB, four fifths.
pub open spec fn memory_limit_for(available: u64) -> int {
    let considered = if available < MEMORY_CONSIDERED_MAX {
        available
    } else {
        MEMORY_CONSIDERED_MAX
    };
    let left = if considered > MEMORY_KEPT_FREE {
        considered - MEMORY_KEPT_FREE
    } else {
        0
    };
    left * 4 / 5
}

/// Calculate memory that the sandbox will be allowed to use
pub fn calculate_memory_limit(mem_available: u64) -> (limit: u64)
    ensures
        limit == memory_limit_for(mem_available),
{
    // Consider max of 20 GB free RAM for use
    let considered = if mem_available < MEMORY_CONSIDERED_MAX {
        mem_available
    } else {
        MEMORY_CONSIDERED_MAX
    };
    // Keep at least 200 MB free
    let left = if considered > MEMORY_KEPT_FREE {
        considered - MEMORY_KEPT_FREE
    } else {
        0
    };
    // Allow usage of 80% of considered memory
    left * 4 / 5
}

/// The sum of two numbers, with the largest number of 64 bits in place of
/// every larger one.
pub open spec fn saturating_sum(a: int, b: int) -> int {
    if a + b > u64::MAX {
        u64::MAX as int
    } else {
        a + b
    }
}

/// The second of the words of a line that spaces part, read as a number.
pub open spec fn second_word_number(line: Seq<char>) -> Option<u64> {
    match after(skip_spaces(line), ' ') {
        Some(rest) => {
            let word = before(skip_spaces(rest), ' ');
            match unsigned_number(word) {
                Some(n) => if n <= u64::MAX {
                    Some(n as u64)
                } else {
                    None
                },
                None => None,
            }
        },
        None => None,
    }
}

/// What a line of the memory report adds to the memory that is free, in KiB:
/// only the lines for available memory and for free swap count.
pub open spec fn meminfo_line_value(line: Seq<char>) -> Option<u64> {
    if "MemAvailable:"@.is_prefix_of(line) || "SwapFree:"@.is_prefix_of(line) {
        second_word_number(line)
    } else {
        None
    }
}

/// The free memory in KiB after one more line of the report.
pub open spec fn meminfo_with_line(total: Option<u64>, line: Seq<char>) -> Option<u64> {
    match meminfo_line_value(line) {
        Some(value) => Some(
            saturating_sum(
                match total {
                    Some(t) => t as int,
                    None => 0,
                },
                value as int,
            ) as u64,
        ),
        None => total,
    }
}

/// The free memory in KiB that the lines of a report add to `total`.
pub open spec fn meminfo_total(report: Seq<char>, total: Option<u64>) -> Option<u64>
    decreases report.len(),
{
    let with_line = meminfo_with_line(total, before(report, '\n'));
    match after(report, '\n') {
        Some(rest) => if rest.len() < report.len() {
            meminfo_total(rest, with_line)
        } else {
            with_line
        },
        None => with_line,
    }
}

/// The memory in bytes that the report calls free: available memory and free
/// swap together, if the report names one of them.
pub open spec fn mem_available_of(report: Seq<char>) -> Option<u64> {
    match meminfo_total(report, None) {
        Some(kib) => Some(
            (if kib * 1024 > u64::MAX {
                u64::MAX as int
            } else {
                kib * 1024
            }) as u64,
        ),
        None => None,
    }
}

/// Reads the number that stands second in a line.
fn read_second_word(line: &str) -> (value: Option<u64>)
    ensures
        value == second_word_number(line@),
{
    let (_, rest) = split_first(without_leading_spaces(line), ' ');
    match rest {
        Some(rest) => {
            let (word, _) = split_first(without_leading_spaces(rest), ' ');
            parse_u64(word)
        },
        None => None,
    }
}

/// Try to determine how much memory is available on the system, from the
/// report that the kernel gives.
pub fn mem_available(report: &str) -> (available: Option<u64>)
    ensures
        available == mem_available_of(report@),
{
    let mut total: Option<u64> = None;
    let mut rest: &str = report;
    let mut done = false;
    while !done
        invariant
            !done ==> meminfo_total(report@, None) == meminfo_total(rest@, total),
            done ==> meminfo_total(report@, None) == total,
        decreases rest@.len() + (if done {
            0int
        } else {
            1int
        }),
    {
        let (line, tail) = split_first(rest, '\n');
        if starts_with(line, "MemAvailable:") || starts_with(line, "SwapFree:") {
            match read_second_word(line) {
                Some(value) => {
                    let so_far = match total {
                        Some(t) => t,
                        None => 0,
                    };
                    total = Some(
                        if so_far > u64::MAX - value {
                            u64::MAX
                        } else {
                            so_far + value
                        },
                    );
                },
                None => {},
            }
        }
        proof {
            crate::text::lemma_first_index(rest@, '\n');
        }
        match tail {
            Some(tail) => {
                rest = tail;
            },
            None => {
                done = true;
            },
        }
    }
    match total {
        Some(kib) => Some(
            if kib > u64::MAX / 1024 {
                u64::MAX
            } else {
                kib * 1024
            },
        ),
        None => None,
    }
}

/// The limit in bytes for the memory of a sandbox: what the report of the
/// kernel allows, or 1 GiB where there is no report or it names no memory.
pub open spec fn memory_limit_of(report: Option<Seq<char>>) -> int {
    match report {
        Some(text) => match mem_available_of(text) {
            Some(available) => memory_limit_for(available),
            None => MEMORY_LIMIT_FALLBACK as int,
        },
        None => MEMORY_LIMIT_FALLBACK as int,
    }
}

/// Memory limit in bytes that should be applied to sandboxes
pub fn memory_limit(report: Option<&str>) -> (limit: u64)
    ensures
        limit == memory_limit_of(
            match report {
                Some(text) => Some(text@),
                None => None,
            },
        ),
{
    match report {
        Some(text) => match mem_available(text) {
            Some(available) => calculate_memory_limit(available),
            None => MEMORY_LIMIT_FALLBACK,
        },
        None => MEMORY_LIMIT_FALLBACK,
    }
}

/// What happens to a helper that makes a call that is not allowed.
#[derive(Debug, Clone, Copy, PartialEq, Eq, Structural)]
pub enum SeccompAction {
    /// The helper gets a signal
    Trap,
    /// The helper is killed, which the audit log records
    KillProcess,
}

/// What is done in the new process before the helper is started.
#[derive(Debug, Clone, Copy, PartialEq, Eq, Structural)]
pub enum PreExec {
    /// The limit on the memory of the process is set
    SetMemoryLimit,
    /// The process is set to die with its parent
    DieWithParent,
}

/// Tells what happens on a call that is not allowed, from the value of the
/// variable `GLYCIN_SECCOMP_DEFAULT_ACTION`.
pub fn seccomp_default_action(value: Option<&str>) -> (action: SeccompAction)
    ensures
        action == (if value matches Some(text) && text@ == "KILL_PROCESS"@ {
            SeccompAction::KillProcess
        } else {
            SeccompAction::Trap
        }),
{
    match value {
        Some(text) => if str_equal(text, "KILL_PROCESS") {
            SeccompAction::KillProcess
        } else {
            SeccompAction::Trap
        },
        None => SeccompAction::Trap,
    }
}

/// A command that starts a helper.
#[derive(Debug, Clone, PartialEq, Eq)]
pub struct SandboxCommand {
    /// The program that is started
    pub program: String,
    pub args: Vec<String>,
    /// Whether the program starts without the variables of the host
    pub clear_env: bool,
    /// Variables that the program gets
    pub env: Vec<(String, String)>,
    pub pre_exec: PreExec,
}

/// The variables of the host that a helper gets.
#[derive(Debug, Clone, PartialEq, Eq)]
pub struct InheritedEnv {
    /// Value of `RUST_BACKTRACE`
    pub rust_backtrace: Option<String>,
    /// Value of `RUST_LOG`
    pub rust_log: Option<String>,
}

/// The variables that are handed on, with their names.
pub open spec fn inherited(env: InheritedEnv) -> Seq<(Seq<char>, Seq<char>)> {
    (match env.rust_backtrace {
        Some(value) => seq![("RUST_BACKTRACE"@, value@)],
        None => Seq::empty(),
    }) + (match env.rust_log {
        Some(value) => seq![("RUST_LOG"@, value@)],
        None => Seq::empty(),
    })
}

/// For each variable the argument that sets it in the portal.
pub open spec fn env_args(env: Seq<(Seq<char>, Seq<char>)>, count: nat) -> Seq<Seq<char>>
    decreases count,
{
    if count == 0 {
        Seq::empty()
    } else {
        env_args(env, (count - 1) as nat).push(
            "--env="@ + env[count - 1].0 + "="@ + env[count - 1].1,
        )
    }
}

/// The arguments that tell the helper its socket.
pub open spec fn helper_args(dbus_fd: i32) -> Seq<Seq<char>> {
    seq!["--dbus-fd"@, signed_decimal(dbus_fd as int)]
}

/// What a command is made of, as texts.
pub struct CommandLine {
    pub program: Seq<char>,
    pub args: Seq<Seq<char>>,
    pub clear_env: bool,
    pub env: Seq<(Seq<char>, Seq<char>)>,
    pub pre_exec: PreExec,
}

impl View for SandboxCommand {
    type V = CommandLine;

    open spec fn view(&self) -> CommandLine {
        CommandLine {
            program: self.program@,
            args: texts(self.args@),
            clear_env: self.clear_env,
            env: link_texts(self.env@),
            pre_exec: self.pre_exec,
        }
    }
}

/// The command that starts a helper.
///
/// In namespaces the launcher gets the arguments of the sandbox, the filter
/// for calls into the operating system and the program; the memory limit is
/// set in the new process. Through the portal the helper is started below a
/// memory limit, without the variables of the host but for those handed on.
/// Without a sandbox the program is started as it is. In each case the helper
/// learns the number of its socket, starts without the variables of the host,
/// and the helpers that the launcher does not end die with their parent.
pub open spec fn sandbox_command(
    mechanism: SandboxMechanism,
    program: Seq<char>,
    bwrap_args: Seq<Seq<char>>,
    seccomp_fd: i32,
    dbus_fd: i32,
    memory_limit: u64,
    env: InheritedEnv,
) -> CommandLine {
    match mechanism {
        SandboxMechanism::Bwrap => CommandLine {
            program: "bwrap"@,
            args: bwrap_args + seq!["--seccomp"@, signed_decimal(seccomp_fd as int), program]
                + helper_args(dbus_fd),
            clear_env: true,
            env: inherited(env),
            pre_exec: PreExec::SetMemoryLimit,
        },
        SandboxMechanism::FlatpakSpawn => CommandLine {
            program: "flatpak-spawn"@,
            args: seq![
                "--sandbox"@,
                "--watch-bus"@,
                "--directory=/"@,
                "--forward-fd="@ + signed_decimal(dbus_fd as int),
                "--clear-env"@,
            ] + env_args(inherited(env), inherited(env).len()) + seq![
                "prlimit"@,
                "--as="@ + decimal(memory_limit as nat),
                program,
            ] + helper_args(dbus_fd),
            clear_env: false,
            env: Seq::empty(),
            pre_exec: PreExec::DieWithParent,
        },
        SandboxMechanism::NotSandboxed => CommandLine {
            program,
            args: helper_args(dbus_fd),
            clear_env: true,
            env: inherited(env),
            pre_exec: PreExec::DieWithParent,
        },
    }
}

/// The variables that are handed on.
fn inherited_env(env: &InheritedEnv) -> (list: Vec<(String, String)>)
    ensures
        link_texts(list@) == inherited(*env),
{
    let mut list: Vec<(String, String)> = Vec::new();
    match &env.rust_backtrace {
        Some(value) => {
            list.push(("RUST_BACKTRACE".to_owned(), value.clone()));
        },
        None => {},
    }
    match &env.rust_log {
        Some(value) => {
            list.push(("RUST_LOG".to_owned(), value.clone()));
        },
        None => {},
    }
    assert(link_texts(list@) =~= inherited(*env));
    list
}

/// A sandbox that is about to be started.
#[derive(Debug, Clone, PartialEq, Eq)]
pub struct Sandbox {
    sandbox_mechanism: SandboxMechanism,
    program: String,
    fontconfig: bool,
    dbus_fd: i32,
    ro_bind_extra: Vec<String>,
}

impl Sandbox {
    /// The mechanism of the sandbox.
    pub closed spec fn mechanism(&self) -> SandboxMechanism {
        self.sandbox_mechanism
    }

    /// The program of the helper.
    pub closed spec fn program(&self) -> Seq<char> {
        self.program@
    }

    /// Whether the helper uses the fonts of the system.
    pub closed spec fn fontconfig(&self) -> bool {
        self.fontconfig
    }

    /// The number of the socket that the helper gets.
    pub closed spec fn dbus_fd(&self) -> i32 {
        self.dbus_fd
    }

    /// The directories that the helper may read besides those of the system.
    pub closed spec fn extra_binds(&self) -> Seq<Seq<char>> {
        texts(self.ro_bind_extra@)
    }

    pub fn new(sandbox_mechanism: SandboxMechanism, program: String, fontconfig: bool, dbus_fd: i32)
        -> (sandbox: Sandbox)
        ensures
            sandbox.mechanism() == sandbox_mechanism,
            sandbox.program() == program@,
            sandbox.fontconfig() == fontconfig,
            sandbox.dbus_fd() == dbus_fd,
            sandbox.extra_binds() == Seq::<Seq<char>>::empty(),
    {
        let sandbox = Sandbox {
            sandbox_mechanism,
            program,
            fontconfig,
            dbus_fd,
            ro_bind_extra: Vec::new(),
        };
        assert(sandbox.extra_binds() =~= Seq::<Seq<char>>::empty());
        sandbox
    }

    pub fn add_ro_bind(&mut self, path: String)
        ensures
            final(self).extra_binds() == old(self).extra_binds().push(path@),
            final(self).mechanism() == old(self).mechanism(),
            final(self).program() == old(self).program(),
            final(self).fontconfig() == old(self).fontconfig(),
            final(self).dbus_fd() == old(self).dbus_fd(),
    {
        self.ro_bind_extra.push(path);
        assert(self.extra_binds() =~= old(self).extra_binds().push(path@));
    }

    /// Tells whether a filter for calls into the operating system has to be
    /// made before the helper is started.
    pub fn needs_seccomp(&self) -> (needed: bool)
        ensures
            needed == (self.mechanism() == SandboxMechanism::Bwrap),
    {
        match self.sandbox_mechanism {
            SandboxMechanism::Bwrap => true,
            _ => false,
        }
    }

    /// The arguments for the sandbox of namespaces.
    pub fn bwrap_args(&self, setup: &SystemSetup, fonts: &Option<FontSetup>) -> (args: Vec<String>)
        ensures
            texts(args@) == bwrap_args_of(
                self.program(),
                path_starts_with(self.program(), "/usr"@),
                self.fontconfig(),
                setup@,
                self.extra_binds(),
                *fonts,
            ),
    {
        bwrap_args(self.program.as_str(), self.fontconfig, setup, &self.ro_bind_extra, fonts)
    }

    /// The command that starts the helper.
    ///
    /// `bwrap_args` and `seccomp_fd` count for the sandbox of namespaces
    /// only, and `memory_limit` for the portal only.
    pub fn spawn(
        &self,
        bwrap_args: Vec<String>,
        seccomp_fd: i32,
        memory_limit: u64,
        env: &InheritedEnv,
    ) -> (command: SandboxCommand)
        ensures
            command@ == sandbox_command(
                self.mechanism(),
                self.program(),
                texts(bwrap_args@),
                seccomp_fd,
                self.dbus_fd(),
                memory_limit,
                *env,
            ),
    {
        let dbus_fd = to_signed_decimal(self.dbus_fd);
        match self.sandbox_mechanism {
            SandboxMechanism::Bwrap => {
                let mut args = bwrap_args;
                let ghost first = texts(args@);
                push_arg(&mut args, "--seccomp");
                push_arg(&mut args, to_signed_decimal(seccomp_fd).as_str());
                push_arg(&mut args, self.program.as_str());
                push_arg(&mut args, "--dbus-fd");
                push_arg(&mut args, dbus_fd.as_str());
                assert(texts(args@) =~= first + seq![
                    "--seccomp"@,
                    signed_decimal(seccomp_fd as int),
                    self.program@,
                ] + helper_args(self.dbus_fd));
                SandboxCommand {
                    program: "bwrap".to_owned(),
                    args,
                    clear_env: true,
                    env: inherited_env(env),
                    pre_exec: PreExec::SetMemoryLimit,
                }
            },
            SandboxMechanism::FlatpakSpawn => {
                let mut args: Vec<String> = Vec::new();
                assert(texts(args@) =~= Seq::<Seq<char>>::empty());
                push_arg(&mut args, "--sandbox");
                // die with parent
                push_arg(&mut args, "--watch-bus");
                // change working directory to something that exists
                push_arg(&mut args, "--directory=/");
                // forward dbus connection
                push_arg(&mut args, "--forward-fd=".to_owned().concat(dbus_fd.as_str()).as_str());
                push_arg(&mut args, "--clear-env");
                let ghost head = texts(args@);
                assert(head =~= seq![
                    "--sandbox"@,
                    "--watch-bus"@,
                    "--directory=/"@,
                    "--forward-fd="@ + signed_decimal(self.dbus_fd as int),
                    "--clear-env"@,
                ]);
                let handed_on = inherited_env(env);
                let mut i: usize = 0;
                while i < handed_on.len()
                    invariant
                        i <= handed_on@.len(),
                        link_texts(handed_on@) == inherited(*env),
                        texts(args@) == head + env_args(inherited(*env), i as nat),
                    decreases handed_on@.len() - i,
                {
                    let arg = "--env=".to_owned().concat(handed_on[i].0.as_str()).concat(
                        "=",
                    ).concat(handed_on[i].1.as_str());
                    assert(link_texts(handed_on@)[i as int] == (
                        handed_on@[i as int].0@,
                        handed_on@[i as int].1@,
                    ));
                    push_arg(&mut args, arg.as_str());
                    i += 1;
                }
                let ghost with_env = texts(args@);
                assert(handed_on@.len() == inherited(*env).len());
                // Start loader with memory limit
                push_arg(&mut args, "prlimit");
                push_arg(
                    &mut args,
                    "--as=".to_owned().concat(to_decimal(memory_limit).as_str()).as_str(),
                );
                // Loader binary
                push_arg(&mut args, self.program.as_str());
                push_arg(&mut args, "--dbus-fd");
                push_arg(&mut args, dbus_fd.as_str());
                assert(texts(args@) =~= with_env + seq![
                    "prlimit"@,
                    "--as="@ + decimal(memory_limit as nat),
                    self.program@,
                ] + helper_args(self.dbus_fd));
                let none: Vec<(String, String)> = Vec::new();
                assert(link_texts(none@) =~= Seq::<(Seq<char>, Seq<char>)>::empty());
                SandboxCommand {
                    program: "flatpak-spawn".to_owned(),
                    args,
                    clear_env: false,
                    env: none,
                    pre_exec: PreExec::DieWithParent,
                }
            },
            SandboxMechanism::NotSandboxed => {
                let mut args: Vec<String> = Vec::new();
                assert(texts(args@) =~= Seq::<Seq<char>>::empty());
                push_arg(&mut args, "--dbus-fd");
                push_arg(&mut args, dbus_fd.as_str());
                assert(texts(args@) =~= helper_args(self.dbus_fd));
                SandboxCommand {
                    program: self.program.clone(),
                    args,
                    clear_env: true,
                    env: inherited_env(env),
                    pre_exec: PreExec::DieWithParent,
                }
            },
        }
    }
}

} // verus!
