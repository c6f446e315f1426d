//! The calls into the operating system that a helper may make.
//!
//! Every call is refused unless it is listed here. The filter is only there
//! for helpers that run in namespaces.

use vstd::prelude::*;

verus! {

/// The allowed calls from `access` to `brk`.
pub open spec fn syscalls_a_to_b() -> Seq<Seq<char>> {
    seq![
        "access"@,
        "arch_prctl"@,
        "arm_fadvise64_64"@,
        "brk"@,
    ]
}

/// The allowed calls from `capget` to `dup`.
pub open spec fn syscalls_c_to_d() -> Seq<Seq<char>> {
    seq![
        "capget"@,
        "capset"@,
        "chdir"@,
        "clock_getres"@,
        "clock_gettime"@,
        "clock_gettime64"@,
        "clone"@,
        "clone3"@,
        "close"@,
        "connect"@,
        "creat"@,
        "dup"@,
    ]
}

/// The allowed calls from `epoll_create` to `exit_group`.
pub open spec fn syscalls_e() -> Seq<Seq<char>> {
    seq![
        "epoll_create"@,
        "epoll_create1"@,
        "epoll_ctl"@,
        "epoll_pwait"@,
        "epoll_wait"@,
        "eventfd"@,
        "eventfd2"@,
        "execve"@,
        "exit"@,
        "exit_group"@,
    ]
}

/// The allowed calls from `faccessat` to `futex_time64`.
pub open spec fn syscalls_f() -> Seq<Seq<char>> {
    seq![
        "faccessat"@,
        "fadvise64"@,
        "fadvise64_64"@,
        "fchdir"@,
        "fcntl"@,
        "fcntl"@,
        "fcntl64"@,
        "fstat"@,
        "fstatfs"@,
        "fstatfs64"@,
        "ftruncate"@,
        "ftruncate64"@,
        "futex"@,
        "futex_time64"@,
    ]
}

/// The allowed calls from `get_mempolicy` to `gettid`.
pub open spec fn syscalls_g() -> Seq<Seq<char>> {
    seq![
        "get_mempolicy"@,
        "getcwd"@,
        "getdents64"@,
        "getegid"@,
        "getegid32"@,
        "geteuid"@,
        "geteuid32"@,
        "getgid"@,
        "getgid32"@,
        "getpid"@,
        "getppid"@,
        "getpriority"@,
        "getrandom"@,
        "gettid"@,
    ]
}

/// The allowed calls from `gettimeofday` to `newfstatat`.
pub open spec fn syscalls_g_to_n() -> Seq<Seq<char>> {
    seq![
        "gettimeofday"@,
        "getuid"@,
        "getuid32"@,
        "ioctl"@,
        "madvise"@,
        "membarrier"@,
        "memfd_create"@,
        "mmap"@,
        "mmap2"@,
        "mprotect"@,
        "mremap"@,
        "munmap"@,
        "newfstatat"@,
    ]
}

/// The allowed calls from `open` to `prlimit64`.
pub open spec fn syscalls_o_to_p() -> Seq<Seq<char>> {
    seq![
        "open"@,
        "openat"@,
        "pipe"@,
        "pipe2"@,
        "pivot_root"@,
        "poll"@,
        "ppoll"@,
        "ppoll_time64"@,
        "prctl"@,
        "pread64"@,
        "prlimit64"@,
    ]
}

/// The allowed calls from `read` to `rt_sigreturn`.
pub open spec fn syscalls_r() -> Seq<Seq<char>> {
    seq![
        "read"@,
        "readlink"@,
        "readlinkat"@,
        "recv"@,
        "recvfrom"@,
        "recvmsg"@,
        "rseq"@,
        "rt_sigaction"@,
        "rt_sigprocmask"@,
        "rt_sigreturn"@,
    ]
}

/// The allowed calls from `sched_getaffinity` to `socket`.
pub open spec fn syscalls_s() -> Seq<Seq<char>> {
    seq![
        "sched_getaffinity"@,
        "sched_yield"@,
        "sendmsg"@,
        "sendto"@,
        "set_mempolicy"@,
        "set_mempolicy"@,
        "set_robust_list"@,
        "set_thread_area"@,
        "set_tid_address"@,
        "set_tls"@,
        "setpriority"@,
        "sigaltstack"@,
        "signalfd4"@,
        "socket"@,
    ]
}

/// The allowed calls from `socketcall` to `unshare`.
pub open spec fn syscalls_s_to_u() -> Seq<Seq<char>> {
    seq![
        "socketcall"@,
        "stat"@,
        "statfs"@,
        "statfs64"@,
        "statx"@,
        "sysinfo"@,
        "tgkill"@,
        "timerfd_create"@,
        "timerfd_settime"@,
        "timerfd_settime64"@,
        "ugetrlimit"@,
        "unshare"@,
    ]
}

/// The allowed calls from `wait4` to `writev`.
pub open spec fn syscalls_w() -> Seq<Seq<char>> {
    seq![
        "wait4"@,
        "write"@,
        "writev"@,
    ]
}

/// The calls that every helper may make, in the order of the alphabet.
pub open spec fn allowed_syscalls() -> Seq<Seq<char>> {
    syscalls_a_to_b() + syscalls_c_to_d() + syscalls_e() + syscalls_f() + syscalls_g() + syscalls_g_to_n() + syscalls_o_to_p() + syscalls_r() + syscalls_s() + syscalls_s_to_u() + syscalls_w()
}

/// Extra calls only allowed with fontconfig
///
/// They are only allowed for fontconfig since such changes to the file system
/// are not wanted in general. But fontconfig needs them to renew its caches.
pub open spec fn allowed_syscalls_fontconfig() -> Seq<Seq<char>> {
    seq![
        "chmod"@,
        "link"@,
        "linkat"@,
        "rename"@,
        "renameat"@,
        "renameat2"@,
        "unlink"@,
        "unlinkat"@,
    ]
}

/// The calls that a helper may make, given whether it uses fontconfig.
pub open spec fn allowed_syscalls_for(fontconfig: bool) -> Seq<Seq<char>> {
    if fontconfig {
        allowed_syscalls() + allowed_syscalls_fontconfig()
    } else {
        allowed_syscalls()
    }
}

/// The texts of a list of names.
pub open spec fn name_texts(names: Seq<&'static str>) -> Seq<Seq<char>> {
    Seq::new(names.len(), |i: int| names[i]@)
}

fn push_name(names: &mut Vec<&'static str>, name: &'static str)
    ensures
        name_texts(final(names)@) == name_texts(old(names)@).push(name@),
{
    names.push(name);
    assert(name_texts(names@) =~= name_texts(old(names)@).push(name@));
}

fn push_a_to_b(names: &mut Vec<&'static str>)
    ensures
        name_texts(final(names)@) == name_texts(old(names)@) + syscalls_a_to_b(),
{
    push_name(names, "access");
    push_name(names, "arch_prctl");
    push_name(names, "arm_fadvise64_64");
    push_name(names, "brk");
    assert(name_texts(names@) =~= name_texts(old(names)@) + syscalls_a_to_b());
}

fn push_c_to_d(names: &mut Vec<&'static str>)
    ensures
        name_texts(final(names)@) == name_texts(old(names)@) + syscalls_c_to_d(),
{
    push_name(names, "capget");
    push_name(names, "capset");
    push_name(names, "chdir");
    push_name(names, "clock_getres");
    push_name(names, "clock_gettime");
    push_name(names, "clock_gettime64");
    push_name(names, "clone");
    push_name(names, "clone3");
    push_name(names, "close");
    push_name(names, "connect");
    push_name(names, "creat");
    push_name(names, "dup");
    assert(name_texts(names@) =~= name_texts(old(names)@) + syscalls_c_to_d());
}

fn push_e(names: &mut Vec<&'static str>)
    ensures
        name_texts(final(names)@) == name_texts(old(names)@) + syscalls_e(),
{
    push_name(names, "epoll_create");
    push_name(names, "epoll_create1");
    push_name(names, "epoll_ctl");
    push_name(names, "epoll_pwait");
    push_name(names, "epoll_wait");
    push_name(names, "eventfd");
    push_name(names, "eventfd2");
    push_name(names, "execve");
    push_name(names, "exit");
    push_name(names, "exit_group");
    assert(name_texts(names@) =~= name_texts(old(names)@) + syscalls_e());
}

fn push_f(names: &mut Vec<&'static str>)
    ensures
        name_texts(final(names)@) == name_texts(old(names)@) + syscalls_f(),
{
    push_name(names, "faccessat");
    push_name(names, "fadvise64");
    push_name(names, "fadvise64_64");
    push_name(names, "fchdir");
    push_name(names, "fcntl");
    push_name(names, "fcntl");
    push_name(names, "fcntl64");
    push_name(names, "fstat");
    push_name(names, "fstatfs");
    push_name(names, "fstatfs64");
    push_name(names, "ftruncate");
    push_name(names, "ftruncate64");
    push_name(names, "futex");
    push_name(names, "futex_time64");
    assert(name_texts(names@) =~= name_texts(old(names)@) + syscalls_f());
}

fn push_g(names: &mut Vec<&'static str>)
    ensures
        name_texts(final(names)@) == name_texts(old(names)@) + syscalls_g(),
{
    push_name(names, "get_mempolicy");
    push_name(names, "getcwd");
    push_name(names, "getdents64");
    push_name(names, "getegid");
    push_name(names, "getegid32");
    push_name(names, "geteuid");
    push_name(names, "geteuid32");
    push_name(names, "getgid");
    push_name(names, "getgid32");
    push_name(names, "getpid");
    push_name(names, "getppid");
    push_name(names, "getpriority");
    push_name(names, "getrandom");
    push_name(names, "gettid");
    assert(name_texts(names@) =~= name_texts(old(names)@) + syscalls_g());
}

fn push_g_to_n(names: &mut Vec<&'static str>)
    ensures
        name_texts(final(names)@) == name_texts(old(names)@) + syscalls_g_to_n(),
{
    push_name(names, "gettimeofday");
    push_name(names, "getuid");
    push_name(names, "getuid32");
    push_name(names, "ioctl");
    push_name(names, "madvise");
    push_name(names, "membarrier");
    push_name(names, "memfd_create");
    push_name(names, "mmap");
    push_name(names, "mmap2");
    push_name(names, "mprotect");
    push_name(names, "mremap");
    push_name(names, "munmap");
    push_name(names, "newfstatat");
    assert(name_texts(names@) =~= name_texts(old(names)@) + syscalls_g_to_n());
}

fn push_o_to_p(names: &mut Vec<&'static str>)
    ensures
        name_texts(final(names)@) == name_texts(old(names)@) + syscalls_o_to_p(),
{
    push_name(names, "open");
    push_name(names, "openat");
    push_name(names, "pipe");
    push_name(names, "pipe2");
    push_name(names, "pivot_root");
    push_name(names, "poll");
    push_name(names, "ppoll");
    push_name(names, "ppoll_time64");
    push_name(names, "prctl");
    push_name(names, "pread64");
    push_name(names, "prlimit64");
    assert(name_texts(names@) =~= name_texts(old(names)@) + syscalls_o_to_p());
}

fn push_r(names: &mut Vec<&'static str>)
    ensures
        name_texts(final(names)@) == name_texts(old(names)@) + syscalls_r(),
{
    push_name(names, "read");
    push_name(names, "readlink");
    push_name(names, "readlinkat");
    push_name(names, "recv");
    push_name(names, "recvfrom");
    push_name(names, "recvmsg");
    push_name(names, "rseq");
    push_name(names, "rt_sigaction");
    push_name(names, "rt_sigprocmask");
    push_name(names, "rt_sigreturn");
    assert(name_texts(names@) =~= name_texts(old(names)@) + syscalls_r());
}

fn push_s(names: &mut Vec<&'static str>)
    ensures
        name_texts(final(names)@) == name_texts(old(names)@) + syscalls_s(),
{
    push_name(names, "sched_getaffinity");
    push_name(names, "sched_yield");
    push_name(names, "sendmsg");
    push_name(names, "sendto");
    push_name(names, "set_mempolicy");
    push_name(names, "set_mempolicy");
    push_name(names, "set_robust_list");
    push_name(names, "set_thread_area");
    push_name(names, "set_tid_address");
    push_name(names, "set_tls");
    push_name(names, "setpriority");
    push_name(names, "sigaltstack");
    push_name(names, "signalfd4");
    push_name(names, "socket");
    assert(name_texts(names@) =~= name_texts(old(names)@) + syscalls_s());
}

fn push_s_to_u(names: &mut Vec<&'static str>)
    ensures
        name_texts(final(names)@) == name_texts(old(names)@) + syscalls_s_to_u(),
{
    push_name(names, "socketcall");
    push_name(names, "stat");
    push_name(names, "statfs");
    push_name(names, "statfs64");
    push_name(names, "statx");
    push_name(names, "sysinfo");
    push_name(names, "tgkill");
    push_name(names, "timerfd_create");
    push_name(names, "timerfd_settime");
    push_name(names, "timerfd_settime64");
    push_name(names, "ugetrlimit");
    push_name(names, "unshare");
    assert(name_texts(names@) =~= name_texts(old(names)@) + syscalls_s_to_u());
}

fn push_w(names: &mut Vec<&'static str>)
    ensures
        name_texts(final(names)@) == name_texts(old(names)@) + syscalls_w(),
{
    push_name(names, "wait4");
    push_name(names, "write");
    push_name(names, "writev");
    assert(name_texts(names@) =~= name_texts(old(names)@) + syscalls_w());
}

fn push_fontconfig(names: &mut Vec<&'static str>)
    ensures
        name_texts(final(names)@) == name_texts(old(names)@) + allowed_syscalls_fontconfig(),
{
    push_name(names, "chmod");
    push_name(names, "link");
    push_name(names, "linkat");
    push_name(names, "rename");
    push_name(names, "renameat");
    push_name(names, "renameat2");
    push_name(names, "unlink");
    push_name(names, "unlinkat");
    assert(name_texts(names@) =~= name_texts(old(names)@) + allowed_syscalls_fontconfig());
}

/// Lists the calls that the filter of a helper lets pass.
pub fn seccomp_allowed(fontconfig: bool) -> (names: Vec<&'static str>)
    ensures
        name_texts(names@) == allowed_syscalls_for(fontconfig),
{
    let mut names: Vec<&'static str> = Vec::new();
    assert(name_texts(names@) =~= Seq::<Seq<char>>::empty());
    push_a_to_b(&mut names);
    push_c_to_d(&mut names);
    push_e(&mut names);
    push_f(&mut names);
    push_g(&mut names);
    push_g_to_n(&mut names);
    push_o_to_p(&mut names);
    push_r(&mut names);
    push_s(&mut names);
    push_s_to_u(&mut names);
    push_w(&mut names);
    if fontconfig {
        // Enable some write operations for fontconfig to update its cache
        push_fontconfig(&mut names);
    }
    names
}

} // verus!
