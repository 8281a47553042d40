//! Resolution of the platform-qualified sidecar file name.
//!
//! A sidecar binary is shipped once per build target, and the copy for a
//! target is named by appending the target-triple convention to a common base
//! name: `{base}-{arch}-{os}{env}{ext}`, where `env` is a `-gnu` / `-msvc`
//! qualifier or empty, and `ext` is `.exe` on Windows and empty elsewhere.

use vstd::prelude::*;

verus! {

/// A CPU architecture a sidecar binary may be shipped for.
#[derive(Clone, Copy, PartialEq, Eq, Structural, Debug)]
pub enum Arch {
    I686,
    X86_64,
    Arm,
    Aarch64,
}

/// An operating-system family a sidecar binary may be shipped for, named by
/// the vendor-os segment of its target triple.
#[derive(Clone, Copy, PartialEq, Eq, Structural, Debug)]
pub enum Os {
    PcWindows,
    AppleDarwin,
    UnknownLinux,
    LinuxAndroid,
}

/// The toolchain environment qualifier of a target triple; `Bare` stands for
/// targets whose triple carries no such qualifier.
#[derive(Clone, Copy, PartialEq, Eq, Structural, Debug)]
pub enum Env {
    Gnu,
    Msvc,
    Bare,
}

/// The architecture segment of the file name.
pub open spec fn arch_part(arch: Arch) -> Seq<char> {
    match arch {
        Arch::I686 => "i686"@,
        Arch::X86_64 => "x86_64"@,
        Arch::Arm => "arm"@,
        Arch::Aarch64 => "aarch64"@,
    }
}

/// The operating-system segment of the file name.
pub open spec fn os_part(os: Os) -> Seq<char> {
    match os {
        Os::PcWindows => "pc-windows"@,
        Os::AppleDarwin => "apple-darwin"@,
        Os::UnknownLinux => "unknown-linux"@,
        Os::LinuxAndroid => "linux-android"@,
    }
}

/// The environment qualifier appended after the operating-system segment.
pub open spec fn env_part(env: Env) -> Seq<char> {
    match env {
        Env::Gnu => "-gnu"@,
        Env::Msvc => "-msvc"@,
        Env::Bare => ""@,
    }
}

/// The file-name extension: `.exe` on Windows, empty elsewhere.
pub open spec fn ext_part(os: Os) -> Seq<char> {
    if os is PcWindows {
        ".exe"@
    } else {
        ""@
    }
}

/// The platform-qualified sidecar file name for a base name and a target.
pub open spec fn sidecar_path(base: Seq<char>, arch: Arch, os: Os, env: Env) -> Seq<char> {
    base + "-"@ + arch_part(arch) + "-"@ + os_part(os) + env_part(env) + ext_part(os)
}

/// The architecture segment, as an executable string.
pub fn arch_name(arch: Arch) -> (r: &'static str)
    ensures
        r@ == arch_part(arch),
{
    match arch {
        Arch::I686 => "i686",
        Arch::X86_64 => "x86_64",
        Arch::Arm => "arm",
        Arch::Aarch64 => "aarch64",
    }
}

/// The operating-system segment, as an executable string.
pub fn os_name(os: Os) -> (r: &'static str)
    ensures
        r@ == os_part(os),
{
    match os {
        Os::PcWindows => "pc-windows",
        Os::AppleDarwin => "apple-darwin",
        Os::UnknownLinux => "unknown-linux",
        Os::LinuxAndroid => "linux-android",
    }
}

/// The environment qualifier, as an executable string.
pub fn env_suffix(env: Env) -> (r: &'static str)
    ensures
        r@ == env_part(env),
{
    match env {
        Env::Gnu => "-gnu",
        Env::Msvc => "-msvc",
        Env::Bare => "",
    }
}

/// The file-name extension, as an executable string.
pub fn extension(os: Os) -> (r: &'static str)
    ensures
        r@ == ext_part(os),
{
    match os {
        Os::PcWindows => ".exe",
        Os::AppleDarwin => "",
        Os::UnknownLinux => "",
        Os::LinuxAndroid => "",
    }
}

/// `s` ends with the four characters `.exe`.
pub open spec fn has_exe_suffix(s: Seq<char>) -> bool {
    s.len() >= 4 && s.subrange(s.len() - 4, s.len() as int) == ".exe"@
}

/// A file name whose last character is not `e` does not end with `.exe`.
proof fn lemma_last_excludes_exe(s: Seq<char>, c: char)
    requires
        s.len() > 0,
        s.last() == c,
        c != 'e',
    ensures
        !has_exe_suffix(s),
{
    if has_exe_suffix(s) {
        reveal_strlit(".exe");
        assert(s.subrange(s.len() - 4, s.len() as int)[3] == s[s.len() - 1]);
        assert(".exe"@[3] == 'e');
    }
}

/// A sidecar file name carries the `.exe` extension exactly when its target
/// operating system is Windows, whatever the base name, architecture and
/// environment qualifier.
pub proof fn lemma_exe_suffix_iff_windows(base: Seq<char>, arch: Arch, os: Os, env: Env)
    ensures
        has_exe_suffix(sidecar_path(base, arch, os, env)) <==> os is PcWindows,
{
    let s = sidecar_path(base, arch, os, env);
    let pre = base + "-"@ + arch_part(arch) + "-"@ + os_part(os) + env_part(env);
    if os is PcWindows {
        reveal_strlit(".exe");
        assert(s.subrange(s.len() - 4, s.len() as int) =~= ".exe"@);
    } else {
        reveal_strlit("");
        assert(s =~= pre);
        let q = base + "-"@ + arch_part(arch) + "-"@ + os_part(os);
        match env {
            Env::Gnu => {
                reveal_strlit("-gnu");
                vstd::seq_lib::lemma_append_last(q, "-gnu"@);
                lemma_last_excludes_exe(s, 'u');
            },
            Env::Msvc => {
                reveal_strlit("-msvc");
                vstd::seq_lib::lemma_append_last(q, "-msvc"@);
                lemma_last_excludes_exe(s, 'c');
            },
            Env::Bare => {
                assert(pre =~= q);
                let r = base + "-"@ + arch_part(arch) + "-"@;
                match os {
                    Os::AppleDarwin => {
                        reveal_strlit("apple-darwin");
                        vstd::seq_lib::lemma_append_last(r, "apple-darwin"@);
                        lemma_last_excludes_exe(s, 'n');
                    },
                    Os::UnknownLinux => {
                        reveal_strlit("unknown-linux");
                        vstd::seq_lib::lemma_append_last(r, "unknown-linux"@);
                        lemma_last_excludes_exe(s, 'x');
                    },
                    Os::LinuxAndroid => {
                        reveal_strlit("linux-android");
                        vstd::seq_lib::lemma_append_last(r, "linux-android"@);
                        lemma_last_excludes_exe(s, 'd');
                    },
                    Os::PcWindows => {
                    },
                }
            },
        }
    }
}

/// Builds the platform-qualified sidecar file name for `base_sidecar_name`
/// and the given target, by the convention `{base}-{arch}-{os}{env}{ext}`.
pub fn build_sidecar_path(base_sidecar_name: &str, arch: Arch, os: Os, env: Env) -> (r: String)
    ensures
        r@ == sidecar_path(base_sidecar_name@, arch, os, env),
{
    let mut path: String = base_sidecar_name.to_owned();
    path.append("-");
    path.append(arch_name(arch));
    path.append("-");
    path.append(os_name(os));
    path.append(env_suffix(env));
    path.append(extension(os));
    path
}

} // verus!
