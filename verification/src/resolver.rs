//! Toolchain resolution: from a target triple, an API level and the NDK
//! root, compute the compiler, archiver and stripper paths inside the
//! NDK, and the environment assignments that redirect cargo's compiler,
//! linker and runner selection to them.

use vstd::prelude::*;
use vstd::string::StrSliceExecFns;
use vstd::string::StringExecFns;
use crate::RunError;
use crate::text::all_digits;
use crate::text::dec_digits;
use crate::text::dec_val;
use crate::text::fmt_usize;
use crate::text::parse_usize;
use crate::text::snake_upper;
use crate::text::str_eq;
use crate::text::str_starts_with;
use crate::text::clone_strings;
use crate::text::upper_snake;

verus! {

/// The lowest API level the clamping variant accepts.
pub const API_FLOOR: usize = 19;

/// The API level used when the command line names none.
pub const API_DEFAULT: usize = 28;

/// The triple contains at least one component separator.
pub open spec fn has_sep(s: Seq<char>) -> bool {
    exists|i: int| 0 <= i < s.len() && s[i] == '-'
}

/// Position of the first component separator of the triple.
pub open spec fn sep_pos(s: Seq<char>) -> int
    decreases s.len(),
{
    if s.len() == 0 {
        0
    } else if s[0] == '-' {
        0
    } else {
        1 + sep_pos(s.drop_first())
    }
}

/// The architecture component of a target triple: everything before the
/// first separator.
pub open spec fn arch_of(s: Seq<char>) -> Seq<char> {
    s.take(sep_pos(s))
}

proof fn lemma_sep_pos(s: Seq<char>, i: int)
    requires
        0 <= i < s.len(),
        s[i] == '-',
        forall|j: int| 0 <= j < i ==> s[j] != '-',
    ensures
        sep_pos(s) == i,
    decreases i,
{
    if i > 0 {
        assert(s.drop_first()[i - 1] == s[i]);
        assert(forall|j: int| 0 <= j < i - 1 ==> s.drop_first()[j] == s[j + 1]);
        lemma_sep_pos(s.drop_first(), i - 1);
    }
}

fn find_sep(s: &str) -> (r: Option<usize>)
    ensures
        match r {
            Some(i) => i < s@.len() && s@[i as int] == '-' && sep_pos(s@) == i && (forall|j: int|
                0 <= j < i ==> s@[j] != '-'),
            None => !has_sep(s@),
        },
{
    let n = s.unicode_len();
    let mut i: usize = 0;
    while i < n
        invariant
            i <= n,
            n == s@.len(),
            forall|j: int| 0 <= j < i ==> s@[j] != '-',
        decreases n - i,
    {
        if s.get_char(i) == '-' {
            proof {
                lemma_sep_pos(s@, i as int);
            }
            return Some(i);
        }
        i = i + 1;
    }
    None
}

/// The host OS directory name inside the NDK: the one alias `macos`
/// maps to the `darwin` naming convention.
pub open spec fn os_dir(os: Seq<char>) -> Seq<char> {
    if os == "macos"@ {
        "darwin"@
    } else {
        os
    }
}

/// The `bin` directory of the prebuilt LLVM toolchain for the given host.
pub open spec fn toolchain_bin(ndk: Seq<char>, host_os: Seq<char>, host_arch: Seq<char>) -> Seq<
    char,
> {
    ndk + "/toolchains/llvm/prebuilt/"@ + os_dir(host_os) + "-"@ + host_arch + "/bin/"@
}

/// The clang file-name prefix for a target architecture: the `armv7`
/// alias becomes the `armv7a` eabi spelling, every other architecture is
/// used as written.
pub open spec fn clang_prefix(arch: Seq<char>) -> Seq<char> {
    if arch == "armv7"@ {
        "armv7a-linux-androideabi"@
    } else {
        arch + "-linux-android"@
    }
}

/// The clang path for the target of `target_arch` at `api`, without the
/// final `-clang`/`-clang++` suffix.
pub open spec fn clang_stem(
    ndk: Seq<char>,
    host_os: Seq<char>,
    host_arch: Seq<char>,
    target_arch: Seq<char>,
    api: nat,
) -> Seq<char> {
    toolchain_bin(ndk, host_os, host_arch) + clang_prefix(target_arch) + dec_digits(api)
}

/// The four file paths of one resolved toolchain.
pub struct Toolchain {
    /// C compiler.
    pub cc: String,
    /// C++ compiler.
    pub cxx: String,
    /// Archiver.
    pub ar: String,
    /// Stripper.
    pub strip: String,
}

/// Clamps an API level to the supported floor.
pub fn clamp_api(api: usize) -> (r: usize)
    ensures
        r == (if api < 19 {
            19 as usize
        } else {
            api
        }),
{
    if api < API_FLOOR {
        API_FLOOR
    } else {
        api
    }
}

/// Picks the SDK root from the recognized environment variables, in
/// order of priority.
pub fn ndk(a: Option<String>, b: Option<String>, c: Option<String>) -> (r: Result<
    String,
    RunError,
>)
    ensures
        match r {
            Ok(v) => Some(v) == (if a is Some {
                a
            } else if b is Some {
                b
            } else {
                c
            }),
            Err(e) => e == RunError::MissingSdkRoot && a is None && b is None && c is None,
        },
{
    match a {
        Some(v) => Ok(v),
        None => match b {
            Some(v) => Ok(v),
            None => match c {
                Some(v) => Ok(v),
                None => Err(RunError::MissingSdkRoot),
            },
        },
    }
}

/// Resolves the four toolchain paths for `target` at `api`, given the
/// NDK root and the host's OS and architecture names.
pub fn toolchain(target: &str, api: usize, ndk_root: &str, host_os: &str, host_arch: &str) -> (r:
    Result<Toolchain, RunError>)
    ensures
        match r {
            Ok(t) => has_sep(target@) && t.cc@ == clang_stem(
                ndk_root@,
                host_os@,
                host_arch@,
                arch_of(target@),
                api as nat,
            ) + "-clang"@ && t.cxx@ == clang_stem(
                ndk_root@,
                host_os@,
                host_arch@,
                arch_of(target@),
                api as nat,
            ) + "-clang++"@ && t.ar@ == toolchain_bin(ndk_root@, host_os@, host_arch@)
                + "llvm-ar"@ && t.strip@ == toolchain_bin(ndk_root@, host_os@, host_arch@)
                + "llvm-strip"@,
            Err(e) => e == RunError::MalformedTarget && !has_sep(target@),
        },
{
    let sep = match find_sep(target) {
        Some(i) => i,
        None => {
            return Err(RunError::MalformedTarget);
        },
    };
    let arch = target.substring_char(0, sep).to_owned();
    let mut bin = ndk_root.to_owned();
    bin.append("/toolchains/llvm/prebuilt/");
    if str_eq(host_os, "macos") {
        bin.append("darwin");
    } else {
        bin.append(host_os);
    }
    bin.append("-");
    bin.append(host_arch);
    bin.append("/bin/");
    proof {
        assert(bin@ =~= toolchain_bin(ndk_root@, host_os@, host_arch@));
    }
    let api_digits = fmt_usize(api);
    let mut stem = bin.clone();
    if str_eq(arch.as_str(), "armv7") {
        stem.append("armv7a-linux-androideabi");
    } else {
        stem.append(arch.as_str());
        stem.append("-linux-android");
    }
    stem.append(api_digits.as_str());
    proof {
        assert(stem@ =~= clang_stem(
            ndk_root@,
            host_os@,
            host_arch@,
            arch_of(target@),
            api as nat,
        ));
    }
    let mut cc = stem.clone();
    cc.append("-clang");
    let mut cxx = stem;
    cxx.append("-clang++");
    let mut ar = bin.clone();
    ar.append("llvm-ar");
    let mut strip = bin;
    strip.append("llvm-strip");
    Ok(Toolchain { cc, cxx, ar, strip })
}

/// Name of the cargo linker-override variable for a target triple.
pub open spec fn linker_var(s: Seq<char>) -> Seq<char> {
    "CARGO_TARGET_"@ + upper_snake(s) + "_LINKER"@
}

/// Name of the cargo runner-override variable for a target triple.
pub open spec fn runner_var(s: Seq<char>) -> Seq<char> {
    "CARGO_TARGET_"@ + upper_snake(s) + "_RUNNER"@
}

/// Builds the linker-override variable name for `s`.
pub fn linker(s: &str) -> (r: String)
    ensures
        r@ == linker_var(s@),
{
    let mut r = "CARGO_TARGET_".to_owned();
    let up = snake_upper(s);
    r.append(up.as_str());
    r.append("_LINKER");
    r
}

/// Builds the runner-override variable name for `s`.
pub fn runner(s: &str) -> (r: String)
    ensures
        r@ == runner_var(s@),
{
    let mut r = "CARGO_TARGET_".to_owned();
    let up = snake_upper(s);
    r.append(up.as_str());
    r.append("_RUNNER");
    r
}

/// Name of the C compiler override variable for a target triple.
pub open spec fn cc_var(s: Seq<char>) -> Seq<char> {
    "CC_"@ + s
}

/// Name of the C++ compiler override variable for a target triple.
pub open spec fn cxx_var(s: Seq<char>) -> Seq<char> {
    "CXX_"@ + s
}

/// Name of the archiver override variable for a target triple.
pub open spec fn ar_var(s: Seq<char>) -> Seq<char> {
    "AR_"@ + s
}

/// The six environment assignments produced for `target` at `api`: the
/// build target selection, then the linker, runner, C compiler, C++
/// compiler and archiver overrides, in that order.
pub open spec fn envs_match(
    v: Seq<(String, String)>,
    target: Seq<char>,
    api: nat,
    ndk_root: Seq<char>,
    host_os: Seq<char>,
    host_arch: Seq<char>,
) -> bool {
    let stem = clang_stem(ndk_root, host_os, host_arch, arch_of(target), api);
    &&& v.len() == 6
    &&& v[0].0@ == "CARGO_BUILD_TARGET"@ && v[0].1@ == target
    &&& v[1].0@ == linker_var(target) && v[1].1@ == stem + "-clang"@
    &&& v[2].0@ == runner_var(target) && v[2].1@ == "cargo-ndk-run"@
    &&& v[3].0@ == cc_var(target) && v[3].1@ == stem + "-clang"@
    &&& v[4].0@ == cxx_var(target) && v[4].1@ == stem + "-clang++"@
    &&& v[5].0@ == ar_var(target) && v[5].1@ == toolchain_bin(ndk_root, host_os, host_arch)
        + "llvm-ar"@
}

/// Produces the environment assignments that redirect cargo's build
/// target, linker, runner, compilers and archiver for `target` at `api`.
pub fn envs(target: &str, api: usize, ndk_root: &str, host_os: &str, host_arch: &str) -> (r: Result<
    Vec<(String, String)>,
    RunError,
>)
    ensures
        match r {
            Ok(v) => has_sep(target@) && envs_match(
                v@,
                target@,
                api as nat,
                ndk_root@,
                host_os@,
                host_arch@,
            ),
            Err(e) => e == RunError::MalformedTarget && !has_sep(target@),
        },
{
    let t = match toolchain(target, api, ndk_root, host_os, host_arch) {
        Ok(t) => t,
        Err(e) => {
            return Err(e);
        },
    };
    let mut v: Vec<(String, String)> = Vec::new();
    v.push(("CARGO_BUILD_TARGET".to_owned(), target.to_owned()));
    v.push((linker(target), t.cc.clone()));
    v.push((runner(target), "cargo-ndk-run".to_owned()));
    let mut cc_name = "CC_".to_owned();
    cc_name.append(target);
    v.push((cc_name, t.cc));
    let mut cxx_name = "CXX_".to_owned();
    cxx_name.append(target);
    v.push((cxx_name, t.cxx));
    let mut ar_name = "AR_".to_owned();
    ar_name.append(target);
    v.push((ar_name, t.ar));
    Ok(v)
}

/// The first command-line argument names an API level explicitly.
pub open spec fn names_api(first: Seq<char>) -> bool {
    first.len() >= 4 && first.take(4) == "api="@
}

/// Splits the resolver's command line into the API level and the
/// arguments to forward to cargo: a leading `api=N` argument names the
/// level, otherwise the default level is used and nothing is consumed.
pub fn process_args(args: &Vec<String>) -> (r: Option<(usize, Vec<String>)>)
    requires
        args@.len() > 0,
    ensures
        ({
            let first = args@[0]@;
            if names_api(first) {
                match r {
                    Some(v) => first.skip(4).len() > 0 && all_digits(first.skip(4)) && v.0
                        == dec_val(first.skip(4)) && v.1@ == args@.skip(1),
                    None => !(first.skip(4).len() > 0 && all_digits(first.skip(4)) && dec_val(
                        first.skip(4),
                    ) <= usize::MAX),
                }
            } else {
                match r {
                    Some(v) => v.0 == 28 && v.1@ == args@,
                    None => false,
                }
            }
        }),
{
    let first = &args[0];
    proof {
        reveal_strlit("api=");
    }
    if str_starts_with(first.as_str(), "api=") {
        let n = first.as_str().unicode_len();
        let suffix = first.as_str().substring_char(4, n);
        proof {
            assert(suffix@ =~= args@[0]@.skip(4));
        }
        match parse_usize(suffix) {
            Some(api) => Some((api, clone_strings(args, 1))),
            None => None,
        }
    } else {
        Some((API_DEFAULT, clone_strings(args, 0)))
    }
}

/// Relies on which::which: the result is `Ok` exactly when the named
/// binary was found through the execution path; whether `adb` is there
/// depends on the environment, so nothing is promised of the answer.
#[verifier::external_body]
pub fn adb() -> bool {
    which::which("adb").is_ok()
}

/// Relies on target::os: the operating system this binary was compiled
/// for; the value depends on the machine, so nothing is promised of it.
#[verifier::external_body]
pub fn host_os() -> String {
    target::os().to_owned()
}

/// Relies on target::arch: the processor architecture this binary was
/// compiled for; the value depends on the machine, so nothing is
/// promised of it.
#[verifier::external_body]
pub fn host_arch() -> String {
    target::arch().to_owned()
}

/// Produces the environment assignments for `target` at `api` on the
/// machine at hand, reading the host's OS and architecture names from
/// the compile-time target description.
pub fn envs_for_host(target: &str, api: usize, ndk_root: &str) -> (r: Result<
    Vec<(String, String)>,
    RunError,
>)
    ensures
        match r {
            Ok(v) => has_sep(target@) && exists|os: Seq<char>, arch: Seq<char>|
                envs_match(v@, target@, api as nat, ndk_root@, os, arch),
            Err(e) => e == RunError::MalformedTarget && !has_sep(target@),
        },
{
    let os = host_os();
    let arch = host_arch();
    let r = envs(target, api, ndk_root, os.as_str(), arch.as_str());
    proof {
        if r is Ok {
            assert(envs_match(r->Ok_0@, target@, api as nat, ndk_root@, os@, arch@));
        }
    }
    r
}

} // verus!
