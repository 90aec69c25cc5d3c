pub mod error;
pub mod gpu;

use vstd::prelude::*;
use std::path::PathBuf;
use crate::system_info::error::SystemError;
use crate::system_info::gpu::{get_gpus, spec_gpu_names, GpuListing};
use crate::text::{utf8_lossy, views};

verus! {

/// `std::path::PathBuf`, carried through as an opaque value.
#[verifier::external_type_specification]
#[verifier::external_body]
pub struct ExPathBuf(std::path::PathBuf);

/// The path that `PathBuf::from` makes of a string.
pub uninterp spec fn path_of(s: Seq<char>) -> PathBuf;

/// The path made from a string by `PathBuf::from`: the contract names it
/// `path_of` of the string's characters (it is a function of them alone).
#[verifier::external_body]
fn path_from_str(s: &str) -> (p: PathBuf)
    ensures
        p == path_of(s@),
{
    PathBuf::from(s)
}

/// A description of the machine and of the session the engine runs in.
#[derive(Debug)]
pub struct SystemInfo {
    pub current_dir: PathBuf,
    pub home_dir: PathBuf,
    pub temp_dir: PathBuf,
    pub username: String,
    pub hostname: String,
    pub shell: String,
    pub os_arch: String,
    pub total_ram_kb: u64,
    pub used_ram_kb: u64,
    pub cpu_brand: String,
    pub cpu_cores: usize,
    pub gpu_names: Vec<String>,
}

/// What was read of the machine to describe it.
#[derive(Debug)]
pub struct SystemProbe {
    /// The current directory, or the error reading it.
    pub current_dir: Result<PathBuf, std::io::Error>,
    /// The directory for temporary files.
    pub temp_dir: PathBuf,
    /// The values of `HOME` and `USERPROFILE`, in this order, as paths.
    pub home_vars: Vec<Option<PathBuf>>,
    /// The values of `USER` and `USERNAME`, in this order.
    pub user_vars: Vec<Option<String>>,
    /// The values of `HOSTNAME` and `COMPUTERNAME`, in this order.
    pub host_vars: Vec<Option<String>>,
    /// The values of `SHELL` and `ComSpec`, in this order.
    pub shell_vars: Vec<Option<String>>,
    /// The name of the operating system.
    pub os: String,
    /// The name of the CPU architecture.
    pub arch: String,
    /// The total memory, as `sysinfo` reports it.
    pub total_memory: u64,
    /// The memory in use, as `sysinfo` reports it.
    pub used_memory: u64,
    /// The brand of each logical CPU.
    pub cpu_brands: Vec<String>,
    /// The output of the GPU-listing tool; `None` when none could be run.
    pub gpu_listing: Option<GpuListing>,
}

/// The first value that is set.
pub open spec fn first_set<T>(values: Seq<Option<T>>) -> Option<T>
    decreases values.len(),
{
    if values.len() == 0 {
        None
    } else if values[0] is Some {
        values[0]
    } else {
        first_set(values.drop_first())
    }
}

/// `v` is the value of the earliest of `values` that is set.
pub open spec fn is_first_set<T>(values: Seq<Option<T>>, v: T) -> bool {
    exists|k: int|
        0 <= k < values.len() && #[trigger] values[k] == Some(v) && forall|j: int|
            0 <= j < k ==> (#[trigger] values[j]) is None
}

/// `name` is the value of the earliest of `values` that is set, or `default`
/// when none is set.
pub open spec fn first_set_or(values: Seq<Option<String>>, name: Seq<char>, default: Seq<char>) -> bool {
    ||| exists|v: String| #[trigger] is_first_set(values, v) && name == v@
    ||| (forall|j: int| 0 <= j < values.len() ==> (#[trigger] values[j]) is None) && name == default
}

/// Of several variables read in order, the first one that is set gives the
/// value: `first_set` is the value of the earliest one that is set (so a later
/// one never overrides it), and nothing only when none is set.
pub proof fn law_first_set<T>(values: Seq<Option<T>>)
    ensures
        first_set(values) is None <==> forall|j: int| 0 <= j < values.len() ==> (#[trigger] values[j]) is None,
        first_set(values) matches Some(v) ==> is_first_set(values, v),
        forall|v: T| #[trigger] is_first_set(values, v) ==> first_set(values) == Some(v),
    decreases values.len(),
{
    if values.len() == 0 {
    } else if values[0] is Some {
        let v0 = values[0]->0;
        assert(values[0] == Some(v0));
        assert(is_first_set(values, v0));
        assert forall|v: T| #[trigger] is_first_set(values, v) implies first_set(values) == Some(v) by {
            let k = choose|k: int|
                0 <= k < values.len() && #[trigger] values[k] == Some(v) && forall|j: int|
                    0 <= j < k ==> (#[trigger] values[j]) is None;
            if k > 0 {
                assert(values[0] is None);
            }
        }
    } else {
        let rest = values.drop_first();
        law_first_set(rest);
        assert forall|j: int| 1 <= j < values.len() implies values[j] == rest[j - 1] by {}
        if first_set(rest) is None {
            assert forall|j: int| 0 <= j < values.len() implies (#[trigger] values[j]) is None by {
                if j > 0 {
                    assert(rest[j - 1] is None);
                }
            }
        } else {
            let v = first_set(rest)->0;
            let k = choose|k: int|
                0 <= k < rest.len() && #[trigger] rest[k] == Some(v) && forall|j: int|
                    0 <= j < k ==> (#[trigger] rest[j]) is None;
            assert(values[k + 1] == Some(v));
            assert forall|j: int| 0 <= j < k + 1 implies (#[trigger] values[j]) is None by {
                if j > 0 {
                    assert(rest[j - 1] is None);
                }
            }
            assert(is_first_set(values, v));
            assert(!(forall|j: int| 0 <= j < values.len() ==> (#[trigger] values[j]) is None)) by {
                assert(values[k + 1] is Some);
            }
        }
        assert forall|v: T| #[trigger] is_first_set(values, v) implies first_set(values) == Some(v) by {
            let k = choose|k: int|
                0 <= k < values.len() && #[trigger] values[k] == Some(v) && forall|j: int|
                    0 <= j < k ==> (#[trigger] values[j]) is None;
            assert(k > 0);
            assert(rest[k - 1] == Some(v));
            assert forall|j: int| 0 <= j < k - 1 implies (#[trigger] rest[j]) is None by {
                assert(values[j + 1] is None);
            }
            assert(is_first_set(rest, v));
        }
    }
}

/// The value of the first of several environment variables that is set,
/// given their values in order; a `MissingEnv` error with `label` when none is.
pub fn get_env_any<T>(values: Vec<Option<T>>, label: &'static str) -> (r: Result<T, SystemError>)
    ensures
        r is Ok <==> first_set(values@) is Some,
        r matches Ok(x) ==> first_set(values@) == Some(x),
        r matches Err(e) ==> e == SystemError::MissingEnv(label),
{
    let ghost all = values@;
    let mut rest = values;
    while rest.len() > 0
        invariant
            all == values@,
            first_set(all) == first_set(rest@),
        decreases rest@.len(),
    {
        let ghost before = rest@;
        let v = rest.remove(0);
        proof {
            assert(rest@ =~= before.drop_first());
        }
        match v {
            Some(x) => {
                return Ok(x);
            },
            None => {},
        }
    }
    Err(SystemError::MissingEnv(label))
}

} // verus!

verus! {

/// The error that describing the machine runs into, if any: the current
/// directory is read first, then the home directory, then the user name.
pub open spec fn probe_error(p: SystemProbe) -> Option<SystemError> {
    match p.current_dir {
        Err(e) => Some(SystemError::Io(e)),
        Ok(_) => if first_set(p.home_vars@) is None {
            Some(SystemError::MissingEnv("HOME/USERPROFILE"))
        } else if first_set(p.user_vars@) is None {
            Some(SystemError::MissingEnv("USER/USERNAME"))
        } else {
            None
        },
    }
}

/// A name read from the environment, or `default` when it is not set.
pub open spec fn name_or(value: Option<String>, default: Seq<char>) -> Seq<char> {
    match value {
        Some(v) => v@,
        None => default,
    }
}

/// The text that names the operating system and the architecture.
pub open spec fn spec_os_arch(os: Seq<char>, arch: Seq<char>) -> Seq<char> {
    os + " "@ + arch
}

/// The brand of the first CPU, or `unknown_cpu` when no CPU is listed.
pub open spec fn spec_cpu_brand(brands: Seq<String>) -> Seq<char> {
    if brands.len() > 0 {
        brands[0]@
    } else {
        "unknown_cpu"@
    }
}

/// The GPU names a probe lists.
pub open spec fn probe_gpu_names(p: SystemProbe) -> Seq<Seq<char>> {
    match p.gpu_listing {
        None => spec_gpu_names(None, Seq::empty()),
        Some(l) => spec_gpu_names(Some(l.tool), utf8_lossy(l.output@)),
    }
}

/// `info` describes the machine as the probe `p` found it (when `p` holds no error).
pub open spec fn describes(info: SystemInfo, p: SystemProbe) -> bool {
    &&& p.current_dir == Ok::<PathBuf, std::io::Error>(info.current_dir)
    &&& first_set(p.home_vars@) == Some(info.home_dir)
    &&& info.temp_dir == p.temp_dir
    &&& first_set(p.user_vars@) matches Some(u) && info.username@ == u@
    &&& info.hostname@ == name_or(first_set(p.host_vars@), "unknown_host"@)
    &&& info.shell@ == name_or(first_set(p.shell_vars@), "unknown_shell"@)
    &&& info.os_arch@ == spec_os_arch(p.os@, p.arch@)
    &&& info.total_ram_kb == p.total_memory
    &&& info.used_ram_kb == p.used_memory
    &&& info.cpu_brand@ == spec_cpu_brand(p.cpu_brands@)
    &&& info.cpu_cores == p.cpu_brands@.len()
    &&& views(info.gpu_names@) == probe_gpu_names(p)
}

/// A description takes each name from the first of its variables that is set:
/// the home directory from `HOME`, else `USERPROFILE`; the user name from
/// `USER`, else `USERNAME`; the host name from `HOSTNAME`, else
/// `COMPUTERNAME`, else `unknown_host`; the shell from `SHELL`, else
/// `ComSpec`, else `unknown_shell`.
pub proof fn law_describes_first_set(info: SystemInfo, p: SystemProbe)
    requires
        describes(info, p),
    ensures
        is_first_set(p.home_vars@, info.home_dir),
        exists|u: String| #[trigger] is_first_set(p.user_vars@, u) && info.username@ == u@,
        first_set_or(p.host_vars@, info.hostname@, "unknown_host"@),
        first_set_or(p.shell_vars@, info.shell@, "unknown_shell"@),
{
    law_first_set(p.home_vars@);
    law_first_set(p.user_vars@);
    law_first_set(p.host_vars@);
    law_first_set(p.shell_vars@);
    let u = first_set(p.user_vars@)->0;
    assert(is_first_set(p.user_vars@, u));
    if first_set(p.host_vars@) is Some {
        assert(is_first_set(p.host_vars@, first_set(p.host_vars@)->0));
    }
    if first_set(p.shell_vars@) is Some {
        assert(is_first_set(p.shell_vars@, first_set(p.shell_vars@)->0));
    }
}

/// `info` is the stand-in description used when the machine could not be described.
pub open spec fn is_fallback(info: SystemInfo, temp_dir: PathBuf, os_arch: Seq<char>) -> bool {
    &&& info.current_dir == path_of("."@)
    &&& info.home_dir == path_of(""@)
    &&& info.temp_dir == temp_dir
    &&& info.username@ == "unknown_user"@
    &&& info.hostname@ == "unknown_host"@
    &&& info.shell@ == "unknown_shell"@
    &&& info.os_arch@ == os_arch
    &&& info.total_ram_kb == 0
    &&& info.used_ram_kb == 0
    &&& info.cpu_brand@ == "unknown_cpu"@
    &&& info.cpu_cores == 0
    &&& views(info.gpu_names@) == seq!["unknown"@]
}

/// The parts of a probe that the stand-in description keeps.
struct FallbackParts {
    temp_dir: PathBuf,
    os_arch: String,
}

impl SystemInfo {
    /// Describe the machine from what was read of it; on error, hand back what
    /// the stand-in description needs.
    fn build(probe: SystemProbe) -> (r: Result<SystemInfo, (SystemError, FallbackParts)>)
        ensures
            r is Err <==> probe_error(probe) is Some,
            r matches Err((e, parts)) ==> probe_error(probe) == Some(e) && parts.temp_dir == probe.temp_dir
                && parts.os_arch@ == spec_os_arch(probe.os@, probe.arch@),
            r matches Ok(info) ==> describes(info, probe),
    {
        let ghost p = probe;
        let SystemProbe {
            current_dir,
            temp_dir,
            home_vars,
            user_vars,
            host_vars,
            shell_vars,
            os,
            arch,
            total_memory,
            used_memory,
            cpu_brands,
            gpu_listing,
        } = probe;
        let total_ram_kb = total_memory;
        let used_ram_kb = used_memory;
        let os_arch = os.concat(" ").concat(arch.as_str());
        let current_dir = match current_dir {
            Ok(d) => d,
            Err(e) => return Err((SystemError::Io(e), FallbackParts { temp_dir, os_arch })),
        };
        let home_dir = match get_env_any(home_vars, "HOME/USERPROFILE") {
            Ok(h) => h,
            Err(e) => return Err((e, FallbackParts { temp_dir, os_arch })),
        };
        let username = match get_env_any(user_vars, "USER/USERNAME") {
            Ok(u) => u,
            Err(e) => return Err((e, FallbackParts { temp_dir, os_arch })),
        };
        let hostname = match get_env_any(host_vars, "HOSTNAME/COMPUTERNAME") {
            Ok(h) => h,
            Err(_) => String::from_str("unknown_host"),
        };
        let shell = match get_env_any(shell_vars, "SHELL/ComSpec") {
            Ok(s) => s,
            Err(_) => String::from_str("unknown_shell"),
        };
        let cpu_brand = if cpu_brands.len() > 0 {
            cpu_brands[0].clone()
        } else {
            String::from_str("unknown_cpu")
        };
        let cpu_cores = cpu_brands.len();
        let gpu_names = get_gpus(gpu_listing);
        Ok(SystemInfo {
            current_dir,
            home_dir,
            temp_dir,
            username,
            hostname,
            shell,
            os_arch,
            total_ram_kb,
            used_ram_kb,
            cpu_brand,
            cpu_cores,
            gpu_names,
        })
    }

    /// Describe the machine from what was read of it. Fails when the current
    /// directory cannot be read, or when neither `HOME` nor `USERPROFILE`, or
    /// neither `USER` nor `USERNAME`, is set.
    pub fn try_new(probe: SystemProbe) -> (r: Result<SystemInfo, SystemError>)
        ensures
            r is Err <==> probe_error(probe) is Some,
            r matches Err(e) ==> probe_error(probe) == Some(e),
            r matches Ok(info) ==> describes(info, probe),
            r matches Ok(info) ==> is_first_set(probe.home_vars@, info.home_dir),
            r matches Ok(info) ==> exists|u: String| #[trigger] is_first_set(probe.user_vars@, u) && info.username@ == u@,
            r matches Ok(info) ==> first_set_or(probe.host_vars@, info.hostname@, "unknown_host"@),
            r matches Ok(info) ==> first_set_or(probe.shell_vars@, info.shell@, "unknown_shell"@),
    {
        match Self::build(probe) {
            Ok(info) => {
                proof {
                    law_describes_first_set(info, probe);
                }
                Ok(info)
            },
            Err((e, _)) => Err(e),
        }
    }

    /// The stand-in description used when the machine cannot be described:
    /// `.` as the current directory, an empty home directory (the path of the
    /// empty string, which is the one `PathBuf::new` makes) and unknown names.
    pub fn fallback(temp_dir: PathBuf, os_arch: String) -> (info: SystemInfo)
        ensures
            is_fallback(info, temp_dir, os_arch@),
    {
        let mut gpu_names = Vec::new();
        gpu_names.push(String::from_str("unknown"));
        proof {
            assert(views(gpu_names@) =~= seq!["unknown"@]);
        }
        SystemInfo {
            current_dir: path_from_str("."),
            home_dir: path_from_str(""),
            temp_dir,
            username: String::from_str("unknown_user"),
            hostname: String::from_str("unknown_host"),
            shell: String::from_str("unknown_shell"),
            os_arch,
            total_ram_kb: 0,
            used_ram_kb: 0,
            cpu_brand: String::from_str("unknown_cpu"),
            cpu_cores: 0,
            gpu_names,
        }
    }

    /// Describe the machine; never fails: when the description cannot be made,
    /// the stand-in description is returned instead.
    pub fn new(probe: SystemProbe) -> (info: SystemInfo)
        ensures
            probe_error(probe) is None ==> describes(info, probe),
            probe_error(probe) is None ==> is_first_set(probe.home_vars@, info.home_dir),
            probe_error(probe) is None ==> exists|u: String| #[trigger] is_first_set(probe.user_vars@, u) && info.username@ == u@,
            probe_error(probe) is None ==> first_set_or(probe.host_vars@, info.hostname@, "unknown_host"@),
            probe_error(probe) is None ==> first_set_or(probe.shell_vars@, info.shell@, "unknown_shell"@),
            probe_error(probe) is Some ==> is_fallback(info, probe.temp_dir, spec_os_arch(probe.os@, probe.arch@)),
    {
        match Self::build(probe) {
            Ok(info) => {
                proof {
                    law_describes_first_set(info, probe);
                }
                info
            },
            Err((_, parts)) => Self::fallback(parts.temp_dir, parts.os_arch),
        }
    }
}

} // verus!
