use std::path::PathBuf;
use vers::system_info::error::{io_message, SystemError};
use vers::system_info::gpu::{get_gpus, GpuListing, GpuTool};
use vers::system_info::{get_env_any, SystemInfo, SystemProbe};

fn listing(tool: GpuTool, output: &str) -> Option<GpuListing> {
    Some(GpuListing { tool, output: output.as_bytes().to_vec() })
}

#[test]
fn lspci_lists_vga_and_3d_controllers() {
    let out = "00:00.0 Host bridge [0600]: Intel Corporation Device [8086:9b61]\n\
               00:02.0 VGA compatible controller [0300]: Intel Corporation UHD Graphics [8086:9b41] (rev 02)\n\
               01:00.0 3D controller [0302]: NVIDIA Corporation TU117M [10de:1f9d] (rev a1)  \n\
               00:1f.3 Audio device [0403]: Intel Corporation Comet Lake PCH-LP cAVS\n";
    assert_eq!(
        get_gpus(listing(GpuTool::Lspci, out)),
        vec![
            "Intel Corporation UHD Graphics [8086:9b41] (rev 02)".to_string(),
            "NVIDIA Corporation TU117M [10de:1f9d] (rev a1)".to_string(),
        ]
    );
}

#[test]
fn lspci_without_gpu_is_unknown() {
    assert_eq!(get_gpus(listing(GpuTool::Lspci, "00:1f.3 Audio device: Intel\n")), vec!["unknown".to_string()]);
    assert_eq!(get_gpus(listing(GpuTool::Lspci, "")), vec!["unknown".to_string()]);
    // A VGA line without ": " names nothing.
    assert_eq!(get_gpus(listing(GpuTool::Lspci, "VGA device without separator")), vec!["unknown".to_string()]);
}

#[test]
fn listing_bytes_are_decoded_lossily() {
    let mut out = b"01:00.0 VGA compatible controller: Radeon \xff RX\n".to_vec();
    out.extend_from_slice(b"00:1f.3 Audio device: Intel\n");
    let listing = Some(GpuListing { tool: GpuTool::Lspci, output: out });
    assert_eq!(get_gpus(listing), vec!["Radeon \u{fffd} RX".to_string()]);
}

#[test]
fn no_listing_is_unknown() {
    assert_eq!(get_gpus(None), vec!["unknown".to_string()]);
}

#[test]
fn video_controllers_skip_header() {
    let out = "\r\nName\r\n----\r\nNVIDIA GeForce RTX 3060  \r\n\r\nIntel(R) UHD Graphics 630\r\n";
    // The first two lines (an empty line and the header) are skipped, as is the rule after them only when it is trimmed away.
    let expected: Vec<String> = out.lines().skip(2).map(|l| l.trim().to_string()).filter(|l| !l.is_empty()).collect();
    assert_eq!(get_gpus(listing(GpuTool::VideoControllers, out)), expected);
    assert_eq!(get_gpus(listing(GpuTool::VideoControllers, "Name\n")), Vec::<String>::new());
}

#[test]
fn system_profiler_reads_chipset_models() {
    let out = "Graphics/Displays:\n\n    Apple M1:\n\n      Chipset Model: Apple M1\n      Type: GPU\n      Chipset Model:  AMD Radeon Pro 5500M \n";
    assert_eq!(
        get_gpus(listing(GpuTool::SystemProfiler, out)),
        vec!["Apple M1".to_string(), "AMD Radeon Pro 5500M".to_string()]
    );
    assert_eq!(get_gpus(listing(GpuTool::SystemProfiler, "Type: GPU\n")), Vec::<String>::new());
}

#[test]
fn get_env_any_takes_first_set_value() {
    let r = get_env_any(vec![None, Some("bob".to_string())], "USER/USERNAME");
    assert_eq!(r.unwrap(), "bob");
    let r = get_env_any(vec![Some("a".to_string()), Some("b".to_string())], "X");
    assert_eq!(r.unwrap(), "a");
    match get_env_any::<String>(vec![None, None], "HOME/USERPROFILE") {
        Err(SystemError::MissingEnv(label)) => assert_eq!(label, "HOME/USERPROFILE"),
        other => panic!("unexpected {:?}", other),
    }
}

fn probe() -> SystemProbe {
    SystemProbe {
        current_dir: Ok(PathBuf::from("/work")),
        temp_dir: PathBuf::from("/tmp"),
        home_vars: vec![None, Some(PathBuf::from("C:/Users/bob"))],
        user_vars: vec![Some("bob".to_string()), None],
        host_vars: vec![None, None],
        shell_vars: vec![Some("/bin/zsh".to_string()), None],
        os: "linux".to_string(),
        arch: "x86_64".to_string(),
        total_memory: 1000,
        used_memory: 250,
        cpu_brands: vec!["AMD Ryzen".to_string(), "AMD Ryzen".to_string()],
        gpu_listing: None,
    }
}

#[test]
fn try_new_describes_machine() {
    let info = SystemInfo::try_new(probe()).unwrap();
    assert_eq!(info.current_dir, PathBuf::from("/work"));
    assert_eq!(info.home_dir, PathBuf::from("C:/Users/bob"));
    assert_eq!(info.temp_dir, PathBuf::from("/tmp"));
    assert_eq!(info.username, "bob");
    assert_eq!(info.hostname, "unknown_host");
    assert_eq!(info.shell, "/bin/zsh");
    assert_eq!(info.os_arch, "linux x86_64");
    assert_eq!(info.total_ram_kb, 1000);
    assert_eq!(info.used_ram_kb, 250);
    assert_eq!(info.cpu_brand, "AMD Ryzen");
    assert_eq!(info.cpu_cores, 2);
    assert_eq!(info.gpu_names, vec!["unknown".to_string()]);
}

#[test]
fn try_new_without_cpus_or_shell() {
    let mut p = probe();
    p.cpu_brands = Vec::new();
    p.shell_vars = vec![None, None];
    p.host_vars = vec![Some("box".to_string()), Some("other".to_string())];
    let info = SystemInfo::try_new(p).unwrap();
    assert_eq!(info.cpu_brand, "unknown_cpu");
    assert_eq!(info.cpu_cores, 0);
    assert_eq!(info.shell, "unknown_shell");
    assert_eq!(info.hostname, "box");
}

#[test]
fn try_new_errors_in_order() {
    let mut p = probe();
    p.current_dir = Err(std::io::Error::new(std::io::ErrorKind::NotFound, "gone"));
    p.home_vars = vec![None, None];
    match SystemInfo::try_new(p) {
        Err(SystemError::Io(e)) => assert_eq!(e.kind(), std::io::ErrorKind::NotFound),
        other => panic!("unexpected {:?}", other),
    }
    let mut p = probe();
    p.home_vars = vec![None, None];
    p.user_vars = vec![None, None];
    match SystemInfo::try_new(p) {
        Err(SystemError::MissingEnv(label)) => assert_eq!(label, "HOME/USERPROFILE"),
        other => panic!("unexpected {:?}", other),
    }
    let mut p = probe();
    p.user_vars = vec![None, None];
    match SystemInfo::try_new(p) {
        Err(SystemError::MissingEnv(label)) => assert_eq!(label, "USER/USERNAME"),
        other => panic!("unexpected {:?}", other),
    }
}

#[test]
fn new_falls_back_on_error() {
    let mut p = probe();
    p.user_vars = vec![None, None];
    let info = SystemInfo::new(p);
    assert_eq!(info.current_dir, PathBuf::from("."));
    assert_eq!(info.home_dir, PathBuf::new());
    assert_eq!(info.temp_dir, PathBuf::from("/tmp"));
    assert_eq!(info.username, "unknown_user");
    assert_eq!(info.hostname, "unknown_host");
    assert_eq!(info.shell, "unknown_shell");
    assert_eq!(info.os_arch, "linux x86_64");
    assert_eq!(info.total_ram_kb, 0);
    assert_eq!(info.used_ram_kb, 0);
    assert_eq!(info.cpu_brand, "unknown_cpu");
    assert_eq!(info.cpu_cores, 0);
    assert_eq!(info.gpu_names, vec!["unknown".to_string()]);
}

#[test]
fn new_matches_try_new_on_success() {
    let info = SystemInfo::new(probe());
    assert_eq!(info.username, "bob");
    assert_eq!(info.current_dir, PathBuf::from("/work"));
}

#[test]
fn fallback_values() {
    let info = SystemInfo::fallback(PathBuf::from("/t"), "macos aarch64".to_string());
    assert_eq!(info.current_dir, PathBuf::from("."));
    assert_eq!(info.os_arch, "macos aarch64");
    assert_eq!(info.gpu_names, vec!["unknown".to_string()]);
}

#[test]
fn system_error_messages() {
    assert_eq!(SystemError::MissingEnv("USER/USERNAME").message(), "Missing environment variable: USER/USERNAME");
    let e: SystemError = std::io::Error::new(std::io::ErrorKind::Other, "disk on fire").into();
    assert_eq!(e.message(), "IO error: disk on fire");
    assert_eq!(io_message("x"), "IO error: x");
}
