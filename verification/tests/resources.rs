use mac_k3d::prepare::resources::{
    agent_cores_instructions, check_path_from_parent, controller_label_instructions, disk_check_path, disk_min_gb,
    ensure_disk_min, logical_cpu_cores,
};
use mac_k3d::prepare::volumes::{
    df_available_bytes, format_bytes, order_by_free_space, suggested_base, VolumeCandidate, GB,
};
use mac_k3d::prepare::wizard::MacRole;
use mac_k3d::Error;

#[test]
fn logical_cpu_cores_nonzero() {
    assert!(logical_cpu_cores(Some("8\n"), Some("8\n")) >= 1);
    assert!(logical_cpu_cores(None, None) >= 1);
    assert!(logical_cpu_cores(Some("0"), None) >= 1);
}

#[test]
fn cpu_cores_from_sysctl() {
    assert_eq!(logical_cpu_cores(Some("10\n"), Some("8\n")), 10);
    assert_eq!(logical_cpu_cores(Some("oops"), Some("8\n")), 8);
    assert_eq!(logical_cpu_cores(None, Some("x")), 1);
    assert_eq!(logical_cpu_cores(Some("0\n"), Some("8\n")), 8);
    assert_eq!(logical_cpu_cores(Some("0"), None), 1);
    assert_eq!(logical_cpu_cores(Some("0"), Some("0")), 1);
}

#[test]
fn disk_minimums() {
    assert_eq!(disk_min_gb(MacRole::Standalone, 0), 40);
    assert_eq!(disk_min_gb(MacRole::Controller, 0), 60);
    assert_eq!(disk_min_gb(MacRole::Worker, 0), 100);
    assert_eq!(disk_min_gb(MacRole::Worker, 20), 20);
}

#[test]
fn disk_check() {
    assert!(ensure_disk_min("/data", 50 * GB, 40).is_ok());
    match ensure_disk_min("/data", 3 * GB / 2, 40) {
        Err(Error::Validation(m)) => {
            assert_eq!(m, "only 1.5 GB free at /data; need at least 40 GB")
        }
        _ => panic!(),
    }
    assert_eq!(disk_check_path("/data/x", true), "/data/x");
    assert_eq!(disk_check_path("/data/x", false), "/data");
    assert_eq!(disk_check_path("/", false), "/");
    assert_eq!(check_path_from_parent(Some("/Volumes".to_string())), "/Volumes");
    assert_eq!(check_path_from_parent(None), "/");
}

#[test]
fn bytes_for_people() {
    assert_eq!(format_bytes(0), "0 B");
    assert_eq!(format_bytes(1023), "1023 B");
    assert_eq!(format_bytes(1536), "1.5 KB");
    assert_eq!(format_bytes(5 * 1024 * 1024), "5.0 MB");
    assert_eq!(format_bytes(250 * GB + GB / 4), "250.2 GB");
}

#[test]
fn volumes_by_free_space() {
    let v = vec![
        VolumeCandidate { mount_point: "/".into(), available_bytes: 10, suggested_base: "a".into() },
        VolumeCandidate { mount_point: "/Volumes/X".into(), available_bytes: 30, suggested_base: "b".into() },
        VolumeCandidate { mount_point: "/Volumes/Y".into(), available_bytes: 20, suggested_base: "c".into() },
    ];
    let o = order_by_free_space(v);
    let free: Vec<u64> = o.iter().map(|x| x.available_bytes).collect();
    assert_eq!(free, vec![30, 20, 10]);
    assert_eq!(o[0].display_label(), "/Volumes/X (30 B free)");
    assert_eq!(suggested_base("/", Some("/Users/ci")), "/Users/ci/mac-k3d");
    assert_eq!(suggested_base("/Volumes/X", Some("/Users/ci")), "/Volumes/X/mac-k3d");
}

#[test]
fn df_output() {
    let out = "Filesystem 1024-blocks Used Available Capacity Mounted on\n/dev/disk3s5 971350180 500000 400000 56% /\n";
    assert_eq!(df_available_bytes(out), Some(400000 * 1024));
    assert_eq!(df_available_bytes("header only\n"), None);
    assert_eq!(df_available_bytes("h\na b c\n"), None);
}

#[test]
fn lockable_resources_instructions() {
    let c = controller_label_instructions("http://localhost:9080", "CPU_CORES");
    assert!(c.starts_with("\nOn the Jenkins controller (http://localhost:9080):\n1. Confirm"));
    assert!(c.contains("create capacity under label 'CPU_CORES'.\n"));
    let a = agent_cores_instructions("http://ctl:9080", "mac-b", "CPU_CORES", 10);
    assert!(a.contains("create Lockable Resources totaling 10 under label 'CPU_CORES' for agent 'mac-b'."));
    assert!(a.contains("Example: 10 resources named mac-b-core-{1..10} with labels 'CPU_CORES mac-b',"));
    assert!(a.contains("or one resource with quantity=10 if your plugin"));
    assert!(a.ends_with("Jobs should lock(label: 'CPU_CORES', quantity: N) for N cores.\n"));
}
