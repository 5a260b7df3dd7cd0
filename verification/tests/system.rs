use pocket_coffer::system::disk_usage;
use pocket_coffer::system::get_system_info;
use pocket_coffer::system::name_or_unknown;
use pocket_coffer::system::DiskSpace;
use pocket_coffer::system::HostProbe;
use pocket_coffer::system::SystemInfo;

fn probe() -> HostProbe {
    HostProbe {
        os_name: Some("Linux".to_string()),
        os_version: Some("6.1".to_string()),
        kernel_version: Some("6.1.0-13".to_string()),
        hostname: Some("vault".to_string()),
        cpu_brands: vec!["Fast CPU".to_string(), "Slow CPU".to_string()],
        total_memory: 16_000,
        used_memory: 4_000,
        disks: vec![
            DiskSpace { total: 1_000, available: 400 },
            DiskSpace { total: 500, available: 100 },
        ],
    }
}

#[test]
fn report_is_put_together_from_the_probe() {
    assert_eq!(
        get_system_info(probe()),
        Ok(SystemInfo {
            os_name: "Linux".to_string(),
            os_version: "6.1".to_string(),
            kernel_version: "6.1.0-13".to_string(),
            hostname: "vault".to_string(),
            cpu_name: "Fast CPU".to_string(),
            cpu_cores: 2,
            total_memory: 16_000,
            used_memory: 4_000,
            total_disk: 1_500,
            used_disk: 1_000,
        })
    );
}

#[test]
fn missing_names_are_unknown() {
    let empty = HostProbe {
        os_name: None,
        os_version: None,
        kernel_version: None,
        hostname: None,
        cpu_brands: Vec::new(),
        total_memory: 0,
        used_memory: 0,
        disks: Vec::new(),
    };
    assert_eq!(
        get_system_info(empty),
        Ok(SystemInfo {
            os_name: "Unknown".to_string(),
            os_version: "Unknown".to_string(),
            kernel_version: "Unknown".to_string(),
            hostname: "Unknown".to_string(),
            cpu_name: "Unknown".to_string(),
            cpu_cores: 0,
            total_memory: 0,
            used_memory: 0,
            total_disk: 0,
            used_disk: 0,
        })
    );
}

#[test]
fn one_missing_name_leaves_the_others() {
    let mut p = probe();
    p.hostname = None;
    let info = get_system_info(p).unwrap();
    assert_eq!(info.hostname, "Unknown");
    assert_eq!(info.os_name, "Linux");
}

#[test]
fn an_empty_name_is_kept() {
    assert_eq!(name_or_unknown(Some(String::new())), "");
    assert_eq!(name_or_unknown(Some("x".to_string())), "x");
    assert_eq!(name_or_unknown(None), "Unknown");
}

#[test]
fn used_disk_is_zero_where_more_is_free_than_there_is() {
    let mut p = probe();
    p.disks = vec![DiskSpace { total: 10, available: 30 }, DiskSpace { total: 5, available: 0 }];
    let info = get_system_info(p).unwrap();
    assert_eq!(info.total_disk, 15);
    assert_eq!(info.used_disk, 0);
}

#[test]
fn disks_are_added_up() {
    assert_eq!(disk_usage(&Vec::new()), Some((0, 0)));
    assert_eq!(disk_usage(&vec![DiskSpace { total: 7, available: 3 }]), Some((7, 3)));
    assert_eq!(
        disk_usage(&vec![
            DiskSpace { total: 7, available: 3 },
            DiskSpace { total: 0, available: 0 },
            DiskSpace { total: 100, available: 50 },
        ]),
        Some((107, 53))
    );
    assert_eq!(
        disk_usage(&vec![
            DiskSpace { total: u64::MAX - 1, available: 0 },
            DiskSpace { total: 1, available: u64::MAX },
        ]),
        Some((u64::MAX, u64::MAX))
    );
}

#[test]
fn sums_that_do_not_fit_give_none() {
    assert_eq!(
        disk_usage(&vec![
            DiskSpace { total: u64::MAX, available: 0 },
            DiskSpace { total: 1, available: 0 },
        ]),
        None
    );
    assert_eq!(
        disk_usage(&vec![
            DiskSpace { total: 0, available: u64::MAX },
            DiskSpace { total: 0, available: 1 },
            DiskSpace { total: 0, available: 0 },
        ]),
        None
    );
}
