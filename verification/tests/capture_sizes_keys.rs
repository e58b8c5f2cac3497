use std::hash::{DefaultHasher, Hasher};

use reliquary_archiver::capture::{
    packets_from, select_devices, source_id_of, CaptureError, CaptureProgress, Codec, DeviceInfo, DeviceTracker,
    EtlBackend, Packet, PcapFile, PktmonBackend, PCAP_FILTER, PORT_RANGE,
};
use reliquary_archiver::keys::{load_keys, try_load_keys};
use reliquary_archiver::platform::{get_settings_path, registry_check, RegistryCheck, RegistryError, RegistryValue};
use reliquary_archiver::sizes::{file_size, format_file_size, short_size};
use reliquary_archiver::capture::{device_for_event, pktmon_filters, FileEventKind};

#[test]
fn short_size_examples() {
    assert_eq!(short_size(0), "0 B");
    assert_eq!(short_size(1023), "1023 B");
    assert_eq!(short_size(1024), "1.00 KB");
    assert_eq!(short_size(1536), "1.50 KB");
    assert_eq!(short_size(1048575), "1024.00 KB");
    assert_eq!(short_size(1048576), "1.00 MB");
    assert_eq!(short_size(5 * 1048576 + 524288), "5.50 MB");
    assert_eq!(format_file_size(2048), "2.00 KB");
    assert_eq!(file_size(10), "10 B");
}

#[test]
fn short_size_matches_float_formatting_for_huge_sizes() {
    let mut sizes: Vec<usize> = vec![
        usize::MAX,
        usize::MAX - 1,
        1usize << 53,
        (1usize << 53) + 1,
        (1usize << 53) + 3,
        (1usize << 54) + 2,
        (1usize << 54) + 6,
        (1usize << 63) + 1024,
        (1usize << 53) - 1,
    ];
    let mut x: u64 = 0x9e3779b97f4a7c15;
    for _ in 0..2000 {
        x = x.wrapping_mul(6364136223846793005).wrapping_add(1442695040888963407);
        sizes.push((x >> (x % 40)) as usize);
    }
    for size in sizes {
        let expected = if size < 1024 {
            format!("{} B", size)
        } else if size < 1048576 {
            format!("{:.2} KB", size as f64 / 1024.0)
        } else {
            format!("{:.2} MB", size as f64 / 1024.0 / 1024.0)
        };
        assert_eq!(short_size(size), expected, "size {}", size);
    }
}

#[test]
fn short_size_matches_float_formatting() {
    let mut size: usize = 0;
    while size < 3 * 1048576 {
        let expected = if size < 1024 {
            format!("{} B", size)
        } else if size < 1048576 {
            format!("{:.2} KB", size as f64 / 1024.0)
        } else {
            format!("{:.2} MB", size as f64 / 1024.0 / 1024.0)
        };
        assert_eq!(short_size(size), expected, "size {}", size);
        size += if size < 4096 { 1 } else { 37 };
    }
    // Sizes that fall exactly between two hundredths.
    for size in [1152usize, 1408, 1664, 1920, 3200, 1048576 + 5 * 16384 / 10, 1179648 + 5242] {
        let expected = if size < 1048576 {
            format!("{:.2} KB", size as f64 / 1024.0)
        } else {
            format!("{:.2} MB", size as f64 / 1024.0 / 1024.0)
        };
        assert_eq!(short_size(size), expected, "size {}", size);
    }
}

#[test]
fn source_ids_are_the_default_hash_of_the_path() {
    let mut h = DefaultHasher::new();
    h.write("capture.pcap".as_bytes());
    assert_eq!(source_id_of("capture.pcap"), h.finish());
    assert_eq!(source_id_of("a.pcap"), source_id_of("a.pcap"));
}

#[test]
fn packets_keep_order_and_source() {
    let frames = vec![vec![1u8, 2], vec![], vec![3]];
    let p = packets_from(9, &frames);
    assert_eq!(p.len(), 3);
    assert!(p.iter().all(|x| x.source_id == 9));
    assert_eq!(p[0].data, vec![1, 2]);
    assert!(p[1].data.is_empty());
    assert_eq!(p[2].data, vec![3]);
    let mut codec = Codec { source_id: 4 };
    let q: Packet = codec.decode(&[7, 8]);
    assert_eq!(q.source_id, 4);
    assert_eq!(q.data, vec![7, 8]);
}

#[test]
fn capture_errors_tell_whether_packets_came_first() {
    let mut progress = CaptureProgress::new();
    match progress.on_result(Err("timeout".to_string())) {
        Err(CaptureError::Capture { has_captured, error }) => {
            assert!(!has_captured);
            assert_eq!(error, "timeout");
        }
        _ => panic!("expected a capture error"),
    }
    let ok = progress.on_result(Ok(Packet { source_id: 1, data: vec![0] }));
    assert!(ok.is_ok());
    match progress.on_result(Err("gone".to_string())) {
        Err(CaptureError::Capture { has_captured, .. }) => assert!(has_captured),
        _ => panic!("expected a capture error"),
    }
    assert_eq!(CaptureError::Device("no device".to_string()).message(), "no device");
    assert_eq!(CaptureError::Filter("bad filter".to_string()).message(), "bad filter");
    assert_eq!(CaptureError::Capture { has_captured: true, error: "e".to_string() }.message(), "e");
}

fn device(name: &str, connected: bool, addresses: usize, loopback: bool) -> DeviceInfo {
    DeviceInfo { name: name.to_string(), connected, address_count: addresses, loopback }
}

#[test]
fn only_usable_devices_are_selected() {
    let devices = vec![
        device("eth0", true, 1, false),
        device("lo", true, 1, true),
        device("wlan0", false, 2, false),
        device("tun0", true, 0, false),
        device("eth1", true, 3, false),
    ];
    assert_eq!(select_devices(&devices), vec![0, 4]);
    assert!(select_devices(&vec![]).is_empty());
}

#[test]
fn tracker_reports_each_new_device_once() {
    let names = |v: &[&str]| v.iter().map(|s| s.to_string()).collect::<Vec<String>>();
    let mut t = DeviceTracker::new();
    assert_eq!(t.observe(&names(&["a", "b", "a"])), vec![0, 1]);
    assert_eq!(t.observe(&names(&["a", "b", "c"])), vec![2]);
    assert_eq!(t.observe(&names(&["a", "b", "c"])), Vec::<usize>::new());
    // "b" leaves, then comes back: it is new again.
    assert_eq!(t.observe(&names(&["a", "c"])), Vec::<usize>::new());
    assert_eq!(t.observe(&names(&["b", "a"])), vec![0]);
    let mut seen = t.seen.clone();
    seen.sort();
    assert_eq!(seen, names(&["a", "b"]));
}

#[test]
fn backends_and_files() {
    assert_eq!(PktmonBackend.list_devices().len(), 1);
    let etl = EtlBackend { etl_path: "trace.etl".to_string() };
    let devices = etl.list_devices();
    assert_eq!(devices.len(), 1);
    assert_eq!(devices[0].etl_path, "trace.etl");
    let f = PcapFile::new("dump.pcap".to_string());
    assert_eq!(f.name(), "dump.pcap");
    assert_eq!(f.create_capture().file, "dump.pcap");
    assert_eq!(PORT_RANGE, (23301, 23302));
    assert_eq!(PCAP_FILTER, "udp portrange 23301-23302");
}

#[test]
fn keys_are_decoded_from_base64() {
    let entries = vec![(1u32, "AAEC".to_string()), (2u32, "aGk=".to_string())];
    let keys = try_load_keys(&entries).expect("valid keys");
    assert_eq!(keys.get(&1), Some(&vec![0u8, 1, 2]));
    assert_eq!(keys.get(&2), Some(&b"hi".to_vec()));
    assert_eq!(keys.len(), 2);
    let same = load_keys(&entries);
    assert_eq!(same, keys);
    // A later entry replaces an earlier one with the same id.
    let twice = vec![(1u32, "AAEC".to_string()), (1u32, "aGk=".to_string())];
    assert_eq!(load_keys(&twice).get(&1), Some(&b"hi".to_vec()));
}

#[test]
fn invalid_base64_is_refused() {
    assert!(try_load_keys(&vec![(1u32, "AAEC".to_string()), (2u32, "not base64!".to_string())]).is_none());
    assert!(try_load_keys(&vec![(1u32, "aGk".to_string())]).is_none());
    assert!(try_load_keys(&vec![]).expect("empty").is_empty());
}

#[test]
fn settings_path_is_under_the_app_folder() {
    let p = get_settings_path("appdata");
    let sep = std::path::MAIN_SEPARATOR;
    assert_eq!(p, format!("appdata{sep}reliquary-archiver{sep}settings.json"));
    assert_eq!(get_settings_path(""), format!("reliquary-archiver{sep}settings.json"));
    let q = get_settings_path(&format!("base{sep}"));
    assert_eq!(q, format!("base{sep}reliquary-archiver{sep}settings.json"));
}

#[test]
fn registry_entry_checks() {
    assert_eq!(registry_check(true, &RegistryValue::Missing, "C:\\a.exe"), RegistryCheck { agrees: false, remove_entry: false });
    assert_eq!(registry_check(false, &RegistryValue::Missing, "C:\\a.exe"), RegistryCheck { agrees: true, remove_entry: false });
    assert_eq!(registry_check(true, &RegistryValue::NotText, "C:\\a.exe"), RegistryCheck { agrees: false, remove_entry: true });
    let here = RegistryValue::Text("C:\\a.exe\0".to_string());
    assert_eq!(registry_check(true, &here, "C:\\a.exe"), RegistryCheck { agrees: true, remove_entry: false });
    assert_eq!(registry_check(false, &here, "C:\\a.exe"), RegistryCheck { agrees: false, remove_entry: false });
    let elsewhere = RegistryValue::Text("C:\\b.exe\0".to_string());
    assert_eq!(registry_check(true, &elsewhere, "C:\\a.exe"), RegistryCheck { agrees: false, remove_entry: true });
    assert_eq!(registry_check(false, &elsewhere, "C:\\a.exe"), RegistryCheck { agrees: true, remove_entry: true });
    // Without the terminating zero the entry points elsewhere.
    let unterminated = RegistryValue::Text("C:\\a.exe".to_string());
    assert_eq!(registry_check(true, &unterminated, "C:\\a.exe"), RegistryCheck { agrees: false, remove_entry: true });
    assert_ne!(RegistryError::AddFailed, RegistryError::RemoveFailed);
}

#[test]
fn watch_events_and_filters() {
    let created = device_for_event(Ok((FileEventKind::CreateFile, vec!["new.pcap".to_string(), "x".to_string()])));
    assert!(matches!(created, Some(Ok(f)) if f.file == "new.pcap"));
    assert!(device_for_event(Ok((FileEventKind::RemoveFile, vec!["new.pcap".to_string()]))).is_none());
    assert!(device_for_event(Ok((FileEventKind::Other, vec![]))).is_none());
    assert!(matches!(device_for_event(Err("watch failed".to_string())), Some(Err(CaptureError::Device(m))) if m == "watch failed"));
    let filters = pktmon_filters();
    assert_eq!(filters.len(), 2);
    assert_eq!((filters[0].port, filters[1].port), (23301, 23302));
    assert!(filters.iter().all(|f| f.name == "UDP Filter"));
}

#[test]
fn failed_listing_changes_nothing_and_is_passed_on() {
    let names = |v: &[&str]| v.iter().map(|s| s.to_string()).collect::<Vec<String>>();
    let mut t = DeviceTracker::new();
    assert_eq!(t.on_listing(Ok(names(&["a", "b"]))).unwrap(), vec![0, 1]);
    match t.on_listing(Err(CaptureError::Device("no permission".to_string()))) {
        Err(CaptureError::Device(e)) => assert_eq!(e, "no permission"),
        _ => panic!("the listing error is passed on"),
    }
    // Still known after the failed round: nothing is reported again.
    assert_eq!(t.on_listing(Ok(names(&["b", "a"]))).unwrap(), Vec::<usize>::new());
    // Only the last successful listing counts: "a" left, and is new when it returns.
    assert_eq!(t.on_listing(Ok(names(&["b"]))).unwrap(), Vec::<usize>::new());
    assert_eq!(t.on_listing(Ok(names(&["a", "b", "a"]))).unwrap(), vec![0]);
}
