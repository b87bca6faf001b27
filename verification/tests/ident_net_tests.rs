use lekiwi_agent::clock::Timestamp;
use lekiwi_agent::ident::{get_boot_id, resolve_robot_id};
use lekiwi_agent::net::{format_mac, mac_addresses, traffic_fits, traffic_totals, InterfaceReading};

fn iface(name: &str, mac: [u8; 6], received: u64, transmitted: u64) -> InterfaceReading {
    InterfaceReading { name: name.to_string(), mac, received, transmitted }
}

fn assert_random_uuid_shape(id: &str) {
    let chars: Vec<char> = id.chars().collect();
    assert_eq!(chars.len(), 36);
    for (i, c) in chars.iter().enumerate() {
        if i == 8 || i == 13 || i == 18 || i == 23 {
            assert_eq!(*c, '-');
        } else {
            assert!(c.is_ascii_digit() || ('a'..='f').contains(c));
        }
    }
    assert_eq!(chars[14], '4');
    assert!(matches!(chars[19], '8' | '9' | 'a' | 'b'));
}

#[test]
fn later_than_orders_by_seconds_then_nanoseconds() {
    let a = Timestamp { secs: 10, nanos: 5 };
    let b = Timestamp { secs: 10, nanos: 6 };
    let c = Timestamp { secs: 11, nanos: 0 };
    let d = Timestamp { secs: -1, nanos: 999_999_999 };
    assert!(b.later_than(&a));
    assert!(c.later_than(&b));
    assert!(a.later_than(&d));
    assert!(!a.later_than(&b));
    assert!(!a.later_than(&a));
    assert!(!d.later_than(&a));
}

#[test]
fn supplied_robot_id_is_kept_as_it_is() {
    assert_eq!(resolve_robot_id(Some("robot-7".to_string())), "robot-7");
    assert_eq!(resolve_robot_id(Some(" padded ".to_string())), " padded ");
    assert_eq!(resolve_robot_id(Some(String::new())), "");
}

#[test]
fn missing_robot_id_is_a_random_uuid() {
    let first = resolve_robot_id(None);
    let second = resolve_robot_id(None);
    assert_random_uuid_shape(&first);
    assert_random_uuid_shape(&second);
    assert_ne!(first, second);
}

#[test]
fn published_boot_id_is_trimmed() {
    let published = "5b2c1e0a-9f3d-4c7b-8a11-0d2e4f6a8c90\n".to_string();
    assert_eq!(get_boot_id(Some(published)), "5b2c1e0a-9f3d-4c7b-8a11-0d2e4f6a8c90");
    assert_eq!(get_boot_id(Some("  B1 \t".to_string())), "B1");
    assert_eq!(get_boot_id(Some("\n".to_string())), "");
}

#[test]
fn unreadable_boot_id_is_a_fresh_random_uuid_each_time() {
    let first = get_boot_id(None);
    let second = get_boot_id(None);
    assert_random_uuid_shape(&first);
    assert_random_uuid_shape(&second);
    assert_ne!(first, second);
}

#[test]
fn format_mac_writes_lower_case_pairs_with_colons() {
    assert_eq!(format_mac(&[0x00, 0x1a, 0x2b, 0x3c, 0xde, 0xff]), "00:1a:2b:3c:de:ff");
    assert_eq!(format_mac(&[0; 6]), "00:00:00:00:00:00");
    assert_eq!(format_mac(&[0x09, 0x0a, 0x90, 0xa0, 0x99, 0xaa]), "09:0a:90:a0:99:aa");
}

#[test]
fn format_mac_agrees_with_std_formatting_on_every_byte() {
    for b in 0u8..=255 {
        let mac = [b, 255 - b, b, b, b, b];
        let expected = format!(
            "{:02x}:{:02x}:{:02x}:{:02x}:{:02x}:{:02x}",
            mac[0], mac[1], mac[2], mac[3], mac[4], mac[5]
        );
        assert_eq!(format_mac(&mac), expected);
    }
}

#[test]
fn mac_addresses_leave_loopback_out_and_keep_the_order() {
    let all = vec![
        iface("wlan0", [1, 2, 3, 4, 5, 6], 0, 0),
        iface("lo", [0; 6], 0, 0),
        iface("eth0", [0xaa, 0xbb, 0xcc, 0xdd, 0xee, 0xff], 0, 0),
        iface("lo1", [9; 6], 0, 0),
    ];
    assert_eq!(mac_addresses(&all), vec!["01:02:03:04:05:06", "aa:bb:cc:dd:ee:ff"]);
    assert_eq!(mac_addresses(&Vec::new()), Vec::<String>::new());
}

#[test]
fn traffic_totals_sum_all_but_loopback() {
    let all = vec![
        iface("eth0", [0; 6], 100, 10),
        iface("lo", [0; 6], 5000, 5000),
        iface("wlan0", [0; 6], 23, 4),
        iface("local0", [0; 6], 7, 7),
    ];
    assert_eq!(traffic_totals(&all), (123, 14));
    assert_eq!(traffic_totals(&Vec::new()), (0, 0));
    assert!(traffic_fits(&all));
}

#[test]
fn traffic_totals_do_not_wrap() {
    let all = vec![iface("eth0", [0; 6], u64::MAX, 1), iface("eth1", [0; 6], 1, u64::MAX - 1)];
    assert_eq!(traffic_totals(&all), (u64::MAX as u128 + 1, u64::MAX as u128));
    assert!(!traffic_fits(&all));
    let within = vec![iface("eth0", [0; 6], u64::MAX, 0), iface("lo", [0; 6], 1, 1)];
    assert!(traffic_fits(&within));
}
