use honeybee::net_iface::{find_ssid, link_is_up, reply_address, station_signal, wireless_ssid, RtnlLinkStats};
use honeybee::utils::{xdg_config_dirs, xdg_data_dirs};

#[test]
fn link_stats() {
    let mut raw = vec![0u8; 40];
    raw[16..24].copy_from_slice(&1234u64.to_ne_bytes());
    raw[24..32].copy_from_slice(&987654321u64.to_ne_bytes());
    let s = RtnlLinkStats::from_rtnl_link_stats64(&raw).unwrap();
    assert_eq!(s, RtnlLinkStats { rx_bytes: 1234, tx_bytes: 987654321 });
    let e = RtnlLinkStats::from_rtnl_link_stats64(&[1, 2, 3]).unwrap_err();
    assert_eq!(e.message.as_deref(), Some("Bad contents for interface stats: [1, 2, 3]"));
}

#[test]
fn ssid_among_elements() {
    // a rates element (type 1) before the SSID element
    let ies = [1u8, 2, 0x82, 0x84, 0, 4, b'h', b'o', b'm', b'e', 3, 1, 6];
    assert_eq!(find_ssid(&ies).as_deref(), Some("home"));
    assert_eq!(find_ssid(&[0, 5, b'a']), None);
    assert_eq!(find_ssid(&[]), None);
    assert_eq!(find_ssid(&[0, 0]).as_deref(), Some(""));
}

#[test]
fn xdg_directories() {
    assert_eq!(xdg_config_dirs(None), vec![Some("/etc/xdg".to_string())]);
    assert_eq!(
        xdg_data_dirs(None),
        vec![Some("/usr/local/share".to_string()), Some("/usr/share".to_string())]
    );
    assert_eq!(
        xdg_data_dirs(Some("/a:relative:/b/c".to_string())),
        vec![Some("/a".to_string()), None, Some("/b/c".to_string())]
    );
}

#[test]
fn interface_choices() {
    assert!(link_is_up(6));
    assert!(!link_is_up(2));
    let local = [10u8, 0, 0, 2];
    let address = [10u8, 0, 0, 9];
    assert_eq!(reply_address(0, Some(&local), Some(&address), 4), Some(local.to_vec()));
    assert_eq!(reply_address(0, None, Some(&address), 4), Some(address.to_vec()));
    assert_eq!(reply_address(200, Some(&local), None, 4), None);
    assert_eq!(reply_address(0, Some(&local), Some(&address), 16), None);
    assert_eq!(reply_address(0, None, None, 4), None);
}

#[test]
fn wireless_fallbacks() {
    assert_eq!(wireless_ssid(Some(b"cafe"), None).as_deref(), Some("cafe"));
    assert_eq!(wireless_ssid(Some(b"cafe"), Some(&[0, 2, b'h', b'i'])).as_deref(), Some("cafe"));
    assert_eq!(wireless_ssid(None, Some(&[0, 2, b'h', b'i'])).as_deref(), Some("hi"));
    assert_eq!(wireless_ssid(None, Some(&[1, 1, 9, 0, 3, b'a', b'b', b'c'])).as_deref(), Some("abc"));
    assert_eq!(wireless_ssid(None, None), None);
    assert_eq!(station_signal(Some(-40), Some(-7000)), Some(-40));
    assert_eq!(station_signal(None, Some(-6550)), Some(-65));
    assert_eq!(station_signal(None, Some(-6550)), Some((-6550i32 / 100) as i8));
    assert_eq!(station_signal(None, Some(30000)), Some((30000i32 / 100) as i8));
    assert_eq!(station_signal(None, None), None);
}
