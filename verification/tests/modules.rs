use honeybee::errors::Error;
use honeybee::modules::file_contents::{contents_status, contents_text, max_chars, widget_formats as file_formats, Config as FileConfig};
use honeybee::modules::path_exists::{path_status, widget_format, Config as PathConfig};
use honeybee::modules::run_watch::{watch_status, widget_formats as watch_formats, Config as WatchConfig};
use honeybee::modules::time::{Config as TimeConfig, TimeZone};
use honeybee::modules::volume::{is_muted, volume_instance, volume_status, Channel, Config as VolumeConfig};
use honeybee::modules::wireless::{link_status, stats_step, text_placeholders, Config as WirelessConfig};
use honeybee::net_iface::RtnlLinkStats;
use honeybee::widget::WidgetState;

#[test]
fn path_exists_status() {
    let config = PathConfig { title: "VPN".into(), format: None, path: "/non/existing".into() };
    assert_eq!(widget_format(&config).unwrap().full_text.as_deref(), Some("$title $status"));
    let (state, p) = path_status(&config, false);
    assert_eq!(state, WidgetState::Critical);
    assert_eq!(p.substitute("$title $status"), "VPN no");
    let (state, p) = path_status(&config, true);
    assert_eq!(state, WidgetState::Normal);
    assert_eq!(p.get("$status").as_deref(), Some("yes"));
}

#[test]
fn run_watch_status() {
    let config = WatchConfig { title: "VPN".into(), format: None, format_down: Some("$title is down".into()), pidfile: "/x".into() };
    let (up, down) = watch_formats(&config).unwrap();
    assert_eq!(up.full_text.as_deref(), Some("$title: $status"));
    assert_eq!(down.full_text.as_deref(), Some("$title is down"));
    let (state, use_down, p) = watch_status(&config, &Ok(true));
    assert_eq!((state, use_down), (WidgetState::Normal, false));
    assert_eq!(p.get("$status").as_deref(), Some("yes"));
    let (state, use_down, p) = watch_status(&config, &Ok(false));
    assert_eq!((state, use_down), (WidgetState::Critical, true));
    assert_eq!(p.get("$status").as_deref(), Some("no"));
    let (_, _, p) = watch_status(&config, &Err(Error::new("Invalid pid")));
    assert_eq!(p.get("$status").as_deref(), Some("no"));
    let config = WatchConfig { title: "x".into(), format: Some("up".into()), format_down: None, pidfile: "/x".into() };
    let (_, down) = watch_formats(&config).unwrap();
    assert_eq!(down.full_text.as_deref(), Some("up"));
}

#[test]
fn file_contents_text() {
    assert_eq!(contents_text(b"12345.67 890.1\n", 6).unwrap(), "12345.");
    assert_eq!(contents_text(b"hi  \n\n", 254).unwrap(), "hi");
    let e = contents_text(&[0xff, 0x61], 10).unwrap_err();
    assert_eq!(e.message.as_deref(), Some("Invalid UTF-8 string"));
    assert_eq!(e.source, Some(String::from_utf8(vec![0xff, 0x61]).unwrap_err().to_string()));
}

#[test]
fn file_contents_settings_and_status() {
    let mut config = FileConfig { title: "UPTIME".into(), path: "/proc/uptime".into(), format: None, format_bad: None, max_characters: None };
    assert_eq!(max_chars(&config), 254);
    config.max_characters = Some(10_000);
    assert_eq!(max_chars(&config), 4095);
    config.max_characters = Some(6);
    assert_eq!(max_chars(&config), 6);
    let (good, bad) = file_formats(&config).unwrap();
    assert_eq!(good.full_text.as_deref(), Some("$title: $content"));
    assert_eq!(bad.full_text.as_deref(), Some("$title: $error"));
    let (state, use_bad, p) = contents_status(&config, &Ok("123".into()));
    assert_eq!((state, use_bad), (WidgetState::Normal, false));
    assert_eq!(p.substitute("$title: $content$error"), "UPTIME: 123");
    let (state, use_bad, p) = contents_status(&config, &Err(Error::new("Couldn't open file")));
    assert_eq!((state, use_bad), (WidgetState::Critical, true));
    assert_eq!(p.substitute("$title: $error$content"), "UPTIME: Couldn't open file");
}

#[test]
fn time_zones() {
    assert!(matches!(TimeZone::try_from("UTC").unwrap(), TimeZone::Utc));
    assert!(matches!(TimeZone::try_from("local").unwrap(), TimeZone::Local));
    match TimeZone::try_from("Europe/Amsterdam").unwrap() {
        TimeZone::TimeZone(z) => assert_eq!(z, "Europe/Amsterdam"),
        other => panic!("unexpected {other:?}"),
    }
    let e = TimeZone::try_from("Mars/Olympus").unwrap_err();
    assert_eq!(e.message.as_deref(), Some("Bad timezone format"));
    let config = TimeConfig::default();
    assert_eq!(config.format, "%Y-%m-%d %H:%M %Z");
    assert!(matches!(config.timezone, TimeZone::Local));
}

#[test]
fn volume_settings_and_status() {
    let config = VolumeConfig::default();
    assert_eq!(config.device, "default");
    assert_eq!(config.mixer, "Master");
    assert_eq!(volume_instance(&config), "default.Master.0");
    assert_eq!(Channel::new("capture"), Channel::Capture);
    assert_eq!(Channel::new("Master"), Channel::Playback);
    assert!(is_muted(true, 0));
    assert!(!is_muted(true, 1));
    assert!(!is_muted(false, 0));
    let (state, format) = volume_status(&config, true);
    assert_eq!(state, WidgetState::Warning);
    assert_eq!(format.full_text.as_deref(), Some("V: muted ($volume)"));
    let (state, format) = volume_status(&config, false);
    assert_eq!(state, WidgetState::Normal);
    assert_eq!(format.full_text.as_deref(), Some("V: $volume"));
}

#[test]
fn wireless_status_and_counters() {
    let config = WirelessConfig::default();
    assert_eq!(config.interface, "wlan0");
    let (state, format) = link_status(&config, false);
    assert_eq!(state, WidgetState::Critical);
    assert_eq!(format.full_text.as_deref(), Some("W: down"));
    let (state, format) = link_status(&config, true);
    assert_eq!(state, WidgetState::Normal);
    assert_eq!(
        format.full_text.as_deref(),
        Some("$name: [$signal at $ssid, $bitrate [D: $speed_down | U: $speed_up]] $ipv4")
    );
    let p = text_placeholders(&config, Some("10.0.0.2".into()), None, None);
    assert_eq!(p.substitute("$name $ipv4 $ipv6 $ssid"), "wlan0 10.0.0.2 No IPv6 No SSID");
    let a = RtnlLinkStats { rx_bytes: 100, tx_bytes: 50 };
    let b = RtnlLinkStats { rx_bytes: 400, tx_bytes: 60 };
    assert_eq!(stats_step(None, Some(a)), (Some(a), None));
    assert_eq!(stats_step(Some(a), Some(b)), (Some(a), Some((300, 10))));
    assert_eq!(stats_step(Some(a), None), (None, None));
    assert_eq!(stats_step(None, None), (None, None));
}
