use unit3d_announce::config::{api_key_is_long_enough, Config, ConfigError, ConfigVars, Setting};
use unit3d_announce::number::{parse_signed_bytes, parse_unsigned_bytes};
use unit3d_announce::rate_limit::rate_limit_texts;

fn text(s: &str) -> Option<Vec<u8>> {
    Some(s.as_bytes().to_vec())
}

fn vars() -> ConfigVars {
    ConfigVars {
        flush_interval_milliseconds: text("5000"),
        numwant_default: text("25"),
        numwant_max: text("50"),
        announce_min: text("1800"),
        announce_max: text("3600"),
        announce_min_enforced: text("1740"),
        upload_factor: text("100"),
        download_factor: text("100"),
        peer_expiry_interval: text("1800"),
        active_peer_ttl: text("7200"),
        inactive_peer_ttl: text("1814400"),
        max_peers_per_torrent_per_user: text("15"),
        is_connectivity_check_enabled: text("false"),
        connectivity_check_interval: text("-1"),
        require_peer_connectivity: text("false"),
        is_announce_logging_enabled: text("true"),
        donor_immunity_override: None,
        donor_upload_factor_override: text("+200"),
        donor_download_factor_override: None,
        lifetime_donor_immunity_override: text("true"),
        lifetime_donor_upload_factor_override: None,
        lifetime_donor_download_factor_override: text("0"),
    }
}

#[test]
fn settings_are_read_from_their_text() {
    let c: Config = Config::from_vars(&vars()).unwrap();
    assert_eq!(c.flush_interval_milliseconds, 5000);
    assert_eq!((c.numwant_default, c.numwant_max), (25, 50));
    assert_eq!((c.announce_min, c.announce_max, c.announce_min_enforced), (1800, 3600, 1740));
    assert_eq!((c.upload_factor, c.download_factor), (100, 100));
    assert_eq!((c.peer_expiry_interval, c.active_peer_ttl, c.inactive_peer_ttl), (1800, 7200, 1814400));
    assert_eq!(c.max_peers_per_torrent_per_user, 15);
    assert!(!c.is_connectivity_check_enabled && !c.require_peer_connectivity && c.is_announce_logging_enabled);
    assert_eq!(c.connectivity_check_interval, -1);
    assert_eq!(c.donor_immunity_override, None);
    assert_eq!(c.donor_upload_factor_override, Some(200));
    assert_eq!(c.lifetime_donor_immunity_override, Some(true));
    assert_eq!(c.lifetime_donor_download_factor_override, Some(0));
}

#[test]
fn missing_and_invalid_settings_are_reported_in_order() {
    let mut v = vars();
    v.numwant_max = None;
    v.upload_factor = text("256");
    assert_eq!(Config::from_vars(&v).unwrap_err(), ConfigError::Missing(Setting::NumwantMax));
    v.numwant_max = text("50");
    assert_eq!(Config::from_vars(&v).unwrap_err(), ConfigError::Invalid(Setting::UploadFactor));

    let mut v = vars();
    v.flush_interval_milliseconds = text("0");
    assert_eq!(Config::from_vars(&v).unwrap_err(), ConfigError::Invalid(Setting::FlushIntervalMilliseconds));

    let mut v = vars();
    v.is_connectivity_check_enabled = text("True");
    assert_eq!(Config::from_vars(&v).unwrap_err(), ConfigError::Invalid(Setting::IsConnectivityCheckEnabled));

    let mut v = vars();
    v.donor_immunity_override = text("yes");
    assert_eq!(Config::from_vars(&v).unwrap_err(), ConfigError::Invalid(Setting::DonorImmunityOverride));

    let mut v = vars();
    v.announce_min_enforced = text("-5");
    assert_eq!(Config::from_vars(&v).unwrap_err(), ConfigError::Invalid(Setting::AnnounceMinEnforced));

    let mut v = vars();
    v.connectivity_check_interval = text("9223372036854775808");
    assert_eq!(Config::from_vars(&v).unwrap_err(), ConfigError::Invalid(Setting::ConnectivityCheckInterval));
}

#[test]
fn integers_are_read_as_std_reads_them() {
    assert_eq!(parse_signed_bytes(b"-9223372036854775808"), Some(i64::MIN));
    assert_eq!(parse_signed_bytes(b"+42"), Some(42));
    assert_eq!(parse_signed_bytes(b"-0"), Some(0));
    assert_eq!(parse_signed_bytes(b"-"), None);
    assert_eq!(parse_signed_bytes(b"-+1"), None);
    assert_eq!(parse_signed_bytes(b" 1"), None);
    assert_eq!(parse_unsigned_bytes(b"18446744073709551615", u64::MAX), Some(u64::MAX));
    assert_eq!(parse_unsigned_bytes(b"-1", u64::MAX), None);
    for s in ["0", "+7", "-3", "12a", "", "+", "65535", "65536"] {
        assert_eq!(parse_unsigned_bytes(s.as_bytes(), u16::MAX as u64).map(|n| n as u16), s.parse::<u16>().ok(), "{s}");
        assert_eq!(parse_signed_bytes(s.as_bytes()), s.parse::<i64>().ok(), "{s}");
    }
}

#[test]
fn api_key_length() {
    assert!(api_key_is_long_enough(&[b'a'; 32]));
    assert!(!api_key_is_long_enough(&[b'a'; 31]));
}

#[test]
fn rate_limit_texts_split_like_str() {
    let texts = rate_limit_texts(b"60=10; 3600 = 100").unwrap();
    let pairs: Vec<(String, String)> = texts
        .into_iter()
        .map(|(a, b)| (String::from_utf8(a).unwrap(), String::from_utf8(b).unwrap()))
        .collect();
    assert_eq!(pairs, vec![("60".to_string(), "10".to_string()), (" 3600 ".to_string(), " 100".to_string())]);
    assert_eq!(rate_limit_texts(b"60=10;3600").map(|v| v.len()), None);
    let t = rate_limit_texts(b"a=b=c;").map(|v| v.len());
    assert_eq!(t, None);
    let t = rate_limit_texts(b"a=b=c").unwrap();
    assert_eq!((t[0].0.as_slice(), t[0].1.as_slice()), (&b"a"[..], &b"b=c"[..]));
    let t = rate_limit_texts(b"=").unwrap();
    assert_eq!((t[0].0.len(), t[0].1.len()), (0, 0));
}

#[test]
fn unset_enforced_minimum_is_the_announce_minimum() {
    let mut v = vars();
    v.announce_min_enforced = None;
    let c = Config::from_vars(&v).unwrap();
    assert_eq!(c.announce_min_enforced, c.announce_min);
    assert_eq!(c.announce_min_enforced, 1800);
}
