use whispr::negotiate::{choose_device, choose_stream_config, clamp_sample_rate, ConfigChoice, ConfigRange};

#[test]
fn clamp_into_range() {
    assert_eq!(clamp_sample_rate(48_000, 8_000, 16_000), 16_000);
    assert_eq!(clamp_sample_rate(4_000, 8_000, 16_000), 8_000);
    assert_eq!(clamp_sample_rate(11_025, 8_000, 16_000), 11_025);
    assert_eq!(clamp_sample_rate(10, 20, 5), 20);
}

#[test]
fn config_prefers_first_exact_channel_match() {
    let ranges = vec![
        ConfigRange { min_rate: 8_000, max_rate: 16_000, channels: 1 },
        ConfigRange { min_rate: 44_100, max_rate: 96_000, channels: 2 },
        ConfigRange { min_rate: 8_000, max_rate: 48_000, channels: 2 },
    ];
    assert_eq!(choose_stream_config(&ranges, 16_000, 2), Some(ConfigChoice { index: 1, sample_rate: 44_100 }));
    assert_eq!(choose_stream_config(&ranges, 48_000, 1), Some(ConfigChoice { index: 0, sample_rate: 16_000 }));
}

#[test]
fn config_falls_back_to_first_range() {
    let ranges = vec![
        ConfigRange { min_rate: 8_000, max_rate: 16_000, channels: 4 },
        ConfigRange { min_rate: 44_100, max_rate: 96_000, channels: 2 },
    ];
    assert_eq!(choose_stream_config(&ranges, 22_050, 1), Some(ConfigChoice { index: 0, sample_rate: 16_000 }));
    assert_eq!(choose_stream_config(&Vec::new(), 16_000, 1), None);
}

#[test]
fn device_by_exact_name() {
    let names = vec![Some("Built-in".to_string()), None, Some("USB Mic".to_string()), Some("USB Mic".to_string())];
    assert_eq!(choose_device(&names, "USB Mic"), Some(2));
    assert_eq!(choose_device(&names, "usb mic"), None);
    assert_eq!(choose_device(&names, "default"), None);
    let named_default = vec![Some("default".to_string())];
    assert_eq!(choose_device(&named_default, "default"), None);
}
