use audio_relay::config::{Config, Probe};
use audio_relay::profile::{DeviceConfig, DeviceFormat};

fn cfg(rate: u32) -> DeviceConfig {
    DeviceConfig { channels: 2, sample_rate: rate, format: DeviceFormat::F32 }
}

#[test]
fn config_takes_what_the_host_reported() {
    let c = Config::new(
        Some(Probe { device: "mic", default_config: Some(cfg(48000)) }),
        Some(Probe { device: "speaker", default_config: None }),
    );
    assert_eq!(c.record_device, Some("mic"));
    assert_eq!(c.record_device_config, Some(cfg(48000)));
    assert_eq!(c.play_device, Some("speaker"));
    assert_eq!(c.play_device_config, None);
}

#[test]
fn no_device_means_no_configuration() {
    let c: Config<u32> = Config::new(None, None);
    assert!(c.record_device.is_none());
    assert!(c.record_device_config.is_none());
    assert!(c.play_device.is_none());
    assert!(c.play_device_config.is_none());
}

#[test]
fn changing_one_direction_leaves_the_other() {
    let mut c = Config::new(
        Some(Probe { device: 1u32, default_config: Some(cfg(48000)) }),
        Some(Probe { device: 2u32, default_config: Some(cfg(44100)) }),
    );
    c.change_record_device(7, None);
    assert_eq!(c.record_device, Some(7));
    assert_eq!(c.record_device_config, None);
    assert_eq!(c.play_device, Some(2));
    assert_eq!(c.play_device_config, Some(cfg(44100)));
    c.change_play_device(9, Some(cfg(16000)));
    assert_eq!(c.play_device, Some(9));
    assert_eq!(c.play_device_config, Some(cfg(16000)));
    assert_eq!(c.record_device, Some(7));
    assert_eq!(c.record_device_config, None);
}
