use recast_core::types::{default_gif_dither, default_gif_quality, AppConfig, CaptureIntent};

#[test]
fn the_default_config() {
    let c = AppConfig::default();
    assert!(c.close_to_tray && c.hide_panel_from_capture && c.telemetry_errors && c.cli_auto_install);
    assert!(!c.telemetry_product && !c.diagnostic_logging && !c.window_transparency);
    assert!(c.output_dir.is_none() && c.install_id.is_none());
}

#[test]
fn telemetry_consent_keeps_an_install_id_unless_a_new_one_is_given() {
    let mut c = AppConfig::default();
    c.set_telemetry_consent(true, false, Some("id-1".into()));
    assert_eq!(c.install_id.as_deref(), Some("id-1"));
    c.set_telemetry_consent(false, true, Some(String::new()));
    assert_eq!(c.install_id.as_deref(), Some("id-1"));
    c.set_telemetry_consent(false, true, None);
    assert_eq!(c.install_id.as_deref(), Some("id-1"));
    assert!(!c.telemetry_product && c.telemetry_errors);
}

#[test]
fn the_default_intent_records_system_audio() {
    let i = CaptureIntent::default();
    assert!(i.options.system_audio);
    assert!(i.target_type.is_none() && i.region.is_none() && i.countdown.is_none());
    assert_eq!(default_gif_quality(), "medium");
    assert_eq!(default_gif_dither(), "bayer");
}
