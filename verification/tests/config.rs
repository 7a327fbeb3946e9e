use clipsync::config::{
    clamp_image_kb, default_close_behavior, default_connection_mode, default_language,
    default_lan_device_name, default_material_effect, default_max_image_kb, default_sync_interval,
    default_theme_mode, settings_form_from_config, validate_settings, Config, SettingsError,
    SettingsForm, MAX_IMAGE_KB, MIN_IMAGE_KB,
};

fn form() -> SettingsForm {
    SettingsForm {
        server_url: " wss://relay.example/ws ".to_string(),
        token: String::new(),
        username: " u ".to_string(),
        password: "p".to_string(),
        max_image_kb: 512,
        material_effect: "mica".to_string(),
        theme_mode: "dark".to_string(),
        language: "de".to_string(),
        connection_mode: "server".to_string(),
        lan_device_name: "  Desk  ".to_string(),
        close_behavior: "quit".to_string(),
    }
}

#[test]
fn defaults() {
    assert_eq!(default_max_image_kb(), 512);
    assert_eq!(default_material_effect(), "acrylic");
    assert_eq!(default_theme_mode(), "system");
    assert_eq!(default_language(), "en");
    assert_eq!(default_connection_mode(), "server");
    assert_eq!(default_lan_device_name(), "");
    assert_eq!(default_close_behavior(), "minimize_to_tray");
    assert_eq!(default_sync_interval(), 5);
    let cfg = Config::default();
    assert_eq!(cfg.server_url, "wss://example.com/ws");
    assert_eq!(cfg.token, None);
    assert_eq!(cfg.username, None);
    assert_eq!(cfg.password, None);
    assert_eq!(cfg.max_image_kb, 512);
    assert_eq!(cfg.connection_mode, "server");
    assert!(!cfg.trust_insecure_cert);
    assert!(!cfg.is_lan_mode());
}

#[test]
fn empty_form_is_refused_in_server_mode() {
    let empty = SettingsForm::default();
    assert_eq!(empty.server_url, "");
    assert_eq!(empty.max_image_kb, 0);
    assert_eq!(empty.connection_mode, "");
    assert_eq!(validate_settings(&empty), Err(SettingsError::EmptyServerUrl));
}

#[test]
fn image_limit_is_clamped_to_its_range() {
    assert_eq!(MIN_IMAGE_KB, 1);
    assert_eq!(MAX_IMAGE_KB, 524288);
    assert_eq!(clamp_image_kb(0), 1);
    assert_eq!(clamp_image_kb(1), 1);
    assert_eq!(clamp_image_kb(512), 512);
    assert_eq!(clamp_image_kb(524288), 524288);
    assert_eq!(clamp_image_kb(524289), 524288);
    assert_eq!(clamp_image_kb(u64::MAX), 524288);
}

#[test]
fn lan_mode_is_selected_by_the_exact_word() {
    let mut cfg = Config::default();
    cfg.connection_mode = "lan".to_string();
    assert!(cfg.is_lan_mode());
    cfg.connection_mode = "LAN".to_string();
    assert!(!cfg.is_lan_mode());
    cfg.connection_mode = "".to_string();
    assert!(!cfg.is_lan_mode());
}

#[test]
fn duplicate_is_equal() {
    let mut cfg = Config::default();
    cfg.token = Some("t".to_string());
    cfg.trust_insecure_cert = true;
    assert_eq!(cfg.duplicate(), cfg);
}

#[test]
fn form_shows_a_configuration() {
    let mut cfg = Config::default();
    cfg.username = Some("u".to_string());
    cfg.max_image_kb = 9_999_999;
    cfg.lan_device_name = "Desk".to_string();
    let form = settings_form_from_config(&cfg);
    assert_eq!(form.server_url, "wss://example.com/ws");
    assert_eq!(form.token, "");
    assert_eq!(form.username, "u");
    assert_eq!(form.password, "");
    assert_eq!(form.max_image_kb, 524288);
    assert_eq!(form.material_effect, "acrylic");
    assert_eq!(form.connection_mode, "server");
    assert_eq!(form.lan_device_name, "Desk");
    assert_eq!(form.close_behavior, "minimize_to_tray");
    cfg.max_image_kb = 0;
    assert_eq!(settings_form_from_config(&cfg).max_image_kb, 1);
}

#[test]
fn server_form_with_username_and_password() {
    let cfg = validate_settings(&form()).unwrap();
    assert_eq!(cfg.server_url, "wss://relay.example/ws");
    assert_eq!(cfg.token, None);
    assert_eq!(cfg.username, Some("u".to_string()));
    assert_eq!(cfg.password, Some("p".to_string()));
    assert_eq!(cfg.max_image_kb, 512);
    assert_eq!(cfg.material_effect, "mica");
    assert_eq!(cfg.theme_mode, "dark");
    assert_eq!(cfg.language, "de");
    assert_eq!(cfg.connection_mode, "server");
    assert_eq!(cfg.lan_device_name, "Desk");
    assert_eq!(cfg.close_behavior, "quit");
    assert!(!cfg.trust_insecure_cert);
}

#[test]
fn token_rules_out_username_and_password() {
    let mut f = form();
    f.token = " tok ".to_string();
    let cfg = validate_settings(&f).unwrap();
    assert_eq!(cfg.token, Some("tok".to_string()));
    assert_eq!(cfg.username, None);
    assert_eq!(cfg.password, None);
}

#[test]
fn server_form_is_refused_without_address_or_credentials() {
    let mut f = form();
    f.server_url = "   ".to_string();
    assert_eq!(validate_settings(&f), Err(SettingsError::EmptyServerUrl));
    let mut f = form();
    f.password = " ".to_string();
    assert_eq!(validate_settings(&f), Err(SettingsError::MissingCredentials));
    let mut f = form();
    f.username = String::new();
    assert_eq!(validate_settings(&f), Err(SettingsError::MissingCredentials));
    assert_eq!(SettingsError::EmptyServerUrl.message(), "Server URL cannot be empty");
    assert_eq!(SettingsError::MissingCredentials.message(), "Please provide either Token or Username/Password");
}

#[test]
fn lan_form_needs_no_server() {
    let mut f = form();
    f.connection_mode = " lan ".to_string();
    f.server_url = String::new();
    f.username = String::new();
    f.password = " secret ".to_string();
    let cfg = validate_settings(&f).unwrap();
    assert_eq!(cfg.connection_mode, "lan");
    assert!(cfg.is_lan_mode());
    assert_eq!(cfg.server_url, "");
    assert_eq!(cfg.token, None);
    assert_eq!(cfg.username, None);
    assert_eq!(cfg.password, Some("secret".to_string()));
}

#[test]
fn form_values_are_brought_into_range() {
    let mut f = form();
    f.max_image_kb = -5;
    f.close_behavior = "explode".to_string();
    f.connection_mode = "carrier pigeon".to_string();
    let cfg = validate_settings(&f).unwrap();
    assert_eq!(cfg.max_image_kb, 1);
    assert_eq!(cfg.close_behavior, "minimize_to_tray");
    assert_eq!(cfg.connection_mode, "server");
    f.max_image_kb = i32::MAX;
    f.close_behavior = "minimize".to_string();
    let cfg = validate_settings(&f).unwrap();
    assert_eq!(cfg.max_image_kb, 524288);
    assert_eq!(cfg.close_behavior, "minimize");
}
