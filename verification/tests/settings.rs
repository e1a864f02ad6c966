use ws::connection::factory::Settings;

#[test]
fn default_settings_match_the_documented_values() {
    let settings = Settings::default();
    assert_eq!(settings.max_connections, 10_000);
    assert!(settings.panic_on_new_connection);
    assert!(!settings.panic_on_shutdown);
    assert_eq!(settings.protocols, None);
    assert_eq!(settings.extensions, None);
    assert!(!settings.listen_secure);
}
