use auto_scribe::config::{
    default_auto_paste, default_port, default_use_gpu, Config, DEFAULT_AUTO_PASTE, DEFAULT_PORT,
};

/// WHAT: The server URL renders the configured port in decimal
/// WHY: The settings page is opened at exactly this address
#[test]
fn server_url_renders_port_in_decimal() {
    let mut config = Config::create_default("model.bin".to_string());
    assert_eq!(config.server_url(), "http://localhost:7878");

    config.server.port = 80;
    assert_eq!(config.server_url(), "http://localhost:80");

    config.server.port = 0;
    assert_eq!(config.server_url(), "http://localhost:0");

    config.server.port = 65535;
    assert_eq!(config.server_url(), "http://localhost:65535");

    config.server.port = 10000;
    assert_eq!(config.server_url(), "http://localhost:10000");
}

/// WHAT: The decimal rendering agrees with std's formatting for every port
/// WHY: One disagreement would open the settings page at the wrong address
#[test]
fn server_url_agrees_with_std_formatting_for_every_port() {
    let mut config = Config::create_default("model.bin".to_string());
    for port in 0..=u16::MAX {
        config.server.port = port;
        assert_eq!(config.server_url(), format!("http://localhost:{port}"));
    }
}

/// WHAT: The defaults are the documented values
/// WHY: A missing setting falls back to exactly these
#[test]
fn defaults_have_documented_values() {
    assert_eq!(default_auto_paste(), true);
    assert_eq!(DEFAULT_AUTO_PASTE, true);
    assert_eq!(default_port(), 7878);
    assert_eq!(DEFAULT_PORT, 7878);
    assert_eq!(default_use_gpu(), true);
}

/// WHAT: A fresh configuration holds the given model path and the defaults
/// WHY: First launch must produce a usable configuration
#[test]
fn create_default_uses_model_path_and_defaults() {
    let config = Config::create_default("/data/models/ggml-base.en.bin".to_string());
    assert_eq!(config.whisper.model_path, "/data/models/ggml-base.en.bin");
    assert!(config.whisper.use_gpu);
    assert!(config.audio.selected_device.is_none());
    assert!(config.behavior.auto_paste);
    assert_eq!(config.server.port, 7878);
}
