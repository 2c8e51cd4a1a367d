use pendulum::config::{
    default_baud_rate, default_clock_source, default_false, default_gps_enabled,
    default_gps_timeout, default_log_level, default_max_requests_per_second,
    default_min_satellites, default_poll, default_pps_enabled, default_precision,
    default_stratum, default_true, default_web_bind_address, default_web_port, ClockPlan, Config,
    ConfigError, GpsConfig, Platform, WebServerConfig,
};

#[test]
fn test_default_config() {
    let config = Config::default();
    assert_eq!(config.server.bind_address, "0.0.0.0:123");
    assert_eq!(config.clock.source, "system");
}

#[test]
fn test_config_validation() {
    let mut config = Config::default();

    config.server.stratum = 0;
    assert!(config.validate().is_err());

    config.server.stratum = 16;
    assert!(config.validate().is_err());

    config.server.stratum = 1;
    assert!(config.validate().is_ok());
}

#[test]
fn default_config_has_the_documented_values() {
    let config = Config::default();
    assert_eq!(config.server.stratum, 2);
    assert_eq!(config.server.precision, -20);
    assert_eq!(config.server.poll_interval, 6);
    assert!(config.clock.gps.is_none());
    assert!(config.security.enable_rate_limiting);
    assert_eq!(config.security.max_requests_per_second, 100);
    assert!(config.security.ip_whitelist.is_empty());
    assert!(config.security.ip_blacklist.is_empty());
    assert_eq!(config.logging.level, "info");
    assert!(!config.logging.log_requests);
    assert!(config.logging.log_file.is_none());
    assert_eq!(config.webserver.port, 8080);
    assert_eq!(config.webserver.bind_address, "0.0.0.0");
    assert_eq!(config.validate(), Ok(()));
}

#[test]
fn field_defaults_have_the_documented_values() {
    assert_eq!(default_stratum(), 2);
    assert_eq!(default_precision(), -20);
    assert_eq!(default_poll(), 6);
    assert_eq!(default_clock_source(), "system");
    assert!(default_gps_enabled());
    assert_eq!(default_baud_rate(), 9600);
    assert_eq!(default_gps_timeout(), 30);
    assert_eq!(default_min_satellites(), 4);
    assert!(default_pps_enabled());
    assert!(default_true());
    assert!(!default_false());
    assert_eq!(default_max_requests_per_second(), 100);
    assert_eq!(default_log_level(), "info");
    assert_eq!(default_web_port(), 8080);
    assert_eq!(default_web_bind_address(), "0.0.0.0");
    let web = WebServerConfig::default();
    assert_eq!(web.port, 8080);
    assert_eq!(web.bind_address, "0.0.0.0");
}

#[test]
fn validation_names_each_fault() {
    let mut config = Config::default();
    config.server.stratum = 0;
    assert_eq!(config.validate(), Err(ConfigError::InvalidStratum));
    config.server.stratum = 16;
    assert_eq!(config.validate(), Err(ConfigError::InvalidStratum));
    config.server.stratum = 15;
    assert_eq!(config.validate(), Ok(()));

    config.clock.source = "ntp".to_string();
    assert_eq!(config.validate(), Err(ConfigError::InvalidClockSource));
    config.clock.source = "GPS".to_string();
    assert_eq!(config.validate(), Err(ConfigError::InvalidClockSource));

    config.clock.source = "gps".to_string();
    assert_eq!(config.validate(), Err(ConfigError::MissingGpsConfig));
    config.clock.gps = Some(GpsConfig {
        enabled: true,
        serial_port: "/dev/ttyUSB0".to_string(),
        baud_rate: 9600,
        sync_timeout: 30,
        min_satellites: 4,
        pps_enabled: true,
        pps_gpio_pin: None,
    });
    assert_eq!(config.validate(), Ok(()));

    config.server.stratum = 0;
    config.clock.source = "ntp".to_string();
    assert_eq!(config.validate(), Err(ConfigError::InvalidStratum));
}

#[test]
fn example_config_is_a_gps_primary() {
    let unix = Config::create_example_config(Platform::Unix);
    assert_eq!(unix.server.bind_address, "0.0.0.0:123");
    assert_eq!(unix.server.stratum, 1);
    assert_eq!(unix.clock.source, "gps");
    let gps = unix.clock.gps.clone().unwrap();
    assert!(gps.enabled);
    assert_eq!(gps.serial_port, "/dev/ttyUSB0");
    assert_eq!(gps.baud_rate, 9600);
    assert_eq!(gps.sync_timeout, 30);
    assert_eq!(gps.min_satellites, 4);
    assert!(gps.pps_enabled);
    assert_eq!(gps.pps_gpio_pin, Some(18));
    assert!(unix.logging.log_requests);
    assert_eq!(unix.logging.log_file.as_deref(), Some("/var/log/pendulum.log"));
    assert_eq!(unix.validate(), Ok(()));

    let windows = Config::create_example_config(Platform::Windows);
    assert_eq!(windows.clock.gps.clone().unwrap().serial_port, "COM9");
    assert_eq!(windows.logging.log_file.as_deref(), Some("pendulum.log"));
    assert_eq!(windows.validate(), Ok(()));
}

#[test]
fn the_clock_plan_follows_the_source() {
    let mut config = Config::default();
    assert_eq!(config.clock_plan(), Ok(ClockPlan::System));
    config.clock.source = "gps".to_string();
    assert_eq!(config.clock_plan(), Err(ConfigError::MissingGpsConfig));
    let mut example = Config::create_example_config(Platform::Unix);
    assert_eq!(
        example.clock_plan(),
        Ok(ClockPlan::Gps { sync_timeout: 30, start_reader: true })
    );
    if let Some(gps) = example.clock.gps.as_mut() {
        gps.enabled = false;
        gps.sync_timeout = 7;
    }
    assert_eq!(
        example.clock_plan(),
        Ok(ClockPlan::Gps { sync_timeout: 7, start_reader: false })
    );
    example.clock.source = "system".to_string();
    assert_eq!(example.clock_plan(), Ok(ClockPlan::System));
    example.server.stratum = 0;
    assert_eq!(example.clock_plan(), Err(ConfigError::InvalidStratum));
}
