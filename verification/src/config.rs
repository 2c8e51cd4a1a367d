//! The validated configuration that the server is started with. Reading
//! and writing the file is left to the caller; this module holds the
//! values, their defaults and the rules they must meet.

use vstd::prelude::*;

verus! {

/// Where and how the NTP service listens.
#[derive(Debug, Clone)]
pub struct ServerConfig {
    /// UDP listen endpoint, for example `0.0.0.0:123`.
    pub bind_address: String,
    /// Advertised stratum of a secondary server, 1 to 15.
    pub stratum: u8,
    /// Advertised precision in log2 seconds.
    pub precision: i8,
    /// Recommended poll interval in log2 seconds.
    pub poll_interval: i8,
}

/// The GPS receiver.
#[derive(Debug, Clone)]
pub struct GpsConfig {
    /// Whether the reader is started at all.
    pub enabled: bool,
    pub serial_port: String,
    pub baud_rate: u32,
    /// Seconds after which a fix is stale.
    pub sync_timeout: u64,
    /// Satellite count credited to a fix taken from an RMC sentence.
    pub min_satellites: u8,
    /// Whether PPS edges on the CTS line are observed.
    pub pps_enabled: bool,
    pub pps_gpio_pin: Option<u32>,
}

/// Which clock the server answers from.
#[derive(Debug, Clone)]
pub struct ClockConfig {
    /// `system` or `gps`.
    pub source: String,
    pub gps: Option<GpsConfig>,
}

/// Admission control.
#[derive(Debug, Clone)]
pub struct SecurityConfig {
    pub enable_rate_limiting: bool,
    pub max_requests_per_second: u32,
    /// Addresses that may ask; empty admits all.
    pub ip_whitelist: Vec<String>,
    /// Addresses that may not ask.
    pub ip_blacklist: Vec<String>,
}

/// Logging.
#[derive(Debug, Clone)]
pub struct LoggingConfig {
    pub level: String,
    pub log_requests: bool,
    pub log_file: Option<String>,
}

/// The monitoring endpoint.
#[derive(Debug, Clone)]
pub struct WebServerConfig {
    pub port: u16,
    pub bind_address: String,
}

/// The whole configuration.
#[derive(Debug, Clone)]
pub struct Config {
    pub server: ServerConfig,
    pub clock: ClockConfig,
    pub security: SecurityConfig,
    pub logging: LoggingConfig,
    pub webserver: WebServerConfig,
}

/// Why a configuration is refused.
#[derive(Debug, Clone, Copy, PartialEq, Eq, Structural)]
pub enum ConfigError {
    /// The stratum is not between 1 and 15.
    InvalidStratum,
    /// The clock source is neither `system` nor `gps`.
    InvalidClockSource,
    /// The clock source is `gps` and no receiver is configured.
    MissingGpsConfig,
}

/// What a valid configuration asks to be started.
#[derive(Debug, Clone, Copy, PartialEq, Eq, Structural)]
pub enum ClockPlan {
    /// Answer from the system clock.
    System,
    /// Answer from a GPS-disciplined clock whose fixes go stale after
    /// `sync_timeout` seconds, and start the reader of the receiver or not.
    Gps { sync_timeout: u64, start_reader: bool },
}

/// The platform whose device and file names an example configuration uses.
#[derive(Debug, Clone, Copy, PartialEq, Eq, Structural)]
pub enum Platform {
    Windows,
    Unix,
}

pub fn default_stratum() -> (r: u8)
    ensures
        r == 2,
{
    2
}

pub fn default_precision() -> (r: i8)
    ensures
        r == -20,
{
    -20
}

pub fn default_poll() -> (r: i8)
    ensures
        r == 6,
{
    6
}

pub fn default_clock_source() -> (r: String)
    ensures
        r@ == "system"@,
{
    "system".to_owned()
}

pub fn default_gps_enabled() -> (r: bool)
    ensures
        r,
{
    true
}

pub fn default_baud_rate() -> (r: u32)
    ensures
        r == 9600,
{
    9600
}

pub fn default_gps_timeout() -> (r: u64)
    ensures
        r == 30,
{
    30
}

pub fn default_min_satellites() -> (r: u8)
    ensures
        r == 4,
{
    4
}

pub fn default_pps_enabled() -> (r: bool)
    ensures
        r,
{
    true
}

pub fn default_true() -> (r: bool)
    ensures
        r,
{
    true
}

pub fn default_false() -> (r: bool)
    ensures
        !r,
{
    false
}

pub fn default_max_requests_per_second() -> (r: u32)
    ensures
        r == 100,
{
    100
}

pub fn default_log_level() -> (r: String)
    ensures
        r@ == "info"@,
{
    "info".to_owned()
}

pub fn default_web_port() -> (r: u16)
    ensures
        r == 8080,
{
    8080
}

pub fn default_web_bind_address() -> (r: String)
    ensures
        r@ == "0.0.0.0"@,
{
    "0.0.0.0".to_owned()
}

impl Default for WebServerConfig {
    fn default() -> (r: Self)
        ensures
            r.port == 8080,
            r.bind_address@ == "0.0.0.0"@,
    {
        WebServerConfig { port: default_web_port(), bind_address: default_web_bind_address() }
    }
}

impl Default for Config {
    /// A server on `0.0.0.0:123` that answers from the system clock at
    /// stratum 2, limits each address to 100 requests a second and filters
    /// none.
    fn default() -> (r: Self)
        ensures
            r.server.bind_address@ == "0.0.0.0:123"@,
            r.server.stratum == 2,
            r.server.precision == -20,
            r.server.poll_interval == 6,
            r.clock.source@ == "system"@,
            r.clock.gps is None,
            r.security.enable_rate_limiting,
            r.security.max_requests_per_second == 100,
            r.security.ip_whitelist@.len() == 0,
            r.security.ip_blacklist@.len() == 0,
            r.logging.level@ == "info"@,
            !r.logging.log_requests,
            r.logging.log_file is None,
            r.webserver.port == 8080,
            r.webserver.bind_address@ == "0.0.0.0"@,
            r.spec_validate() is Ok,
    {
        let r = Config {
            server: ServerConfig {
                bind_address: "0.0.0.0:123".to_owned(),
                stratum: default_stratum(),
                precision: default_precision(),
                poll_interval: default_poll(),
            },
            clock: ClockConfig { source: default_clock_source(), gps: None },
            security: SecurityConfig {
                enable_rate_limiting: default_true(),
                max_requests_per_second: default_max_requests_per_second(),
                ip_whitelist: Vec::new(),
                ip_blacklist: Vec::new(),
            },
            logging: LoggingConfig {
                level: default_log_level(),
                log_requests: default_false(),
                log_file: None,
            },
            webserver: WebServerConfig {
                port: default_web_port(),
                bind_address: default_web_bind_address(),
            },
        };
        proof {
            lemma_source_names_differ();
        }
        r
    }
}

/// The two names of a clock source are different texts.
pub proof fn lemma_source_names_differ()
    ensures
        "system"@ != "gps"@,
{
    reveal_strlit("system");
    reveal_strlit("gps");
    assert("system"@.len() == 6);
    assert("gps"@.len() == 3);
}

impl Config {
    /// The rules a configuration must meet, in the order they are checked:
    /// a stratum from 1 to 15, a clock source named `system` or `gps`, and
    /// a receiver where the source is `gps`.
    pub open spec fn spec_validate(&self) -> Result<(), ConfigError> {
        if self.server.stratum == 0 || self.server.stratum > 15 {
            Err(ConfigError::InvalidStratum)
        } else if self.clock.source@ != "system"@ && self.clock.source@ != "gps"@ {
            Err(ConfigError::InvalidClockSource)
        } else if self.clock.source@ == "gps"@ && self.clock.gps is None {
            Err(ConfigError::MissingGpsConfig)
        } else {
            Ok(())
        }
    }

    /// Checks the configuration.
    pub fn validate(&self) -> (r: Result<(), ConfigError>)
        ensures
            r == self.spec_validate(),
    {
        if self.server.stratum == 0 || self.server.stratum > 15 {
            return Err(ConfigError::InvalidStratum);
        }
        let system: String = "system".to_owned();
        let gps: String = "gps".to_owned();
        let is_system: bool = self.clock.source == system;
        let is_gps: bool = self.clock.source == gps;
        if !is_system && !is_gps {
            return Err(ConfigError::InvalidClockSource);
        }
        if is_gps && self.clock.gps.is_none() {
            return Err(ConfigError::MissingGpsConfig);
        }
        Ok(())
    }

    /// The clock that the configuration selects, if it is valid: the system
    /// clock for the source `system`; for the source `gps` the
    /// GPS-disciplined clock, with its reader where the receiver is enabled.
    pub open spec fn spec_clock_plan(&self) -> Result<ClockPlan, ConfigError> {
        match self.spec_validate() {
            Err(e) => Err(e),
            Ok(()) => if self.clock.source@ == "gps"@ {
                Ok(
                    ClockPlan::Gps {
                        sync_timeout: self.clock.gps->Some_0.sync_timeout,
                        start_reader: self.clock.gps->Some_0.enabled,
                    },
                )
            } else {
                Ok(ClockPlan::System)
            },
        }
    }

    /// Tells which clock to start.
    pub fn clock_plan(&self) -> (r: Result<ClockPlan, ConfigError>)
        ensures
            r == self.spec_clock_plan(),
    {
        match self.validate() {
            Err(e) => Err(e),
            Ok(()) => {
                let gps: String = "gps".to_owned();
                if self.clock.source == gps {
                    match &self.clock.gps {
                        Some(receiver) => Ok(
                            ClockPlan::Gps {
                                sync_timeout: receiver.sync_timeout,
                                start_reader: receiver.enabled,
                            },
                        ),
                        None => Err(ConfigError::MissingGpsConfig),
                    }
                } else {
                    Ok(ClockPlan::System)
                }
            },
        }
    }

    /// An example configuration for a GPS-disciplined primary server, with
    /// the serial device and the log file that `platform` is used to.
    pub fn create_example_config(platform: Platform) -> (r: Self)
        ensures
            r.server.bind_address@ == "0.0.0.0:123"@,
            r.server.stratum == 1,
            r.server.precision == -20,
            r.server.poll_interval == 6,
            r.clock.source@ == "gps"@,
            r.clock.gps matches Some(gps) && gps.enabled && gps.baud_rate == 9600
                && gps.sync_timeout == 30 && gps.min_satellites == 4 && gps.pps_enabled
                && gps.pps_gpio_pin == Some(18u32) && gps.serial_port@ == (match platform {
                Platform::Windows => "COM9"@,
                Platform::Unix => "/dev/ttyUSB0"@,
            }),
            r.security.enable_rate_limiting,
            r.security.max_requests_per_second == 100,
            r.security.ip_whitelist@.len() == 0,
            r.security.ip_blacklist@.len() == 0,
            r.logging.level@ == "info"@,
            r.logging.log_requests,
            r.logging.log_file matches Some(file) && file@ == (match platform {
                Platform::Windows => "pendulum.log"@,
                Platform::Unix => "/var/log/pendulum.log"@,
            }),
            r.webserver.port == 8080,
            r.webserver.bind_address@ == "0.0.0.0"@,
            r.spec_validate() is Ok,
    {
        let (serial_port, log_file) = match platform {
            Platform::Windows => ("COM9".to_owned(), "pendulum.log".to_owned()),
            Platform::Unix => ("/dev/ttyUSB0".to_owned(), "/var/log/pendulum.log".to_owned()),
        };
        Config {
            server: ServerConfig {
                bind_address: "0.0.0.0:123".to_owned(),
                stratum: 1,
                precision: -20,
                poll_interval: 6,
            },
            clock: ClockConfig {
                source: "gps".to_owned(),
                gps: Some(
                    GpsConfig {
                        enabled: true,
                        serial_port,
                        baud_rate: 9600,
                        sync_timeout: 30,
                        min_satellites: 4,
                        pps_enabled: true,
                        pps_gpio_pin: Some(18),
                    },
                ),
            },
            security: SecurityConfig {
                enable_rate_limiting: true,
                max_requests_per_second: 100,
                ip_whitelist: Vec::new(),
                ip_blacklist: Vec::new(),
            },
            logging: LoggingConfig {
                level: "info".to_owned(),
                log_requests: true,
                log_file: Some(log_file),
            },
            webserver: WebServerConfig { port: 8080, bind_address: "0.0.0.0".to_owned() },
        }
    }
}

} // verus!
