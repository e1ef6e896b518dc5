//! Gateway configuration, built from the settings that the environment gave.
use vstd::prelude::*;
use vstd::string::*;

verus! {

/// The settings as they were found; `None` where a variable was not set.
pub struct EnvSettings {
    pub port: Option<String>,
    pub host: Option<String>,
    pub user_service_url: Option<String>,
    pub payments_service_url: Option<String>,
    pub sales_service_url: Option<String>,
    pub purchasing_service_url: Option<String>,
    pub inventory_service_url: Option<String>,
    pub customer_service_url: Option<String>,
    pub environment: Option<String>,
    pub log_level: Option<String>,
}

/// Application configuration.
pub struct AppConfig {
    pub port: u16,
    pub host: String,
    pub user_service_url: String,
    pub payments_service_url: String,
    pub sales_service_url: String,
    pub purchasing_service_url: String,
    pub inventory_service_url: String,
    pub customer_service_url: String,
    pub environment: String,
    pub log_level: String,
}

/// Why a configuration could not be built.
pub enum ConfigError {
    /// The port setting is not a decimal number in 0..=65535.
    InvalidPort(String),
}

/// A setting's value, or the default where it is unset.
pub open spec fn setting_or(v: Option<String>, default: Seq<char>) -> Seq<char> {
    match v {
        Some(s) => s@,
        None => default,
    }
}

pub open spec fn is_digit(c: char) -> bool {
    '0' <= c && c <= '9'
}

/// The value of a string of decimal digits.
pub open spec fn digits_value(s: Seq<char>) -> nat
    decreases s.len(),
{
    if s.len() == 0 {
        0
    } else {
        digits_value(s.drop_last()) * 10 + (s.last() as nat - '0' as nat) as nat
    }
}

/// What `u16` parsing reads: an optional leading `+`, then one or more digits,
/// with a value that fits in 16 bits.
pub open spec fn parsed_u16(s: Seq<char>) -> Option<u16> {
    let d = if s.len() > 0 && s[0] == '+' { s.subrange(1, s.len() as int) } else { s };
    if d.len() > 0 && (forall|i: int| 0 <= i < d.len() ==> is_digit(#[trigger] d[i]))
        && digits_value(d) <= 65535 {
        Some(digits_value(d) as u16)
    } else {
        None
    }
}

/// Relies on `str::parse::<u16>`, whose documentation accepts an optional `+`
/// followed by decimal digits only, and fails on overflow.
#[verifier::external_body]
fn parse_u16(s: &str) -> (r: Option<u16>)
    ensures
        r == parsed_u16(s@),
{
    s.parse::<u16>().ok()
}

fn setting(v: Option<String>, default: &str) -> (r: String)
    ensures
        r@ == setting_or(v, default@),
{
    match v {
        Some(s) => s,
        None => String::from_str(default),
    }
}

impl AppConfig {
    pub open spec fn spec_is_development(&self) -> bool {
        self.environment@ == "development"@
    }

    /// Whether the gateway runs in development mode, where error details are
    /// disclosed to clients.
    pub fn is_development(&self) -> (r: bool)
        ensures
            r == self.spec_is_development(),
    {
        let dev = String::from_str("development");
        self.environment == dev
    }

    /// Builds the configuration, with a default for each unset setting.
    pub fn from_settings(env: EnvSettings) -> (r: Result<AppConfig, ConfigError>)
        ensures
            parsed_u16(setting_or(env.port, "3000"@)) is None <==> r is Err,
            r matches Err(ConfigError::InvalidPort(p)) ==> p@ == setting_or(env.port, "3000"@),
            r matches Ok(c) ==> {
                &&& Some(c.port) == parsed_u16(setting_or(env.port, "3000"@))
                &&& c.host@ == setting_or(env.host, "0.0.0.0"@)
                &&& c.user_service_url@ == setting_or(
                    env.user_service_url,
                    "http://user-service:3000"@,
                )
                &&& c.payments_service_url@ == setting_or(
                    env.payments_service_url,
                    "http://payments-service:3000"@,
                )
                &&& c.sales_service_url@ == setting_or(
                    env.sales_service_url,
                    "http://sales-service:3000"@,
                )
                &&& c.purchasing_service_url@ == setting_or(
                    env.purchasing_service_url,
                    "http://purchasing-service:3000"@,
                )
                &&& c.inventory_service_url@ == setting_or(
                    env.inventory_service_url,
                    "http://inventory-service:3000"@,
                )
                &&& c.customer_service_url@ == setting_or(
                    env.customer_service_url,
                    "http://customer-activity-service:3000"@,
                )
                &&& c.environment@ == setting_or(env.environment, "development"@)
                &&& c.log_level@ == setting_or(env.log_level, "info"@)
            },
    {
        let port_text = setting(env.port, "3000");
        let port = match parse_u16(port_text.as_str()) {
            Some(p) => p,
            None => {
                return Err(ConfigError::InvalidPort(port_text));
            },
        };
        Ok(AppConfig {
            port,
            host: setting(env.host, "0.0.0.0"),
            user_service_url: setting(env.user_service_url, "http://user-service:3000"),
            payments_service_url: setting(env.payments_service_url, "http://payments-service:3000"),
            sales_service_url: setting(env.sales_service_url, "http://sales-service:3000"),
            purchasing_service_url: setting(
                env.purchasing_service_url,
                "http://purchasing-service:3000",
            ),
            inventory_service_url: setting(
                env.inventory_service_url,
                "http://inventory-service:3000",
            ),
            customer_service_url: setting(
                env.customer_service_url,
                "http://customer-activity-service:3000",
            ),
            environment: setting(env.environment, "development"),
            log_level: setting(env.log_level, "info"),
        })
    }
}

} // verus!
