//! Configuration: the upstream base URL, an optional key and the page-size
//! bounds, with the checks that decide whether a configuration is usable.

use vstd::prelude::*;
use crate::text::{decimal, decimal_text, concat3, has_prefix, opt_text, parse_u64, parsed_u64, starts_with};

verus! {

/// The public base URL of the upstream job-search service.
pub const DEFAULT_API_URL: &'static str = "https://rest.arbeitsagentur.de/jobboerse/jobsuche-service";

/// The largest page size the upstream service accepts.
pub const API_PAGE_SIZE_LIMIT: u64 = 100;

/// Why a configuration was refused.
#[derive(Debug, Clone, PartialEq, Eq, Structural)]
pub enum ConfigError {
    EmptyUrl,
    InvalidUrlScheme,
    ZeroDefaultPageSize,
    ZeroMaxPageSize,
    DefaultExceedsMax { default_page_size: u64, max_page_size: u64 },
    MaxExceedsApiLimit,
}

/// The text that explains a configuration error.
pub open spec fn config_error_text(e: ConfigError) -> Seq<char> {
    match e {
        ConfigError::EmptyUrl => "API URL cannot be empty"@,
        ConfigError::InvalidUrlScheme => "API URL must start with http:// or https://"@,
        ConfigError::ZeroDefaultPageSize => "Default page size must be greater than 0"@,
        ConfigError::ZeroMaxPageSize => "Max page size must be greater than 0"@,
        ConfigError::DefaultExceedsMax { default_page_size, max_page_size } =>
            "Default page size ("@ + decimal(default_page_size as nat)
                + ") cannot exceed max page size ("@ + decimal(max_page_size as nat) + ")"@,
        ConfigError::MaxExceedsApiLimit => "Max page size cannot exceed 100 (API limitation)"@,
    }
}

impl ConfigError {
    /// The text that explains this error.
    pub fn message(&self) -> (r: String)
        ensures
            r@ == config_error_text(*self),
    {
        match self {
            ConfigError::EmptyUrl => String::from_str("API URL cannot be empty"),
            ConfigError::InvalidUrlScheme => String::from_str(
                "API URL must start with http:// or https://",
            ),
            ConfigError::ZeroDefaultPageSize => String::from_str(
                "Default page size must be greater than 0",
            ),
            ConfigError::ZeroMaxPageSize => String::from_str("Max page size must be greater than 0"),
            ConfigError::DefaultExceedsMax { default_page_size, max_page_size } => {
                let d = decimal_text(*default_page_size);
                let m = decimal_text(*max_page_size);
                let head = concat3("Default page size (", d.as_str(), ") cannot exceed max page size (");
                concat3(head.as_str(), m.as_str(), ")")
            },
            ConfigError::MaxExceedsApiLimit => String::from_str(
                "Max page size cannot exceed 100 (API limitation)",
            ),
        }
    }
}

/// Configuration of the service.
#[derive(Debug, Clone)]
pub struct JobsucheConfig {
    /// The upstream base URL.
    pub api_url: String,
    /// An API key; the upstream's public key is used when absent.
    pub api_key: Option<String>,
    /// Page size of a search that asks for none.
    pub default_page_size: u64,
    /// The largest page size ever sent upstream.
    pub max_page_size: u64,
}

/// Page size of a search that asks for none, unless configured otherwise.
pub fn default_page_size() -> (r: u64)
    ensures
        r == 25,
{
    25
}

/// The largest page size, unless configured otherwise.
pub fn default_max_page_size() -> (r: u64)
    ensures
        r == 100,
{
    100
}

impl Default for JobsucheConfig {
    fn default() -> (r: Self)
        ensures
            r.api_url@ == DEFAULT_API_URL@,
            r.api_key is None,
            r.default_page_size == 25,
            r.max_page_size == 100,
    {
        JobsucheConfig {
            api_url: String::from_str(DEFAULT_API_URL),
            api_key: None,
            default_page_size: default_page_size(),
            max_page_size: default_max_page_size(),
        }
    }
}

/// What checking a base URL gives: it must be non-empty and use HTTP or HTTPS.
pub open spec fn url_check(url: Seq<char>) -> Result<(), ConfigError> {
    if url.len() == 0 {
        Err(ConfigError::EmptyUrl)
    } else if !has_prefix(url, "http://"@) && !has_prefix(url, "https://"@) {
        Err(ConfigError::InvalidUrlScheme)
    } else {
        Ok(())
    }
}

/// What checking the page-size bounds gives: both positive, the default not
/// above the maximum, and the maximum within what the upstream accepts.
pub open spec fn page_size_check(default_page_size: u64, max_page_size: u64) -> Result<(), ConfigError> {
    if default_page_size == 0 {
        Err(ConfigError::ZeroDefaultPageSize)
    } else if max_page_size == 0 {
        Err(ConfigError::ZeroMaxPageSize)
    } else if default_page_size > max_page_size {
        Err(ConfigError::DefaultExceedsMax { default_page_size, max_page_size })
    } else if max_page_size > API_PAGE_SIZE_LIMIT {
        Err(ConfigError::MaxExceedsApiLimit)
    } else {
        Ok(())
    }
}

/// Page-size bounds that searches can rely on: `1 <= default <= max <= 100`.
pub open spec fn valid_page_sizes(default_page_size: u64, max_page_size: u64) -> bool {
    1 <= default_page_size <= max_page_size <= API_PAGE_SIZE_LIMIT
}

/// A page size read from a setting, or `fallback` when it is absent or not a number.
pub open spec fn page_size_setting(setting: Option<Seq<char>>, fallback: u64) -> u64 {
    match setting {
        Some(t) => match parsed_u64(t) {
            Some(v) => v,
            None => fallback,
        },
        None => fallback,
    }
}

/// Checks the page-size bounds.
pub fn check_page_sizes(default_page_size: u64, max_page_size: u64) -> (r: Result<(), ConfigError>)
    ensures
        r == page_size_check(default_page_size, max_page_size),
        r is Ok <==> valid_page_sizes(default_page_size, max_page_size),
{
    if default_page_size == 0 {
        Err(ConfigError::ZeroDefaultPageSize)
    } else if max_page_size == 0 {
        Err(ConfigError::ZeroMaxPageSize)
    } else if default_page_size > max_page_size {
        Err(ConfigError::DefaultExceedsMax { default_page_size, max_page_size })
    } else if max_page_size > API_PAGE_SIZE_LIMIT {
        Err(ConfigError::MaxExceedsApiLimit)
    } else {
        Ok(())
    }
}

fn page_size_from(setting: Option<String>, fallback: u64) -> (r: u64)
    ensures
        r == page_size_setting(opt_text(setting), fallback),
{
    match setting {
        Some(t) => match parse_u64(t.as_str()) {
            Some(v) => v,
            None => fallback,
        },
        None => fallback,
    }
}

impl JobsucheConfig {
    /// Builds a configuration from settings as they were read (each may be
    /// absent): a missing URL takes the public one, a missing or unreadable
    /// page size takes its default, and the page-size bounds are checked.
    pub fn from_settings(
        api_url: Option<String>,
        api_key: Option<String>,
        default_page_size_text: Option<String>,
        max_page_size_text: Option<String>,
    ) -> (r: Result<JobsucheConfig, ConfigError>)
        ensures
            ({
                let d = page_size_setting(opt_text(default_page_size_text), 25);
                let m = page_size_setting(opt_text(max_page_size_text), 100);
                match r {
                    Ok(c) => {
                        &&& page_size_check(d, m) is Ok
                        &&& c.api_url@ == (match api_url {
                            Some(u) => u@,
                            None => DEFAULT_API_URL@,
                        })
                        &&& c.api_key == api_key
                        &&& c.default_page_size == d
                        &&& c.max_page_size == m
                    },
                    Err(e) => page_size_check(d, m) == Err::<(), ConfigError>(e),
                }
            }),
    {
        let url = match api_url {
            Some(u) => u,
            None => String::from_str(DEFAULT_API_URL),
        };
        let d = page_size_from(default_page_size_text, default_page_size());
        let m = page_size_from(max_page_size_text, default_max_page_size());
        match check_page_sizes(d, m) {
            Ok(()) => Ok(JobsucheConfig {
                api_url: url,
                api_key,
                default_page_size: d,
                max_page_size: m,
            }),
            Err(e) => Err(e),
        }
    }

    /// Checks that the base URL is usable.
    pub fn validate(&self) -> (r: Result<(), ConfigError>)
        ensures
            r == url_check(self.api_url@),
    {
        let url = self.api_url.as_str();
        if url.is_empty() {
            Err(ConfigError::EmptyUrl)
        } else if !starts_with(url, "http://") && !starts_with(url, "https://") {
            Err(ConfigError::InvalidUrlScheme)
        } else {
            Ok(())
        }
    }
}

} // verus!
