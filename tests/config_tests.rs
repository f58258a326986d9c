use jobsuche_mcp_server::config::{
    check_page_sizes, default_max_page_size, default_page_size, ConfigError, JobsucheConfig,
};

#[test]
fn test_default_config() {
    let config = JobsucheConfig::default();
    assert_eq!(
        config.api_url,
        "https://rest.arbeitsagentur.de/jobboerse/jobsuche-service"
    );
    assert_eq!(config.api_key, None);
    assert_eq!(config.default_page_size, 25);
    assert_eq!(config.max_page_size, 100);
}

#[test]
fn test_default_page_size() {
    assert_eq!(default_page_size(), 25);
}

#[test]
fn test_default_max_page_size() {
    assert_eq!(default_max_page_size(), 100);
}

#[test]
fn test_validate_valid_config() {
    let config = JobsucheConfig::default();
    assert!(config.validate().is_ok());
}

#[test]
fn test_validate_empty_url() {
    let mut config = JobsucheConfig::default();
    config.api_url = "".to_string();
    let result = config.validate();
    assert!(result.is_err());
    assert!(result
        .unwrap_err()
        .message()
        .contains("API URL cannot be empty"));
}

#[test]
fn test_validate_invalid_url_scheme() {
    let mut config = JobsucheConfig::default();
    config.api_url = "ftp://example.com".to_string();
    let result = config.validate();
    assert!(result.is_err());
    assert!(result
        .unwrap_err()
        .message()
        .contains("API URL must start with http:// or https://"));
}

#[test]
fn test_validate_http_url() {
    let mut config = JobsucheConfig::default();
    config.api_url = "http://example.com".to_string();
    assert!(config.validate().is_ok());
}

#[test]
fn test_validate_https_url() {
    let mut config = JobsucheConfig::default();
    config.api_url = "https://example.com".to_string();
    assert!(config.validate().is_ok());
}

#[test]
fn validate_rejects_prefix_without_slashes() {
    let mut config = JobsucheConfig::default();
    config.api_url = "https:example.com".to_string();
    assert_eq!(config.validate(), Err(ConfigError::InvalidUrlScheme));
}

#[test]
fn from_settings_all_absent_gives_defaults() {
    let config = JobsucheConfig::from_settings(None, None, None, None).unwrap();
    assert_eq!(
        config.api_url,
        "https://rest.arbeitsagentur.de/jobboerse/jobsuche-service"
    );
    assert_eq!(config.api_key, None);
    assert_eq!(config.default_page_size, 25);
    assert_eq!(config.max_page_size, 100);
}

#[test]
fn from_settings_takes_url_and_key() {
    let config = JobsucheConfig::from_settings(
        Some("https://custom.api.example.com".to_string()),
        Some("test-key-123".to_string()),
        None,
        None,
    )
    .unwrap();
    assert_eq!(config.api_url, "https://custom.api.example.com");
    assert_eq!(config.api_key, Some("test-key-123".to_string()));
}

#[test]
fn from_settings_reads_page_sizes() {
    let config = JobsucheConfig::from_settings(
        None,
        None,
        Some("50".to_string()),
        Some("75".to_string()),
    )
    .unwrap();
    assert_eq!(config.default_page_size, 50);
    assert_eq!(config.max_page_size, 75);
}

#[test]
fn from_settings_accepts_plus_sign() {
    let config =
        JobsucheConfig::from_settings(None, None, Some("+40".to_string()), None).unwrap();
    assert_eq!(config.default_page_size, 40);
}

#[test]
fn from_settings_unreadable_page_size_falls_back() {
    let config =
        JobsucheConfig::from_settings(None, None, Some("not-a-number".to_string()), None)
            .unwrap();
    assert_eq!(config.default_page_size, 25);
    let config =
        JobsucheConfig::from_settings(None, None, Some(" 30".to_string()), None).unwrap();
    assert_eq!(config.default_page_size, 25);
}

#[test]
fn from_settings_zero_default_page_size() {
    let result = JobsucheConfig::from_settings(None, None, Some("0".to_string()), None);
    let err = result.unwrap_err();
    assert_eq!(err, ConfigError::ZeroDefaultPageSize);
    assert!(err
        .message()
        .contains("Default page size must be greater than 0"));
}

#[test]
fn from_settings_zero_max_page_size() {
    let result = JobsucheConfig::from_settings(None, None, None, Some("0".to_string()));
    let err = result.unwrap_err();
    assert_eq!(err, ConfigError::ZeroMaxPageSize);
    assert_eq!(err.message(), "Max page size must be greater than 0");
}

#[test]
fn from_settings_default_exceeding_max() {
    let result = JobsucheConfig::from_settings(
        None,
        None,
        Some("200".to_string()),
        Some("100".to_string()),
    );
    let err = result.unwrap_err();
    assert_eq!(
        err,
        ConfigError::DefaultExceedsMax {
            default_page_size: 200,
            max_page_size: 100
        }
    );
    assert_eq!(
        err.message(),
        "Default page size (200) cannot exceed max page size (100)"
    );
}

#[test]
fn from_settings_max_exceeding_api_limit() {
    let result = JobsucheConfig::from_settings(None, None, None, Some("150".to_string()));
    let err = result.unwrap_err();
    assert_eq!(err, ConfigError::MaxExceedsApiLimit);
    assert!(err.message().contains("Max page size cannot exceed 100"));
}

#[test]
fn check_page_sizes_accepts_valid_bounds() {
    assert_eq!(check_page_sizes(1, 1), Ok(()));
    assert_eq!(check_page_sizes(25, 100), Ok(()));
    assert_eq!(check_page_sizes(100, 101), Err(ConfigError::MaxExceedsApiLimit));
}
