//! Configuration defaults and example snippets.

use multilink::config::{
    ConfigExampleSnippet, HttpClientConfig, HttpServerConfig, StdioClientConfig,
    StdioServerConfig,
};
use multilink::DEFAULT_TIMEOUT_SECS;

#[test]
fn default_timeout_is_fifteen_minutes() {
    assert_eq!(DEFAULT_TIMEOUT_SECS, 900);
}

#[test]
fn stdio_client_defaults() {
    let c = StdioClientConfig::default();
    assert!(c.bin_path.is_none());
    assert_eq!(c.timeout_secs, 900);
}

#[test]
fn stdio_server_defaults() {
    let c = StdioServerConfig::default();
    assert_eq!(c.service_timeout_secs, 900);
}

#[test]
fn http_client_defaults() {
    let c = HttpClientConfig::default();
    assert_eq!(c.base_url, "");
    assert!(c.api_key.is_none());
    assert_eq!(c.timeout_secs, 900);
}

#[test]
fn http_server_defaults() {
    let c = HttpServerConfig::default();
    assert_eq!(c.port, 8080);
    assert!(c.api_keys.is_empty());
    assert_eq!(c.service_timeout_secs, 900);
}

#[test]
fn snippets_name_their_fields() {
    assert!(StdioClientConfig::config_example_snippet().contains("timeout_secs"));
    assert!(StdioServerConfig::config_example_snippet().contains("service_timeout_secs"));
    assert!(HttpClientConfig::config_example_snippet().contains("base_url"));
    assert!(HttpServerConfig::config_example_snippet().contains("port"));
}
