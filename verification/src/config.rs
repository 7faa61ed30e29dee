//! The transports' configuration types, their defaults, and the example
//! snippets that configuration tooling writes into fresh TOML files.

use vstd::prelude::*;

use crate::DEFAULT_TIMEOUT_SECS;

verus! {

/// A configuration data structure that provides an example for generating
/// new TOML configuration files. The example should include customizable
/// fields with comments explaining their purpose.
pub trait ConfigExampleSnippet {
    /// Returns the configuration example snippet to be used in new
    /// configuration files.
    fn config_example_snippet() -> String;
}

/// Configuration for the stdio client.
#[derive(Clone)]
pub struct StdioClientConfig {
    /// Optional directory the child process binary is looked up in;
    /// absent means the program resolves via PATH.
    pub bin_path: Option<String>,
    /// Timeout for client requests, in seconds.
    pub timeout_secs: u64,
}

impl Default for StdioClientConfig {
    fn default() -> (r: Self)
        ensures
            r.bin_path == None::<String>,
            r.timeout_secs == DEFAULT_TIMEOUT_SECS,
    {
        Self { bin_path: None, timeout_secs: DEFAULT_TIMEOUT_SECS }
    }
}

impl ConfigExampleSnippet for StdioClientConfig {
    fn config_example_snippet() -> String {
        "# Path containing the server binaries, defaults to $PATH\n# bin_path = \"\"\n\n# The timeout duration in seconds for requests, defaults to 900\n# timeout_secs = 60".to_owned()
    }
}

/// Configuration for the stdio server.
#[derive(Clone)]
pub struct StdioServerConfig {
    /// Timeout for handler invocations, in seconds.
    pub service_timeout_secs: u64,
}

impl Default for StdioServerConfig {
    fn default() -> (r: Self)
        ensures
            r.service_timeout_secs == DEFAULT_TIMEOUT_SECS,
    {
        Self { service_timeout_secs: DEFAULT_TIMEOUT_SECS }
    }
}

impl ConfigExampleSnippet for StdioServerConfig {
    fn config_example_snippet() -> String {
        "# The timeout duration in seconds for the underlying backend service.\n# service_timeout_secs = 60".to_owned()
    }
}

/// Configuration for the HTTP client.
#[derive(Clone)]
pub struct HttpClientConfig {
    /// Base URL prefix for all outgoing requests.
    pub base_url: String,
    /// API key to attach to requests, carried in the `X-API-Key` header.
    pub api_key: Option<String>,
    /// Timeout for client requests, in seconds.
    pub timeout_secs: u64,
}

impl Default for HttpClientConfig {
    fn default() -> (r: Self)
        ensures
            r.base_url@ == Seq::<char>::empty(),
            r.api_key == None::<String>,
            r.timeout_secs == DEFAULT_TIMEOUT_SECS,
    {
        Self { base_url: String::new(), api_key: None, timeout_secs: DEFAULT_TIMEOUT_SECS }
    }
}

impl ConfigExampleSnippet for HttpClientConfig {
    fn config_example_snippet() -> String {
        "# The base URL for the HTTP client.\n# base_url = \"https://example.com\"\n\n# The API key for authenticating requests (optional).\n# This field can be omitted if an API key is not required.\n# api_key = \"YOUR_API_KEY\"\n\n# The timeout duration in seconds for requests, defaults to 900\n# timeout_secs = 60".to_owned()
    }
}

/// Configuration for the HTTP server.
#[derive(Clone)]
pub struct HttpServerConfig {
    /// Port to listen on.
    pub port: u16,
    /// Accepted API keys; empty means no key is needed to make a request.
    pub api_keys: Vec<String>,
    /// Timeout for handler invocations, in seconds.
    pub service_timeout_secs: u64,
}

impl Default for HttpServerConfig {
    fn default() -> (r: Self)
        ensures
            r.port == 8080,
            r.api_keys@ == Seq::<String>::empty(),
            r.service_timeout_secs == DEFAULT_TIMEOUT_SECS,
    {
        Self { port: 8080, api_keys: Vec::new(), service_timeout_secs: DEFAULT_TIMEOUT_SECS }
    }
}

impl ConfigExampleSnippet for HttpServerConfig {
    fn config_example_snippet() -> String {
        "# The port number on which the server listens.\n# port = 8080\n\n# The API keys allowed to access the server. If omitted, an API key is\n# not needed to make a request.\n# api_keys = [\"key1\", \"key2\", \"key3\"]\n\n# The timeout duration in seconds for the underlying backend service.\n# service_timeout_secs = 60".to_owned()
    }
}

} // verus!
