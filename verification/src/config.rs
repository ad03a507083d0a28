//! Service configuration: the settings and their defaults.
use vstd::prelude::*;

verus! {

/// An IP address a listener binds to: a 32-bit IPv4 address or a 128-bit
/// IPv6 address, each in network (big-endian) order.
#[derive(Clone, Copy, Debug, PartialEq, Eq, Structural)]
pub enum IpAddress {
    V4(u32),
    V6(u128),
}

/// The whole configuration of the service.
#[derive(Clone, Debug)]
pub struct Config {
    pub database: DatabaseConfig,
    pub api: ApiConfig,
    pub embedders: EmbeddersConfig,
}

/// Where the vector database is reached.
#[derive(Clone, Debug)]
pub struct DatabaseConfig {
    pub url: String,
}

/// Where the HTTP interface listens.
#[derive(Clone, Debug)]
pub struct ApiConfig {
    pub host: Vec<IpAddress>,
    pub port: u16,
}

/// Which embedding providers are configured.
#[derive(Clone, Debug)]
pub struct EmbeddersConfig {
    pub gemini: Option<EmbeddersGeminiConfig>,
}

/// Credentials of the Gemini embedding provider.
#[derive(Clone, Debug)]
pub struct EmbeddersGeminiConfig {
    pub api_key: String,
}

/// The database URL used when none is configured.
pub open spec fn spec_default_database_url() -> Seq<char> {
    "http://localhost:6334"@
}

/// The port used when none is configured.
pub open spec fn spec_default_api_port() -> u16 {
    6335
}

/// The addresses listened on when none are configured: the unspecified
/// IPv6 address `::` alone.
pub open spec fn spec_default_api_host() -> Seq<IpAddress> {
    seq![IpAddress::V6(0)]
}

pub fn default_database_url() -> (url: String)
    ensures
        url@ == spec_default_database_url(),
{
    String::from_str("http://localhost:6334")
}

pub fn default_api_host() -> (host: Vec<IpAddress>)
    ensures
        host@ == spec_default_api_host(),
{
    let mut host = Vec::new();
    host.push(IpAddress::V6(0));
    host
}

pub fn default_api_port() -> (port: u16)
    ensures
        port == spec_default_api_port(),
{
    6335
}

impl Default for DatabaseConfig {
    fn default() -> (config: Self)
        ensures
            config.url@ == spec_default_database_url(),
    {
        DatabaseConfig { url: default_database_url() }
    }
}

impl Default for ApiConfig {
    fn default() -> (config: Self)
        ensures
            config.host@ == spec_default_api_host(),
            config.port == spec_default_api_port(),
    {
        ApiConfig { host: default_api_host(), port: default_api_port() }
    }
}

} // verus!
