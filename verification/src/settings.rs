//! Application settings: their shape, their defaults, and what is derived
//! from them.

use vstd::prelude::*;
use vstd::string::*;

use crate::text::{decimal, u64_text};

verus! {

/// Root settings structure.
#[derive(Debug)]
pub struct Settings {
    pub server: ServerSettings,
    pub database: DatabaseSettings,
    pub jwt: JwtSettings,
    pub click_router: ClickRouterSettings,
    pub click_aggregator: ClickAggregatorSettings,
    pub elasticsearch: ElasticsearchSettings,
    pub minio: MinioSettings,
    pub rabbitmq: RabbitMqSettings,
    pub shared_domains: SharedDomainsSettings,
}

/// Shared domains settings.
#[derive(Debug)]
pub struct SharedDomainsSettings {
    pub names: Vec<String>,
}

impl Default for SharedDomainsSettings {
    /// One shared domain, `shortas.space`.
    fn default() -> (r: Self)
        ensures
            r.names@.len() == 1,
            r.names@[0]@ == "shortas.space"@,
    {
        SharedDomainsSettings { names: vec![String::from_str("shortas.space")] }
    }
}

/// HTTP server settings.
#[derive(Debug)]
pub struct ServerSettings {
    pub host: String,
    pub port: u16,
}

impl Default for ServerSettings {
    /// All interfaces, port 8080.
    fn default() -> (r: Self)
        ensures
            r.host@ == "0.0.0.0"@,
            r.port == 8080,
    {
        ServerSettings { host: String::from_str("0.0.0.0"), port: 8080 }
    }
}

/// PostgreSQL database settings.
#[derive(Debug)]
pub struct DatabaseSettings {
    pub host: String,
    pub port: u16,
    pub username: String,
    pub password: String,
    pub database: String,
    pub max_connections: u32,
}

/// `postgres://<user>:<password>@<host>:<port>/<database>`.
pub open spec fn postgres_url(user: Seq<char>, password: Seq<char>, host: Seq<char>, port: u16, database: Seq<char>) -> Seq<char> {
    "postgres://"@ + user + ":"@ + password + "@"@ + host + ":"@ + decimal(port as nat) + "/"@ + database
}

impl DatabaseSettings {
    /// Get the connection string.
    pub fn connection_string(&self) -> (r: String)
        ensures
            r@ == postgres_url(self.username@, self.password@, self.host@, self.port, self.database@),
    {
        let mut s = String::from_str("postgres://");
        s.append(self.username.as_str());
        s.append(":");
        s.append(self.password.as_str());
        s.append("@");
        s.append(self.host.as_str());
        s.append(":");
        let port = u64_text(self.port as u64);
        s.append(port.as_str());
        s.append("/");
        s.append(self.database.as_str());
        s
    }
}

impl Default for DatabaseSettings {
    /// A local `shortas` database on port 5432 as `postgres`, ten connections.
    fn default() -> (r: Self)
        ensures
            r.host@ == "localhost"@,
            r.port == 5432,
            r.username@ == "postgres"@,
            r.password@ == "postgres"@,
            r.database@ == "shortas"@,
            r.max_connections == 10,
    {
        DatabaseSettings {
            host: String::from_str("localhost"),
            port: 5432,
            username: String::from_str("postgres"),
            password: String::from_str("postgres"),
            database: String::from_str("shortas"),
            max_connections: 10,
        }
    }
}

/// JWT authentication settings.
#[derive(Debug)]
pub struct JwtSettings {
    pub issuer: String,
    pub audience: String,
    pub jwks_url: String,
}

impl Default for JwtSettings {
    fn default() -> (r: Self)
        ensures
            r.issuer@ == "https://auth.shortas.work/realms/shortas"@,
            r.audience@ == "shortas-api"@,
            r.jwks_url@ == "https://auth.shortas.work/realms/shortas/protocol/openid-connect/certs"@,
    {
        JwtSettings {
            issuer: String::from_str("https://auth.shortas.work/realms/shortas"),
            audience: String::from_str("shortas-api"),
            jwks_url: String::from_str("https://auth.shortas.work/realms/shortas/protocol/openid-connect/certs"),
        }
    }
}

/// Click Router API settings.
#[derive(Debug)]
pub struct ClickRouterSettings {
    pub base_url: String,
    pub timeout_ms: u64,
}

impl Default for ClickRouterSettings {
    fn default() -> (r: Self)
        ensures
            r.base_url@ == "http://localhost:8081"@,
            r.timeout_ms == 5000,
    {
        ClickRouterSettings { base_url: String::from_str("http://localhost:8081"), timeout_ms: 5000 }
    }
}

/// Click Aggregator API settings.
#[derive(Debug)]
pub struct ClickAggregatorSettings {
    pub base_url: String,
    pub timeout_ms: u64,
}

impl Default for ClickAggregatorSettings {
    fn default() -> (r: Self)
        ensures
            r.base_url@ == "http://localhost:8082"@,
            r.timeout_ms == 10000,
    {
        ClickAggregatorSettings { base_url: String::from_str("http://localhost:8082"), timeout_ms: 10000 }
    }
}

/// Elasticsearch settings.
#[derive(Debug)]
pub struct ElasticsearchSettings {
    pub url: String,
    pub routes_index: String,
}

impl Default for ElasticsearchSettings {
    fn default() -> (r: Self)
        ensures
            r.url@ == "http://localhost:9200"@,
            r.routes_index@ == "routes"@,
    {
        ElasticsearchSettings { url: String::from_str("http://localhost:9200"), routes_index: String::from_str("routes") }
    }
}

/// MinIO/S3 settings.
#[derive(Debug)]
pub struct MinioSettings {
    pub endpoint: String,
    /// Public endpoint for presigned URLs (browser-accessible). Falls back to endpoint if not set.
    pub public_endpoint: Option<String>,
    pub region: String,
    pub access_key: String,
    pub secret_key: String,
    pub bucket: String,
}

impl Default for MinioSettings {
    fn default() -> (r: Self)
        ensures
            r.endpoint@ == "http://localhost:9000"@,
            r.public_endpoint is None,
            r.region@ == "us-east-1"@,
            r.access_key@ == "minioadmin"@,
            r.secret_key@ == "minioadmin"@,
            r.bucket@ == "shortas"@,
    {
        MinioSettings {
            endpoint: String::from_str("http://localhost:9000"),
            public_endpoint: None,
            region: String::from_str("us-east-1"),
            access_key: String::from_str("minioadmin"),
            secret_key: String::from_str("minioadmin"),
            bucket: String::from_str("shortas"),
        }
    }
}

/// RabbitMQ settings.
#[derive(Debug)]
pub struct RabbitMqSettings {
    pub url: String,
    pub domain_verification_queue: String,
    pub route_status_queue: String,
}

impl Default for RabbitMqSettings {
    fn default() -> (r: Self)
        ensures
            r.url@ == "amqp://localhost:5672"@,
            r.domain_verification_queue@ == "domain-verification"@,
            r.route_status_queue@ == "route-status"@,
    {
        RabbitMqSettings {
            url: String::from_str("amqp://localhost:5672"),
            domain_verification_queue: String::from_str("domain-verification"),
            route_status_queue: String::from_str("route-status"),
        }
    }
}

impl Default for Settings {
    /// Every section at its default.
    fn default() -> (r: Self)
        ensures
            r.server.host@ == "0.0.0.0"@ && r.server.port == 8080,
            r.database.host@ == "localhost"@ && r.database.port == 5432,
            r.database.username@ == "postgres"@ && r.database.password@ == "postgres"@,
            r.database.database@ == "shortas"@ && r.database.max_connections == 10,
            r.jwt.issuer@ == "https://auth.shortas.work/realms/shortas"@,
            r.jwt.audience@ == "shortas-api"@,
            r.jwt.jwks_url@ == "https://auth.shortas.work/realms/shortas/protocol/openid-connect/certs"@,
            r.click_router.base_url@ == "http://localhost:8081"@ && r.click_router.timeout_ms == 5000,
            r.click_aggregator.base_url@ == "http://localhost:8082"@ && r.click_aggregator.timeout_ms == 10000,
            r.elasticsearch.url@ == "http://localhost:9200"@ && r.elasticsearch.routes_index@ == "routes"@,
            r.minio.endpoint@ == "http://localhost:9000"@ && r.minio.public_endpoint is None,
            r.minio.region@ == "us-east-1"@ && r.minio.bucket@ == "shortas"@,
            r.minio.access_key@ == "minioadmin"@ && r.minio.secret_key@ == "minioadmin"@,
            r.rabbitmq.url@ == "amqp://localhost:5672"@,
            r.rabbitmq.domain_verification_queue@ == "domain-verification"@,
            r.rabbitmq.route_status_queue@ == "route-status"@,
            r.shared_domains.names@.len() == 1 && r.shared_domains.names@[0]@ == "shortas.space"@,
    {
        Settings {
            server: ServerSettings::default(),
            database: DatabaseSettings::default(),
            jwt: JwtSettings::default(),
            click_router: ClickRouterSettings::default(),
            click_aggregator: ClickAggregatorSettings::default(),
            elasticsearch: ElasticsearchSettings::default(),
            minio: MinioSettings::default(),
            rabbitmq: RabbitMqSettings::default(),
            shared_domains: SharedDomainsSettings::default(),
        }
    }
}

/// The run mode used where none is given.
pub open spec fn default_run_mode() -> Seq<char> {
    "development"@
}

/// The configuration directory used where none is given.
pub open spec fn default_config_path() -> Seq<char> {
    "./config"@
}

/// The configuration files, in the order in which later ones override
/// earlier ones: `<path>/default`, `<path>/<run mode>` and `<path>/local`.
pub struct ConfigFiles {
    pub default_file: String,
    pub mode_file: String,
    pub local_file: String,
}

/// The configuration files read for a run mode and directory (each defaulted
/// where absent).
pub fn config_files(run_mode: Option<&str>, config_path: Option<&str>) -> (r: ConfigFiles)
    ensures
        ({
            let mode = match run_mode { Some(m) => m@, None => default_run_mode() };
            let path = match config_path { Some(p) => p@, None => default_config_path() };
            &&& r.default_file@ == path + "/default"@
            &&& r.mode_file@ == path + "/"@ + mode
            &&& r.local_file@ == path + "/local"@
        }),
{
    let mode: &str = match run_mode {
        Some(m) => m,
        None => "development",
    };
    let path: &str = match config_path {
        Some(p) => p,
        None => "./config",
    };
    let mut default_file = String::from_str(path);
    default_file.append("/default");
    let mut mode_file = String::from_str(path);
    mode_file.append("/");
    mode_file.append(mode);
    let mut local_file = String::from_str(path);
    local_file.append("/local");
    ConfigFiles { default_file, mode_file, local_file }
}

} // verus!
