use vstd::prelude::*;

verus! {

/// The `server` section of the configuration file.
#[derive(Debug, Clone)]
struct ServerConfig {
    password: String,
    host: String,
    port1: String,
    port2: String,
}

/// The server's configuration: the password that clients must send, the host address
/// and the two ports.
#[derive(Debug, Clone)]
pub struct Config {
    server: ServerConfig,
}

/// What a configuration holds.
pub struct ConfigView {
    pub password: Seq<char>,
    pub host: Seq<char>,
    pub port1: Seq<char>,
    pub port2: Seq<char>,
}

impl View for Config {
    type V = ConfigView;

    closed spec fn view(&self) -> ConfigView {
        ConfigView {
            password: self.server.password@,
            host: self.server.host@,
            port1: self.server.port1@,
            port2: self.server.port2@,
        }
    }
}

impl Config {
    /// A configuration with the given `server` section.
    pub fn new(password: String, host: String, port1: String, port2: String) -> (c: Config)
        ensures
            c@.password == password@,
            c@.host == host@,
            c@.port1 == port1@,
            c@.port2 == port2@,
    {
        Config { server: ServerConfig { password, host, port1, port2 } }
    }
}

/// The password that a client must send.
pub fn get_password(config: &Config) -> (r: String)
    ensures
        r@ == config@.password,
{
    config.server.password.clone()
}

/// The address the server binds to and the client connects to.
pub fn get_hostip(config: &Config) -> (r: String)
    ensures
        r@ == config@.host,
{
    config.server.host.clone()
}

/// The port of the registration service.
pub fn get_port1(config: &Config) -> (r: String)
    ensures
        r@ == config@.port1,
{
    config.server.port1.clone()
}

/// The second port of the configuration.
pub fn get_port2(config: &Config) -> (r: String)
    ensures
        r@ == config@.port2,
{
    config.server.port2.clone()
}

} // verus!
