//! Connection settings that the client keeps in `connection.json` under the
//! application's configuration directory.

use vstd::prelude::*;

verus! {

/// Name of the file, inside the application configuration directory, that
/// holds the connection settings. Reading and writing use the same name.
pub const CONNECTION_CONFIG_FILE: &'static str = "connection.json";

/// Where the terminal server is and who logs in.
#[derive(Clone, Debug)]
pub struct ConnectionConfig {
    pub server_host: String,
    pub server_port: u16,
    pub protocol: String,
    pub account: String,
}

/// The mathematical value of a [`ConnectionConfig`].
pub struct ConnectionConfigView {
    pub server_host: Seq<char>,
    pub server_port: u16,
    pub protocol: Seq<char>,
    pub account: Seq<char>,
}

impl View for ConnectionConfig {
    type V = ConnectionConfigView;

    open spec fn view(&self) -> ConnectionConfigView {
        ConnectionConfigView {
            server_host: self.server_host@,
            server_port: self.server_port,
            protocol: self.protocol@,
            account: self.account@,
        }
    }
}

/// The settings used while no file has been saved: the local server on the
/// mod's usual port, over plain HTTP, with no account.
pub open spec fn default_connection_config() -> ConnectionConfigView {
    ConnectionConfigView {
        server_host: "127.0.0.1"@,
        server_port: 8765,
        protocol: "http"@,
        account: Seq::empty(),
    }
}

impl Default for ConnectionConfig {
    fn default() -> (config: ConnectionConfig)
        ensures
            config@ == default_connection_config(),
            config.server_host@ == "127.0.0.1"@,
            config.server_port == 8765,
            config.protocol@ == "http"@,
            config.account@.len() == 0,
    {
        ConnectionConfig {
            server_host: "127.0.0.1".to_owned(),
            server_port: 8765,
            protocol: "http".to_owned(),
            account: String::new(),
        }
    }
}

/// Settles the connection settings from what was found on disk.
///
/// `stored` is `None` when the settings file does not exist, `Some(Ok(c))`
/// when it was read and decoded to `c`, and `Some(Err(e))` when reading or
/// decoding failed with message `e`. A missing file yields the defaults.
pub fn get_connection_config(stored: Option<Result<ConnectionConfig, String>>) -> (res: Result<
    ConnectionConfig,
    String,
>)
    ensures
        stored is None ==> res is Ok && res->Ok_0@ == default_connection_config(),
        stored matches Some(Ok(c)) ==> res is Ok && res->Ok_0@ == c@,
        stored matches Some(Err(e)) ==> res is Err && res->Err_0@ == e@,
{
    match stored {
        None => Ok(ConnectionConfig::default()),
        Some(Ok(c)) => Ok(c),
        Some(Err(e)) => Err(e),
    }
}

} // verus!
