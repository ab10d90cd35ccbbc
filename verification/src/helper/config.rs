//! The configuration of the application.

use crate::helper::constants::{AGENT_DIR, AGENT_TCP_PORT};
use crate::helper::path::{join_path, joined};
use crate::helper::text::{decimal, decimal_text, parse_u16, parsed_u16};
use vstd::prelude::*;
use vstd::string::StringExecFns;

verus! {

/// Where the agent listens.
#[derive(Debug, Clone, PartialEq, Eq)]
pub struct TcpConfig {
    pub port: u16,
    pub host: String,
}

/// The configuration of the application.
#[derive(Debug, Clone, PartialEq, Eq)]
pub struct AppConfig {
    pub tcp: TcpConfig,
    pub agent_dir: String,
}

impl Default for TcpConfig {
    fn default() -> (config: TcpConfig)
        ensures
            config.port == AGENT_TCP_PORT,
            config.host@ == "localhost"@,
    {
        TcpConfig { port: AGENT_TCP_PORT, host: String::from_str("localhost") }
    }
}

impl Default for AppConfig {
    fn default() -> (config: AppConfig)
        ensures
            config.tcp.port == AGENT_TCP_PORT,
            config.tcp.host@ == "localhost"@,
            config.agent_dir@ == ""@,
    {
        AppConfig { tcp: TcpConfig::default(), agent_dir: String::from_str("") }
    }
}

/// The port that a start with this setting of the port uses: the number
/// that the setting is, or the default where there is none or it is no
/// port number.
pub open spec fn chosen_port(setting: Option<Seq<char>>) -> u16 {
    match setting {
        Some(text) => match parsed_u16(text) {
            Some(port) => port,
            None => AGENT_TCP_PORT,
        },
        None => AGENT_TCP_PORT,
    }
}

/// The host that a start with this setting of the host uses.
pub open spec fn chosen_host(setting: Option<Seq<char>>) -> Seq<char> {
    match setting {
        Some(host) => host,
        None => "localhost"@,
    }
}

/// The view of a text that may be missing.
pub open spec fn text_view(text: Option<&str>) -> Option<Seq<char>> {
    match text {
        Some(text) => Some(text@),
        None => None,
    }
}

impl AppConfig {
    /// The configuration for the settings found in the environment: the
    /// port and the host where they are set, the defaults where they are
    /// not, and the agent's directory below the working directory.
    pub fn new(port: Option<&str>, host: Option<&str>, current_dir: &str) -> (config: AppConfig)
        ensures
            config.tcp.port == chosen_port(text_view(port)),
            config.tcp.host@ == chosen_host(text_view(host)),
            config.agent_dir@ == joined(current_dir@, AGENT_DIR@),
    {
        let mut config = AppConfig::default();
        if let Some(text) = port {
            if let Some(number) = parse_u16(text) {
                config.tcp.port = number;
            }
        }
        if let Some(name) = host {
            config.tcp.host = String::from_str(name);
        }
        config.agent_dir = join_path(current_dir, AGENT_DIR);
        config
    }

    /// Whether the configuration can be used: the port must not be 0.
    pub fn validate(&self) -> (valid: Result<(), String>)
        ensures
            valid is Ok <==> self.tcp.port != 0,
            valid matches Err(reason) ==> reason@ == "TCP 端口不能为 0"@,
    {
        if self.tcp.port == 0 {
            return Err(String::from_str("TCP 端口不能为 0"));
        }
        Ok(())
    }

    /// The lines that show the configuration: a heading, then the address.
    pub fn print_config(&self) -> (lines: Vec<String>)
        ensures
            lines@.len() == 2,
            lines@[0]@ == "📋 应用程序配置:"@,
            lines@[1]@ == "    地址: "@ + self.tcp.host@ + ":"@ + decimal(self.tcp.port as nat),
    {
        let mut lines: Vec<String> = Vec::new();
        lines.push(String::from_str("📋 应用程序配置:"));
        let port = decimal_text(self.tcp.port as u64);
        lines.push(
            String::from_str("    地址: ").concat(self.tcp.host.as_str()).concat(":").concat(
                port.as_str(),
            ),
        );
        lines
    }
}

} // verus!
