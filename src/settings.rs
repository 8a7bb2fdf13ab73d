use vstd::prelude::*;

use crate::text::{decimal, eq_str, push_decimal};

verus! {

/// Directory that holds the configuration file and the CA certificate.
pub const CURRENT_DIR: &'static str = "./config/";

/// Name of the configuration file inside `CURRENT_DIR`.
pub const SETTING_NAME: &'static str = "Settings.toml";

/// All configuration read at start-up.
pub struct Settings {
    pub log: Log,
    pub server: Server,
    pub wechat_config: WechatConfig,
    pub database: Database,
    pub chat_gpt_config: ChatGptConfig,
}

/// Logging configuration: the level by name.
pub struct Log {
    pub level: String,
}

/// The most verbose kind of log record that is kept.
#[derive(Debug, Clone, Copy, PartialEq, Eq, Structural)]
pub enum LevelFilter {
    Error,
    Warn,
    Info,
    Debug,
    Trace,
}

/// The level that a configured name selects; unknown names select `Info`.
pub open spec fn level_of(name: Seq<char>) -> LevelFilter {
    if name == "error"@ {
        LevelFilter::Error
    } else if name == "warn"@ {
        LevelFilter::Warn
    } else if name == "info"@ {
        LevelFilter::Info
    } else if name == "debug"@ {
        LevelFilter::Debug
    } else if name == "trace"@ {
        LevelFilter::Trace
    } else {
        LevelFilter::Info
    }
}

impl Log {
    /// The maximum log level named by the configuration.
    pub fn get_level_filter(&self) -> (r: LevelFilter)
        ensures
            r == level_of(self.level@),
    {
        if eq_str(&self.level, "error") {
            LevelFilter::Error
        } else if eq_str(&self.level, "warn") {
            LevelFilter::Warn
        } else if eq_str(&self.level, "info") {
            LevelFilter::Info
        } else if eq_str(&self.level, "debug") {
            LevelFilter::Debug
        } else if eq_str(&self.level, "trace") {
            LevelFilter::Trace
        } else {
            LevelFilter::Info
        }
    }
}

/// Address the HTTP server listens on.
pub struct Server {
    pub port: u32,
    pub ip: String,
}

impl Server {
    /// `ip:port`, the port in decimal.
    pub fn get_ip(&self) -> (r: String)
        ensures
            r@ == self.ip@ + seq![':'] + decimal(self.port as nat),
    {
        let mut s = self.ip.clone();
        proof {
            reveal_strlit(":");
        }
        s.append(":");
        push_decimal(&mut s, self.port as u64);
        s
    }
}

/// Connection parameters of the conversation store.
pub struct Database {
    pub host: String,
    pub username: String,
    pub password: String,
    pub database: String,
    pub max_connections: u32,
    pub ssl_ca_name: String,
}

impl Database {
    /// Path of the CA certificate: the configuration directory followed by its name.
    pub fn ssl_ca_path(&self) -> (r: String)
        ensures
            r@ == CURRENT_DIR@ + self.ssl_ca_name@,
    {
        let mut s = CURRENT_DIR.to_string();
        proof {
            broadcast use vstd::string::to_string_from_display_ensures_for_str;
        }
        s.append(self.ssl_ca_name.as_str());
        s
    }
}

/// Credentials of the messaging platform account.
#[derive(Clone)]
pub struct WechatConfig {
    pub app_id: String,
    pub app_secret: String,
    pub token: String,
}

/// Upstream chat-completion settings: the API key and the model name.
#[derive(Clone)]
pub struct ChatGptConfig {
    pub api: String,
    pub model: String,
}

} // verus!
