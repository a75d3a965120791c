//! Application configuration.
//!
//! The configuration is consumed once when the supervisor starts and is
//! treated as immutable for the lifetime of the core: the list of symbols
//! to monitor, the update interval, the connection timeouts, and the tray
//! appearance. Reading and writing the TOML file is an I/O concern and is
//! left to the binary around the library.

use vstd::prelude::*;
use vstd::string::{StrSliceExecFns, StringExecFns};

verus! {

/// Default maximum buffer size for price updates.
pub fn default_max_buffer_size() -> (n: usize)
    ensures
        n == 1000,
{
    1000
}

/// Default debug logging setting.
pub fn default_debug_logging() -> (b: bool)
    ensures
        b == false,
{
    false
}

/// Application configuration.
#[derive(Debug, Clone)]
pub struct Config {
    /// Trading pairs to monitor
    pub trading_pairs: Vec<String>,
    /// Update interval in seconds
    pub update_interval_secs: u64,
    /// WebSocket connection timeout in seconds
    pub ws_connection_timeout_secs: u64,
    /// WebSocket ping timeout in seconds
    pub ws_ping_timeout_secs: u64,
    /// Icon path
    pub icon_path: String,
    /// Tray tooltip text
    pub tooltip: String,
    /// Maximum number of price updates to buffer (for memory management)
    pub max_buffer_size: usize,
    /// Enable debug logging (impacts performance)
    pub debug_logging: bool,
}

/// How the configured icon path is resolved against a base directory:
/// an absolute path (leading `/`) stands as it is; a relative one is
/// joined below the base directory.
pub open spec fn resolved_icon_path(icon: Seq<char>, base_dir: Seq<char>) -> Seq<char> {
    if icon.len() > 0 && icon[0] == '/' {
        icon
    } else {
        base_dir + "/"@ + icon
    }
}

impl Default for Config {
    fn default() -> (c: Config)
        ensures
            c.trading_pairs@.len() == 1,
            c.trading_pairs@[0]@ == "BTC-USDT"@,
            c.update_interval_secs == 1,
            c.ws_connection_timeout_secs == 2,
            c.ws_ping_timeout_secs == 5,
            c.icon_path@ == "icons/icon.png"@,
            c.tooltip@ == "Crypto Ticker - Real-time price updates"@,
            c.max_buffer_size == 1000,
            c.debug_logging == false,
    {
        Config {
            trading_pairs: vec!["BTC-USDT".to_owned()],
            update_interval_secs: 1,
            ws_connection_timeout_secs: 2,
            ws_ping_timeout_secs: 5,
            icon_path: "icons/icon.png".to_owned(),
            tooltip: "Crypto Ticker - Real-time price updates".to_owned(),
            max_buffer_size: default_max_buffer_size(),
            debug_logging: default_debug_logging(),
        }
    }
}

impl Config {
    /// Get the full icon path, resolved against `base_dir`.
    pub fn get_icon_path(&self, base_dir: &str) -> (p: String)
        ensures
            p@ == resolved_icon_path(self.icon_path@, base_dir@),
    {
        let ip = self.icon_path.as_str();
        if ip.unicode_len() > 0 && ip.get_char(0) == '/' {
            self.icon_path.clone()
        } else {
            let mut p = base_dir.to_owned();
            p.append("/");
            p.append(ip);
            p
        }
    }
}

} // verus!
