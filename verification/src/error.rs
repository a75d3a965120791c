//! Unified error type for the ticker library.
//!
//! The taxonomy mirrors where failures can arise: the exchange connection,
//! configuration handling, the tray UI, the network, and the delivery
//! channel between sessions and the consumer.

use vstd::prelude::*;
use vstd::string::StringExecFns;

verus! {

/// Custom error type for the crypto ticker application.
#[derive(Debug)]
pub enum TickerError {
    /// Exchange connection errors
    ExchangeError(String),
    /// Configuration errors
    ConfigError(String),
    /// UI/Tray errors
    UIError(String),
    /// Network errors
    NetworkError(String),
    /// Channel communication errors
    ChannelError(String),
}

impl TickerError {
    /// The rendered message: a category prefix followed by the detail text.
    pub open spec fn message_spec(&self) -> Seq<char> {
        match self {
            TickerError::ExchangeError(m) => "Exchange error: "@ + m@,
            TickerError::ConfigError(m) => "Configuration error: "@ + m@,
            TickerError::UIError(m) => "UI error: "@ + m@,
            TickerError::NetworkError(m) => "Network error: "@ + m@,
            TickerError::ChannelError(m) => "Channel error: "@ + m@,
        }
    }

    /// Render the error as a human-readable message.
    pub fn message(&self) -> (s: String)
        ensures
            s@ == self.message_spec(),
    {
        match self {
            TickerError::ExchangeError(m) => {
                let mut s = "Exchange error: ".to_owned();
                s.append(m.as_str());
                s
            }
            TickerError::ConfigError(m) => {
                let mut s = "Configuration error: ".to_owned();
                s.append(m.as_str());
                s
            }
            TickerError::UIError(m) => {
                let mut s = "UI error: ".to_owned();
                s.append(m.as_str());
                s
            }
            TickerError::NetworkError(m) => {
                let mut s = "Network error: ".to_owned();
                s.append(m.as_str());
                s
            }
            TickerError::ChannelError(m) => {
                let mut s = "Channel error: ".to_owned();
                s.append(m.as_str());
                s
            }
        }
    }
}

} // verus!
