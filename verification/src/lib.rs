//! Resilient multi-symbol price stream supervisor.
//!
//! The library keeps one live price feed per configured trading-pair symbol.
//! Each symbol is owned by a [`session::StreamSession`]: a state machine that
//! connects, consumes ticks, and reconnects after failures with bounded
//! exponential backoff and jitter. The [`exchange::ExchangeClient`] fans out
//! one session per configured symbol, and every session publishes its
//! [`exchange::PriceUpdate`]s onto a [`channel::DeliveryChannel`] read by a
//! single consumer, the tray title logic in [`ui`].

pub mod channel;
pub mod config;
pub mod error;
pub mod exchange;
pub mod session;
pub mod ui;

pub use config::Config;
pub use error::TickerError;
pub use exchange::ExchangeClient;
pub use ui::TrayUI;
