//! Exchange-facing data types and the session supervisor.
//!
//! [`ExchangeClient`] fans out one [`crate::session::StreamSession`] per
//! configured trading pair, in configuration order. Each session publishes
//! [`PriceUpdate`]s: a symbol, an exact decimal [`Price`], and the local
//! wall-clock timestamp at which the tick was received.

use vstd::prelude::*;
use crate::config::Config;
use crate::session::{SessionState, StreamSession};

verus! {

/// The largest mantissa an exact decimal price can carry (96 bits, the
/// width the exchange's decimal wire values use).
pub const MAX_PRICE_MANTISSA: u128 = 0x1000000000000000000000000;

/// The largest scale (count of fractional decimal digits) a price can carry.
pub const MAX_PRICE_SCALE: u32 = 28;

/// An exact decimal price: `mantissa / 10^scale`.
///
/// Prices are non-negative by construction; binary floating point is
/// deliberately not used, so that comparisons and formatting carry exact
/// decimal semantics.
#[derive(Debug, Clone, Copy, PartialEq, Eq, Structural)]
pub struct Price {
    /// The digits of the price, as an integer.
    pub mantissa: u128,
    /// How many of the low decimal digits of `mantissa` are fractional.
    pub scale: u32,
}

impl Price {
    /// A well-formed price: the mantissa fits in 96 bits and the scale is
    /// at most [`MAX_PRICE_SCALE`].
    pub open spec fn wf(self) -> bool {
        self.mantissa < MAX_PRICE_MANTISSA && self.scale <= MAX_PRICE_SCALE
    }

    /// Build a price from its parts; `None` when the parts are out of range.
    pub fn new(mantissa: u128, scale: u32) -> (r: Option<Price>)
        ensures
            r is Some <==> mantissa < MAX_PRICE_MANTISSA && scale <= MAX_PRICE_SCALE,
            r matches Some(p) ==> p.mantissa == mantissa && p.scale == scale && p.wf(),
    {
        if mantissa < MAX_PRICE_MANTISSA && scale <= MAX_PRICE_SCALE {
            Some(Price { mantissa, scale })
        } else {
            None
        }
    }
}

/// Relies on `chrono::Utc::now`: the current wall-clock time, read from the
/// system clock; the result is its timestamp in whole milliseconds since the
/// Unix epoch. Nothing is promised of the value: the clock can be set to
/// anything.
#[verifier::external_body]
pub(crate) fn now_millis() -> i64 {
    chrono::Utc::now().timestamp_millis()
}

/// One normalized price observation.
#[derive(Debug, Clone)]
pub struct PriceUpdate {
    /// Trading pair symbol (e.g., "BTC-USDT")
    pub pair: String,
    /// Current price as an exact decimal
    pub price: Price,
    /// Unix timestamp in milliseconds, assigned at local receipt time
    pub timestamp_ms: i64,
}

impl PriceUpdate {
    /// Create a new price update, stamped with the current local time.
    pub fn new(pair: String, price: Price) -> (u: PriceUpdate)
        ensures
            u.pair == pair,
            u.price == price,
    {
        let ts = now_millis();
        PriceUpdate { pair, price, timestamp_ms: ts }
    }
}

/// Exchange client wrapper: holds the configuration and plans one stream
/// session per configured trading pair.
pub struct ExchangeClient {
    /// The configuration the supervisor was started with.
    pub config: Config,
}

impl ExchangeClient {
    /// Create a new exchange client with the given configuration.
    pub fn new(config: Config) -> (c: ExchangeClient)
        ensures
            c.config == config,
    {
        ExchangeClient { config }
    }

    /// Plan the monitoring fan-out: exactly one fresh session per configured
    /// trading pair, in configuration order. Repeated symbols simply yield
    /// duplicate sessions, and an empty symbol list yields no sessions.
    pub fn session_plan(&self) -> (sessions: Vec<StreamSession>)
        ensures
            sessions@.len() == self.config.trading_pairs@.len(),
            forall|i: int| 0 <= i < sessions@.len() ==> {
                &&& (#[trigger] sessions@[i]).symbol@ == self.config.trading_pairs@[i]@
                &&& sessions@[i].state == SessionState::Connecting
                &&& sessions@[i].consecutive_errors == 0
                &&& sessions@[i].wf()
            },
    {
        let pairs = &self.config.trading_pairs;
        let mut sessions: Vec<StreamSession> = Vec::new();
        let mut i: usize = 0;
        while i < pairs.len()
            invariant
                i <= pairs@.len(),
                sessions@.len() == i,
                forall|j: int| 0 <= j < i as int ==> {
                    &&& (#[trigger] sessions@[j]).symbol@ == pairs@[j]@
                    &&& sessions@[j].state == SessionState::Connecting
                    &&& sessions@[j].consecutive_errors == 0
                    &&& sessions@[j].wf()
                },
            decreases pairs@.len() - i,
        {
            let symbol = pairs[i].clone();
            sessions.push(StreamSession::new(symbol));
            i = i + 1;
        }
        sessions
    }
}

} // verus!
