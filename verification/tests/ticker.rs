//! Tests for the stream supervisor library: configuration, errors, prices,
//! the per-symbol session state machine, the delivery channel, and the
//! tray-side consumer.

use okk::channel::{DeliveryChannel, PollOutcome};
use okk::config::{default_debug_logging, default_max_buffer_size};
use okk::error::TickerError;
use okk::exchange::{ExchangeClient, Price, PriceUpdate};
use okk::session::{
    backoff_secs, jitter_secs, SessionAction, SessionState, StreamEvent, StreamSession,
};
use okk::ui::{format_title, u128_digits, ConsumerAction, TrayUI};
use okk::Config;

fn price(mantissa: u128, scale: u32) -> Price {
    Price::new(mantissa, scale).unwrap()
}

/// Drive a session with one event and demand a published observation back.
fn expect_publish(session: &mut StreamSession, ev: StreamEvent) -> PriceUpdate {
    match session.step(ev) {
        SessionAction::Publish(u) => u,
        other => panic!("expected a publish, got {:?}", other),
    }
}

/// Drive a session with one event and demand a sleep back.
fn expect_sleep(session: &mut StreamSession, ev: StreamEvent) -> okk::session::Delay {
    match session.step(ev) {
        SessionAction::Sleep(d) => d,
        other => panic!("expected a sleep, got {:?}", other),
    }
}

#[test]
fn default_config_values() {
    let c = Config::default();
    assert_eq!(c.trading_pairs, vec!["BTC-USDT".to_string()]);
    assert_eq!(c.update_interval_secs, 1);
    assert_eq!(c.ws_connection_timeout_secs, 2);
    assert_eq!(c.ws_ping_timeout_secs, 5);
    assert_eq!(c.icon_path, "icons/icon.png");
    assert_eq!(c.tooltip, "Crypto Ticker - Real-time price updates");
    assert_eq!(c.max_buffer_size, 1000);
    assert!(!c.debug_logging);
}

#[test]
fn default_helpers() {
    assert_eq!(default_max_buffer_size(), 1000);
    assert!(!default_debug_logging());
}

#[test]
fn icon_path_resolution() {
    let mut c = Config::default();
    c.icon_path = "/abs/icon.png".to_string();
    assert_eq!(c.get_icon_path("/base"), "/abs/icon.png");
    c.icon_path = "icons/icon.png".to_string();
    assert_eq!(c.get_icon_path("/base"), "/base/icons/icon.png");
    c.icon_path = String::new();
    assert_eq!(c.get_icon_path("/base"), "/base/");
}

#[test]
fn error_messages() {
    assert_eq!(
        TickerError::ExchangeError("boom".to_string()).message(),
        "Exchange error: boom"
    );
    assert_eq!(
        TickerError::ConfigError("bad file".to_string()).message(),
        "Configuration error: bad file"
    );
    assert_eq!(TickerError::UIError("no tray".to_string()).message(), "UI error: no tray");
    assert_eq!(
        TickerError::NetworkError("down".to_string()).message(),
        "Network error: down"
    );
    assert_eq!(
        TickerError::ChannelError("gone".to_string()).message(),
        "Channel error: gone"
    );
}

#[test]
fn price_range() {
    assert!(Price::new(123, 2).is_some());
    assert!(Price::new(0, 28).is_some());
    // scale past the maximum
    assert!(Price::new(1, 29).is_none());
    // mantissa past 96 bits
    assert!(Price::new(0x1000000000000000000000000u128, 0).is_none());
    let p = price(42, 1);
    assert_eq!(p.mantissa, 42);
    assert_eq!(p.scale, 1);
}

#[test]
fn price_update_fields() {
    let u = PriceUpdate::new("BTC-USDT".to_string(), price(65000_25, 2));
    assert_eq!(u.pair, "BTC-USDT");
    assert_eq!(u.price, price(65000_25, 2));
}

#[test]
fn supervisor_starts_one_session_per_symbol() {
    let mut c = Config::default();
    c.trading_pairs = vec!["BTC-USDT".to_string(), "ETH-USDT".to_string(), "BTC-USDT".to_string()];
    let client = ExchangeClient::new(c);
    let sessions = client.session_plan();
    assert_eq!(sessions.len(), 3);
    assert_eq!(sessions[0].symbol, "BTC-USDT");
    assert_eq!(sessions[1].symbol, "ETH-USDT");
    // repeated symbols run duplicate sessions
    assert_eq!(sessions[2].symbol, "BTC-USDT");
    for s in &sessions {
        assert_eq!(s.state, SessionState::Connecting);
        assert_eq!(s.consecutive_errors, 0);
    }

    let mut none = Config::default();
    none.trading_pairs = Vec::new();
    assert_eq!(ExchangeClient::new(none).session_plan().len(), 0);
}

#[test]
fn sessions_publish_their_own_symbol() {
    let mut c = Config::default();
    c.trading_pairs = vec!["BTC-USDT".to_string(), "ETH-USDT".to_string()];
    let mut sessions = ExchangeClient::new(c).session_plan();
    for s in sessions.iter_mut() {
        let symbol = s.symbol.clone();
        assert!(matches!(s.step(StreamEvent::Connected), SessionAction::PullNext));
        let u = expect_publish(s, StreamEvent::Tick(price(7, 0)));
        assert_eq!(u.pair, symbol);
    }
}

#[test]
fn streaming_preserves_tick_order() {
    let mut s = StreamSession::new("BTC-USDT".to_string());
    s.step(StreamEvent::Connected);
    let ticks = [price(1001, 1), price(1002, 1), price(1003, 1)];
    let mut seen = Vec::new();
    for t in ticks {
        seen.push(expect_publish(&mut s, StreamEvent::Tick(t)).price);
    }
    assert_eq!(seen, ticks.to_vec());
    assert_eq!(s.state, SessionState::Streaming);
}

#[test]
fn backoff_follows_the_exponential_formula() {
    assert_eq!(backoff_secs(0), 1);
    assert_eq!(backoff_secs(1), 2);
    assert_eq!(backoff_secs(2), 4);
    assert_eq!(backoff_secs(3), 8);
    assert_eq!(backoff_secs(4), 16);
    assert_eq!(backoff_secs(5), 32);
    // the exponent is capped
    assert_eq!(backoff_secs(9), 32);

    let mut s = StreamSession::new("BTC-USDT".to_string());
    for k in 1u32..=4 {
        let d = expect_sleep(&mut s, StreamEvent::ConnectFailed);
        assert_eq!(d.backoff_secs, 1u64 << k);
        assert!(d.jitter_secs < d.backoff_secs / 2 + 1);
        assert_eq!(d.cooldown_secs, 0);
        assert_eq!(s.consecutive_errors, k);
        assert_eq!(s.state, SessionState::BackingOff);
        assert!(matches!(s.step(StreamEvent::SleepFinished), SessionAction::Subscribe));
    }

    // after a successful connect the next failure is priced as the first
    s.step(StreamEvent::Connected);
    assert_eq!(s.consecutive_errors, 0);
    s.step(StreamEvent::StreamClosed);
    s.step(StreamEvent::SleepFinished);
    let d = expect_sleep(&mut s, StreamEvent::ConnectFailed);
    assert_eq!(d.backoff_secs, 2);
}

#[test]
fn jitter_is_clock_modulo_half_backoff() {
    assert_eq!(jitter_secs(1234, 8), 4); // 1234 % (8 / 2 + 1)
    assert_eq!(jitter_secs(1000, 32), 1000 % 17);
    assert_eq!(jitter_secs(5, 1), 0); // modulus 1
    assert_eq!(jitter_secs(-77, 8), 0); // pre-epoch clocks add no jitter
}

#[test]
fn fifth_failure_takes_cooldown_and_resets() {
    let mut s = StreamSession::new("BTC-USDT".to_string());
    for _ in 0..4 {
        s.step(StreamEvent::ConnectFailed);
        s.step(StreamEvent::SleepFinished);
    }
    assert_eq!(s.consecutive_errors, 4);
    let d = expect_sleep(&mut s, StreamEvent::ConnectFailed);
    assert_eq!(d.backoff_secs, 32);
    assert_eq!(d.cooldown_secs, 10);
    assert_eq!(s.consecutive_errors, 0);

    // the sixth failure behaves exactly like a first failure
    s.step(StreamEvent::SleepFinished);
    let d6 = expect_sleep(&mut s, StreamEvent::ConnectFailed);
    assert_eq!(d6.backoff_secs, 2);
    assert_eq!(d6.cooldown_secs, 0);
    assert_eq!(s.consecutive_errors, 1);
}

#[test]
fn stream_fault_is_non_fatal() {
    let mut s = StreamSession::new("BTC-USDT".to_string());
    s.step(StreamEvent::Connected);
    let u1 = expect_publish(&mut s, StreamEvent::Tick(price(11, 0)));
    assert_eq!(u1.price, price(11, 0));

    assert!(matches!(s.step(StreamEvent::StreamFault), SessionAction::PullNext));
    assert_eq!(s.state, SessionState::Streaming);
    assert_eq!(s.consecutive_errors, 0);

    // the still-open stream keeps delivering
    let u2 = expect_publish(&mut s, StreamEvent::Tick(price(12, 0)));
    assert_eq!(u2.price, price(12, 0));
}

#[test]
fn stream_close_backs_off_without_counting_a_failure() {
    let mut s = StreamSession::new("BTC-USDT".to_string());
    s.step(StreamEvent::Connected);
    let d = expect_sleep(&mut s, StreamEvent::StreamClosed);
    assert_eq!(s.state, SessionState::BackingOff);
    assert_eq!(s.consecutive_errors, 0);
    assert_eq!(d.backoff_secs, 1);
    assert_eq!(d.cooldown_secs, 0);
}

#[test]
fn consumer_gone_stops_the_session() {
    let mut s = StreamSession::new("BTC-USDT".to_string());
    s.step(StreamEvent::Connected);
    assert!(matches!(s.step(StreamEvent::SendFailed), SessionAction::Exit));
    assert_eq!(s.state, SessionState::Stopped);
}

#[test]
fn channel_is_fifo() {
    let mut ch = DeliveryChannel::new();
    ch.send(PriceUpdate::new("A".to_string(), price(1, 0))).unwrap();
    ch.send(PriceUpdate::new("A".to_string(), price(2, 0))).unwrap();
    match ch.poll() {
        PollOutcome::Item(u) => assert_eq!(u.price, price(1, 0)),
        other => panic!("expected an item, got {:?}", other),
    }
    match ch.poll() {
        PollOutcome::Item(u) => assert_eq!(u.price, price(2, 0)),
        other => panic!("expected an item, got {:?}", other),
    }
    assert!(matches!(ch.poll(), PollOutcome::Empty));
}

#[test]
fn channel_tells_empty_from_closed() {
    let mut ch = DeliveryChannel::new();
    assert!(matches!(ch.poll(), PollOutcome::Empty));
    ch.send(PriceUpdate::new("A".to_string(), price(3, 0))).unwrap();
    ch.close();
    // what was buffered is still drained after the close
    assert!(matches!(ch.poll(), PollOutcome::Item(_)));
    assert!(matches!(ch.poll(), PollOutcome::Closed));

    let err = ch.send(PriceUpdate::new("A".to_string(), price(4, 0))).unwrap_err();
    match &err {
        TickerError::ChannelError(m) => assert_eq!(m, "sending on a closed channel"),
        other => panic!("expected a channel error, got {:?}", other),
    }
    assert_eq!(err.message(), "Channel error: sending on a closed channel");
}

#[test]
fn decimal_rendering_is_exact() {
    assert_eq!(u128_digits(0), "0");
    assert_eq!(u128_digits(7), "7");
    assert_eq!(u128_digits(120406), "120406");

    assert_eq!(format_title("BTC-USDT", price(1234567, 2)), "BTC-USDT: $12345.67");
    assert_eq!(format_title("ETH-USDT", price(5, 0)), "ETH-USDT: $5.00");
    assert_eq!(format_title("X", price(15, 1)), "X: $1.50");
    // rounded half-up at the second fraction digit
    assert_eq!(format_title("X", price(999, 3)), "X: $1.00");
    assert_eq!(format_title("X", price(1994, 3)), "X: $1.99");
    assert_eq!(format_title("X", price(1995, 3)), "X: $2.00");
    assert_eq!(format_title("X", price(0, 0)), "X: $0.00");
}

#[test]
fn tray_shows_updates_and_timeouts() {
    let mut ui = TrayUI::new(Config::default());
    assert_eq!(ui.last_update_ms, 0);
    assert!(!ui.disconnected);

    let u = PriceUpdate::new("BTC-USDT".to_string(), price(65000_25, 2));
    match ui.handle_poll(PollOutcome::Item(u), 1000) {
        ConsumerAction::SetTitle(t) => assert_eq!(t, "BTC-USDT: $65000.25"),
        other => panic!("expected a title, got {:?}", other),
    }
    assert_eq!(ui.last_update_ms, 1000);

    // silence below the timeout changes nothing
    assert!(matches!(ui.handle_poll(PollOutcome::Empty, 31000), ConsumerAction::Nothing));
    // the timeout is strict
    assert!(matches!(ui.handle_poll(PollOutcome::Empty, 31000 + 1), ConsumerAction::SetTitle(t) if t == "Disconnected"));
    assert!(ui.disconnected);
    // the disconnection is announced only once
    assert!(matches!(ui.handle_poll(PollOutcome::Empty, 40000), ConsumerAction::Nothing));

    // a fresh observation marks the feed live again
    let u2 = PriceUpdate::new("BTC-USDT".to_string(), price(65001_00, 2));
    assert!(matches!(ui.handle_poll(PollOutcome::Item(u2), 41000), ConsumerAction::SetTitle(_)));
    assert!(!ui.disconnected);

    assert!(matches!(ui.handle_poll(PollOutcome::Closed, 42000), ConsumerAction::Exit));
}

#[test]
fn end_to_end_two_symbols() {
    let mut c = Config::default();
    c.trading_pairs = vec!["BTC-USDT".to_string(), "ETH-USDT".to_string()];
    let mut sessions = ExchangeClient::new(c).session_plan();
    let mut b = sessions.pop().unwrap();
    let mut a = sessions.pop().unwrap();
    assert_eq!(a.symbol, "BTC-USDT");
    assert_eq!(b.symbol, "ETH-USDT");

    let mut ch = DeliveryChannel::new();
    let a_ticks: Vec<Price> = (1u128..=8).map(|i| price(1000 + i, 1)).collect();
    let b_ticks = [price(41, 1), price(42, 1)];

    // session A connects and streams five ticks
    a.step(StreamEvent::Connected);
    for t in &a_ticks[..5] {
        ch.send(expect_publish(&mut a, StreamEvent::Tick(*t))).unwrap();
    }
    // its stream closes; it backs off
    expect_sleep(&mut a, StreamEvent::StreamClosed);

    // session B fails to connect once, backs off, then connects
    let d = expect_sleep(&mut b, StreamEvent::ConnectFailed);
    assert_eq!(d.backoff_secs, 2);
    b.step(StreamEvent::SleepFinished);
    b.step(StreamEvent::Connected);
    for t in &b_ticks {
        ch.send(expect_publish(&mut b, StreamEvent::Tick(*t))).unwrap();
    }

    // session A reconnects and streams three more ticks
    a.step(StreamEvent::SleepFinished);
    a.step(StreamEvent::Connected);
    assert_eq!(a.consecutive_errors, 0);
    for t in &a_ticks[5..] {
        ch.send(expect_publish(&mut a, StreamEvent::Tick(*t))).unwrap();
    }

    // the consumer sees every observation, in per-symbol order
    let mut a_seen = Vec::new();
    let mut b_seen = Vec::new();
    let mut total = 0u32;
    loop {
        match ch.poll() {
            PollOutcome::Item(u) => {
                total += 1;
                if u.pair == "BTC-USDT" {
                    a_seen.push(u.price);
                } else {
                    assert_eq!(u.pair, "ETH-USDT");
                    b_seen.push(u.price);
                }
            }
            PollOutcome::Empty => break,
            PollOutcome::Closed => panic!("channel is still open"),
        }
    }
    assert_eq!(total, 10);
    assert_eq!(a_seen, a_ticks);
    assert_eq!(b_seen, b_ticks.to_vec());
}
