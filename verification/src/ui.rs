//! The tray-side consumer of the delivery channel.
//!
//! The consumer polls the channel on its own schedule and reacts to the
//! three-way poll result: a fresh observation updates the tray title, a
//! long silence (no observation for [`LIVENESS_TIMEOUT_MS`]) is displayed
//! distinctly as a disconnection, and a closed channel shuts the UI down.
//! Rendering the title is exact decimal formatting: the price is shown
//! with two fraction digits, rounded half-up.

use vstd::prelude::*;
use vstd::string::{StrSliceExecFns, StringExecFns};
use crate::channel::PollOutcome;
use crate::config::Config;
use crate::exchange::Price;

verus! {

/// How long the consumer tolerates silence before it shows the feed as
/// disconnected, in milliseconds.
pub const LIVENESS_TIMEOUT_MS: u64 = 30000;

/// Ten to the power `e`.
pub open spec fn pow10(e: nat) -> nat
    decreases e,
{
    if e == 0 {
        1
    } else {
        10 * pow10((e - 1) as nat)
    }
}

proof fn lemma_pow10_pos(e: nat)
    ensures
        pow10(e) >= 1,
    decreases e,
{
    if e > 0 {
        lemma_pow10_pos((e - 1) as nat);
    }
}

proof fn lemma_pow10_le(a: nat, b: nat)
    requires
        a <= b,
    ensures
        pow10(a) <= pow10(b),
    decreases b,
{
    if a < b {
        lemma_pow10_le(a, (b - 1) as nat);
        lemma_pow10_pos((b - 1) as nat);
    }
}

proof fn lemma_pow10_28()
    ensures
        pow10(28) == 10000000000000000000000000000,
{
    reveal_with_fuel(pow10, 29);
}

/// A price of `mantissa / 10^scale`, in whole cents, rounded half-up.
pub open spec fn rounded_cents(mantissa: nat, scale: nat) -> nat {
    let p = pow10(scale);
    let q = mantissa * 100 / p;
    if 2 * (mantissa * 100 % p) >= p {
        q + 1
    } else {
        q
    }
}

/// The decimal digit `d` as a character.
pub open spec fn digit_char(d: nat) -> char {
    if d == 0 {
        '0'
    } else if d == 1 {
        '1'
    } else if d == 2 {
        '2'
    } else if d == 3 {
        '3'
    } else if d == 4 {
        '4'
    } else if d == 5 {
        '5'
    } else if d == 6 {
        '6'
    } else if d == 7 {
        '7'
    } else if d == 8 {
        '8'
    } else {
        '9'
    }
}

/// The decimal digits of `n`, most significant first, with no leading
/// zero except for `n == 0` itself.
pub open spec fn dec_digits(n: nat) -> Seq<char>
    decreases n,
{
    if n < 10 {
        seq![digit_char(n)]
    } else {
        dec_digits(n / 10) + seq![digit_char(n % 10)]
    }
}

/// How a price is rendered: its cents, split as `whole.fraction` with
/// exactly two fraction digits.
pub open spec fn price_display(price: Price) -> Seq<char> {
    let cents = rounded_cents(price.mantissa as nat, price.scale as nat);
    dec_digits(cents / 100) + "."@ + seq![
        digit_char((cents % 100) / 10),
        digit_char((cents % 100) % 10),
    ]
}

/// How the tray title is rendered for one observation: the symbol, then
/// the price in dollars with two fraction digits.
pub open spec fn title_display(pair: Seq<char>, price: Price) -> Seq<char> {
    pair + ": $"@ + price_display(price)
}

/// Compute ten to the power `e`.
fn pow10_exec(e: u32) -> (r: u128)
    requires
        e <= 28,
    ensures
        r == pow10(e as nat),
{
    let mut r: u128 = 1;
    let mut i: u32 = 0;
    while i < e
        invariant
            i <= e,
            e <= 28,
            r == pow10(i as nat),
        decreases e - i,
    {
        proof {
            lemma_pow10_le((i + 1) as nat, 28);
            lemma_pow10_28();
        }
        r = r * 10;
        i = i + 1;
    }
    r
}

/// A well-formed price in whole cents, rounded half-up.
pub fn price_cents(price: Price) -> (c: u128)
    requires
        price.wf(),
    ensures
        c == rounded_cents(price.mantissa as nat, price.scale as nat),
{
    let p = pow10_exec(price.scale);
    proof {
        lemma_pow10_pos(price.scale as nat);
        lemma_pow10_le(price.scale as nat, 28);
        lemma_pow10_28();
    }
    let scaled: u128 = price.mantissa * 100;
    let q: u128 = scaled / p;
    let rem: u128 = scaled % p;
    if 2 * rem >= p {
        q + 1
    } else {
        q
    }
}

/// The decimal digit `d` as a one-character string.
fn digit_str(d: u8) -> (s: &'static str)
    requires
        d <= 9,
    ensures
        s@ == seq![digit_char(d as nat)],
{
    if d == 0 {
        proof {
            reveal_strlit("0");
            assert("0"@ =~= seq![digit_char(0)]);
        }
        "0"
    } else if d == 1 {
        proof {
            reveal_strlit("1");
            assert("1"@ =~= seq![digit_char(1)]);
        }
        "1"
    } else if d == 2 {
        proof {
            reveal_strlit("2");
            assert("2"@ =~= seq![digit_char(2)]);
        }
        "2"
    } else if d == 3 {
        proof {
            reveal_strlit("3");
            assert("3"@ =~= seq![digit_char(3)]);
        }
        "3"
    } else if d == 4 {
        proof {
            reveal_strlit("4");
            assert("4"@ =~= seq![digit_char(4)]);
        }
        "4"
    } else if d == 5 {
        proof {
            reveal_strlit("5");
            assert("5"@ =~= seq![digit_char(5)]);
        }
        "5"
    } else if d == 6 {
        proof {
            reveal_strlit("6");
            assert("6"@ =~= seq![digit_char(6)]);
        }
        "6"
    } else if d == 7 {
        proof {
            reveal_strlit("7");
            assert("7"@ =~= seq![digit_char(7)]);
        }
        "7"
    } else if d == 8 {
        proof {
            reveal_strlit("8");
            assert("8"@ =~= seq![digit_char(8)]);
        }
        "8"
    } else {
        proof {
            reveal_strlit("9");
            assert("9"@ =~= seq![digit_char(9)]);
        }
        "9"
    }
}

/// Render `n` in decimal.
pub fn u128_digits(n: u128) -> (s: String)
    ensures
        s@ == dec_digits(n as nat),
    decreases n,
{
    if n < 10 {
        digit_str(n as u8).to_owned()
    } else {
        let mut s = u128_digits(n / 10);
        s.append(digit_str((n % 10) as u8));
        s
    }
}

/// Render the tray title for one observation: `<pair>: $<price>` with the
/// price in two fraction digits, rounded half-up.
pub fn format_title(pair: &str, price: Price) -> (t: String)
    requires
        price.wf(),
    ensures
        t@ == title_display(pair@, price),
{
    let cents = price_cents(price);
    let mut t = pair.to_owned();
    t.append(": $");
    let whole = u128_digits(cents / 100);
    t.append(whole.as_str());
    t.append(".");
    let f: u128 = cents % 100;
    t.append(digit_str((f / 10) as u8));
    t.append(digit_str((f % 10) as u8));
    proof {
        assert(t@ =~= title_display(pair@, price));
    }
    t
}

/// What the consumer asks of the surrounding event loop after one poll.
#[derive(Debug, Clone)]
pub enum ConsumerAction {
    /// Show this text as the tray title.
    SetTitle(String),
    /// Shut the UI down: the channel is closed for good.
    Exit,
    /// Nothing to do this tick.
    Nothing,
}

/// Tray UI manager: the configuration and the consumer's liveness state.
#[derive(Debug)]
pub struct TrayUI {
    /// The configuration the UI was started with.
    pub config: Config,
    /// When the last observation arrived, in milliseconds of the UI's own
    /// monotonic clock (which starts at zero).
    pub last_update_ms: u64,
    /// Whether the silence timeout has tripped since the last observation.
    pub disconnected: bool,
}

impl TrayUI {
    /// Create a new tray UI with the given configuration.
    pub fn new(config: Config) -> (ui: TrayUI)
        ensures
            ui.config == config,
            ui.last_update_ms == 0,
            ui.disconnected == false,
    {
        TrayUI { config, last_update_ms: 0, disconnected: false }
    }

    /// React to one poll of the delivery channel at time `now_ms` of the
    /// UI's monotonic clock: a fresh observation renders the title and
    /// marks the feed live; silence beyond [`LIVENESS_TIMEOUT_MS`] is
    /// announced once as a disconnection; a closed channel ends the UI.
    pub fn handle_poll(&mut self, outcome: PollOutcome, now_ms: u64) -> (act: ConsumerAction)
        requires
            old(self).last_update_ms <= now_ms,
            outcome matches PollOutcome::Item(u) ==> u.price.wf(),
        ensures
            final(self).config == old(self).config,
            (match outcome {
                PollOutcome::Item(u) => {
                    &&& final(self).last_update_ms == now_ms
                    &&& final(self).disconnected == false
                    &&& act matches ConsumerAction::SetTitle(t)
                        && t@ == title_display(u.pair@, u.price)
                },
                PollOutcome::Empty => {
                    if now_ms - old(self).last_update_ms > LIVENESS_TIMEOUT_MS
                        && !old(self).disconnected {
                        &&& final(self).disconnected == true
                        &&& final(self).last_update_ms == old(self).last_update_ms
                        &&& act matches ConsumerAction::SetTitle(t) && t@ == "Disconnected"@
                    } else {
                        &&& *final(self) == *old(self)
                        &&& act == ConsumerAction::Nothing
                    }
                },
                PollOutcome::Closed => {
                    &&& *final(self) == *old(self)
                    &&& act == ConsumerAction::Exit
                },
            }),
    {
        match outcome {
            PollOutcome::Item(u) => {
                self.last_update_ms = now_ms;
                self.disconnected = false;
                let t = format_title(u.pair.as_str(), u.price);
                ConsumerAction::SetTitle(t)
            },
            PollOutcome::Empty => {
                if now_ms - self.last_update_ms > LIVENESS_TIMEOUT_MS && !self.disconnected {
                    self.disconnected = true;
                    ConsumerAction::SetTitle("Disconnected".to_owned())
                } else {
                    ConsumerAction::Nothing
                }
            },
            PollOutcome::Closed => ConsumerAction::Exit,
        }
    }
}

} // verus!
