//! The trading signal: which input it is computed from, and the payload that
//! answers a request.
//!
//! Prices and indicator values are binary64 numbers. They are carried here by
//! their bit patterns: this module chooses, moves and labels them, and leaves
//! every computation on them to the caller.

use std::time::Instant;
use vstd::prelude::*;
use vstd::string::StringExecFns;

verus! {

/// Milliseconds that a handler waits before it answers.
pub const PROCESSING_DELAY_MS: u64 = 5;

/// Bit pattern of the relative strength index that every signal reports:
/// the constant 55.
pub const RSI_BITS: u64 = 0x404B_8000_0000_0000;

/// Bit pattern of the risk allowance that every signal reports: 1500, one
/// percent of a notional of 150000.
pub const RISK_ALLOWANCE_BITS: u64 = 0x4097_7000_0000_0000;

/// What a client may send: a symbol and a price series, each optional.
#[derive(Clone, Debug, PartialEq, Eq)]
pub struct SignalRequest {
    pub symbol: Option<String>,
    /// Bit patterns of the prices, in order.
    pub prices: Option<Vec<u64>>,
}

/// The input that a signal is computed from: a symbol and a price series
/// that is never empty.
#[derive(Clone, Debug, PartialEq, Eq)]
pub struct SignalInput {
    pub symbol: String,
    /// Bit patterns of the prices, in order.
    pub prices: Vec<u64>,
}

/// The payload that answers a signal request.
#[derive(Clone, Debug, PartialEq, Eq)]
pub struct Signal {
    pub symbol: String,
    /// Bit pattern of the relative strength index.
    pub rsi_bits: u64,
    /// Bit pattern of the moving average.
    pub ema_bits: u64,
    /// Bit pattern of the risk allowance.
    pub risk_allowance_bits: u64,
    /// Milliseconds that the handler took.
    pub latency_ms: u128,
}

/// A request as plain values.
pub struct SignalRequestView {
    pub symbol: Option<Seq<char>>,
    pub prices: Option<Seq<u64>>,
}

/// An input as plain values.
pub struct SignalInputView {
    pub symbol: Seq<char>,
    pub prices: Seq<u64>,
}

/// A payload as plain values.
pub struct SignalView {
    pub symbol: Seq<char>,
    pub rsi_bits: u64,
    pub ema_bits: u64,
    pub risk_allowance_bits: u64,
    pub latency_ms: u128,
}

impl View for SignalRequest {
    type V = SignalRequestView;

    open spec fn view(&self) -> SignalRequestView {
        SignalRequestView {
            symbol: match self.symbol {
                Some(symbol) => Some(symbol@),
                None => None,
            },
            prices: match self.prices {
                Some(prices) => Some(prices@),
                None => None,
            },
        }
    }
}

impl View for SignalInput {
    type V = SignalInputView;

    open spec fn view(&self) -> SignalInputView {
        SignalInputView { symbol: self.symbol@, prices: self.prices@ }
    }
}

impl View for Signal {
    type V = SignalView;

    open spec fn view(&self) -> SignalView {
        SignalView {
            symbol: self.symbol@,
            rsi_bits: self.rsi_bits,
            ema_bits: self.ema_bits,
            risk_allowance_bits: self.risk_allowance_bits,
            latency_ms: self.latency_ms,
        }
    }
}

/// The symbol that stands in where a request gives no usable input.
pub open spec fn default_symbol() -> Seq<char> {
    "ES"@
}

/// The price series that stands in where a request gives no usable input:
/// the bit patterns of 4420, 4422, 4419.5, 4425 and 4424.
pub open spec fn default_prices() -> Seq<u64> {
    seq![
        0x40B1_4400_0000_0000u64,
        0x40B1_4600_0000_0000u64,
        0x40B1_4380_0000_0000u64,
        0x40B1_4900_0000_0000u64,
        0x40B1_4800_0000_0000u64,
    ]
}

/// The input that stands in where a request gives no usable one.
pub open spec fn default_input() -> SignalInputView {
    SignalInputView { symbol: default_symbol(), prices: default_prices() }
}

/// A symbol and a series as plain values, where there is such a pair.
pub open spec fn pair_view(pair: Option<(String, Vec<u64>)>) -> Option<(Seq<char>, Seq<u64>)> {
    match pair {
        Some((symbol, prices)) => Some((symbol@, prices@)),
        None => None,
    }
}

/// The symbol and the series of a request, where it holds both.
pub open spec fn paired(request: SignalRequestView) -> Option<(Seq<char>, Seq<u64>)> {
    match (request.symbol, request.prices) {
        (Some(symbol), Some(prices)) => Some((symbol, prices)),
        _ => None,
    }
}

/// The input that a signal is computed from: the pair that was given, if its
/// series holds a price; else the default symbol with the default series,
/// both together.
pub open spec fn resolved(pair: Option<(Seq<char>, Seq<u64>)>) -> SignalInputView {
    match pair {
        Some((symbol, prices)) => if prices.len() > 0 {
            SignalInputView { symbol, prices }
        } else {
            default_input()
        },
        None => default_input(),
    }
}

/// The payload for a symbol, a moving average and a handling time.
pub open spec fn signal_of(symbol: Seq<char>, ema_bits: u64, elapsed_ms: u128) -> SignalView {
    SignalView {
        symbol,
        rsi_bits: RSI_BITS,
        ema_bits,
        risk_allowance_bits: RISK_ALLOWANCE_BITS,
        latency_ms: elapsed_ms,
    }
}

impl SignalInput {
    /// Whether the series holds a price, so that an average over it exists.
    pub open spec fn wf(&self) -> bool {
        self.prices@.len() > 0
    }

    /// The default symbol with the default series.
    pub fn fallback() -> (input: SignalInput)
        ensures
            input@ == default_input(),
            input.wf(),
    {
        let prices: Vec<u64> = vec![
            0x40B1_4400_0000_0000u64,
            0x40B1_4600_0000_0000u64,
            0x40B1_4380_0000_0000u64,
            0x40B1_4900_0000_0000u64,
            0x40B1_4800_0000_0000u64,
        ];
        assert(prices@ =~= default_prices());
        SignalInput { symbol: String::from_str("ES"), prices }
    }
}

/// Pairs the symbol of a request with its series. There is a pair only where
/// the request holds both.
pub fn pair_request(request: SignalRequest) -> (pair: Option<(String, Vec<u64>)>)
    ensures
        pair_view(pair) == paired(request@),
{
    match request.symbol {
        Some(symbol) => match request.prices {
            Some(prices) => Some((symbol, prices)),
            None => None,
        },
        None => None,
    }
}

/// Chooses the input of a signal: the pair that was given, if its series
/// holds a price, else the defaults.
pub fn resolve_input(pair: Option<(String, Vec<u64>)>) -> (input: SignalInput)
    ensures
        input@ == resolved(pair_view(pair)),
        input.wf(),
{
    match pair {
        Some((symbol, prices)) => {
            if prices.len() > 0 {
                SignalInput { symbol, prices }
            } else {
                SignalInput::fallback()
            }
        },
        None => SignalInput::fallback(),
    }
}

/// The input of a signal that is asked for without a body.
pub fn get_signal_input() -> (input: SignalInput)
    ensures
        input@ == default_input(),
        input.wf(),
{
    resolve_input(None)
}

/// The input of a signal that is asked for with `request` as its body.
pub fn post_signal_input(request: SignalRequest) -> (input: SignalInput)
    ensures
        input@ == resolved(paired(request@)),
        input.wf(),
{
    resolve_input(pair_request(request))
}

/// Puts the payload together: the symbol of `input`, the moving average that
/// the caller computed over its series, the two constants, and the time that
/// the handler took.
pub fn build_signal(input: SignalInput, ema_bits: u64, elapsed_ms: u128) -> (signal: Signal)
    ensures
        signal@ == signal_of(input@.symbol, ema_bits, elapsed_ms),
{
    Signal {
        symbol: input.symbol,
        rsi_bits: RSI_BITS,
        ema_bits,
        risk_allowance_bits: RISK_ALLOWANCE_BITS,
        latency_ms: elapsed_ms,
    }
}

/// Finishes a request that began at `started`: reads the clock and puts the
/// payload together with the time that has passed as its latency.
pub fn finish_signal(started: &Instant, input: SignalInput, ema_bits: u64) -> (signal: Signal)
    ensures
        exists|elapsed_ms: u128| signal@ == signal_of(input@.symbol, ema_bits, elapsed_ms),
{
    let elapsed_ms: u128 = started.elapsed().as_millis();
    let signal = build_signal(input, ema_bits, elapsed_ms);
    assert(signal@ == signal_of(input@.symbol, ema_bits, elapsed_ms));
    signal
}

/// A request without prices, or with an empty series, is answered from the
/// defaults, whatever symbol it names.
pub proof fn lemma_missing_prices_give_defaults(request: SignalRequestView)
    requires
        request.prices is None || request.prices->0.len() == 0,
    ensures
        resolved(paired(request)) == default_input(),
{
}

/// A request without a symbol is answered from the defaults, whatever prices
/// it holds.
pub proof fn lemma_missing_symbol_gives_defaults(request: SignalRequestView)
    requires
        request.symbol is None,
    ensures
        resolved(paired(request)) == default_input(),
{
}

/// A request with a symbol and a series that holds a price is answered from
/// exactly that symbol and that series.
pub proof fn lemma_given_input_is_kept(request: SignalRequestView)
    requires
        request.symbol is Some,
        request.prices is Some,
        request.prices->0.len() > 0,
    ensures
        resolved(paired(request)).symbol == request.symbol->0,
        resolved(paired(request)).prices == request.prices->0,
{
}

/// Every signal reports the same strength index and the same risk allowance,
/// whatever it was computed from.
pub proof fn lemma_signal_constants(symbol: Seq<char>, ema_bits: u64, elapsed_ms: u128)
    ensures
        signal_of(symbol, ema_bits, elapsed_ms).rsi_bits == RSI_BITS,
        signal_of(symbol, ema_bits, elapsed_ms).risk_allowance_bits == RISK_ALLOWANCE_BITS,
{
}

/// The latency of a signal is the handling time that was measured: where that
/// covers the processing delay, the latency is five milliseconds or more.
pub proof fn lemma_latency_covers_delay(symbol: Seq<char>, ema_bits: u64, elapsed_ms: u128)
    requires
        elapsed_ms >= PROCESSING_DELAY_MS,
    ensures
        signal_of(symbol, ema_bits, elapsed_ms).latency_ms >= 5,
{
}

} // verus!
