//! What the stock commands show: quotes, errors and news, and the checks
//! on a symbol before any request.
use vstd::prelude::*;
use crate::provider::{ProviderConfig, StockDataError, StockQuote};
use crate::text::{nat_text, push_nat, to_upper, trim_of, trimmed, upper_of};
use crate::time::{valid_time, DAY_SECS, MAX_UNIX_SECS, MIN_UNIX_SECS};

verus! {

/// The trimmed, upper-case symbol, or `InvalidSymbol` where nothing but
/// whitespace was given.
pub fn normalize_symbol(symbol: &str) -> (r: Result<String, StockDataError>)
    ensures
        trim_of(symbol@).len() == 0 ==> (r matches Err(e)
            && e == StockDataError::InvalidSymbol(e->InvalidSymbol_0)
            && e->InvalidSymbol_0@ == "Symbol cannot be empty"@),
        trim_of(symbol@).len() > 0 ==> (r matches Ok(s) && s@ == upper_of(trim_of(symbol@))),
{
    let t = trimmed(symbol);
    if t.unicode_len() == 0 {
        return Err(StockDataError::InvalidSymbol(String::from_str("Symbol cannot be empty")));
    }
    Ok(to_upper(t))
}

/// The configuration of the service's provider for `api_key`, the value of
/// the key's environment variable where it is set: at most five requests
/// a minute, 30 s timeout, three retries.
pub fn service_config(api_key: Option<String>) -> (r: Result<ProviderConfig, StockDataError>)
    ensures
        api_key is None ==> (r matches Err(e)
            && e == StockDataError::ConfigError(e->ConfigError_0)
            && e->ConfigError_0@ == "ALPHA_VANTAGE_API_KEY environment variable not set"@),
        api_key is Some && api_key->Some_0@.len() == 0 ==> (r matches Err(e)
            && e == StockDataError::InvalidApiKey(e->InvalidApiKey_0)
            && e->InvalidApiKey_0@ == "API key is empty"@),
        api_key is Some && api_key->Some_0@.len() > 0 ==> (r matches Ok(c)
            && c.api_key == api_key->Some_0
            && c.rate_limit == Some(5u32)
            && c.base_url is None
            && c.timeout == 30
            && c.max_retries == 3),
{
    match api_key {
        None => Err(StockDataError::ConfigError(String::from_str("ALPHA_VANTAGE_API_KEY environment variable not set"))),
        Some(k) => {
            if k.as_str().is_empty() {
                Err(StockDataError::InvalidApiKey(String::from_str("API key is empty")))
            } else {
                Ok(ProviderConfig { api_key: k, rate_limit: Some(5), base_url: None, timeout: 30, max_retries: 3 })
            }
        },
    }
}

/// The news text for a normalized symbol: news is not available yet.
pub open spec fn news_text(symbol: Seq<char>) -> Seq<char> {
    "\u{1f4f0} "@ + symbol + " News\n\n\u{1f6a7} News feature coming soon!\nCurrently using Alpha Vantage crate which doesn't yet support news API.\n\nFor now, try these alternatives:\n\u{2022} Check financial news websites\n\u{2022} Use the /price command for current stock data"@
}

/// The news for `symbol`, once it is normalized.
pub fn get_news_text(symbol: &str) -> (r: Result<String, StockDataError>)
    ensures
        trim_of(symbol@).len() == 0 ==> (r matches Err(e)
            && e == StockDataError::InvalidSymbol(e->InvalidSymbol_0)
            && e->InvalidSymbol_0@ == "Symbol cannot be empty"@),
        trim_of(symbol@).len() > 0 ==> (r matches Ok(s) && s@ == news_text(upper_of(trim_of(symbol@)))),
{
    let s = normalize_symbol(symbol)?;
    let mut out = String::from_str("\u{1f4f0} ");
    out.append(s.as_str());
    out.append(" News\n\n\u{1f6a7} News feature coming soon!\nCurrently using Alpha Vantage crate which doesn't yet support news API.\n\nFor now, try these alternatives:\n\u{2022} Check financial news websites\n\u{2022} Use the /price command for current stock data");
    Ok(out)
}

/// The hint shown under a symbol the provider does not know.
pub open spec fn symbol_hint(upper: Seq<char>) -> Seq<char> {
    if upper == "APPL"@ {
        "\n\u{1f4a1} Did you mean AAPL (Apple Inc.)?"@
    } else if upper == "GOOG"@ {
        "\n\u{1f4a1} Try GOOGL (Alphabet Inc.)"@
    } else if upper == "MSFT"@ {
        "\n\u{1f4a1} Already correct symbol"@
    } else {
        "\n\u{1f4a1} Make sure you're using the correct ticker symbol"@
    }
}

/// The text shown to a user for `error`, about `symbol` where one was asked for.
pub open spec fn error_text(error: StockDataError, symbol: Option<Seq<char>>) -> Seq<char> {
    match error {
        StockDataError::InvalidSymbol(_) | StockDataError::SymbolNotFound(_) => match symbol {
            Some(s) => "\u{274c} Stock symbol not found: \""@ + upper_of(s) + "\"\nPlease check the symbol and try again."@
                + symbol_hint(upper_of(s)),
            None => "\u{274c} Invalid stock symbol\nPlease provide a valid stock symbol."@,
        },
        StockDataError::RateLimitExceeded => "\u{26a0}\u{fe0f} Rate limit exceeded\nPlease wait a moment before trying again."@,
        StockDataError::NetworkError(_) => "\u{1f310} Network error\nPlease check your connection and try again."@,
        StockDataError::InvalidApiKey(_) => "\u{1f511} API configuration error\nPlease contact the administrator."@,
        StockDataError::ConfigError(_) => "\u{2699}\u{fe0f} Configuration error\nPlease contact the administrator."@,
        _ => "\u{1f527} Service temporarily unavailable\nPlease try again later."@,
    }
}

/// The hint for an upper-case symbol; see `symbol_hint`.
fn hint_for(upper: &String) -> (r: &'static str)
    ensures
        r@ == symbol_hint(upper@),
{
    let apple = String::from_str("APPL");
    let alphabet = String::from_str("GOOG");
    let microsoft = String::from_str("MSFT");
    if *upper == apple {
        "\n\u{1f4a1} Did you mean AAPL (Apple Inc.)?"
    } else if *upper == alphabet {
        "\n\u{1f4a1} Try GOOGL (Alphabet Inc.)"
    } else if *upper == microsoft {
        "\n\u{1f4a1} Already correct symbol"
    } else {
        "\n\u{1f4a1} Make sure you're using the correct ticker symbol"
    }
}

/// The text shown to a user for `error`, about `symbol` where one was asked for.
pub fn format_stock_error(error: &StockDataError, symbol: Option<&str>) -> (r: String)
    ensures
        r@ == error_text(*error, match symbol {
            Some(s) => Some(s@),
            None => None,
        }),
{
    match error {
        StockDataError::InvalidSymbol(_) | StockDataError::SymbolNotFound(_) => match symbol {
            Some(s) => {
                let upper = to_upper(s);
                let mut out = String::from_str("\u{274c} Stock symbol not found: \"");
                out.append(upper.as_str());
                out.append("\"\nPlease check the symbol and try again.");
                out.append(hint_for(&upper));
                out
            },
            None => String::from_str("\u{274c} Invalid stock symbol\nPlease provide a valid stock symbol."),
        },
        StockDataError::RateLimitExceeded => String::from_str("\u{26a0}\u{fe0f} Rate limit exceeded\nPlease wait a moment before trying again."),
        StockDataError::NetworkError(_) => String::from_str("\u{1f310} Network error\nPlease check your connection and try again."),
        StockDataError::InvalidApiKey(_) => String::from_str("\u{1f511} API configuration error\nPlease contact the administrator."),
        StockDataError::ConfigError(_) => String::from_str("\u{2699}\u{fe0f} Configuration error\nPlease contact the administrator."),
        _ => String::from_str("\u{1f527} Service temporarily unavailable\nPlease try again later."),
    }
}

/// What chrono writes for an instant with the pattern "%Y-%m-%d %H:%M UTC".
pub uninterp spec fn utc_minute_of(secs: i64) -> Seq<char>;

/// Relies on chrono's `DateTime::from_timestamp`, which gives an instant for
/// every second of this range, and `DateTime::format`.
#[verifier::external_body]
fn format_utc_minute(secs: i64) -> (r: String)
    requires
        valid_time(secs),
    ensures
        r@ == utc_minute_of(secs),
{
    chrono::DateTime::from_timestamp(secs, 0).expect("instant within range").format("%Y-%m-%d %H:%M UTC").to_string()
}

/// `v / d` rounded to the nearest integer, halves up.
pub open spec fn rounded_div(v: nat, d: nat) -> nat
    recommends
        d > 0,
{
    if (v % d) * 2 >= d { v / d + 1 } else { v / d }
}

/// A count of hundredths as a decimal with two places.
pub open spec fn fixed2_abs(v: nat) -> Seq<char> {
    nat_text(v / 100) + seq!['.'] + nat_text((v % 100) / 10) + nat_text(v % 10)
}

/// A signed count of hundredths as a decimal with two places.
pub open spec fn fixed2(v: int) -> Seq<char> {
    if v < 0 { seq!['-'] + fixed2_abs((-v) as nat) } else { fixed2_abs(v as nat) }
}

/// A count of tenths as a decimal with one place.
pub open spec fn tenths(t: nat) -> Seq<char> {
    nat_text(t / 10) + seq!['.'] + nat_text(t % 10)
}

/// A volume: millions and thousands with one decimal, smaller ones whole.
pub open spec fn volume_text(v: nat) -> Seq<char> {
    if v >= 1000000 {
        tenths(rounded_div(v, 100000)) + seq!['M']
    } else if v >= 1000 {
        tenths(rounded_div(v, 100)) + seq!['K']
    } else {
        nat_text(v)
    }
}

/// A market capitalisation: trillions, billions and millions with one
/// decimal, smaller ones whole, "N/A" where unknown.
pub open spec fn market_cap_text(c: Option<u64>) -> Seq<char> {
    match c {
        None => "N/A"@,
        Some(v) => if v >= 1000000000000 {
            tenths(rounded_div(v as nat, 100000000000)) + seq!['T']
        } else if v >= 1000000000 {
            tenths(rounded_div(v as nat, 100000000)) + seq!['B']
        } else if v >= 1000000 {
            tenths(rounded_div(v as nat, 100000)) + seq!['M']
        } else {
            nat_text(v as nat)
        },
    }
}

/// The arrow for a price change.
pub open spec fn trend_text(change: i64) -> Seq<char> {
    if change > 0 {
        "\u{1f4c8}"@
    } else if change < 0 {
        "\u{1f4c9}"@
    } else {
        "\u{27a1}\u{fe0f}"@
    }
}

/// "+" for a change of zero or more, "-" below.
pub open spec fn sign_text(v: i64) -> Seq<char> {
    if v >= 0 { seq!['+'] } else { seq!['-'] }
}

/// The magnitude of `v`.
pub open spec fn magnitude(v: i64) -> nat {
    if v < 0 { (-v) as nat } else { v as nat }
}

/// The text of a quote.
pub open spec fn quote_text(q: StockQuote) -> Seq<char> {
    trend_text(q.change) + seq![' '] + q.symbol@ + " Stock Quote\n\nPrice: $"@ + fixed2(q.price as int)
        + " ("@ + sign_text(q.change) + seq!['$'] + fixed2_abs(magnitude(q.change))
        + ", "@ + sign_text(q.change_percent) + fixed2_abs(magnitude(q.change_percent)) + "%)\nOpen: $"@
        + fixed2(q.open as int) + "\nHigh: $"@ + fixed2(q.high as int) + "\nLow: $"@ + fixed2(q.low as int)
        + "\nVolume: "@ + volume_text(q.volume as nat) + "\nMarket Cap: $"@ + market_cap_text(q.market_cap)
        + "\n\nLast Updated: "@ + (if valid_time(q.timestamp) { utc_minute_of(q.timestamp) } else { "N/A"@ })
        + "\nData provided by Alpha Vantage"@
}

/// Appends a count of hundredths with two places.
fn push_fixed2_abs(out: &mut String, v: u64)
    ensures
        final(out)@ == old(out)@ + fixed2_abs(v as nat),
{
    push_nat(out, v / 100);
    proof { reveal_strlit("."); }
    out.append(".");
    push_nat(out, (v % 100) / 10);
    push_nat(out, v % 10);
    assert(final(out)@ =~= old(out)@ + fixed2_abs(v as nat));
}

/// The magnitude of `v`, exactly.
fn magnitude_of(v: i64) -> (r: u64)
    ensures
        r as nat == magnitude(v),
{
    if v >= 0 {
        v as u64
    } else if v == i64::MIN {
        9223372036854775808u64
    } else {
        (-v) as u64
    }
}

/// Appends a signed count of hundredths with two places.
fn push_fixed2(out: &mut String, v: i64)
    ensures
        final(out)@ == old(out)@ + fixed2(v as int),
{
    if v < 0 {
        proof { reveal_strlit("-"); }
        out.append("-");
    }
    push_fixed2_abs(out, magnitude_of(v));
    assert(final(out)@ =~= old(out)@ + fixed2(v as int));
}

/// `v / d` rounded, halves up.
fn rounded(v: u64, d: u64) -> (r: u64)
    requires
        2 <= d <= 1000000000000,
    ensures
        r as nat == rounded_div(v as nat, d as nat),
{
    let q = v / d;
    let rem = v % d;
    assert(q <= v / 2) by (nonlinear_arith)
        requires
            d >= 2,
            q == v / d,
    ;
    if rem * 2 >= d { q + 1 } else { q }
}

/// Appends a count of tenths with one place, and `unit`.
fn push_tenths(out: &mut String, t: u64, unit: &str)
    ensures
        final(out)@ == old(out)@ + tenths(t as nat) + unit@,
{
    push_nat(out, t / 10);
    proof { reveal_strlit("."); }
    out.append(".");
    push_nat(out, t % 10);
    out.append(unit);
    assert(final(out)@ =~= old(out)@ + tenths(t as nat) + unit@);
}

/// Appends the text of a volume.
fn push_volume(out: &mut String, v: u64)
    ensures
        final(out)@ == old(out)@ + volume_text(v as nat),
{
    proof {
        reveal_strlit("M");
        reveal_strlit("K");
    }
    if v >= 1000000 {
        push_tenths(out, rounded(v, 100000), "M");
    } else if v >= 1000 {
        push_tenths(out, rounded(v, 100), "K");
    } else {
        push_nat(out, v);
    }
}

/// Appends the text of a market capitalisation.
fn push_market_cap(out: &mut String, c: Option<u64>)
    ensures
        final(out)@ == old(out)@ + market_cap_text(c),
{
    proof {
        reveal_strlit("T");
        reveal_strlit("B");
        reveal_strlit("M");
    }
    match c {
        None => out.append("N/A"),
        Some(v) => {
            if v >= 1000000000000 {
                push_tenths(out, rounded(v, 100000000000), "T");
            } else if v >= 1000000000 {
                push_tenths(out, rounded(v, 100000000), "B");
            } else if v >= 1000000 {
                push_tenths(out, rounded(v, 100000), "M");
            } else {
                push_nat(out, v);
            }
        },
    }
}

/// Appends the sign of a change.
fn push_sign(out: &mut String, v: i64)
    ensures
        final(out)@ == old(out)@ + sign_text(v),
{
    proof {
        reveal_strlit("+");
        reveal_strlit("-");
    }
    if v >= 0 {
        out.append("+");
    } else {
        out.append("-");
    }
}

/// The text of a quote for display: trend, prices with two places, signed
/// change and percentage, volume and market capitalisation in M/K and
/// T/B/M, and the minute of the quote in UTC.
pub fn format_stock_quote(quote: &StockQuote) -> (r: String)
    ensures
        r@ == quote_text(*quote),
{
    let mut out = if quote.change > 0 {
        String::from_str("\u{1f4c8}")
    } else if quote.change < 0 {
        String::from_str("\u{1f4c9}")
    } else {
        String::from_str("\u{27a1}\u{fe0f}")
    };
    proof { reveal_strlit(" "); reveal_strlit("$"); }
    out.append(" ");
    out.append(quote.symbol.as_str());
    out.append(" Stock Quote\n\nPrice: $");
    push_fixed2(&mut out, quote.price);
    out.append(" (");
    push_sign(&mut out, quote.change);
    out.append("$");
    push_fixed2_abs(&mut out, magnitude_of(quote.change));
    out.append(", ");
    push_sign(&mut out, quote.change_percent);
    push_fixed2_abs(&mut out, magnitude_of(quote.change_percent));
    out.append("%)\nOpen: $");
    push_fixed2(&mut out, quote.open);
    out.append("\nHigh: $");
    push_fixed2(&mut out, quote.high);
    out.append("\nLow: $");
    push_fixed2(&mut out, quote.low);
    out.append("\nVolume: ");
    push_volume(&mut out, quote.volume);
    out.append("\nMarket Cap: $");
    push_market_cap(&mut out, quote.market_cap);
    out.append("\n\nLast Updated: ");
    if quote.timestamp >= MIN_UNIX_SECS - DAY_SECS && quote.timestamp <= MAX_UNIX_SECS + DAY_SECS {
        let stamp = format_utc_minute(quote.timestamp);
        out.append(stamp.as_str());
    } else {
        out.append("N/A");
    }
    out.append("\nData provided by Alpha Vantage");
    assert(out@ =~= quote_text(*quote));
    out
}

} // verus!
