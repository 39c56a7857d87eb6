//! The market-data provider's vocabulary: errors, quotes, news, provider
//! configuration and the registry of providers.
use vstd::prelude::*;
use crate::av_provider::AlphaVantageProvider;
use crate::text::{contains_text, has_infix, lower_of, same_text, to_lower, to_upper, upper_of};

verus! {

/// Errors of the market-data layer.
#[derive(Debug, Clone)]
pub enum StockDataError {
    /// The API key is missing or refused.
    InvalidApiKey(String),
    /// The request did not reach the provider.
    NetworkError(String),
    /// The provider's answer could not be read.
    ParseError(String),
    /// Too many requests in the current window.
    RateLimitExceeded,
    /// The provider knows no such symbol.
    SymbolNotFound(String),
    /// The symbol was refused before any request.
    InvalidSymbol(String),
    /// Any other failure of the provider.
    ProviderError(String),
    /// The provider is not set up.
    ConfigError(String),
}

/// `prefix` followed by `detail`.
fn labelled(prefix: &str, detail: &String) -> (r: String)
    ensures
        r@ == prefix@ + detail@,
{
    let mut s = String::from_str(prefix);
    s.append(detail.as_str());
    s
}

impl StockDataError {
    /// The message shown for the error.
    pub open spec fn message(&self) -> Seq<char> {
        match self {
            StockDataError::InvalidApiKey(m) => "Invalid API key: "@ + m@,
            StockDataError::NetworkError(m) => "Network error: "@ + m@,
            StockDataError::ParseError(m) => "Parse error: "@ + m@,
            StockDataError::RateLimitExceeded => "Rate limit exceeded"@,
            StockDataError::SymbolNotFound(s) => "Symbol not found: "@ + s@,
            StockDataError::InvalidSymbol(s) => "Invalid symbol: "@ + s@,
            StockDataError::ProviderError(m) => "Provider error: "@ + m@,
            StockDataError::ConfigError(m) => "Configuration error: "@ + m@,
        }
    }

    /// The message shown for the error.
    pub fn to_string(&self) -> (r: String)
        ensures
            r@ == self.message(),
    {
        match self {
            StockDataError::InvalidApiKey(m) => labelled("Invalid API key: ", m),
            StockDataError::NetworkError(m) => labelled("Network error: ", m),
            StockDataError::ParseError(m) => labelled("Parse error: ", m),
            StockDataError::RateLimitExceeded => String::from_str("Rate limit exceeded"),
            StockDataError::SymbolNotFound(s) => labelled("Symbol not found: ", s),
            StockDataError::InvalidSymbol(s) => labelled("Invalid symbol: ", s),
            StockDataError::ProviderError(m) => labelled("Provider error: ", m),
            StockDataError::ConfigError(m) => labelled("Configuration error: ", m),
        }
    }

    /// The error that an upstream failure described by `msg` stands for,
    /// going by the phrases the description holds.
    pub open spec fn classifies(msg: Seq<char>, e: StockDataError) -> bool {
        if has_infix(msg, "Invalid API call"@) || has_infix(msg, "symbol"@) || has_infix(msg, "InvalidData"@) {
            e == StockDataError::SymbolNotFound(e->SymbolNotFound_0) && e->SymbolNotFound_0@ == msg
        } else if has_infix(msg, "API key"@) {
            e == StockDataError::InvalidApiKey(e->InvalidApiKey_0) && e->InvalidApiKey_0@ == msg
        } else if has_infix(msg, "call frequency"@) || has_infix(msg, "premium"@) {
            e == StockDataError::RateLimitExceeded
        } else if has_infix(msg, "network"@) || has_infix(msg, "connection"@) {
            e == StockDataError::NetworkError(e->NetworkError_0) && e->NetworkError_0@ == msg
        } else {
            e == StockDataError::ProviderError(e->ProviderError_0) && e->ProviderError_0@ == msg
        }
    }

    /// Maps the description of an upstream failure to the error it stands for.
    pub fn from_error_text(msg: String) -> (r: StockDataError)
        ensures
            StockDataError::classifies(msg@, r),
    {
        let m = msg.as_str();
        if contains_text(m, "Invalid API call") || contains_text(m, "symbol") || contains_text(m, "InvalidData") {
            StockDataError::SymbolNotFound(msg)
        } else if contains_text(m, "API key") {
            StockDataError::InvalidApiKey(msg)
        } else if contains_text(m, "call frequency") || contains_text(m, "premium") {
            StockDataError::RateLimitExceeded
        } else if contains_text(m, "network") || contains_text(m, "connection") {
            StockDataError::NetworkError(msg)
        } else {
            StockDataError::ProviderError(msg)
        }
    }
}

#[verifier::external_type_specification]
#[verifier::external_body]
pub struct ExUpstreamError(alpha_vantage::error::Error);

/// Relies on the `Debug` text of alpha_vantage's `Error`, which names the
/// variant and carries the message the API returned.
#[verifier::external_body]
fn upstream_error_text(e: &alpha_vantage::error::Error) -> String {
    format!("{:?}", e)
}

impl vstd::std_specs::convert::FromSpecImpl<alpha_vantage::error::Error> for StockDataError {
    open spec fn obeys_from_spec() -> bool {
        false
    }

    open spec fn from_spec(v: alpha_vantage::error::Error) -> StockDataError {
        vstd::pervasive::arbitrary()
    }
}

impl From<alpha_vantage::error::Error> for StockDataError {
    /// Classifies an alpha_vantage failure by its description.
    fn from(error: alpha_vantage::error::Error) -> StockDataError {
        StockDataError::from_error_text(upstream_error_text(&error))
    }
}

/// What a symbol check makes of the quote request's outcome: a quote means
/// the symbol exists, `SymbolNotFound` that it does not, and any other error
/// is passed on.
pub fn validation_result(outcome: Result<StockQuote, StockDataError>) -> (r: Result<bool, StockDataError>)
    ensures
        match outcome {
            Ok(_) => r == Ok::<bool, StockDataError>(true),
            Err(StockDataError::SymbolNotFound(_)) => r == Ok::<bool, StockDataError>(false),
            Err(e) => r == Err::<bool, StockDataError>(e),
        },
{
    match outcome {
        Ok(_) => Ok(true),
        Err(StockDataError::SymbolNotFound(_)) => Ok(false),
        Err(e) => Err(e),
    }
}

/// The quotes among `outcomes`, in order.
pub open spec fn successes(outcomes: Seq<Result<StockQuote, StockDataError>>) -> Seq<StockQuote>
    decreases outcomes.len(),
{
    if outcomes.len() == 0 {
        Seq::empty()
    } else {
        let before = successes(outcomes.drop_last());
        match outcomes.last() {
            Ok(q) => before.push(q),
            Err(_) => before,
        }
    }
}

/// The result of a batch of quote requests, one outcome per symbol asked
/// for: the quotes that came, in order, skipping failures, unless symbols
/// were asked for and none came.
pub fn collect_quotes(outcomes: Vec<Result<StockQuote, StockDataError>>) -> (r: Result<Vec<StockQuote>, StockDataError>)
    ensures
        outcomes@.len() > 0 && successes(outcomes@).len() == 0 ==> (r matches Err(e)
            && e == StockDataError::ProviderError(e->ProviderError_0)
            && e->ProviderError_0@ == "Failed to fetch any quotes"@),
        !(outcomes@.len() > 0 && successes(outcomes@).len() == 0) ==> (r matches Ok(qs) && qs@ == successes(outcomes@)),
{
    let n = outcomes.len();
    let ghost all = outcomes@;
    let mut quotes: Vec<StockQuote> = Vec::new();
    let mut rest = outcomes;
    let mut k: usize = 0;
    while rest.len() > 0
        invariant
            k <= all.len(),
            all.len() == n,
            rest@ == all.subrange(k as int, all.len() as int),
            quotes@ == successes(all.subrange(0, k as int)),
        decreases rest@.len(),
    {
        let o = rest.remove(0);
        proof {
            assert(o == all[k as int]);
            assert(all.subrange(0, k + 1).drop_last() =~= all.subrange(0, k as int));
        }
        match o {
            Ok(q) => quotes.push(q),
            Err(_) => {},
        }
        k = k + 1;
        proof {
            assert(rest@ =~= all.subrange(k as int, all.len() as int));
        }
    }
    assert(all.subrange(0, k as int) =~= all);
    if quotes.len() == 0 && n > 0 {
        return Err(StockDataError::ProviderError(String::from_str("Failed to fetch any quotes")));
    }
    Ok(quotes)
}

/// A stock quote. Prices are in hundredths of the currency unit and
/// `change_percent` in hundredths of a percent.
#[derive(Debug, Clone)]
pub struct StockQuote {
    /// Upper-case ticker.
    pub symbol: String,
    pub price: i64,
    /// Price change from the previous close.
    pub change: i64,
    pub change_percent: i64,
    pub previous_close: i64,
    pub open: i64,
    pub high: i64,
    pub low: i64,
    pub volume: u64,
    pub market_cap: Option<u64>,
    /// Unix seconds.
    pub timestamp: i64,
}

impl StockQuote {
    /// A quote from the upstream fields, stamped with `timestamp`; the
    /// upstream quote carries no market capitalisation.
    pub fn from_upstream(
        symbol: &str,
        price: i64,
        change: i64,
        change_percent: i64,
        previous_close: i64,
        open: i64,
        high: i64,
        low: i64,
        volume: u64,
        timestamp: i64,
    ) -> (r: StockQuote)
        ensures
            r.symbol@ == upper_of(symbol@),
            r.price == price,
            r.change == change,
            r.change_percent == change_percent,
            r.previous_close == previous_close,
            r.open == open,
            r.high == high,
            r.low == low,
            r.volume == volume,
            r.market_cap.is_none(),
            r.timestamp == timestamp,
    {
        StockQuote {
            symbol: to_upper(symbol),
            price,
            change,
            change_percent,
            previous_close,
            open,
            high,
            low,
            volume,
            market_cap: None,
            timestamp,
        }
    }
}

/// Sentiment of a news article.
#[derive(Debug, Clone, Copy, PartialEq, Eq, Structural)]
pub enum Sentiment {
    Positive,
    Negative,
    Neutral,
}

/// A news article about one or more stocks.
#[derive(Debug, Clone)]
pub struct StockNews {
    pub title: String,
    pub summary: String,
    pub source: String,
    /// Unix seconds.
    pub published_at: i64,
    pub url: String,
    pub symbols: Vec<String>,
    pub sentiment: Option<Sentiment>,
    pub ai_summary: Option<String>,
}

/// Configuration of a market-data provider.
#[derive(Debug, Clone)]
pub struct ProviderConfig {
    pub api_key: String,
    /// Override of the API's base URL.
    pub base_url: Option<String>,
    /// Request timeout in seconds.
    pub timeout: u64,
    pub max_retries: u32,
    /// Requests per minute, where it differs from the provider's own.
    pub rate_limit: Option<u32>,
}

impl Default for ProviderConfig {
    fn default() -> (r: ProviderConfig)
        ensures
            r.api_key@.len() == 0,
            r.base_url.is_none(),
            r.timeout == 30,
            r.max_retries == 3,
            r.rate_limit.is_none(),
    {
        ProviderConfig {
            api_key: String::new(),
            base_url: None,
            timeout: 30,
            max_retries: 3,
            rate_limit: None,
        }
    }
}

/// Whether a lower-case provider name is one the registry knows.
pub open spec fn known_provider(lowered: Seq<char>) -> bool {
    lowered == "alpha_vantage"@ || lowered == "alphavantage"@
}

/// Makes providers by name.
pub struct ProviderFactory;

impl ProviderFactory {
    /// Whether `lowered`, a provider name in lower case, names a known provider.
    pub fn is_known(lowered: &str) -> (r: bool)
        ensures
            r == known_provider(lowered@),
    {
        same_text(lowered, "alpha_vantage") || same_text(lowered, "alphavantage")
    }

    /// A new provider of the type named, case aside; any other name is a
    /// configuration error that quotes it.
    pub fn create(provider_type: &str) -> (r: Result<AlphaVantageProvider, StockDataError>)
        ensures
            known_provider(lower_of(provider_type@)) ==> (r matches Ok(p) && p.is_new()),
            !known_provider(lower_of(provider_type@)) ==> (r matches Err(e)
                && e == StockDataError::ConfigError(e->ConfigError_0)
                && e->ConfigError_0@ == "Unknown provider type: "@ + provider_type@),
    {
        let lowered = to_lower(provider_type);
        if ProviderFactory::is_known(lowered.as_str()) {
            Ok(AlphaVantageProvider::new())
        } else {
            let mut m = String::from_str("Unknown provider type: ");
            m.append(provider_type);
            Err(StockDataError::ConfigError(m))
        }
    }

    /// The names of the providers the registry knows.
    pub fn available_providers() -> (r: Vec<&'static str>)
        ensures
            r@.len() == 1,
            r@[0]@ == "alpha_vantage"@,
    {
        vec!["alpha_vantage"]
    }
}

} // verus!
