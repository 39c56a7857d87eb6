//! The Alpha Vantage provider: its client and its rate limiter.
use vstd::prelude::*;
use alpha_vantage::api::ApiClient;
use crate::provider::{ProviderConfig, StockDataError};
use crate::rate_limit::{consume, RateLimitState, DEFAULT_REQUESTS_PER_MINUTE};

verus! {

#[verifier::external_type_specification]
#[verifier::external_body]
pub struct ExApiClient(ApiClient);

/// Relies on alpha_vantage's `ApiClient::set_api`, which stores the key and
/// the HTTP client without making a request, and on reqwest's `Client::new`
/// for that client (which panics only where no TLS backend can be set up).
#[verifier::external_body]
fn connect(api_key: &str) -> ApiClient {
    ApiClient::set_api(api_key, reqwest::Client::new())
}

/// The Alpha Vantage provider.
pub struct AlphaVantageProvider {
    client: Option<ApiClient>,
    rate_limit: RateLimitState,
}

impl AlphaVantageProvider {
    /// Whether the provider holds a client.
    pub closed spec fn initialized(&self) -> bool {
        self.client is Some
    }

    /// The provider's rate limiter.
    pub closed spec fn limiter(&self) -> RateLimitState {
        self.rate_limit
    }

    /// Whether the provider is as `new` makes it.
    pub open spec fn is_new(&self) -> bool {
        &&& !self.initialized()
        &&& self.limiter().requests_made == 0
        &&& self.limiter().requests_per_minute == DEFAULT_REQUESTS_PER_MINUTE
    }

    /// A provider without a client, allowing the default requests per minute.
    pub fn new() -> (r: AlphaVantageProvider)
        ensures
            r.is_new(),
    {
        AlphaVantageProvider { client: None, rate_limit: RateLimitState::default() }
    }

    pub fn name(&self) -> (r: &'static str)
        ensures
            r@ == "Alpha Vantage"@,
    {
        "Alpha Vantage"
    }

    /// Whether `initialize` has succeeded.
    pub fn is_initialized(&self) -> (r: bool)
        ensures
            r == self.initialized(),
    {
        self.client.is_some()
    }

    /// Sets up the client with the configured key, and the requests per
    /// minute where the configuration gives them. An empty key is refused
    /// before anything changes.
    pub fn initialize(&mut self, config: ProviderConfig) -> (r: Result<(), StockDataError>)
        ensures
            config.api_key@.len() == 0 ==> (r matches Err(e)
                && e == StockDataError::InvalidApiKey(e->InvalidApiKey_0)
                && e->InvalidApiKey_0@ == "API key is required"@
                && final(self).initialized() == old(self).initialized()
                && final(self).limiter() == old(self).limiter()),
            config.api_key@.len() > 0 ==> r is Ok
                && final(self).initialized()
                && final(self).limiter() == (RateLimitState {
                    requests_per_minute: match config.rate_limit {
                        Some(n) => n,
                        None => old(self).limiter().requests_per_minute,
                    },
                    ..old(self).limiter()
                }),
    {
        if config.api_key.as_str().is_empty() {
            return Err(StockDataError::InvalidApiKey(String::from_str("API key is required")));
        }
        if let Some(n) = config.rate_limit {
            self.rate_limit.requests_per_minute = n;
        }
        self.client = Some(connect(config.api_key.as_str()));
        Ok(())
    }

    /// The client, or a configuration error before `initialize`.
    pub fn get_client(&self) -> (r: Result<&ApiClient, StockDataError>)
        ensures
            self.initialized() <==> r is Ok,
            !self.initialized() ==> (r matches Err(e)
                && e == StockDataError::ConfigError(e->ConfigError_0)
                && e->ConfigError_0@ == "Provider not initialized"@),
    {
        match &self.client {
            Some(c) => Ok(c),
            None => Err(StockDataError::ConfigError(String::from_str("Provider not initialized"))),
        }
    }

    /// Admits a quote request made at `now` (milliseconds): the rate limiter
    /// decides first, so a refused request never reaches the network; then a
    /// provider without a client fails with a configuration error.
    pub fn begin_quote_at(&mut self, now: u64) -> (r: Result<(), StockDataError>)
        ensures
            final(self).limiter() == consume(old(self).limiter(), now).0,
            final(self).initialized() == old(self).initialized(),
            !consume(old(self).limiter(), now).1 ==> r == Err::<(), StockDataError>(StockDataError::RateLimitExceeded),
            consume(old(self).limiter(), now).1 && !old(self).initialized() ==> (r matches Err(e)
                && e == StockDataError::ConfigError(e->ConfigError_0)
                && e->ConfigError_0@ == "Provider not initialized"@),
            r is Ok <==> consume(old(self).limiter(), now).1 && old(self).initialized(),
    {
        self.rate_limit.check_and_consume_at(now)?;
        match self.get_client() {
            Ok(_) => Ok(()),
            Err(e) => Err(e),
        }
    }

    /// Requests made in the current window and the ceiling.
    pub fn get_rate_limit_info(&self) -> (r: Option<(u32, u32)>)
        ensures
            r == Some((self.limiter().requests_made, self.limiter().requests_per_minute)),
    {
        Some((self.rate_limit.requests_made, self.rate_limit.requests_per_minute))
    }
}

} // verus!
