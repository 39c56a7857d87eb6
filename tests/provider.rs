use alpha_vantage::error::Error as AlphaVantageError;
use telegram_bot::av_provider::AlphaVantageProvider;
use telegram_bot::provider::{validation_result, ProviderConfig, ProviderFactory, StockDataError, StockQuote};
use telegram_bot::rate_limit::RateLimitState;
use telegram_bot::provider::collect_quotes;
use telegram_bot::deployment::{detect_deployment_mode, DeploymentMode};

#[test]
fn test_provider_creation() {
    let provider = AlphaVantageProvider::new();
    assert_eq!(provider.name(), "Alpha Vantage");
    assert!(!provider.is_initialized());
}

#[test]
fn test_rate_limit_state() {
    let state = RateLimitState::default();
    assert_eq!(state.requests_made, 0);
    assert_eq!(state.requests_per_minute, 5);
}

#[test]
fn test_initialization_with_empty_api_key() {
    let mut provider = AlphaVantageProvider::new();
    let config = ProviderConfig { api_key: String::new(), ..Default::default() };
    let result = provider.initialize(config);
    assert!(result.is_err());
    assert!(matches!(result.unwrap_err(), StockDataError::InvalidApiKey(_)));
}

#[test]
fn test_initialization_with_valid_config() {
    let mut provider = AlphaVantageProvider::new();
    let config = ProviderConfig { api_key: "test_key".to_string(), rate_limit: Some(10), ..Default::default() };
    let result = provider.initialize(config);
    assert!(result.is_ok());
    assert!(provider.is_initialized());
    assert_eq!(provider.get_rate_limit_info(), Some((0, 10)));
}

#[test]
fn test_get_quote_without_initialization() {
    let mut provider = AlphaVantageProvider::new();
    let result = provider.begin_quote_at(1_000);
    assert!(result.is_err());
    assert!(matches!(result.unwrap_err(), StockDataError::ConfigError(_)));
}

#[test]
fn test_stock_quote_creation() {
    let quote = StockQuote {
        symbol: "AAPL".to_string(),
        price: 15000,
        change: 250,
        change_percent: 169,
        previous_close: 14750,
        open: 14800,
        high: 15100,
        low: 14700,
        volume: 50_000_000,
        market_cap: Some(2_500_000_000_000),
        timestamp: 1_700_000_000,
    };
    assert_eq!(quote.symbol, "AAPL");
    assert_eq!(quote.price, 15000);
    assert_eq!(quote.change_percent, 169);
}

#[test]
fn test_provider_config_default() {
    let config = ProviderConfig::default();
    assert_eq!(config.timeout, 30);
    assert_eq!(config.max_retries, 3);
    assert!(config.base_url.is_none());
    assert!(config.rate_limit.is_none());
}

#[test]
fn test_error_display() {
    let error = StockDataError::SymbolNotFound("INVALID".to_string());
    assert_eq!(error.to_string(), "Symbol not found: INVALID");

    let error = StockDataError::RateLimitExceeded;
    assert_eq!(error.to_string(), "Rate limit exceeded");
}

#[test]
fn test_provider_factory_create_alpha_vantage() {
    let provider = ProviderFactory::create("alpha_vantage");
    assert!(provider.is_ok());
}

#[test]
fn test_provider_factory_create_unknown() {
    let provider = ProviderFactory::create("unknown");
    assert!(provider.is_err());
}

#[test]
fn test_provider_factory_available_providers() {
    let providers = ProviderFactory::available_providers();
    assert!(providers.contains(&"alpha_vantage"));
}

#[test]
fn test_alpha_vantage_error_conversion() {
    let alpha_error = AlphaVantageError::AlphaVantageErrorMessage("Invalid API call".to_string());
    let stock_error: StockDataError = alpha_error.into();

    match stock_error {
        StockDataError::SymbolNotFound(_) => {}
        _ => panic!("Expected SymbolNotFound error"),
    }
}

#[test]
fn factory_ignores_case_and_quotes_unknown_names() {
    assert!(ProviderFactory::create("AlphaVantage").is_ok());
    assert!(ProviderFactory::create("ALPHA_VANTAGE").is_ok());
    match ProviderFactory::create("Yahoo") {
        Err(StockDataError::ConfigError(m)) => assert_eq!(m, "Unknown provider type: Yahoo"),
        _ => panic!("expected a configuration error"),
    }
    assert!(ProviderFactory::is_known("alphavantage"));
    assert!(!ProviderFactory::is_known("AlphaVantage"));
}

#[test]
fn upstream_errors_are_classified_by_their_text() {
    let e: StockDataError = AlphaVantageError::AlphaVantageInvalidData.into();
    assert!(matches!(e, StockDataError::SymbolNotFound(_)));
    let e: StockDataError = AlphaVantageError::AlphaVantageNote("Our standard API call frequency is 5 calls per minute".to_string()).into();
    assert!(matches!(e, StockDataError::RateLimitExceeded));
    let e: StockDataError = AlphaVantageError::GetRequestFailed.into();
    assert!(matches!(e, StockDataError::ProviderError(_)));

    assert!(matches!(StockDataError::from_error_text("the API key is invalid".to_string()), StockDataError::InvalidApiKey(_)));
    assert!(matches!(StockDataError::from_error_text("premium endpoint".to_string()), StockDataError::RateLimitExceeded));
    assert!(matches!(StockDataError::from_error_text("connection reset".to_string()), StockDataError::NetworkError(_)));
    match StockDataError::from_error_text("no such symbol".to_string()) {
        StockDataError::SymbolNotFound(m) => assert_eq!(m, "no such symbol"),
        _ => panic!("expected SymbolNotFound"),
    }
    match StockDataError::from_error_text("boom".to_string()) {
        StockDataError::ProviderError(m) => assert_eq!(m, "boom"),
        _ => panic!("expected ProviderError"),
    }
}

#[test]
fn every_error_has_its_message() {
    assert_eq!(StockDataError::InvalidApiKey("k".to_string()).to_string(), "Invalid API key: k");
    assert_eq!(StockDataError::NetworkError("n".to_string()).to_string(), "Network error: n");
    assert_eq!(StockDataError::ParseError("p".to_string()).to_string(), "Parse error: p");
    assert_eq!(StockDataError::InvalidSymbol("s".to_string()).to_string(), "Invalid symbol: s");
    assert_eq!(StockDataError::ProviderError("x".to_string()).to_string(), "Provider error: x");
    assert_eq!(StockDataError::ConfigError("c".to_string()).to_string(), "Configuration error: c");
}

#[test]
fn quote_symbols_are_upper_case() {
    let q = StockQuote::from_upstream("aapl", 15025, 235, 158, 14790, 14890, 15120, 14780, 45_200_000, 1_700_000_000);
    assert_eq!(q.symbol, "AAPL");
    assert_eq!(q.market_cap, None);
    assert_eq!(q.price, 15025);
    let q = StockQuote::from_upstream("Brk.b", 1, 0, 0, 1, 1, 1, 1, 0, 0);
    assert_eq!(q.symbol, "BRK.B");
}

#[test]
fn symbol_validation_maps_not_found_to_false() {
    let q = StockQuote::from_upstream("IBM", 1, 0, 0, 1, 1, 1, 1, 0, 0);
    assert_eq!(validation_result(Ok(q)).unwrap(), true);
    assert_eq!(validation_result(Err(StockDataError::SymbolNotFound("ZZZZINVALID".to_string()))).unwrap(), false);
    assert!(matches!(
        validation_result(Err(StockDataError::RateLimitExceeded)),
        Err(StockDataError::RateLimitExceeded)
    ));
}

#[test]
fn rate_limit_admits_ceiling_then_refuses_until_rollover() {
    let mut s = RateLimitState::new(10_000);
    for i in 0..5u64 {
        assert!(s.check_and_consume_at(10_000 + i * 1_000).is_ok());
    }
    assert!(matches!(s.check_and_consume_at(69_999), Err(StockDataError::RateLimitExceeded)));
    assert_eq!(s.requests_made, 5);
    assert!(s.check_and_consume_at(70_000).is_ok());
    assert_eq!(s.requests_made, 1);
    assert_eq!(s.window_start, 70_000);
}

#[test]
fn quote_requests_meet_the_limiter_first() {
    let mut provider = AlphaVantageProvider::new();
    let config = ProviderConfig { api_key: "k".to_string(), rate_limit: Some(1), ..Default::default() };
    assert!(provider.initialize(config).is_ok());
    assert!(provider.begin_quote_at(0).is_ok());
    assert!(matches!(provider.begin_quote_at(1), Err(StockDataError::RateLimitExceeded)));
    let mut fresh = AlphaVantageProvider::new();
    for t in 0..5u64 {
        assert!(matches!(fresh.begin_quote_at(t), Err(StockDataError::ConfigError(_))));
    }
    assert!(matches!(fresh.begin_quote_at(5), Err(StockDataError::RateLimitExceeded)));
}

#[test]
fn batch_quotes_skip_failures_but_not_all() {
    let q = |s: &str| StockQuote::from_upstream(s, 1, 0, 0, 1, 1, 1, 1, 0, 0);
    let r = collect_quotes(vec![Ok(q("a")), Err(StockDataError::RateLimitExceeded), Ok(q("b"))]).unwrap();
    assert_eq!(r.len(), 2);
    assert_eq!(r[1].symbol, "B");
    assert!(collect_quotes(vec![]).unwrap().is_empty());
    match collect_quotes(vec![Err(StockDataError::RateLimitExceeded)]) {
        Err(StockDataError::ProviderError(m)) => assert_eq!(m, "Failed to fetch any quotes"),
        _ => panic!("expected ProviderError"),
    }
}

#[test]
fn deployment_mode_prefers_lambda_then_webhook() {
    assert_eq!(detect_deployment_mode(true, true), DeploymentMode::Lambda);
    assert_eq!(detect_deployment_mode(false, true), DeploymentMode::Webhook);
    assert_eq!(detect_deployment_mode(false, false), DeploymentMode::Polling);
    assert_eq!(DeploymentMode::Webhook.label(), "WEBHOOK (Production)");
}
