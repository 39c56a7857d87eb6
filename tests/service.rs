use telegram_bot::ai::{completion_text, default_model, get_available_models, is_available_model, resolve_model, validate_model};
use telegram_bot::provider::{StockDataError, StockQuote};
use telegram_bot::service::{format_stock_error, format_stock_quote, get_news_text, normalize_symbol, service_config};
use telegram_bot::storage::{model_from_item, preference_from_item, preference_to_item, preferences_from_items, UserPreferences};
use telegram_bot::item::{AttrValue, Item};
use telegram_bot::text::{int_to_text, parse_i64, parse_u32, text_lt};

#[test]
fn test_format_stock_quote() {
    let quote = StockQuote {
        symbol: "AAPL".to_string(),
        price: 15025,
        change: 235,
        change_percent: 158,
        previous_close: 14790,
        open: 14890,
        high: 15120,
        low: 14780,
        volume: 45_200_000,
        market_cap: Some(2_400_000_000_000),
        timestamp: 1_700_000_000,
    };

    let formatted = format_stock_quote(&quote);

    assert!(formatted.contains("📈 AAPL Stock Quote"));
    assert!(formatted.contains("$150.25"));
    assert!(formatted.contains("+$2.35"));
    assert!(formatted.contains("+1.58%"));
    assert!(formatted.contains("45.2M"));
    assert!(formatted.contains("$2.4T"));
}

#[test]
fn test_format_negative_change() {
    let quote = StockQuote {
        symbol: "MSFT".to_string(),
        price: 38010,
        change: -150,
        change_percent: -39,
        previous_close: 38160,
        open: 38100,
        high: 38250,
        low: 37980,
        volume: 25_500_000,
        market_cap: None,
        timestamp: 1_700_000_000,
    };

    let formatted = format_stock_quote(&quote);

    assert!(formatted.contains("📉 MSFT Stock Quote"));
    assert!(formatted.contains("-$1.50"));
    assert!(formatted.contains("-0.39%"));
    assert!(formatted.contains("25.5M"));
    assert!(formatted.contains("N/A"));
}

#[test]
fn test_format_error_messages() {
    let symbol_error = StockDataError::SymbolNotFound("Invalid symbol".to_string());
    let rate_limit_error = StockDataError::RateLimitExceeded;
    let network_error = StockDataError::NetworkError("Connection failed".to_string());

    assert!(format_stock_error(&symbol_error, Some("INVALID")).contains("❌ Stock symbol not found"));
    assert!(format_stock_error(&rate_limit_error, None).contains("⚠️ Rate limit exceeded"));
    assert!(format_stock_error(&network_error, None).contains("🌐 Network error"));
}

#[test]
fn quote_text_whole() {
    let quote = StockQuote {
        symbol: "IBM".to_string(),
        price: 5,
        change: 0,
        change_percent: 0,
        previous_close: 5,
        open: -1234,
        high: 100,
        low: 0,
        volume: 999,
        market_cap: Some(1_250_000_000),
        timestamp: 1_700_000_000,
    };
    assert_eq!(
        format_stock_quote(&quote),
        "➡️ IBM Stock Quote\n\nPrice: $0.05 (+$0.00, +0.00%)\nOpen: $-12.34\nHigh: $1.00\nLow: $0.00\nVolume: 999\nMarket Cap: $1.3B\n\nLast Updated: 2023-11-14 22:13 UTC\nData provided by Alpha Vantage"
    );
    let small = StockQuote { volume: 1_049, market_cap: Some(999_999), timestamp: i64::MAX, ..quote };
    let text = format_stock_quote(&small);
    assert!(text.contains("Volume: 1.0K\n"));
    assert!(text.contains("Market Cap: $999999\n"));
    assert!(text.contains("Last Updated: N/A\n"));
}

#[test]
fn error_texts_for_each_kind() {
    assert_eq!(
        format_stock_error(&StockDataError::InvalidSymbol(String::new()), Some("appl")),
        "❌ Stock symbol not found: \"APPL\"\nPlease check the symbol and try again.\n💡 Did you mean AAPL (Apple Inc.)?"
    );
    assert!(format_stock_error(&StockDataError::SymbolNotFound(String::new()), Some("goog")).ends_with("💡 Try GOOGL (Alphabet Inc.)"));
    assert!(format_stock_error(&StockDataError::SymbolNotFound(String::new()), Some("msft")).ends_with("💡 Already correct symbol"));
    assert_eq!(
        format_stock_error(&StockDataError::SymbolNotFound(String::new()), None),
        "❌ Invalid stock symbol\nPlease provide a valid stock symbol."
    );
    assert!(format_stock_error(&StockDataError::InvalidApiKey(String::new()), None).starts_with("🔑 API configuration error"));
    assert!(format_stock_error(&StockDataError::ConfigError(String::new()), None).starts_with("⚙️ Configuration error"));
    assert!(format_stock_error(&StockDataError::ParseError(String::new()), None).starts_with("🔧 Service temporarily unavailable"));
}

#[test]
fn symbols_are_trimmed_and_upper_cased() {
    assert_eq!(normalize_symbol("  aapl \n").unwrap(), "AAPL");
    match normalize_symbol("   ") {
        Err(StockDataError::InvalidSymbol(m)) => assert_eq!(m, "Symbol cannot be empty"),
        _ => panic!("expected InvalidSymbol"),
    }
    assert!(get_news_text(" tsla").unwrap().starts_with("📰 TSLA News\n\n"));
    assert!(matches!(get_news_text(""), Err(StockDataError::InvalidSymbol(_))));
}

#[test]
fn service_configuration_from_the_key() {
    assert!(matches!(service_config(None), Err(StockDataError::ConfigError(_))));
    assert!(matches!(service_config(Some(String::new())), Err(StockDataError::InvalidApiKey(_))));
    let c = service_config(Some("k".to_string())).unwrap();
    assert_eq!(c.api_key, "k");
    assert_eq!(c.rate_limit, Some(5));
}

#[test]
fn model_choice() {
    let models = get_available_models();
    assert_eq!(models.len(), 7);
    assert_eq!(models[0], "gpt-4o");
    assert!(is_available_model("o1-mini"));
    assert!(!is_available_model("gpt-5"));
    assert_eq!(validate_model("gpt-4").unwrap(), "gpt-4");
    assert_eq!(validate_model("llama-3").unwrap_err(), models);
    assert_eq!(default_model(None), "gpt-4o");
    assert_eq!(default_model(Some("gpt-4".to_string())), "gpt-4");
    assert_eq!(resolve_model(Some("o1-mini".to_string()), "gpt-4o".to_string()), "o1-mini");
    assert_eq!(resolve_model(None, "gpt-4o".to_string()), "gpt-4o");
}

#[test]
fn completion_answers() {
    assert_eq!(completion_text(Some(Some("  hi there \n".to_string()))).unwrap(), "hi there");
    assert_eq!(completion_text(None).unwrap_err(), "No response from OpenAI");
    assert_eq!(completion_text(Some(None)).unwrap_err(), "No content in OpenAI response");
}

#[test]
fn chat_model_preferences_as_items() {
    let p = UserPreferences::new_at("chat".to_string(), "gpt-4".to_string(), 0);
    assert_eq!(p.updated_at, "1970-01-01T00:00:00+00:00");
    assert_eq!(p.expires_at, Some(365 * 24 * 3600));
    let item = preference_to_item(&p);
    assert_eq!(model_from_item(Some(item.clone())), Some("gpt-4".to_string()));
    assert_eq!(model_from_item(None), None);
    let back = preference_from_item(&item).unwrap();
    assert_eq!(back.chat_id, "chat");
    assert_eq!(back.expires_at, p.expires_at);
    let mut partial = Item::new();
    partial.insert("chat_id", AttrValue::S("c".to_string()));
    assert!(preference_from_item(&partial).is_none());
    assert_eq!(preferences_from_items(&vec![partial, item]).len(), 1);
}

#[test]
fn numerals() {
    assert_eq!(int_to_text(0), "0");
    assert_eq!(int_to_text(-9_223_372_036_854_775_808), "-9223372036854775808");
    assert_eq!(int_to_text(1_234_567), "1234567");
    assert_eq!(parse_i64("-9223372036854775808"), Some(i64::MIN));
    assert_eq!(parse_i64("9223372036854775807"), Some(i64::MAX));
    assert_eq!(parse_i64("9223372036854775808"), None);
    assert_eq!(parse_i64("-"), None);
    assert_eq!(parse_i64(""), None);
    assert_eq!(parse_i64("12a"), None);
    assert_eq!(parse_i64("007"), Some(7));
    assert_eq!(parse_i64("+5"), Some(5));
    assert_eq!(parse_i64("+"), None);
    assert_eq!(parse_i64("+-5"), None);
    assert_eq!(parse_u32("+5"), Some(5));
    assert_eq!(parse_u32("-0"), None);
    assert_eq!(parse_u32("4294967295"), Some(u32::MAX));
    assert!(text_lt("a", "ab"));
    assert!(text_lt("B", "a"));
    assert!(!text_lt("b", "b"));
}
