use telegram_bot::database::{DatabaseError, GroupConfig, NotificationLog, StockCache, StockSubscription, SubscriptionSettings, UserPreferences};

#[test]
fn test_stock_subscription_creation() {
    let subscription = StockSubscription::new("-1001234567890".to_string(), "aapl".to_string(), 123456789);

    assert_eq!(subscription.group_id, "-1001234567890");
    assert_eq!(subscription.stock_symbol, "AAPL");
    assert_eq!(subscription.created_by_user_id, 123456789);
    assert!(subscription.is_active);
    assert!(subscription.settings.is_none());
}

#[test]
fn test_group_config_admin_management() {
    let mut config = GroupConfig::new("-1001234567890".to_string(), 123456789);

    assert!(config.is_admin(123456789));
    assert!(!config.is_admin(987654321));

    config.add_admin(987654321);
    assert!(config.is_admin(987654321));
    assert_eq!(config.admin_user_ids.len(), 2);

    config.remove_admin(123456789);
    assert!(!config.is_admin(123456789));
    assert_eq!(config.admin_user_ids.len(), 1);
}

#[test]
fn test_stock_cache_expiration() {
    let cache = StockCache::new("AAPL".to_string(), "{}".to_string(), "[]".to_string(), "alpha_vantage".to_string(), 24);

    assert!(!cache.is_expired());
    assert_eq!(cache.stock_symbol, "AAPL");
    assert_eq!(cache.provider, "alpha_vantage");
}

#[test]
fn test_notification_log_creation() {
    let log = NotificationLog::new(
        "-1001234567890".to_string(),
        "AAPL".to_string(),
        "daily_update".to_string(),
        "AAPL: $150.00 (+1.25%)".to_string(),
        500,
    );

    assert_eq!(log.group_id, "-1001234567890");
    assert_eq!(log.stock_symbol, "AAPL");
    assert!(log.success);
    assert!(log.error_message.is_none());
    assert!(!log.log_id.is_empty());
}

#[test]
fn adding_an_admin_twice_keeps_one_entry() {
    let mut config = GroupConfig::new("g".to_string(), 1);
    config.remove_admin(1);
    assert!(config.admin_user_ids.is_empty());
    config.add_admin(42);
    config.add_admin(42);
    assert_eq!(config.admin_user_ids, vec![42]);
    config.add_admin(7);
    config.add_admin(42);
    assert_eq!(config.admin_user_ids, vec![42, 7]);
    config.remove_admin(99);
    assert_eq!(config.admin_user_ids, vec![42, 7]);
}

#[test]
fn group_config_defaults() {
    let config = GroupConfig::new("g".to_string(), 5);
    assert_eq!(config.max_subscriptions, 10);
    assert_eq!(config.default_notification_time, "10:00");
    assert_eq!(config.timezone, "Asia/Shanghai");
    assert!(config.ai_summaries_enabled);
    assert!(config.is_active);
    assert!(config.group_title.is_none());
    assert_eq!(config.created_at, config.updated_at);
}

#[test]
fn cache_expires_after_its_ttl() {
    let cache = StockCache::new_at("msft".to_string(), "{}".to_string(), "[]".to_string(), "alpha_vantage".to_string(), 2, 1_000_000);
    assert_eq!(cache.stock_symbol, "MSFT");
    assert_eq!(cache.expires_at, 1_000_000 + 7_200);
    assert_eq!(cache.cache_version, 1);
    assert!(!cache.is_expired_at(1_000_000));
    assert!(!cache.is_expired_at(1_007_199));
    assert!(cache.is_expired_at(1_007_200));
    let zero = StockCache::new_at("x".to_string(), String::new(), String::new(), String::new(), 0, 5);
    assert!(zero.is_expired_at(5));
}

#[test]
fn notification_log_marks_failures() {
    let log = NotificationLog::new("g".to_string(), "tsla".to_string(), "alert".to_string(), "m".to_string(), 3);
    assert_eq!(log.log_id.len(), 36);
    assert_eq!(log.expires_at, log.timestamp + 30 * 24 * 3600);
    let failed = log.clone().with_error("timeout".to_string());
    assert!(!failed.success);
    assert_eq!(failed.error_message, Some("timeout".to_string()));
    assert_eq!(failed.log_id, log.log_id);
}

#[test]
fn user_preferences_defaults() {
    let p = UserPreferences::new(7, Some("ann".to_string()));
    assert_eq!(p.user_id, 7);
    assert_eq!(p.username, Some("ann".to_string()));
    assert_eq!(p.timezone, "Asia/Shanghai");
    assert!(!p.private_notifications_enabled);
    assert!(p.preferred_ai_model.is_none());
    assert!(p.settings.is_empty());
}

#[test]
fn touch_moves_only_the_update_time() {
    let mut s = StockSubscription::new("g".to_string(), "ibm".to_string(), 1);
    s.updated_at = 0;
    s.settings = Some(SubscriptionSettings { notification_time: None, include_ai_summary: true, metadata: vec![] });
    s.touch();
    assert!(s.updated_at > 0);
    assert_eq!(s.stock_symbol, "IBM");
}

#[test]
fn database_error_messages() {
    assert_eq!(DatabaseError::ConnectionError("c".to_string()).to_string(), "Connection error: c");
    assert_eq!(DatabaseError::NotFound("n".to_string()).to_string(), "Item not found: n");
    assert_eq!(DatabaseError::ValidationError("v".to_string()).to_string(), "Validation error: v");
    assert_eq!(DatabaseError::ConflictError("x".to_string()).to_string(), "Conflict error: x");
    assert_eq!(DatabaseError::RateLimitExceeded.to_string(), "Rate limit exceeded");
    assert_eq!(DatabaseError::SerializationError("s".to_string()).to_string(), "Serialization error: s");
    assert_eq!(DatabaseError::Unknown("u".to_string()).to_string(), "Unknown error: u");
}
