use telegram_bot::database::{DatabaseError, GroupConfig, StockSubscription, SubscriptionSettings};
use telegram_bot::dynamodb::{DynamoDbStockDatabase, PutOutcome};
use telegram_bot::item::{AttrValue, Item, ListElem};

fn database(prefix: &str) -> DynamoDbStockDatabase {
    let config = aws_sdk_dynamodb::Config::builder()
        .behavior_version(aws_sdk_dynamodb::config::BehaviorVersion::latest())
        .build();
    DynamoDbStockDatabase::new(aws_sdk_dynamodb::Client::from_conf(config), prefix.to_string())
}

fn has_key(item: &Item, key: &str) -> bool {
    item.get(key).is_some()
}

#[test]
fn test_subscription_to_item_conversion() {
    let subscription = StockSubscription::new("-1001234567890".to_string(), "AAPL".to_string(), 123456789);
    let db = database("test");

    let item = db.subscription_to_item(&subscription);

    assert!(has_key(&item, "group_id"));
    assert!(has_key(&item, "stock_symbol"));
    assert!(has_key(&item, "created_at"));
    assert!(has_key(&item, "is_active"));

    let converted_back = db.item_to_subscription(&item).unwrap();
    assert_eq!(converted_back.group_id, subscription.group_id);
    assert_eq!(converted_back.stock_symbol, subscription.stock_symbol);
    assert_eq!(converted_back.created_by_user_id, subscription.created_by_user_id);
}

#[test]
fn test_table_name_generation() {
    let db = database("telegram_bot");

    assert_eq!(db.table_name("stock_subscriptions"), "telegram_bot_stock_subscriptions");
    assert_eq!(db.table_name("group_config"), "telegram_bot_group_config");
}

#[test]
fn subscription_round_trip_keeps_every_field() {
    let db = database("t");
    let mut s = StockSubscription::new("g1".to_string(), "tsla".to_string(), -42);
    s.created_at = 1_700_000_000;
    s.updated_at = 1_700_000_060;
    s.is_active = false;
    let item = db.subscription_to_item(&s);
    assert!(item.get("settings").is_none());
    match item.get("created_at") {
        Some(AttrValue::S(t)) => assert_eq!(t, "2023-11-14T22:13:20+00:00"),
        _ => panic!("created_at is text"),
    }
    match item.get("created_by_user_id") {
        Some(AttrValue::N(n)) => assert_eq!(n, "-42"),
        _ => panic!("creator is a number"),
    }
    let back = db.item_to_subscription(&item).unwrap();
    assert_eq!(back.created_at, 1_700_000_000);
    assert_eq!(back.updated_at, 1_700_000_060);
    assert!(!back.is_active);
    assert_eq!(back.created_by_user_id, -42);
    assert!(back.settings.is_none());

    s.settings = Some(SubscriptionSettings {
        notification_time: Some("09:30".to_string()),
        include_ai_summary: true,
        metadata: vec![("a".to_string(), "1".to_string()), ("b \"q\"".to_string(), "2".to_string())],
    });
    let back = db.item_to_subscription(&db.subscription_to_item(&s)).unwrap();
    let settings = back.settings.unwrap();
    assert_eq!(settings.notification_time, Some("09:30".to_string()));
    assert!(settings.include_ai_summary);
    assert_eq!(settings.metadata, vec![("a".to_string(), "1".to_string()), ("b \"q\"".to_string(), "2".to_string())]);
}

#[test]
fn unreadable_subscription_fields_are_named() {
    let db = database("t");
    let mut item = Item::new();
    match db.item_to_subscription(&item) {
        Err(DatabaseError::SerializationError(m)) => assert_eq!(m, "Missing group_id"),
        _ => panic!("expected a serialisation error"),
    }
    item.insert("group_id", AttrValue::S("g".to_string()));
    item.insert("stock_symbol", AttrValue::S("X".to_string()));
    item.insert("created_at", AttrValue::S("yesterday".to_string()));
    match db.item_to_subscription(&item) {
        Err(DatabaseError::SerializationError(m)) => assert_eq!(m, "Invalid created_at"),
        _ => panic!("expected a serialisation error"),
    }
    item.insert("created_at", AttrValue::S("2024-01-01T00:00:00Z".to_string()));
    item.insert("updated_at", AttrValue::S("2024-01-01T08:00:00+08:00".to_string()));
    item.insert("created_by_user_id", AttrValue::N("12x".to_string()));
    match db.item_to_subscription(&item) {
        Err(DatabaseError::SerializationError(m)) => assert_eq!(m, "Invalid created_by_user_id"),
        _ => panic!("expected a serialisation error"),
    }
    item.insert("created_by_user_id", AttrValue::N("12".to_string()));
    let s = db.item_to_subscription(&item).unwrap();
    assert!(s.is_active);
    assert_eq!(s.created_at, 1_704_067_200);
    assert_eq!(s.updated_at, 1_704_067_200);
}

#[test]
fn group_config_round_trip_keeps_every_field() {
    let db = database("t");
    let mut c = GroupConfig::new("g".to_string(), 5);
    c.add_admin(-7);
    c.group_title = Some("Traders".to_string());
    c.max_subscriptions = 3;
    c.settings = vec![("lang".to_string(), "zh".to_string())];
    c.created_at = 0;
    c.updated_at = 86_400;
    let item = db.group_config_to_item(&c);
    let back = db.item_to_group_config(&item).unwrap();
    assert_eq!(back.group_title, Some("Traders".to_string()));
    assert_eq!(back.max_subscriptions, 3);
    assert_eq!(back.admin_user_ids, vec![5, -7]);
    assert_eq!(back.settings, vec![("lang".to_string(), "zh".to_string())]);
    assert_eq!(back.created_at, 0);
    assert_eq!(back.updated_at, 86_400);
    assert_eq!(back.timezone, "Asia/Shanghai");

    c.group_title = None;
    c.settings = vec![];
    let item = db.group_config_to_item(&c);
    assert!(item.get("group_title").is_none());
    assert!(item.get("settings").is_none());
    let back = db.item_to_group_config(&item).unwrap();
    assert!(back.group_title.is_none());
    assert!(back.settings.is_empty());
}

#[test]
fn group_config_fields_take_defaults() {
    let db = database("t");
    let mut item = Item::new();
    item.insert("group_id", AttrValue::S("g".to_string()));
    item.insert("created_at", AttrValue::S("2024-01-01T00:00:00Z".to_string()));
    item.insert("updated_at", AttrValue::S("2024-01-01T00:00:00Z".to_string()));
    item.insert("max_subscriptions", AttrValue::N("-1".to_string()));
    item.insert("admin_user_ids", AttrValue::L(vec![
        ListElem::N("3".to_string()),
        ListElem::Other,
        ListElem::N("x".to_string()),
        ListElem::N("3".to_string()),
        ListElem::N("4".to_string()),
    ]));
    let c = db.item_to_group_config(&item).unwrap();
    assert_eq!(c.max_subscriptions, 10);
    assert_eq!(c.default_notification_time, "10:00");
    assert!(c.ai_summaries_enabled);
    assert!(c.is_active);
    assert_eq!(c.admin_user_ids, vec![3, 4]);
}

#[test]
fn creating_twice_is_a_conflict() {
    let db = database("p");
    let s = StockSubscription::new("g".to_string(), "aapl".to_string(), 1);
    let request = db.create_subscription_request(&s);
    assert!(request.only_if_absent);
    assert_eq!(request.table_name, "p_stock_subscriptions");
    assert!(!db.update_subscription_request(&s).only_if_absent);
    assert!(db.subscription_created(PutOutcome::Stored).is_ok());
    match db.subscription_created(PutOutcome::ConditionFailed) {
        Err(DatabaseError::ConflictError(m)) => assert_eq!(m, "Subscription already exists"),
        _ => panic!("expected a conflict"),
    }
    match db.group_config_created(PutOutcome::Failed("throttled".to_string())) {
        Err(DatabaseError::Unknown(m)) => assert_eq!(m, "DynamoDB error: throttled"),
        _ => panic!("expected an unknown error"),
    }
}

#[test]
fn lookups_and_listings() {
    let db = database("p");
    assert!(db.found_subscription(None).unwrap().is_none());
    let s = StockSubscription::new("g".to_string(), "aapl".to_string(), 1);
    let good = db.subscription_to_item(&s);
    let found = db.found_subscription(Some(good.clone())).unwrap().unwrap();
    assert_eq!(found.stock_symbol, "AAPL");
    let list = db.subscriptions_from_items(&vec![good.clone(), Item::new(), good]);
    assert_eq!(list.len(), 2);
    let c = GroupConfig::new("g".to_string(), 1);
    let configs = db.group_configs_from_items(&vec![Item::new(), db.group_config_to_item(&c)]);
    assert_eq!(configs.len(), 1);
    assert!(db.found_group_config(Some(Item::new())).is_err());
}

#[test]
fn subscription_keys_use_upper_case_symbols() {
    let db = database("p");
    let (group, symbol) = db.subscription_key("-100", "nvda");
    assert_eq!(group, "-100");
    assert_eq!(symbol, "NVDA");
}

#[test]
fn times_near_the_year_bounds_are_read() {
    let db = database("t");
    let mut item = Item::new();
    item.insert("group_id", AttrValue::S("g".to_string()));
    item.insert("stock_symbol", AttrValue::S("X".to_string()));
    item.insert("created_at", AttrValue::S("0000-01-01T00:00:00+01:00".to_string()));
    item.insert("updated_at", AttrValue::S("9999-12-31T23:59:59-01:00".to_string()));
    item.insert("created_by_user_id", AttrValue::N("+12".to_string()));
    let s = db.item_to_subscription(&item).unwrap();
    assert_eq!(s.created_at, -62167219200 - 3600);
    assert_eq!(s.updated_at, 253402300799 + 3600);
    assert_eq!(s.created_by_user_id, 12);
    assert!(s.is_valid());
}

#[test]
fn max_subscriptions_reads_as_unsigned() {
    let db = database("t");
    let base = |n: &str| {
        let mut item = Item::new();
        item.insert("group_id", AttrValue::S("g".to_string()));
        item.insert("created_at", AttrValue::S("2024-01-01T00:00:00Z".to_string()));
        item.insert("updated_at", AttrValue::S("2024-01-01T00:00:00Z".to_string()));
        item.insert("max_subscriptions", AttrValue::N(n.to_string()));
        item
    };
    assert_eq!(db.item_to_group_config(&base("+7")).unwrap().max_subscriptions, 7);
    assert_eq!(db.item_to_group_config(&base("-0")).unwrap().max_subscriptions, 10);
    assert_eq!(db.item_to_group_config(&base("4294967296")).unwrap().max_subscriptions, 10);
}

#[test]
fn validity_of_records() {
    let mut c = GroupConfig::new("g".to_string(), 1);
    assert!(c.is_valid());
    c.settings = vec![("b".to_string(), "1".to_string()), ("a".to_string(), "2".to_string())];
    assert!(!c.is_valid());
    c.settings = vec![("a".to_string(), "1".to_string()), ("a".to_string(), "2".to_string())];
    assert!(!c.is_valid());
    c.settings = vec![("a".to_string(), "1".to_string()), ("ab".to_string(), "2".to_string())];
    assert!(c.is_valid());
    c.admin_user_ids = vec![3, 4, 3];
    assert!(!c.is_valid());
    let mut s = StockSubscription::new("g".to_string(), "x".to_string(), 1);
    assert!(s.is_valid());
    s.created_at = i64::MAX;
    assert!(!s.is_valid());
}
