//! The records' layout in the key-value store: table names, and each
//! record as an item and back.
use vstd::prelude::*;
use crate::database::{DatabaseError, GroupConfig, GroupConfigView, StockSubscription, SubscriptionSettings, SubscriptionView};
use crate::item::{lookup, lookup_bool, lookup_l, lookup_n, lookup_s, AttrValue, Item, ListElem};
use crate::text::{keys_ascending, to_upper, upper_of, int_text, int_to_text, lemma_int_text_round_trip, numeral_i64, numeral_u32, parse_i64, parse_u32};
use crate::time::{format_rfc3339, parse_rfc3339, rfc3339_of, rfc3339_parsed, rfc3339_time, valid_time};
use std::collections::BTreeMap;

verus! {

/// The JSON text serde_json writes for a subscription's settings.
pub uninterp spec fn settings_json_of(v: (Option<Seq<char>>, bool, Seq<(Seq<char>, Seq<char>)>)) -> Seq<char>;

/// The settings serde_json reads from a JSON text, if it holds some.
pub uninterp spec fn settings_parsed(s: Seq<char>) -> Option<(Option<Seq<char>>, bool, Seq<(Seq<char>, Seq<char>)>)>;

/// Relies on `serde_json::to_string` of the settings' fields as a triple,
/// the metadata as a string map; such a value always serialises, and
/// `serde_json::from_str` reads the same triple back, the map's pairs in
/// key order.
#[verifier::external_body]
fn encode_settings(s: &SubscriptionSettings) -> (r: String)
    ensures
        r@ == settings_json_of(s@),
        keys_ascending(s@.2) ==> settings_parsed(r@) == Some(s@),
{
    let metadata: BTreeMap<String, String> = s.metadata.iter().cloned().collect();
    serde_json::to_string(&(&s.notification_time, s.include_ai_summary, metadata)).expect("string-keyed value")
}

/// Relies on `serde_json::from_str` into the triple that `encode_settings`
/// writes; `None` where the text holds no such value. A `BTreeMap` hands
/// its pairs out in ascending key order.
#[verifier::external_body]
fn decode_settings(s: &str) -> (r: Option<SubscriptionSettings>)
    ensures
        match r {
            Some(x) => settings_parsed(s@) == Some(x@) && keys_ascending(x@.2),
            None => settings_parsed(s@) is None,
        },
{
    serde_json::from_str::<(Option<String>, bool, BTreeMap<String, String>)>(s).ok().map(
        |(notification_time, include_ai_summary, metadata)| SubscriptionSettings {
            notification_time,
            include_ai_summary,
            metadata: metadata.into_iter().collect(),
        },
    )
}

/// The instant stored as RFC 3339 text under `key`.
pub open spec fn time_at(e: Seq<(String, AttrValue)>, key: Seq<char>) -> Option<i64> {
    match lookup_s(e, key) {
        Some(s) => rfc3339_parsed(s),
        None => None,
    }
}

/// The integer stored under `key`.
pub open spec fn int_at(e: Seq<(String, AttrValue)>, key: Seq<char>) -> Option<i64> {
    match lookup_n(e, key) {
        Some(s) => numeral_i64(s),
        None => None,
    }
}

/// Whether `e` stores the subscription `v`: each field under its name,
/// instants as RFC 3339 text, the creator's id as a number, and the
/// settings as JSON text only where there are settings.
pub open spec fn subscription_item(v: SubscriptionView, e: Seq<(String, AttrValue)>) -> bool {
    &&& lookup_s(e, "group_id"@) == Some(v.group_id)
    &&& lookup_s(e, "stock_symbol"@) == Some(v.stock_symbol)
    &&& lookup_s(e, "created_at"@) == Some(rfc3339_of(v.created_at))
    &&& lookup_s(e, "updated_at"@) == Some(rfc3339_of(v.updated_at))
    &&& rfc3339_time(v.created_at) ==> rfc3339_parsed(rfc3339_of(v.created_at)) == Some(v.created_at)
    &&& rfc3339_time(v.updated_at) ==> rfc3339_parsed(rfc3339_of(v.updated_at)) == Some(v.updated_at)
    &&& lookup_bool(e, "is_active"@) == Some(v.is_active)
    &&& lookup_n(e, "created_by_user_id"@) == Some(int_text(v.created_by_user_id as int))
    &&& match v.settings {
        Some(x) => lookup_s(e, "settings"@) == Some(settings_json_of(x))
            && (keys_ascending(x.2) ==> settings_parsed(settings_json_of(x)) == Some(x)),
        None => lookup(e, "settings"@) is None,
    }
}

/// The subscription an item stores, or the message of the first field that
/// is missing or unreadable. A missing `is_active` reads as true; settings
/// that do not read back are left out.
pub open spec fn decode_subscription(e: Seq<(String, AttrValue)>) -> Result<SubscriptionView, Seq<char>> {
    if lookup_s(e, "group_id"@) is None {
        Err("Missing group_id"@)
    } else if lookup_s(e, "stock_symbol"@) is None {
        Err("Missing stock_symbol"@)
    } else if time_at(e, "created_at"@) is None {
        Err("Invalid created_at"@)
    } else if time_at(e, "updated_at"@) is None {
        Err("Invalid updated_at"@)
    } else if int_at(e, "created_by_user_id"@) is None {
        Err("Invalid created_by_user_id"@)
    } else {
        Ok(SubscriptionView {
            group_id: lookup_s(e, "group_id"@)->Some_0,
            stock_symbol: lookup_s(e, "stock_symbol"@)->Some_0,
            created_at: time_at(e, "created_at"@)->Some_0,
            updated_at: time_at(e, "updated_at"@)->Some_0,
            is_active: match lookup_bool(e, "is_active"@) {
                Some(b) => b,
                None => true,
            },
            created_by_user_id: int_at(e, "created_by_user_id"@)->Some_0,
            settings: match lookup_s(e, "settings"@) {
                Some(s) => settings_parsed(s),
                None => None,
            },
        })
    }
}

/// Whether `r` is the serialisation error with message `m`.
pub open spec fn serialization_error(r: DatabaseError, m: Seq<char>) -> bool {
    match r {
        DatabaseError::SerializationError(s) => s@ == m,
        _ => false,
    }
}

/// The string stored under `key`, copied.
fn get_s(item: &Item, key: &str) -> (r: Option<String>)
    ensures
        match r {
            Some(s) => lookup_s(item.entries@, key@) == Some(s@),
            None => lookup_s(item.entries@, key@) is None,
        },
{
    match item.get(key) {
        Some(AttrValue::S(s)) => Some(s.clone()),
        _ => None,
    }
}

/// The flag stored under `key`.
fn get_bool(item: &Item, key: &str) -> (r: Option<bool>)
    ensures
        r == lookup_bool(item.entries@, key@),
{
    match item.get(key) {
        Some(AttrValue::Bool(b)) => Some(*b),
        _ => None,
    }
}

/// The integer stored under `key`.
fn get_int(item: &Item, key: &str) -> (r: Option<i64>)
    ensures
        r == int_at(item.entries@, key@),
{
    match item.get(key) {
        Some(AttrValue::N(n)) => parse_i64(n.as_str()),
        _ => None,
    }
}

/// The instant stored under `key`.
fn get_time(item: &Item, key: &str) -> (r: Option<i64>)
    ensures
        r == time_at(item.entries@, key@),
        r matches Some(t) ==> valid_time(t),
{
    match item.get(key) {
        Some(AttrValue::S(s)) => parse_rfc3339(s.as_str()),
        _ => None,
    }
}

/// A serialisation error with message `m`.
fn serialization(m: &str) -> (r: DatabaseError)
    ensures
        serialization_error(r, m@),
{
    DatabaseError::SerializationError(String::from_str(m))
}

/// The JSON text serde_json writes for a string map with these pairs.
pub uninterp spec fn map_json_of(m: Seq<(Seq<char>, Seq<char>)>) -> Seq<char>;

/// The pairs, in key order, of the string map serde_json reads from a JSON text.
pub uninterp spec fn map_parsed(s: Seq<char>) -> Option<Seq<(Seq<char>, Seq<char>)>>;

/// Relies on `serde_json::to_string` of the pairs as a string map; such a
/// map always serialises, and `serde_json::from_str` reads the same map
/// back, its pairs in key order.
#[verifier::external_body]
fn encode_map(m: &Vec<(String, String)>) -> (r: String)
    ensures
        r@ == map_json_of(m.deep_view()),
        keys_ascending(m.deep_view()) ==> map_parsed(r@) == Some(m.deep_view()),
{
    let map: BTreeMap<String, String> = m.iter().cloned().collect();
    serde_json::to_string(&map).expect("string-keyed map")
}

/// Relies on `serde_json::from_str` into a string map, whose pairs come in
/// key order; `None` where the text holds no such map.
#[verifier::external_body]
fn decode_map(s: &str) -> (r: Option<Vec<(String, String)>>)
    ensures
        match r {
            Some(m) => map_parsed(s@) == Some(m.deep_view()) && keys_ascending(m.deep_view()),
            None => map_parsed(s@) is None,
        },
{
    serde_json::from_str::<BTreeMap<String, String>>(s).ok().map(|m| m.into_iter().collect())
}

/// Whether `l` lists the numerals of `ids`, in order.
pub open spec fn lists_ids(ids: Seq<i64>, l: Seq<ListElem>) -> bool {
    &&& l.len() == ids.len()
    &&& forall|i: int| 0 <= i < l.len() ==> match #[trigger] l[i] {
        ListElem::N(s) => s@ == int_text(ids[i] as int),
        ListElem::Other => false,
    }
}

/// The ids a stored list holds: its numbers that read as integers, each
/// kept at its first occurrence.
pub open spec fn ids_of(l: Seq<ListElem>) -> Seq<i64>
    decreases l.len(),
{
    if l.len() == 0 {
        Seq::empty()
    } else {
        let before = ids_of(l.drop_last());
        match l.last() {
            ListElem::N(s) => match numeral_i64(s@) {
                Some(v) => if before.contains(v) { before } else { before.push(v) },
                None => before,
            },
            ListElem::Other => before,
        }
    }
}

/// The `u32` stored under `key`.
pub open spec fn u32_at(e: Seq<(String, AttrValue)>, key: Seq<char>) -> Option<u32> {
    match lookup_n(e, key) {
        Some(s) => numeral_u32(s),
        None => None,
    }
}

/// Whether `e` stores the configuration `v`: each field under its name, the
/// title only where there is one, instants as RFC 3339 text, admins as a
/// list of numbers, and settings as JSON text only where there are some.
pub open spec fn group_config_item(v: GroupConfigView, e: Seq<(String, AttrValue)>) -> bool {
    &&& lookup_s(e, "group_id"@) == Some(v.group_id)
    &&& match v.group_title {
        Some(t) => lookup_s(e, "group_title"@) == Some(t),
        None => lookup(e, "group_title"@) is None,
    }
    &&& lookup_n(e, "max_subscriptions"@) == Some(int_text(v.max_subscriptions as int))
    &&& lookup_s(e, "default_notification_time"@) == Some(v.default_notification_time)
    &&& lookup_s(e, "timezone"@) == Some(v.timezone)
    &&& lookup_bool(e, "ai_summaries_enabled"@) == Some(v.ai_summaries_enabled)
    &&& lookup_s(e, "created_at"@) == Some(rfc3339_of(v.created_at))
    &&& lookup_s(e, "updated_at"@) == Some(rfc3339_of(v.updated_at))
    &&& rfc3339_time(v.created_at) ==> rfc3339_parsed(rfc3339_of(v.created_at)) == Some(v.created_at)
    &&& rfc3339_time(v.updated_at) ==> rfc3339_parsed(rfc3339_of(v.updated_at)) == Some(v.updated_at)
    &&& lookup_bool(e, "is_active"@) == Some(v.is_active)
    &&& lookup_l(e, "admin_user_ids"@) matches Some(l) && lists_ids(v.admin_user_ids, l)
    &&& if v.settings.len() > 0 {
        lookup_s(e, "settings"@) == Some(map_json_of(v.settings))
            && (keys_ascending(v.settings) ==> map_parsed(map_json_of(v.settings)) == Some(v.settings))
    } else {
        lookup(e, "settings"@) is None
    }
}

/// The configuration an item stores, or the message of the first required
/// field that is missing or unreadable. Fields that are absent or unreadable
/// take their defaults: 10 subscriptions, "10:00", "Asia/Shanghai",
/// summaries and activity on, no admins, no settings.
pub open spec fn decode_group_config(e: Seq<(String, AttrValue)>) -> Result<GroupConfigView, Seq<char>> {
    if lookup_s(e, "group_id"@) is None {
        Err("Missing group_id"@)
    } else if time_at(e, "created_at"@) is None {
        Err("Invalid created_at"@)
    } else if time_at(e, "updated_at"@) is None {
        Err("Invalid updated_at"@)
    } else {
        Ok(GroupConfigView {
            group_id: lookup_s(e, "group_id"@)->Some_0,
            group_title: lookup_s(e, "group_title"@),
            max_subscriptions: match u32_at(e, "max_subscriptions"@) {
                Some(n) => n,
                None => 10,
            },
            default_notification_time: match lookup_s(e, "default_notification_time"@) {
                Some(s) => s,
                None => "10:00"@,
            },
            timezone: match lookup_s(e, "timezone"@) {
                Some(s) => s,
                None => "Asia/Shanghai"@,
            },
            ai_summaries_enabled: match lookup_bool(e, "ai_summaries_enabled"@) {
                Some(b) => b,
                None => true,
            },
            admin_user_ids: match lookup_l(e, "admin_user_ids"@) {
                Some(l) => ids_of(l),
                None => Seq::empty(),
            },
            created_at: time_at(e, "created_at"@)->Some_0,
            updated_at: time_at(e, "updated_at"@)->Some_0,
            is_active: match lookup_bool(e, "is_active"@) {
                Some(b) => b,
                None => true,
            },
            settings: match lookup_s(e, "settings"@) {
                Some(s) => match map_parsed(s) {
                    Some(m) => m,
                    None => Seq::empty(),
                },
                None => Seq::empty(),
            },
        })
    }
}

/// A list of ids without repeats reads back as itself.
proof fn lemma_ids_round_trip(ids: Seq<i64>, l: Seq<ListElem>)
    requires
        lists_ids(ids, l),
        ids.no_duplicates(),
    ensures
        ids_of(l) == ids,
    decreases l.len(),
{
    if l.len() > 0 {
        let n = (l.len() - 1) as int;
        assert forall|i: int| 0 <= i < l.drop_last().len() implies match #[trigger] l.drop_last()[i] {
            ListElem::N(s) => s@ == int_text(ids.drop_last()[i] as int),
            ListElem::Other => false,
        } by {
            assert(l.drop_last()[i] == l[i]);
        }
        lemma_ids_round_trip(ids.drop_last(), l.drop_last());
        lemma_int_text_round_trip(ids[n] as int);
        assert(l[n] == l.last());
        assert(!ids.drop_last().contains(ids[n])) by {
            if ids.drop_last().contains(ids[n]) {
                let k = choose|k: int| 0 <= k < n && ids.drop_last()[k] == ids[n];
                assert(ids[k] == ids[n]);
            }
        }
        assert(ids.drop_last().push(ids[n]) =~= ids);
    }
}

/// The numerals of `ids`, as a stored list.
fn ids_to_list(ids: &Vec<i64>) -> (r: Vec<ListElem>)
    ensures
        lists_ids(ids@, r@),
{
    let mut l: Vec<ListElem> = Vec::new();
    let mut i: usize = 0;
    while i < ids.len()
        invariant
            i <= ids@.len(),
            l@.len() == i,
            forall|j: int| 0 <= j < i ==> match #[trigger] l@[j] {
                ListElem::N(s) => s@ == int_text(ids@[j] as int),
                ListElem::Other => false,
            },
        decreases ids@.len() - i,
    {
        l.push(ListElem::N(int_to_text(ids[i])));
        i = i + 1;
    }
    l
}

/// The ids a stored list holds; see `ids_of`.
fn list_to_ids(l: &Vec<ListElem>) -> (r: Vec<i64>)
    ensures
        r@ == ids_of(l@),
        r@.no_duplicates(),
{
    let mut ids: Vec<i64> = Vec::new();
    let mut i: usize = 0;
    while i < l.len()
        invariant
            i <= l@.len(),
            ids@ == ids_of(l@.subrange(0, i as int)),
            ids@.no_duplicates(),
        decreases l@.len() - i,
    {
        let ghost next = l@.subrange(0, i + 1);
        proof {
            assert(next.drop_last() =~= l@.subrange(0, i as int));
            assert(next.last() == l@[i as int]);
        }
        if let ListElem::N(s) = &l[i] {
            if let Some(v) = parse_i64(s.as_str()) {
                if !contains_id(&ids, v) {
                    ids.push(v);
                }
            }
        }
        i = i + 1;
    }
    assert(l@.subrange(0, l@.len() as int) =~= l@);
    ids
}

/// Whether `ids` holds `v`.
fn contains_id(ids: &Vec<i64>, v: i64) -> (r: bool)
    ensures
        r == ids@.contains(v),
{
    let mut i: usize = 0;
    while i < ids.len()
        invariant
            i <= ids@.len(),
            forall|j: int| 0 <= j < i ==> ids@[j] != v,
        decreases ids@.len() - i,
    {
        if ids[i] == v {
            return true;
        }
        i = i + 1;
    }
    false
}

/// A write of one item to a table; a conditional one stores the item only
/// where no item with its key is there yet.
pub struct PutRequest {
    pub table_name: String,
    pub item: Item,
    pub only_if_absent: bool,
}

/// How the store answered a write.
#[derive(Debug, Clone)]
pub enum PutOutcome {
    /// The item was stored.
    Stored,
    /// The write's condition did not hold: an item with the key exists.
    ConditionFailed,
    /// The store failed, as the text describes.
    Failed(String),
}

/// A table's contents, each item under its key.
pub type Table = Map<Seq<Seq<char>>, Seq<(String, AttrValue)>>;

/// The key of a subscription item: its group id and its symbol.
pub open spec fn subscription_key(e: Seq<(String, AttrValue)>) -> Seq<Seq<char>> {
    seq![lookup_s(e, "group_id"@)->Some_0, lookup_s(e, "stock_symbol"@)->Some_0]
}

/// What a store does with a write under `key`: a conditional write leaves
/// an existing item as it is and reports that the condition failed.
pub open spec fn apply_put(table: Table, key: Seq<Seq<char>>, e: Seq<(String, AttrValue)>, only_if_absent: bool) -> (Table, PutOutcome) {
    if only_if_absent && table.contains_key(key) {
        (table, PutOutcome::ConditionFailed)
    } else {
        (table.insert(key, e), PutOutcome::Stored)
    }
}

/// Whether `r` is the conflict error with message `m`.
pub open spec fn conflict_error(r: DatabaseError, m: Seq<char>) -> bool {
    match r {
        DatabaseError::ConflictError(s) => s@ == m,
        _ => false,
    }
}

/// Whether `r` reports a failure of the store described by `m`.
pub open spec fn store_error(r: DatabaseError, m: Seq<char>) -> bool {
    match r {
        DatabaseError::Unknown(s) => s@ == "DynamoDB error: "@ + m,
        _ => false,
    }
}

/// The result of a conditional creation: a failed condition is a conflict
/// with `conflict`, another failure an unknown error that quotes it.
pub fn creation_result(outcome: PutOutcome, conflict: &str) -> (r: Result<(), DatabaseError>)
    ensures
        match outcome {
            PutOutcome::Stored => r is Ok,
            PutOutcome::ConditionFailed => r matches Err(e) && conflict_error(e, conflict@),
            PutOutcome::Failed(m) => r matches Err(e) && store_error(e, m@),
        },
{
    match outcome {
        PutOutcome::Stored => Ok(()),
        PutOutcome::ConditionFailed => Err(DatabaseError::ConflictError(String::from_str(conflict))),
        PutOutcome::Failed(m) => Err(store_failure(&m)),
    }
}

/// The result of an unconditional write.
pub fn write_result(outcome: PutOutcome) -> (r: Result<(), DatabaseError>)
    ensures
        match outcome {
            PutOutcome::Failed(m) => r matches Err(e) && store_error(e, m@),
            _ => r is Ok,
        },
{
    match outcome {
        PutOutcome::Failed(m) => Err(store_failure(&m)),
        _ => Ok(()),
    }
}

/// An unknown error quoting the store's failure `m`.
pub fn store_failure(m: &String) -> (r: DatabaseError)
    ensures
        store_error(r, m@),
{
    let mut s = String::from_str("DynamoDB error: ");
    s.append(m.as_str());
    DatabaseError::Unknown(s)
}

/// The records that `items` store, in order, leaving out those that do not
/// read back.
pub open spec fn decoded_subscriptions(items: Seq<Item>) -> Seq<SubscriptionView>
    decreases items.len(),
{
    if items.len() == 0 {
        Seq::empty()
    } else {
        let before = decoded_subscriptions(items.drop_last());
        match decode_subscription(items.last().entries@) {
            Ok(v) => before.push(v),
            Err(_) => before,
        }
    }
}

/// The configurations that `items` store, in order, leaving out those that
/// do not read back.
pub open spec fn decoded_group_configs(items: Seq<Item>) -> Seq<GroupConfigView>
    decreases items.len(),
{
    if items.len() == 0 {
        Seq::empty()
    } else {
        let before = decoded_group_configs(items.drop_last());
        match decode_group_config(items.last().entries@) {
            Ok(v) => before.push(v),
            Err(_) => before,
        }
    }
}

#[verifier::external_type_specification]
#[verifier::external_body]
pub struct ExDynamoClient(aws_sdk_dynamodb::Client);

/// The stock tables of the key-value store, named with a common prefix.
pub struct DynamoDbStockDatabase {
    client: aws_sdk_dynamodb::Client,
    table_prefix: String,
}

impl DynamoDbStockDatabase {
    pub closed spec fn prefix(&self) -> Seq<char> {
        self.table_prefix@
    }

    pub fn new(client: aws_sdk_dynamodb::Client, table_prefix: String) -> (r: Self)
        ensures
            r.prefix() == table_prefix@,
    {
        DynamoDbStockDatabase { client, table_prefix }
    }

    /// The store's client.
    pub fn client(&self) -> &aws_sdk_dynamodb::Client {
        &self.client
    }

    /// The name of table `base_name`: the prefix, `_`, and the base name.
    pub fn table_name(&self, base_name: &str) -> (r: String)
        ensures
            r@ == self.prefix() + "_"@ + base_name@,
    {
        let mut s = self.table_prefix.clone();
        s.append("_");
        s.append(base_name);
        s
    }

    /// The key of a subscription in its table: the group id, and the
    /// symbol in upper case.
    pub fn subscription_key(&self, group_id: &str, stock_symbol: &str) -> (r: (String, String))
        ensures
            r.0@ == group_id@,
            r.1@ == upper_of(stock_symbol@),
    {
        (String::from_str(group_id), to_upper(stock_symbol))
    }

    /// The item that stores `subscription`.
    pub fn subscription_to_item(&self, subscription: &StockSubscription) -> (r: Item)
        requires
            subscription.wf(),
        ensures
            subscription_item(subscription@, r.entries@),
    {
        proof {
            reveal_strlit("group_id");
            reveal_strlit("stock_symbol");
            reveal_strlit("created_at");
            reveal_strlit("updated_at");
            reveal_strlit("is_active");
            reveal_strlit("created_by_user_id");
            reveal_strlit("settings");
            assert("group_id"@.len() == 8);
            assert("stock_symbol"@.len() == 12);
            assert("created_at"@.len() == 10);
            assert("updated_at"@.len() == 10);
            assert("is_active"@.len() == 9);
            assert("created_by_user_id"@.len() == 18);
            assert("settings"@.len() == 8);
            assert("group_id"@[0] != "settings"@[0]);
            assert("created_at"@[0] != "updated_at"@[0]);
        }
        let mut item = Item::new();
        item.insert("group_id", AttrValue::S(subscription.group_id.clone()));
        item.insert("stock_symbol", AttrValue::S(subscription.stock_symbol.clone()));
        item.insert("created_at", AttrValue::S(format_rfc3339(subscription.created_at)));
        item.insert("updated_at", AttrValue::S(format_rfc3339(subscription.updated_at)));
        item.insert("is_active", AttrValue::Bool(subscription.is_active));
        item.insert("created_by_user_id", AttrValue::N(int_to_text(subscription.created_by_user_id)));
        if let Some(settings) = &subscription.settings {
            item.insert("settings", AttrValue::S(encode_settings(settings)));
        }
        item
    }

    /// The subscription that `item` stores, or a serialisation error naming
    /// the first field that is missing or unreadable.
    pub fn item_to_subscription(&self, item: &Item) -> (r: Result<StockSubscription, DatabaseError>)
        ensures
            match decode_subscription(item.entries@) {
                Ok(v) => r matches Ok(s) && s@ == v && s.wf(),
                Err(m) => r matches Err(e) && serialization_error(e, m),
            },
    {
        let group_id = match get_s(item, "group_id") {
            Some(s) => s,
            None => return Err(serialization("Missing group_id")),
        };
        let stock_symbol = match get_s(item, "stock_symbol") {
            Some(s) => s,
            None => return Err(serialization("Missing stock_symbol")),
        };
        let created_at = match get_time(item, "created_at") {
            Some(t) => t,
            None => return Err(serialization("Invalid created_at")),
        };
        let updated_at = match get_time(item, "updated_at") {
            Some(t) => t,
            None => return Err(serialization("Invalid updated_at")),
        };
        let is_active = match get_bool(item, "is_active") {
            Some(b) => b,
            None => true,
        };
        let created_by_user_id = match get_int(item, "created_by_user_id") {
            Some(n) => n,
            None => return Err(serialization("Invalid created_by_user_id")),
        };
        let settings = match get_s(item, "settings") {
            Some(s) => decode_settings(s.as_str()),
            None => None,
        };
        Ok(StockSubscription { group_id, stock_symbol, created_at, updated_at, is_active, created_by_user_id, settings })
    }

    /// The item that stores `config`.
    pub fn group_config_to_item(&self, config: &GroupConfig) -> (r: Item)
        requires
            config.wf(),
        ensures
            group_config_item(config@, r.entries@),
    {
        proof {
            reveal_strlit("group_id");
            reveal_strlit("group_title");
            reveal_strlit("max_subscriptions");
            reveal_strlit("default_notification_time");
            reveal_strlit("timezone");
            reveal_strlit("ai_summaries_enabled");
            reveal_strlit("created_at");
            reveal_strlit("updated_at");
            reveal_strlit("is_active");
            reveal_strlit("admin_user_ids");
            reveal_strlit("settings");
            assert("group_id"@.len() == 8);
            assert("group_title"@.len() == 11);
            assert("max_subscriptions"@.len() == 17);
            assert("default_notification_time"@.len() == 25);
            assert("timezone"@.len() == 8);
            assert("ai_summaries_enabled"@.len() == 20);
            assert("created_at"@.len() == 10);
            assert("updated_at"@.len() == 10);
            assert("is_active"@.len() == 9);
            assert("admin_user_ids"@.len() == 14);
            assert("settings"@.len() == 8);
            assert("group_id"@[0] != "settings"@[0]);
            assert("group_id"@[0] != "timezone"@[0]);
            assert("timezone"@[0] != "settings"@[0]);
            assert("created_at"@[0] != "updated_at"@[0]);
        }
        let mut item = Item::new();
        item.insert("group_id", AttrValue::S(config.group_id.clone()));
        if let Some(title) = &config.group_title {
            item.insert("group_title", AttrValue::S(title.clone()));
        }
        item.insert("max_subscriptions", AttrValue::N(int_to_text(config.max_subscriptions as i64)));
        item.insert("default_notification_time", AttrValue::S(config.default_notification_time.clone()));
        item.insert("timezone", AttrValue::S(config.timezone.clone()));
        item.insert("ai_summaries_enabled", AttrValue::Bool(config.ai_summaries_enabled));
        item.insert("created_at", AttrValue::S(format_rfc3339(config.created_at)));
        item.insert("updated_at", AttrValue::S(format_rfc3339(config.updated_at)));
        item.insert("is_active", AttrValue::Bool(config.is_active));
        item.insert("admin_user_ids", AttrValue::L(ids_to_list(&config.admin_user_ids)));
        if config.settings.len() > 0 {
            item.insert("settings", AttrValue::S(encode_map(&config.settings)));
        }
        item
    }

    /// The configuration that `item` stores, or a serialisation error naming
    /// the first required field that is missing or unreadable.
    pub fn item_to_group_config(&self, item: &Item) -> (r: Result<GroupConfig, DatabaseError>)
        ensures
            match decode_group_config(item.entries@) {
                Ok(v) => r matches Ok(c) && c@ == v && c.wf(),
                Err(m) => r matches Err(e) && serialization_error(e, m),
            },
    {
        let group_id = match get_s(item, "group_id") {
            Some(s) => s,
            None => return Err(serialization("Missing group_id")),
        };
        let group_title = get_s(item, "group_title");
        let max_subscriptions: u32 = match item.get("max_subscriptions") {
            Some(AttrValue::N(n)) => match parse_u32(n.as_str()) {
                Some(v) => v,
                None => 10,
            },
            _ => 10,
        };
        let default_notification_time = match get_s(item, "default_notification_time") {
            Some(s) => s,
            None => String::from_str("10:00"),
        };
        let timezone = match get_s(item, "timezone") {
            Some(s) => s,
            None => String::from_str("Asia/Shanghai"),
        };
        let ai_summaries_enabled = match get_bool(item, "ai_summaries_enabled") {
            Some(b) => b,
            None => true,
        };
        let created_at = match get_time(item, "created_at") {
            Some(t) => t,
            None => return Err(serialization("Invalid created_at")),
        };
        let updated_at = match get_time(item, "updated_at") {
            Some(t) => t,
            None => return Err(serialization("Invalid updated_at")),
        };
        let is_active = match get_bool(item, "is_active") {
            Some(b) => b,
            None => true,
        };
        let admin_user_ids = match item.get("admin_user_ids") {
            Some(AttrValue::L(l)) => list_to_ids(l),
            _ => Vec::new(),
        };
        let settings = match get_s(item, "settings") {
            Some(s) => match decode_map(s.as_str()) {
                Some(m) => m,
                None => Vec::new(),
            },
            None => Vec::new(),
        };
        let r = GroupConfig {
            group_id,
            group_title,
            max_subscriptions,
            default_notification_time,
            timezone,
            ai_summaries_enabled,
            admin_user_ids,
            created_at,
            updated_at,
            is_active,
            settings,
        };
        proof {
            assert(r.group_title.deep_view() == lookup_s(item.entries@, "group_title"@));
            assert(r.settings.deep_view() == decode_group_config(item.entries@)->Ok_0.settings);
        }
        Ok(r)
    }

    /// The conditional write that creates `subscription` in the
    /// subscriptions table.
    pub fn create_subscription_request(&self, subscription: &StockSubscription) -> (r: PutRequest)
        requires
            subscription.wf(),
        ensures
            r.table_name@ == self.prefix() + "_"@ + "stock_subscriptions"@,
            subscription_item(subscription@, r.item.entries@),
            r.only_if_absent,
    {
        PutRequest {
            table_name: self.table_name("stock_subscriptions"),
            item: self.subscription_to_item(subscription),
            only_if_absent: true,
        }
    }

    /// The write that replaces `subscription` in the subscriptions table.
    pub fn update_subscription_request(&self, subscription: &StockSubscription) -> (r: PutRequest)
        requires
            subscription.wf(),
        ensures
            r.table_name@ == self.prefix() + "_"@ + "stock_subscriptions"@,
            subscription_item(subscription@, r.item.entries@),
            !r.only_if_absent,
    {
        PutRequest {
            table_name: self.table_name("stock_subscriptions"),
            item: self.subscription_to_item(subscription),
            only_if_absent: false,
        }
    }

    /// The conditional write that creates `config` in the group table.
    pub fn create_group_config_request(&self, config: &GroupConfig) -> (r: PutRequest)
        requires
            config.wf(),
        ensures
            r.table_name@ == self.prefix() + "_"@ + "group_config"@,
            group_config_item(config@, r.item.entries@),
            r.only_if_absent,
    {
        PutRequest {
            table_name: self.table_name("group_config"),
            item: self.group_config_to_item(config),
            only_if_absent: true,
        }
    }

    /// The write that replaces `config` in the group table.
    pub fn update_group_config_request(&self, config: &GroupConfig) -> (r: PutRequest)
        requires
            config.wf(),
        ensures
            r.table_name@ == self.prefix() + "_"@ + "group_config"@,
            group_config_item(config@, r.item.entries@),
            !r.only_if_absent,
    {
        PutRequest {
            table_name: self.table_name("group_config"),
            item: self.group_config_to_item(config),
            only_if_absent: false,
        }
    }

    /// The result of creating a subscription: a conflict where it exists.
    pub fn subscription_created(&self, outcome: PutOutcome) -> (r: Result<(), DatabaseError>)
        ensures
            match outcome {
                PutOutcome::Stored => r is Ok,
                PutOutcome::ConditionFailed => r matches Err(e) && conflict_error(e, "Subscription already exists"@),
                PutOutcome::Failed(m) => r matches Err(e) && store_error(e, m@),
            },
    {
        creation_result(outcome, "Subscription already exists")
    }

    /// The result of creating a group configuration: a conflict where it exists.
    pub fn group_config_created(&self, outcome: PutOutcome) -> (r: Result<(), DatabaseError>)
        ensures
            match outcome {
                PutOutcome::Stored => r is Ok,
                PutOutcome::ConditionFailed => r matches Err(e) && conflict_error(e, "Group config already exists"@),
                PutOutcome::Failed(m) => r matches Err(e) && store_error(e, m@),
            },
    {
        creation_result(outcome, "Group config already exists")
    }

    /// The subscription a lookup found: none where the store holds no item.
    pub fn found_subscription(&self, item: Option<Item>) -> (r: Result<Option<StockSubscription>, DatabaseError>)
        ensures
            match item {
                None => r matches Ok(None),
                Some(i) => match decode_subscription(i.entries@) {
                    Ok(v) => r matches Ok(Some(s)) && s@ == v && s.wf(),
                    Err(m) => r matches Err(e) && serialization_error(e, m),
                },
            },
    {
        match item {
            None => Ok(None),
            Some(i) => match self.item_to_subscription(&i) {
                Ok(s) => Ok(Some(s)),
                Err(e) => Err(e),
            },
        }
    }

    /// The configuration a lookup found: none where the store holds no item.
    pub fn found_group_config(&self, item: Option<Item>) -> (r: Result<Option<GroupConfig>, DatabaseError>)
        ensures
            match item {
                None => r matches Ok(None),
                Some(i) => match decode_group_config(i.entries@) {
                    Ok(v) => r matches Ok(Some(c)) && c@ == v && c.wf(),
                    Err(m) => r matches Err(e) && serialization_error(e, m),
                },
            },
    {
        match item {
            None => Ok(None),
            Some(i) => match self.item_to_group_config(&i) {
                Ok(c) => Ok(Some(c)),
                Err(e) => Err(e),
            },
        }
    }

    /// The subscriptions that a query's items store, in order; items that do
    /// not read back are left out.
    pub fn subscriptions_from_items(&self, items: &Vec<Item>) -> (r: Vec<StockSubscription>)
        ensures
            r@.len() == decoded_subscriptions(items@).len(),
            forall|i: int| 0 <= i < r@.len() ==> (#[trigger] r@[i])@ == decoded_subscriptions(items@)[i] && r@[i].wf(),
    {
        let mut out: Vec<StockSubscription> = Vec::new();
        let mut i: usize = 0;
        while i < items.len()
            invariant
                i <= items@.len(),
                out@.len() == decoded_subscriptions(items@.subrange(0, i as int)).len(),
                forall|j: int| 0 <= j < out@.len() ==> (#[trigger] out@[j])@ == decoded_subscriptions(items@.subrange(0, i as int))[j] && out@[j].wf(),
            decreases items@.len() - i,
        {
            let ghost next = items@.subrange(0, i + 1);
            proof {
                assert(next.drop_last() =~= items@.subrange(0, i as int));
                assert(next.last() == items@[i as int]);
            }
            match self.item_to_subscription(&items[i]) {
                Ok(s) => out.push(s),
                Err(_) => {},
            }
            i = i + 1;
        }
        assert(items@.subrange(0, items@.len() as int) =~= items@);
        out
    }

    /// The configurations that a scan's items store, in order; items that do
    /// not read back are left out.
    pub fn group_configs_from_items(&self, items: &Vec<Item>) -> (r: Vec<GroupConfig>)
        ensures
            r@.len() == decoded_group_configs(items@).len(),
            forall|i: int| 0 <= i < r@.len() ==> (#[trigger] r@[i])@ == decoded_group_configs(items@)[i] && r@[i].wf(),
    {
        let mut out: Vec<GroupConfig> = Vec::new();
        let mut i: usize = 0;
        while i < items.len()
            invariant
                i <= items@.len(),
                out@.len() == decoded_group_configs(items@.subrange(0, i as int)).len(),
                forall|j: int| 0 <= j < out@.len() ==> (#[trigger] out@[j])@ == decoded_group_configs(items@.subrange(0, i as int))[j] && out@[j].wf(),
            decreases items@.len() - i,
        {
            let ghost next = items@.subrange(0, i + 1);
            proof {
                assert(next.drop_last() =~= items@.subrange(0, i as int));
                assert(next.last() == items@[i as int]);
            }
            match self.item_to_group_config(&items[i]) {
                Ok(c) => out.push(c),
                Err(_) => {},
            }
            i = i + 1;
        }
        assert(items@.subrange(0, items@.len() as int) =~= items@);
        out
    }
}

/// Creating a subscription is not idempotent: against any table, a second
/// creation of the same (group, symbol) meets the first one's item, or the
/// one that was already there, and ends in a conflict.
pub proof fn lemma_create_twice_conflicts(
    table: Table,
    first: SubscriptionView,
    e1: Seq<(String, AttrValue)>,
    second: SubscriptionView,
    e2: Seq<(String, AttrValue)>,
)
    requires
        subscription_item(first, e1),
        subscription_item(second, e2),
        first.group_id == second.group_id,
        first.stock_symbol == second.stock_symbol,
    ensures
        ({
            let after_first = apply_put(table, subscription_key(e1), e1, true).0;
            apply_put(after_first, subscription_key(e2), e2, true).1 == PutOutcome::ConditionFailed
        }),
{
    assert(subscription_key(e1) =~= subscription_key(e2));
}

/// A valid configuration stored as an item reads back as itself, every
/// field included and an absent title staying absent, where its instants
/// have four-digit years (earlier or later ones are written with a sign that
/// RFC 3339 parsing refuses).
pub proof fn lemma_group_config_round_trip(v: GroupConfigView, e: Seq<(String, AttrValue)>)
    requires
        group_config_item(v, e),
        v.admin_user_ids.no_duplicates(),
        rfc3339_time(v.created_at),
        rfc3339_time(v.updated_at),
        keys_ascending(v.settings),
    ensures
        decode_group_config(e) == Ok::<GroupConfigView, Seq<char>>(v),
{
    lemma_int_text_round_trip(v.max_subscriptions as int);
    let l = lookup_l(e, "admin_user_ids"@)->Some_0;
    lemma_ids_round_trip(v.admin_user_ids, l);
    let d = decode_group_config(e)->Ok_0;
    assert(d.settings =~= v.settings);
}

/// A valid subscription stored as an item reads back as itself, every field
/// included and absent settings staying absent, where its instants have
/// four-digit years (earlier or later ones are written with a sign that
/// RFC 3339 parsing refuses).
pub proof fn lemma_subscription_round_trip(v: SubscriptionView, e: Seq<(String, AttrValue)>)
    requires
        subscription_item(v, e),
        rfc3339_time(v.created_at),
        rfc3339_time(v.updated_at),
        v.settings matches Some(x) ==> keys_ascending(x.2),
    ensures
        decode_subscription(e) == Ok::<SubscriptionView, Seq<char>>(v),
{
    lemma_int_text_round_trip(v.created_by_user_id as int);
}

} // verus!
