//! The AI model each chat prefers, as items of the preferences table.
use vstd::prelude::*;
use crate::item::{lookup, lookup_n, lookup_s, AttrValue, Item};
use crate::text::{int_text, int_to_text, numeral_i64, parse_i64};
use crate::time::{format_rfc3339, now, rfc3339_of, valid_time};

verus! {

/// How long a preference is kept: one year, in seconds.
pub const PREFERENCE_TTL_SECS: i64 = 31536000;

/// The model a chat prefers.
#[derive(Debug, Clone)]
pub struct UserPreferences {
    pub chat_id: String,
    pub ai_model: String,
    /// RFC 3339 text.
    pub updated_at: String,
    /// Unix seconds after which the store may drop the preference.
    pub expires_at: Option<i64>,
}

impl UserPreferences {
    /// The preference set at `at`, kept for a year.
    pub fn new_at(chat_id: String, ai_model: String, at: i64) -> (r: Self)
        requires
            valid_time(at),
        ensures
            r.chat_id == chat_id,
            r.ai_model == ai_model,
            r.updated_at@ == rfc3339_of(at),
            r.expires_at == Some((at + PREFERENCE_TTL_SECS) as i64),
    {
        UserPreferences {
            chat_id,
            ai_model,
            updated_at: format_rfc3339(at),
            expires_at: Some(at + PREFERENCE_TTL_SECS),
        }
    }

    /// The preference set now, at an instant the clock gave, kept for a year.
    pub fn new(chat_id: String, ai_model: String) -> (r: Self)
        ensures
            r.chat_id == chat_id,
            r.ai_model == ai_model,
            exists|t: i64| valid_time(t) && r.updated_at@ == rfc3339_of(t)
                && r.expires_at == Some((t + PREFERENCE_TTL_SECS) as i64),
    {
        let t = now();
        let r = UserPreferences::new_at(chat_id, ai_model, t);
        assert(valid_time(t) && r.updated_at@ == rfc3339_of(t) && r.expires_at == Some((t + PREFERENCE_TTL_SECS) as i64));
        r
    }
}

/// Whether `e` stores the preference `p`: the expiry only where there is one.
pub open spec fn preference_item(p: UserPreferences, e: Seq<(String, AttrValue)>) -> bool {
    &&& lookup_s(e, "chat_id"@) == Some(p.chat_id@)
    &&& lookup_s(e, "ai_model"@) == Some(p.ai_model@)
    &&& lookup_s(e, "updated_at"@) == Some(p.updated_at@)
    &&& match p.expires_at {
        Some(t) => lookup_n(e, "expires_at"@) == Some(int_text(t as int)),
        None => lookup(e, "expires_at"@) is None,
    }
}

/// The item that stores `p`.
pub fn preference_to_item(p: &UserPreferences) -> (r: Item)
    ensures
        preference_item(*p, r.entries@),
{
    proof {
        reveal_strlit("chat_id");
        reveal_strlit("ai_model");
        reveal_strlit("updated_at");
        reveal_strlit("expires_at");
        assert("chat_id"@.len() == 7);
        assert("ai_model"@.len() == 8);
        assert("updated_at"@.len() == 10);
        assert("expires_at"@.len() == 10);
        assert("updated_at"@[0] != "expires_at"@[0]);
    }
    let mut item = Item::new();
    item.insert("chat_id", AttrValue::S(p.chat_id.clone()));
    item.insert("ai_model", AttrValue::S(p.ai_model.clone()));
    item.insert("updated_at", AttrValue::S(p.updated_at.clone()));
    if let Some(t) = p.expires_at {
        item.insert("expires_at", AttrValue::N(int_to_text(t)));
    }
    item
}

/// The model a lookup found: the item's model, where there is an item and
/// it holds a model as a string.
pub fn model_from_item(item: Option<Item>) -> (r: Option<String>)
    ensures
        match item {
            Some(i) => match r {
                Some(m) => lookup_s(i.entries@, "ai_model"@) == Some(m@),
                None => lookup_s(i.entries@, "ai_model"@) is None,
            },
            None => r is None,
        },
{
    match item {
        None => None,
        Some(i) => match i.get("ai_model") {
            Some(AttrValue::S(m)) => Some(m.clone()),
            _ => None,
        },
    }
}

/// What a preference holds: chat, model, update time and expiry.
pub type PreferenceView = (Seq<char>, Seq<char>, Seq<char>, Option<i64>);

impl View for UserPreferences {
    type V = PreferenceView;

    open spec fn view(&self) -> PreferenceView {
        (self.chat_id@, self.ai_model@, self.updated_at@, self.expires_at)
    }
}

/// The preference an item stores, where it holds the chat, the model and
/// the update time as strings; an expiry that does not read is left out.
pub open spec fn decode_preference(e: Seq<(String, AttrValue)>) -> Option<PreferenceView> {
    if lookup_s(e, "chat_id"@) is Some && lookup_s(e, "ai_model"@) is Some && lookup_s(e, "updated_at"@) is Some {
        Some((
            lookup_s(e, "chat_id"@)->Some_0,
            lookup_s(e, "ai_model"@)->Some_0,
            lookup_s(e, "updated_at"@)->Some_0,
            match lookup_n(e, "expires_at"@) {
                Some(s) => numeral_i64(s),
                None => None,
            },
        ))
    } else {
        None
    }
}

/// The preferences that `items` store, in order, leaving out items that
/// hold no complete preference.
pub open spec fn decoded_preferences(items: Seq<Item>) -> Seq<PreferenceView>
    decreases items.len(),
{
    if items.len() == 0 {
        Seq::empty()
    } else {
        let before = decoded_preferences(items.drop_last());
        match decode_preference(items.last().entries@) {
            Some(v) => before.push(v),
            None => before,
        }
    }
}

/// The preference an item stores; see `decode_preference`.
pub fn preference_from_item(item: &Item) -> (r: Option<UserPreferences>)
    ensures
        match decode_preference(item.entries@) {
            Some(v) => r matches Some(p) && p@ == v,
            None => r is None,
        },
{
    let chat_id = match item.get("chat_id") {
        Some(AttrValue::S(s)) => s.clone(),
        _ => return None,
    };
    let ai_model = match item.get("ai_model") {
        Some(AttrValue::S(s)) => s.clone(),
        _ => return None,
    };
    let updated_at = match item.get("updated_at") {
        Some(AttrValue::S(s)) => s.clone(),
        _ => return None,
    };
    let expires_at = match item.get("expires_at") {
        Some(AttrValue::N(n)) => parse_i64(n.as_str()),
        _ => None,
    };
    Some(UserPreferences { chat_id, ai_model, updated_at, expires_at })
}

/// The preferences a scan's items store, in order, leaving out items that
/// hold no complete preference.
pub fn preferences_from_items(items: &Vec<Item>) -> (r: Vec<UserPreferences>)
    ensures
        r@.len() == decoded_preferences(items@).len(),
        forall|i: int| 0 <= i < r@.len() ==> (#[trigger] r@[i])@ == decoded_preferences(items@)[i],
{
    let mut out: Vec<UserPreferences> = Vec::new();
    let mut i: usize = 0;
    while i < items.len()
        invariant
            i <= items@.len(),
            out@.len() == decoded_preferences(items@.subrange(0, i as int)).len(),
            forall|j: int| 0 <= j < out@.len() ==> (#[trigger] out@[j])@ == decoded_preferences(items@.subrange(0, i as int))[j],
        decreases items@.len() - i,
    {
        let ghost next = items@.subrange(0, i + 1);
        proof {
            assert(next.drop_last() =~= items@.subrange(0, i as int));
            assert(next.last() == items@[i as int]);
        }
        if let Some(p) = preference_from_item(&items[i]) {
            out.push(p);
        }
        i = i + 1;
    }
    assert(items@.subrange(0, items@.len() as int) =~= items@);
    out
}

#[verifier::external_type_specification]
#[verifier::external_body]
pub struct ExDynamoError(aws_sdk_dynamodb::Error);

/// Relies on the `Display` text of aws_sdk_dynamodb's `Error`.
#[verifier::external_body]
fn dynamo_error_text(e: &aws_sdk_dynamodb::Error) -> String {
    format!("{}", e)
}

/// Errors of the preferences store.
#[derive(Debug)]
pub enum StorageError {
    DynamoDb(aws_sdk_dynamodb::Error),
    Configuration(String),
}

impl StorageError {
    /// The message shown for the error.
    pub fn to_string(&self) -> (r: String)
        ensures
            self matches StorageError::Configuration(m) ==> r@ == "Configuration error: "@ + m@,
    {
        match self {
            StorageError::DynamoDb(e) => {
                let mut s = String::from_str("DynamoDB error: ");
                let text = dynamo_error_text(e);
                s.append(text.as_str());
                s
            },
            StorageError::Configuration(m) => {
                let mut s = String::from_str("Configuration error: ");
                s.append(m.as_str());
                s
            },
        }
    }
}

impl vstd::std_specs::convert::FromSpecImpl<aws_sdk_dynamodb::Error> for StorageError {
    open spec fn obeys_from_spec() -> bool {
        true
    }

    open spec fn from_spec(v: aws_sdk_dynamodb::Error) -> StorageError {
        StorageError::DynamoDb(v)
    }
}

impl From<aws_sdk_dynamodb::Error> for StorageError {
    fn from(error: aws_sdk_dynamodb::Error) -> StorageError {
        StorageError::DynamoDb(error)
    }
}

} // verus!
