//! The persisted records: subscriptions, group configuration, user
//! preferences, cache entries and notification logs.
use vstd::prelude::*;
use crate::text::{keys_are_ascending, keys_ascending, to_upper, upper_of};
use crate::time::{now, valid_time, DAY_SECS, MAX_UNIX_SECS, MIN_UNIX_SECS};

verus! {

/// Errors of the persistence layer.
#[derive(Debug, Clone)]
pub enum DatabaseError {
    ConnectionError(String),
    NotFound(String),
    ValidationError(String),
    ConflictError(String),
    RateLimitExceeded,
    SerializationError(String),
    Unknown(String),
}

/// `prefix` followed by `detail`.
fn labelled(prefix: &str, detail: &String) -> (r: String)
    ensures
        r@ == prefix@ + detail@,
{
    let mut s = String::from_str(prefix);
    s.append(detail.as_str());
    s
}

impl DatabaseError {
    /// The message shown for the error.
    pub open spec fn message(&self) -> Seq<char> {
        match self {
            DatabaseError::ConnectionError(m) => "Connection error: "@ + m@,
            DatabaseError::NotFound(m) => "Item not found: "@ + m@,
            DatabaseError::ValidationError(m) => "Validation error: "@ + m@,
            DatabaseError::ConflictError(m) => "Conflict error: "@ + m@,
            DatabaseError::RateLimitExceeded => "Rate limit exceeded"@,
            DatabaseError::SerializationError(m) => "Serialization error: "@ + m@,
            DatabaseError::Unknown(m) => "Unknown error: "@ + m@,
        }
    }

    /// The message shown for the error.
    pub fn to_string(&self) -> (r: String)
        ensures
            r@ == self.message(),
    {
        match self {
            DatabaseError::ConnectionError(m) => labelled("Connection error: ", m),
            DatabaseError::NotFound(m) => labelled("Item not found: ", m),
            DatabaseError::ValidationError(m) => labelled("Validation error: ", m),
            DatabaseError::ConflictError(m) => labelled("Conflict error: ", m),
            DatabaseError::RateLimitExceeded => String::from_str("Rate limit exceeded"),
            DatabaseError::SerializationError(m) => labelled("Serialization error: ", m),
            DatabaseError::Unknown(m) => labelled("Unknown error: ", m),
        }
    }
}

/// Settings of one subscription.
#[derive(Debug, Clone)]
pub struct SubscriptionSettings {
    /// Notification time, "HH:MM", where it differs from the group's.
    pub notification_time: Option<String>,
    /// Whether notifications carry an AI summary.
    pub include_ai_summary: bool,
    /// Free-form key/value pairs.
    pub metadata: Vec<(String, String)>,
}

/// What a subscription's settings hold: notification time, summary flag and
/// metadata pairs.
pub type SettingsView = (Option<Seq<char>>, bool, Seq<(Seq<char>, Seq<char>)>);

impl View for SubscriptionSettings {
    type V = SettingsView;

    open spec fn view(&self) -> SettingsView {
        (self.notification_time.deep_view(), self.include_ai_summary, self.metadata.deep_view())
    }
}

/// What a subscription holds.
pub struct SubscriptionView {
    pub group_id: Seq<char>,
    pub stock_symbol: Seq<char>,
    pub created_at: i64,
    pub updated_at: i64,
    pub is_active: bool,
    pub created_by_user_id: i64,
    pub settings: Option<SettingsView>,
}

impl View for StockSubscription {
    type V = SubscriptionView;

    open spec fn view(&self) -> SubscriptionView {
        SubscriptionView {
            group_id: self.group_id@,
            stock_symbol: self.stock_symbol@,
            created_at: self.created_at,
            updated_at: self.updated_at,
            is_active: self.is_active,
            created_by_user_id: self.created_by_user_id,
            settings: match self.settings {
                Some(x) => Some(x@),
                None => None,
            },
        }
    }
}

/// A group's subscription to one stock, keyed by (group_id, stock_symbol).
#[derive(Debug, Clone)]
pub struct StockSubscription {
    pub group_id: String,
    /// Upper-case ticker.
    pub stock_symbol: String,
    /// Unix seconds.
    pub created_at: i64,
    /// Unix seconds.
    pub updated_at: i64,
    pub is_active: bool,
    pub created_by_user_id: i64,
    pub settings: Option<SubscriptionSettings>,
}

impl StockSubscription {
    /// Instants in range, and settings whose metadata keys strictly ascend.
    pub open spec fn wf(&self) -> bool {
        &&& valid_time(self.created_at)
        &&& valid_time(self.updated_at)
        &&& self.settings matches Some(x) ==> keys_ascending(x@.2)
    }

    /// Whether the subscription is well formed.
    pub fn is_valid(&self) -> (r: bool)
        ensures
            r == self.wf(),
    {
        if !(is_valid_time(self.created_at) && is_valid_time(self.updated_at)) {
            return false;
        }
        match &self.settings {
            Some(x) => keys_are_ascending(&x.metadata),
            None => true,
        }
    }

    /// A new active subscription, created and updated now, without settings.
    pub fn new(group_id: String, stock_symbol: String, created_by_user_id: i64) -> (r: Self)
        ensures
            r.wf(),
            r.group_id@ == group_id@,
            r.stock_symbol@ == upper_of(stock_symbol@),
            r.created_at == r.updated_at,
            r.is_active,
            r.created_by_user_id == created_by_user_id,
            r.settings.is_none(),
    {
        let t = now();
        StockSubscription {
            group_id,
            stock_symbol: to_upper(stock_symbol.as_str()),
            created_at: t,
            updated_at: t,
            is_active: true,
            created_by_user_id,
            settings: None,
        }
    }

    /// Sets the update time to now.
    pub fn touch(&mut self)
        ensures
            valid_time(final(self).updated_at),
            *final(self) == (StockSubscription { updated_at: final(self).updated_at, ..*old(self) }),
    {
        self.updated_at = now();
    }
}

/// A group's configuration, keyed by group_id.
#[derive(Debug, Clone)]
pub struct GroupConfig {
    pub group_id: String,
    pub group_title: Option<String>,
    pub max_subscriptions: u32,
    /// "HH:MM".
    pub default_notification_time: String,
    pub timezone: String,
    pub ai_summaries_enabled: bool,
    /// Admins in the order they were added, each once.
    pub admin_user_ids: Vec<i64>,
    pub created_at: i64,
    pub updated_at: i64,
    pub is_active: bool,
    /// Free-form key/value pairs.
    pub settings: Vec<(String, String)>,
}

/// What a group configuration holds.
pub struct GroupConfigView {
    pub group_id: Seq<char>,
    pub group_title: Option<Seq<char>>,
    pub max_subscriptions: u32,
    pub default_notification_time: Seq<char>,
    pub timezone: Seq<char>,
    pub ai_summaries_enabled: bool,
    pub admin_user_ids: Seq<i64>,
    pub created_at: i64,
    pub updated_at: i64,
    pub is_active: bool,
    pub settings: Seq<(Seq<char>, Seq<char>)>,
}

impl View for GroupConfig {
    type V = GroupConfigView;

    open spec fn view(&self) -> GroupConfigView {
        GroupConfigView {
            group_id: self.group_id@,
            group_title: self.group_title.deep_view(),
            max_subscriptions: self.max_subscriptions,
            default_notification_time: self.default_notification_time@,
            timezone: self.timezone@,
            ai_summaries_enabled: self.ai_summaries_enabled,
            admin_user_ids: self.admin_user_ids@,
            created_at: self.created_at,
            updated_at: self.updated_at,
            is_active: self.is_active,
            settings: self.settings.deep_view(),
        }
    }
}

/// The admin list after adding `user_id`: unchanged where it is present,
/// else with it at the end.
pub open spec fn with_admin(ids: Seq<i64>, user_id: i64) -> Seq<i64> {
    if ids.contains(user_id) {
        ids
    } else {
        ids.push(user_id)
    }
}

/// The admin list without `user_id`.
pub open spec fn without_admin(ids: Seq<i64>, user_id: i64) -> Seq<i64> {
    ids.filter(other_than(user_id))
}

/// Holds of every id but `user_id`.
pub open spec fn other_than(user_id: i64) -> spec_fn(i64) -> bool {
    |id: i64| id != user_id
}

impl GroupConfig {
    /// Instants in range, admins each once, and settings keys strictly ascending.
    pub open spec fn wf(&self) -> bool {
        &&& valid_time(self.created_at)
        &&& valid_time(self.updated_at)
        &&& self.admin_user_ids@.no_duplicates()
        &&& keys_ascending(self.settings.deep_view())
    }

    /// Whether the configuration is well formed.
    pub fn is_valid(&self) -> (r: bool)
        ensures
            r == self.wf(),
    {
        if !(is_valid_time(self.created_at) && is_valid_time(self.updated_at)) {
            return false;
        }
        let ids = &self.admin_user_ids;
        let mut j: usize = 0;
        while j < ids.len()
            invariant
                j <= ids@.len(),
                ids == &self.admin_user_ids,
                valid_time(self.created_at) && valid_time(self.updated_at),
                forall|a: int, b: int| 0 <= a < b < j ==> ids@[a] != ids@[b],
            decreases ids@.len() - j,
        {
            let mut i: usize = 0;
            while i < j
                invariant
                    i <= j < ids@.len(),
                    ids == &self.admin_user_ids,
                    valid_time(self.created_at) && valid_time(self.updated_at),
                    forall|a: int, b: int| 0 <= a < b < j ==> ids@[a] != ids@[b],
                    forall|a: int| 0 <= a < i ==> ids@[a] != ids@[j as int],
                decreases j - i,
            {
                if ids[i] == ids[j] {
                    assert(!ids@.no_duplicates()) by {
                        assert(ids@[i as int] == ids@[j as int] && i != j);
                    }
                    return false;
                }
                i = i + 1;
            }
            j = j + 1;
        }
        assert(ids@.no_duplicates()) by {
            assert forall|a: int, b: int| 0 <= a < ids@.len() && 0 <= b < ids@.len() && a != b implies ids@[a] != ids@[b] by {
                if a > b {
                    assert(ids@[b] != ids@[a]);
                }
            }
        }
        keys_are_ascending(&self.settings)
    }

    /// A configuration with the defaults and `admin_user_id` as its only admin.
    pub fn new(group_id: String, admin_user_id: i64) -> (r: Self)
        ensures
            r.wf(),
            r.group_id@ == group_id@,
            r.group_title.is_none(),
            r.max_subscriptions == 10,
            r.default_notification_time@ == "10:00"@,
            r.timezone@ == "Asia/Shanghai"@,
            r.ai_summaries_enabled,
            r.admin_user_ids@ == seq![admin_user_id],
            r.created_at == r.updated_at,
            r.is_active,
            r.settings@.len() == 0,
    {
        let t = now();
        let r = GroupConfig {
            group_id,
            group_title: None,
            max_subscriptions: 10,
            default_notification_time: String::from_str("10:00"),
            timezone: String::from_str("Asia/Shanghai"),
            ai_summaries_enabled: true,
            admin_user_ids: vec![admin_user_id],
            created_at: t,
            updated_at: t,
            is_active: true,
            settings: Vec::new(),
        };
        assert(r.admin_user_ids@.no_duplicates()) by {
            assert(r.admin_user_ids@.len() == 1);
        }
        r
    }

    /// Whether `user_id` is an admin of the group.
    pub fn is_admin(&self, user_id: i64) -> (r: bool)
        ensures
            r == self.admin_user_ids@.contains(user_id),
    {
        let mut i: usize = 0;
        while i < self.admin_user_ids.len()
            invariant
                i <= self.admin_user_ids@.len(),
                forall|j: int| 0 <= j < i ==> self.admin_user_ids@[j] != user_id,
            decreases self.admin_user_ids@.len() - i,
        {
            if self.admin_user_ids[i] == user_id {
                return true;
            }
            i = i + 1;
        }
        false
    }

    /// Adds `user_id` as an admin unless it is one; only an addition
    /// touches the update time.
    pub fn add_admin(&mut self, user_id: i64)
        requires
            old(self).wf(),
        ensures
            final(self).wf(),
            final(self).admin_user_ids@ == with_admin(old(self).admin_user_ids@, user_id),
            old(self).admin_user_ids@.contains(user_id) ==> *final(self) == *old(self),
            *final(self) == (GroupConfig {
                admin_user_ids: final(self).admin_user_ids,
                updated_at: final(self).updated_at,
                ..*old(self)
            }),
    {
        if !self.is_admin(user_id) {
            self.admin_user_ids.push(user_id);
            self.touch();
        }
    }

    /// Removes `user_id` from the admins, if present, and touches the
    /// update time.
    pub fn remove_admin(&mut self, user_id: i64)
        requires
            old(self).wf(),
        ensures
            final(self).wf(),
            final(self).admin_user_ids@ == without_admin(old(self).admin_user_ids@, user_id),
            *final(self) == (GroupConfig {
                admin_user_ids: final(self).admin_user_ids,
                updated_at: final(self).updated_at,
                ..*old(self)
            }),
    {
        let ghost ids = self.admin_user_ids@;
        let mut kept: Vec<i64> = Vec::new();
        let mut i: usize = 0;
        while i < self.admin_user_ids.len()
            invariant
                i <= ids.len(),
                ids == self.admin_user_ids@,
                kept@ == without_admin(ids.subrange(0, i as int), user_id),
                ids.no_duplicates(),
                kept@.no_duplicates(),
                forall|x: i64| kept@.contains(x) ==> ids.subrange(0, i as int).contains(x),
            decreases ids.len() - i,
        {
            let id = self.admin_user_ids[i];
            proof {
                let next = ids.subrange(0, i + 1);
                assert(next.drop_last() =~= ids.subrange(0, i as int));
                assert(next.last() == id);
                assert(next =~= ids.subrange(0, i as int).push(id));
                ids.subrange(0, i as int).lemma_filter_push(id, other_than(user_id));
                assert(!ids.subrange(0, i as int).contains(id));
                assert forall|x: i64| ids.subrange(0, i as int).contains(x) implies next.contains(x) by {
                    let k = choose|k: int| 0 <= k < i && ids.subrange(0, i as int)[k] == x;
                    assert(next[k] == x);
                }
                assert(next.contains(id)) by {
                    assert(next[i as int] == id);
                }
            }
            let ghost before = kept@;
            if id != user_id {
                assert(!kept@.contains(id));
                kept.push(id);
            }
            proof {
                let next = ids.subrange(0, i + 1);
                assert forall|x: i64| kept@.contains(x) implies next.contains(x) by {
                    if x != id {
                        let k = choose|k: int| 0 <= k < kept@.len() && kept@[k] == x;
                        assert(k < before.len());
                        assert(before[k] == x);
                        assert(before.contains(x));
                        assert(ids.subrange(0, i as int).contains(x));
                    }
                }
            }
            i = i + 1;
        }
        assert(ids.subrange(0, ids.len() as int) =~= ids);
        self.admin_user_ids = kept;
        self.touch();
    }

    /// Sets the update time to now.
    pub fn touch(&mut self)
        ensures
            valid_time(final(self).updated_at),
            *final(self) == (GroupConfig { updated_at: final(self).updated_at, ..*old(self) }),
    {
        self.updated_at = now();
    }
}

/// A user's preferences, keyed by user id.
#[derive(Debug, Clone)]
pub struct UserPreferences {
    pub user_id: i64,
    pub username: Option<String>,
    pub timezone: String,
    pub private_notifications_enabled: bool,
    pub preferred_ai_model: Option<String>,
    pub created_at: i64,
    pub updated_at: i64,
    /// Free-form key/value pairs.
    pub settings: Vec<(String, String)>,
}

impl UserPreferences {
    /// Preferences with the defaults.
    pub fn new(user_id: i64, username: Option<String>) -> (r: Self)
        ensures
            valid_time(r.created_at),
            r.created_at == r.updated_at,
            r.user_id == user_id,
            r.username == username,
            r.timezone@ == "Asia/Shanghai"@,
            !r.private_notifications_enabled,
            r.preferred_ai_model.is_none(),
            r.settings@.len() == 0,
    {
        let t = now();
        UserPreferences {
            user_id,
            username,
            timezone: String::from_str("Asia/Shanghai"),
            private_notifications_enabled: false,
            preferred_ai_model: None,
            created_at: t,
            updated_at: t,
            settings: Vec::new(),
        }
    }

    /// Sets the update time to now.
    pub fn touch(&mut self)
        ensures
            valid_time(final(self).updated_at),
            *final(self) == (UserPreferences { updated_at: final(self).updated_at, ..*old(self) }),
    {
        self.updated_at = now();
    }
}

/// Seconds in an hour.
pub const SECS_PER_HOUR: i64 = 3600;

/// How long a notification log is kept: 30 days, in seconds.
pub const NOTIFICATION_TTL_SECS: i64 = 2592000;

/// A cached quote and news payload for one stock.
#[derive(Debug, Clone)]
pub struct StockCache {
    /// Upper-case ticker.
    pub stock_symbol: String,
    /// Serialised quote.
    pub quote_data: String,
    /// Serialised news.
    pub news_data: String,
    /// Unix seconds.
    pub cached_at: i64,
    /// Unix seconds after which the entry is stale.
    pub expires_at: i64,
    pub provider: String,
    pub cache_version: u32,
}

impl StockCache {
    /// An entry cached at `cached_at` that lives `ttl_hours` hours.
    pub fn new_at(
        stock_symbol: String,
        quote_data: String,
        news_data: String,
        provider: String,
        ttl_hours: u32,
        cached_at: i64,
    ) -> (r: Self)
        requires
            valid_time(cached_at),
        ensures
            r.stock_symbol@ == upper_of(stock_symbol@),
            r.quote_data == quote_data,
            r.news_data == news_data,
            r.provider == provider,
            r.cached_at == cached_at,
            r.expires_at == cached_at + ttl_hours * SECS_PER_HOUR,
            r.cache_version == 1,
    {
        StockCache {
            stock_symbol: to_upper(stock_symbol.as_str()),
            quote_data,
            news_data,
            cached_at,
            expires_at: cached_at + (ttl_hours as i64) * SECS_PER_HOUR,
            provider,
            cache_version: 1,
        }
    }

    /// An entry cached now that lives `ttl_hours` hours.
    pub fn new(
        stock_symbol: String,
        quote_data: String,
        news_data: String,
        provider: String,
        ttl_hours: u32,
    ) -> (r: Self)
        ensures
            valid_time(r.cached_at),
            r.stock_symbol@ == upper_of(stock_symbol@),
            r.quote_data == quote_data,
            r.news_data == news_data,
            r.provider == provider,
            r.expires_at == r.cached_at + ttl_hours * SECS_PER_HOUR,
            r.cache_version == 1,
    {
        let t = now();
        StockCache::new_at(stock_symbol, quote_data, news_data, provider, ttl_hours, t)
    }

    /// Whether the entry is stale at `now`.
    pub fn is_expired_at(&self, now: i64) -> (r: bool)
        ensures
            r == (now >= self.expires_at),
    {
        now >= self.expires_at
    }

    /// Whether the entry is stale now: at some instant the clock gave.
    pub fn is_expired(&self) -> (r: bool)
        ensures
            exists|t: i64| valid_time(t) && r == (t >= self.expires_at),
    {
        let t = now();
        let r = self.is_expired_at(t);
        assert(valid_time(t) && r == (t >= self.expires_at));
        r
    }
}

/// An entry is fresh when it is made and stale from `ttl_hours` hours later
/// on: at any `t` it has expired exactly when `t >= cached_at + ttl_hours * 3600`.
pub proof fn lemma_cache_expiry(cache: StockCache, ttl_hours: u32, t: i64)
    requires
        ttl_hours > 0,
        cache.expires_at == cache.cached_at + ttl_hours * SECS_PER_HOUR,
    ensures
        !(cache.cached_at >= cache.expires_at),
        (t >= cache.expires_at) == (t >= cache.cached_at + ttl_hours * SECS_PER_HOUR),
{
}

/// Relies on uuid's `Uuid::new_v4` and its hyphenated text, which is 36
/// characters long. The id is random.
#[verifier::external_body]
fn new_log_id() -> (r: String)
    ensures
        r@.len() == 36,
{
    uuid::Uuid::new_v4().to_string()
}

/// A record of one notification sent to a group.
#[derive(Debug, Clone)]
pub struct NotificationLog {
    pub log_id: String,
    pub group_id: String,
    /// Upper-case ticker.
    pub stock_symbol: String,
    /// Unix seconds.
    pub timestamp: i64,
    pub success: bool,
    pub error_message: Option<String>,
    /// "daily_update", "alert", ...
    pub notification_type: String,
    pub message_content: String,
    pub processing_time_ms: u64,
    /// Unix seconds after which the log may be dropped.
    pub expires_at: i64,
}

impl NotificationLog {
    /// A successful notification logged now, kept for 30 days.
    pub fn new(
        group_id: String,
        stock_symbol: String,
        notification_type: String,
        message_content: String,
        processing_time_ms: u64,
    ) -> (r: Self)
        ensures
            r.log_id@.len() == 36,
            r.group_id == group_id,
            r.stock_symbol@ == upper_of(stock_symbol@),
            valid_time(r.timestamp),
            r.success,
            r.error_message.is_none(),
            r.notification_type == notification_type,
            r.message_content == message_content,
            r.processing_time_ms == processing_time_ms,
            r.expires_at == r.timestamp + NOTIFICATION_TTL_SECS,
    {
        let t = now();
        NotificationLog {
            log_id: new_log_id(),
            group_id,
            stock_symbol: to_upper(stock_symbol.as_str()),
            timestamp: t,
            success: true,
            error_message: None,
            notification_type,
            message_content,
            processing_time_ms,
            expires_at: t + NOTIFICATION_TTL_SECS,
        }
    }

    /// The same log marked as failed with `error_message`.
    pub fn with_error(self, error_message: String) -> (r: Self)
        ensures
            r == (NotificationLog { success: false, error_message: Some(error_message), ..self }),
    {
        let mut log = self;
        log.success = false;
        log.error_message = Some(error_message);
        log
    }
}

/// Whether `t` is an instant a record holds.
pub fn is_valid_time(t: i64) -> (r: bool)
    ensures
        r == valid_time(t),
{
    t >= MIN_UNIX_SECS - DAY_SECS && t <= MAX_UNIX_SECS + DAY_SECS
}

/// Adding an admin a second time changes nothing: the list after two
/// additions of one id equals the list after one, and it is one longer than
/// the list it started from at most.
pub proof fn lemma_add_admin_idempotent(ids: Seq<i64>, user_id: i64)
    ensures
        with_admin(with_admin(ids, user_id), user_id) == with_admin(ids, user_id),
        with_admin(ids, user_id).len() <= ids.len() + 1,
        ids.len() == 0 ==> with_admin(with_admin(ids, user_id), user_id).len() == 1,
{
    assert(ids.push(user_id).last() == user_id);
    assert(ids.push(user_id).contains(user_id)) by {
        assert(ids.push(user_id)[ids.len() as int] == user_id);
    }
}

} // verus!
