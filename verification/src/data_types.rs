use vstd::prelude::*;

use crate::text_codec::string_eq_lit;

verus! {

// ---------------------------------------------------------------------------
// Tagged enumerations, with their canonical stored tags
// ---------------------------------------------------------------------------

/// A profit-cache period key.
#[derive(Clone, Copy, Debug, PartialEq, Eq, Structural)]
pub enum TimePeriod {
    Daily,
    Weekly,
    Monthly,
    AllTime,
}

impl TimePeriod {
    /// The canonical stored tag of this period.
    pub open spec fn tag(self) -> Seq<char> {
        match self {
            TimePeriod::Daily => "daily"@,
            TimePeriod::Weekly => "weekly"@,
            TimePeriod::Monthly => "monthly"@,
            TimePeriod::AllTime => "allTime"@,
        }
    }
}

/// An outcome label as presented at the boundary: `YES` and `NO` are
/// recognized, every other label is carried as an opaque string.
#[derive(Clone, Debug, PartialEq)]
pub enum MarketOutcome {
    Yes,
    No,
    Other(String),
}

impl MarketOutcome {
    /// The label this outcome displays as.
    pub open spec fn spec_label(self) -> Seq<char> {
        match self {
            MarketOutcome::Yes => "YES"@,
            MarketOutcome::No => "NO"@,
            MarketOutcome::Other(s) => s@,
        }
    }

    /// A canonical outcome never spells `YES` or `NO` through `Other`.
    pub open spec fn wf(self) -> bool {
        match self {
            MarketOutcome::Other(s) => s@ != "YES"@ && s@ != "NO"@,
            _ => true,
        }
    }
}

/// The pricing mechanism of a market.
#[derive(Clone, Copy, Debug, PartialEq, Eq, Structural)]
pub enum MarketMechanism {
    Cpmm,
    Cpmm2,
    CpmmMulti,
    Dpm,
    NoMechanism,
    Qf,
}

impl MarketMechanism {
    /// The canonical stored tag of this mechanism.
    pub open spec fn tag(self) -> Seq<char> {
        match self {
            MarketMechanism::Cpmm => "cpmm-1"@,
            MarketMechanism::Cpmm2 => "cpmm-2"@,
            MarketMechanism::CpmmMulti => "cpmm-multi-1"@,
            MarketMechanism::Dpm => "dpm-2"@,
            MarketMechanism::NoMechanism => "none"@,
            MarketMechanism::Qf => "qf"@,
        }
    }
}

/// The outcome type of a market.
#[derive(Clone, Copy, Debug, PartialEq, Eq, Structural)]
pub enum MarketOutcomeType {
    Binary,
    FreeResponse,
    MultipleChoice,
    Numeric,
    PseudoNumeric,
    Stonk,
    Poll,
    BountiedQuestion,
    QuadraticFunding,
}

impl MarketOutcomeType {
    /// The canonical stored tag of this outcome type.
    pub open spec fn tag(self) -> Seq<char> {
        match self {
            MarketOutcomeType::Binary => "BINARY"@,
            MarketOutcomeType::FreeResponse => "FREE_RESPONSE"@,
            MarketOutcomeType::MultipleChoice => "MULTIPLE_CHOICE"@,
            MarketOutcomeType::Numeric => "NUMERIC"@,
            MarketOutcomeType::PseudoNumeric => "PSEUDO_NUMERIC"@,
            MarketOutcomeType::Stonk => "STONK"@,
            MarketOutcomeType::Poll => "POLL"@,
            MarketOutcomeType::BountiedQuestion => "BOUNTIED_QUESTION"@,
            MarketOutcomeType::QuadraticFunding => "QUADRATIC_FUNDING"@,
        }
    }
}

/// The visibility of a bet.
#[derive(Clone, Copy, Debug, PartialEq, Eq, Structural)]
pub enum Visibility {
    Public,
    Unlisted,
    Private,
}

impl Visibility {
    /// The canonical stored tag of this visibility.
    pub open spec fn tag(self) -> Seq<char> {
        match self {
            Visibility::Public => "public"@,
            Visibility::Unlisted => "unlisted"@,
            Visibility::Private => "private"@,
        }
    }
}

/// The visibility of a stored tag, if the tag is recognized.
pub open spec fn visibility_from_tag(sv: Seq<char>) -> Option<Visibility> {
    if sv == Visibility::Public.tag() {
        Option::Some(Visibility::Public)
    } else if sv == Visibility::Unlisted.tag() {
        Option::Some(Visibility::Unlisted)
    } else if sv == Visibility::Private.tag() {
        Option::Some(Visibility::Private)
    } else {
        Option::None
    }
}

/// Every visibility is recovered from its own tag.
pub proof fn lemma_visibility_tag_round_trip(v: Visibility)
    ensures
        visibility_from_tag(v.tag()) == Option::Some(v),
{
    broadcast use vstd::string::group_string_axioms;

    reveal_strlit("public");
    reveal_strlit("unlisted");
    reveal_strlit("private");
    assert("public"@.len() == 6 && "unlisted"@.len() == 8 && "private"@.len() == 7);
}

/// The outcome type of a stored tag, if the tag is recognized.
pub open spec fn outcome_type_from_tag(sv: Seq<char>) -> Option<MarketOutcomeType> {
    if sv == MarketOutcomeType::Binary.tag() {
        Option::Some(MarketOutcomeType::Binary)
    } else if sv == MarketOutcomeType::FreeResponse.tag() {
        Option::Some(MarketOutcomeType::FreeResponse)
    } else if sv == MarketOutcomeType::MultipleChoice.tag() {
        Option::Some(MarketOutcomeType::MultipleChoice)
    } else if sv == MarketOutcomeType::Numeric.tag() {
        Option::Some(MarketOutcomeType::Numeric)
    } else if sv == MarketOutcomeType::PseudoNumeric.tag() {
        Option::Some(MarketOutcomeType::PseudoNumeric)
    } else if sv == MarketOutcomeType::Stonk.tag() {
        Option::Some(MarketOutcomeType::Stonk)
    } else if sv == MarketOutcomeType::Poll.tag() {
        Option::Some(MarketOutcomeType::Poll)
    } else if sv == MarketOutcomeType::BountiedQuestion.tag() {
        Option::Some(MarketOutcomeType::BountiedQuestion)
    } else if sv == MarketOutcomeType::QuadraticFunding.tag() {
        Option::Some(MarketOutcomeType::QuadraticFunding)
    } else {
        Option::None
    }
}

/// Every outcome type is recovered from its own tag.
pub proof fn lemma_outcome_type_tag_round_trip(t: MarketOutcomeType)
    ensures
        outcome_type_from_tag(t.tag()) == Option::Some(t),
{
    broadcast use vstd::string::group_string_axioms;

    reveal_strlit("BINARY");
    reveal_strlit("FREE_RESPONSE");
    reveal_strlit("MULTIPLE_CHOICE");
    reveal_strlit("NUMERIC");
    reveal_strlit("PSEUDO_NUMERIC");
    reveal_strlit("STONK");
    reveal_strlit("POLL");
    reveal_strlit("BOUNTIED_QUESTION");
    reveal_strlit("QUADRATIC_FUNDING");
    assert("BINARY"@.len() == 6 && "FREE_RESPONSE"@.len() == 13 && "MULTIPLE_CHOICE"@.len() == 15
        && "NUMERIC"@.len() == 7 && "PSEUDO_NUMERIC"@.len() == 14 && "STONK"@.len() == 5
        && "POLL"@.len() == 4 && "BOUNTIED_QUESTION"@.len() == 17 && "QUADRATIC_FUNDING"@.len()
        == 17);
    assert("BOUNTIED_QUESTION"@[0] != "QUADRATIC_FUNDING"@[0]);
}

/// The mechanism of a stored tag, if the tag is recognized.
pub open spec fn mechanism_from_tag(sv: Seq<char>) -> Option<MarketMechanism> {
    if sv == MarketMechanism::Cpmm.tag() {
        Option::Some(MarketMechanism::Cpmm)
    } else if sv == MarketMechanism::Cpmm2.tag() {
        Option::Some(MarketMechanism::Cpmm2)
    } else if sv == MarketMechanism::CpmmMulti.tag() {
        Option::Some(MarketMechanism::CpmmMulti)
    } else if sv == MarketMechanism::Dpm.tag() {
        Option::Some(MarketMechanism::Dpm)
    } else if sv == MarketMechanism::NoMechanism.tag() {
        Option::Some(MarketMechanism::NoMechanism)
    } else if sv == MarketMechanism::Qf.tag() {
        Option::Some(MarketMechanism::Qf)
    } else {
        Option::None
    }
}

/// Every mechanism is recovered from its own tag.
pub proof fn lemma_mechanism_tag_round_trip(m: MarketMechanism)
    ensures
        mechanism_from_tag(m.tag()) == Option::Some(m),
{
    broadcast use vstd::string::group_string_axioms;

    reveal_strlit("cpmm-1");
    reveal_strlit("cpmm-2");
    reveal_strlit("cpmm-multi-1");
    reveal_strlit("dpm-2");
    reveal_strlit("none");
    reveal_strlit("qf");
    assert("cpmm-1"@.len() == 6 && "cpmm-2"@.len() == 6 && "cpmm-multi-1"@.len() == 12
        && "dpm-2"@.len() == 5 && "none"@.len() == 4 && "qf"@.len() == 2);
    assert("cpmm-1"@[5] != "cpmm-2"@[5]);
}

impl Visibility {
    /// The stored tag of this visibility.
    pub fn to_tag(&self) -> (r: String)
        ensures
            r@ == self.tag(),
    {
        match self {
            Visibility::Public => String::from_str("public"),
            Visibility::Unlisted => String::from_str("unlisted"),
            Visibility::Private => String::from_str("private"),
        }
    }

    /// The visibility a stored tag denotes, if recognized.
    pub fn of_tag(s: &String) -> (r: Option<Visibility>)
        ensures
            r == visibility_from_tag(s@),
    {
        if string_eq_lit(s, "public") {
            Option::Some(Visibility::Public)
        } else if string_eq_lit(s, "unlisted") {
            Option::Some(Visibility::Unlisted)
        } else if string_eq_lit(s, "private") {
            Option::Some(Visibility::Private)
        } else {
            Option::None
        }
    }
}

impl MarketOutcomeType {
    /// The stored tag of this outcome type.
    pub fn to_tag(&self) -> (r: String)
        ensures
            r@ == self.tag(),
    {
        match self {
            MarketOutcomeType::Binary => String::from_str("BINARY"),
            MarketOutcomeType::FreeResponse => String::from_str("FREE_RESPONSE"),
            MarketOutcomeType::MultipleChoice => String::from_str("MULTIPLE_CHOICE"),
            MarketOutcomeType::Numeric => String::from_str("NUMERIC"),
            MarketOutcomeType::PseudoNumeric => String::from_str("PSEUDO_NUMERIC"),
            MarketOutcomeType::Stonk => String::from_str("STONK"),
            MarketOutcomeType::Poll => String::from_str("POLL"),
            MarketOutcomeType::BountiedQuestion => String::from_str("BOUNTIED_QUESTION"),
            MarketOutcomeType::QuadraticFunding => String::from_str("QUADRATIC_FUNDING"),
        }
    }

    /// The outcome type a stored tag denotes, if recognized.
    pub fn of_tag(s: &String) -> (r: Option<MarketOutcomeType>)
        ensures
            r == outcome_type_from_tag(s@),
    {
        if string_eq_lit(s, "BINARY") {
            Option::Some(MarketOutcomeType::Binary)
        } else if string_eq_lit(s, "FREE_RESPONSE") {
            Option::Some(MarketOutcomeType::FreeResponse)
        } else if string_eq_lit(s, "MULTIPLE_CHOICE") {
            Option::Some(MarketOutcomeType::MultipleChoice)
        } else if string_eq_lit(s, "NUMERIC") {
            Option::Some(MarketOutcomeType::Numeric)
        } else if string_eq_lit(s, "PSEUDO_NUMERIC") {
            Option::Some(MarketOutcomeType::PseudoNumeric)
        } else if string_eq_lit(s, "STONK") {
            Option::Some(MarketOutcomeType::Stonk)
        } else if string_eq_lit(s, "POLL") {
            Option::Some(MarketOutcomeType::Poll)
        } else if string_eq_lit(s, "BOUNTIED_QUESTION") {
            Option::Some(MarketOutcomeType::BountiedQuestion)
        } else if string_eq_lit(s, "QUADRATIC_FUNDING") {
            Option::Some(MarketOutcomeType::QuadraticFunding)
        } else {
            Option::None
        }
    }
}

impl MarketMechanism {
    /// The stored tag of this mechanism.
    pub fn to_tag(&self) -> (r: String)
        ensures
            r@ == self.tag(),
    {
        match self {
            MarketMechanism::Cpmm => String::from_str("cpmm-1"),
            MarketMechanism::Cpmm2 => String::from_str("cpmm-2"),
            MarketMechanism::CpmmMulti => String::from_str("cpmm-multi-1"),
            MarketMechanism::Dpm => String::from_str("dpm-2"),
            MarketMechanism::NoMechanism => String::from_str("none"),
            MarketMechanism::Qf => String::from_str("qf"),
        }
    }

    /// The mechanism a stored tag denotes, if recognized.
    pub fn of_tag(s: &String) -> (r: Option<MarketMechanism>)
        ensures
            r == mechanism_from_tag(s@),
    {
        if string_eq_lit(s, "cpmm-1") {
            Option::Some(MarketMechanism::Cpmm)
        } else if string_eq_lit(s, "cpmm-2") {
            Option::Some(MarketMechanism::Cpmm2)
        } else if string_eq_lit(s, "cpmm-multi-1") {
            Option::Some(MarketMechanism::CpmmMulti)
        } else if string_eq_lit(s, "dpm-2") {
            Option::Some(MarketMechanism::Dpm)
        } else if string_eq_lit(s, "none") {
            Option::Some(MarketMechanism::NoMechanism)
        } else if string_eq_lit(s, "qf") {
            Option::Some(MarketMechanism::Qf)
        } else {
            Option::None
        }
    }
}

impl MarketOutcome {
    /// The label this outcome displays as.
    pub fn label(&self) -> (r: String)
        ensures
            r@ == self.spec_label(),
    {
        match self {
            MarketOutcome::Yes => String::from_str("YES"),
            MarketOutcome::No => String::from_str("NO"),
            MarketOutcome::Other(s) => s.clone(),
        }
    }

    /// The outcome a label denotes.
    pub fn from_label(s: &String) -> (r: MarketOutcome)
        ensures
            r.spec_label() == s@,
            r.wf(),
    {
        if string_eq_lit(s, "YES") {
            MarketOutcome::Yes
        } else if string_eq_lit(s, "NO") {
            MarketOutcome::No
        } else {
            MarketOutcome::Other(s.clone())
        }
    }
}

/// Two canonical outcomes with the same label agree: the label alone decides
/// whether an outcome is `YES`, `NO` or opaque.
pub proof fn lemma_outcome_label_round_trip(o: MarketOutcome, r: MarketOutcome)
    requires
        o.wf(),
        r.spec_label() == o.spec_label(),
        r.wf(),
    ensures
        r is Yes <==> o is Yes,
        r is No <==> o is No,
        r matches MarketOutcome::Other(a) ==> o matches MarketOutcome::Other(b) && a@ == b@,
{
    broadcast use vstd::string::group_string_axioms;

    reveal_strlit("YES");
    reveal_strlit("NO");
    assert("YES"@.len() == 3 && "NO"@.len() == 2);
}

// ---------------------------------------------------------------------------
// Nested sub-objects folded into single text columns
// ---------------------------------------------------------------------------

/// A fee breakdown. The three amounts are opaque 64-bit patterns.
#[derive(Clone, Debug, PartialEq)]
pub struct Fees {
    pub creator_fee: i64,
    pub platform_fee: i64,
    pub liquidity_fee: i64,
}

/// Mathematical value of a `Fees`.
pub struct FeesV {
    pub creator_fee: i64,
    pub platform_fee: i64,
    pub liquidity_fee: i64,
}

impl DeepView for Fees {
    type V = FeesV;

    open spec fn deep_view(&self) -> FeesV {
        FeesV {
            creator_fee: self.creator_fee,
            platform_fee: self.platform_fee,
            liquidity_fee: self.liquidity_fee,
        }
    }
}

/// One transaction that partially or fully fills a limit order.
#[derive(Clone, Debug, PartialEq)]
pub struct Fill {
    /// Milliseconds since the epoch.
    pub timestamp: u64,
    /// The id of the bet matched against, absent when matched by the pool.
    pub matched_bet_id: Option<String>,
    pub amount: i64,
    pub shares: i64,
}

/// Mathematical value of a `Fill`.
pub struct FillV {
    pub timestamp: u64,
    pub matched_bet_id: Option<Seq<char>>,
    pub amount: i64,
    pub shares: i64,
}

impl DeepView for Fill {
    type V = FillV;

    open spec fn deep_view(&self) -> FillV {
        FillV {
            timestamp: self.timestamp,
            matched_bet_id: match &self.matched_bet_id {
                Option::Some(s) => Option::Some(s@),
                Option::None => Option::None,
            },
            amount: self.amount,
            shares: self.shares,
        }
    }
}

/// Properties specific to a limit order.
#[derive(Clone, Debug, PartialEq)]
pub struct LimitProps {
    pub order_amount: i64,
    pub limit_prob: i64,
    pub is_filled: bool,
    pub is_cancelled: bool,
    pub fills: Vec<Fill>,
    /// Milliseconds since the epoch; absent when the order never expires.
    pub expires_at: Option<u64>,
}

/// Mathematical value of a `LimitProps`.
pub struct LimitPropsV {
    pub order_amount: i64,
    pub limit_prob: i64,
    pub is_filled: bool,
    pub is_cancelled: bool,
    pub fills: Seq<FillV>,
    pub expires_at: Option<u64>,
}

impl DeepView for LimitProps {
    type V = LimitPropsV;

    open spec fn deep_view(&self) -> LimitPropsV {
        LimitPropsV {
            order_amount: self.order_amount,
            limit_prob: self.limit_prob,
            is_filled: self.is_filled,
            is_cancelled: self.is_cancelled,
            fills: self.fills.deep_view(),
            expires_at: self.expires_at,
        }
    }
}

/// One entry of a market's liquidity pool: an outcome label mapped to a
/// share quantity. Labels are opaque strings; no label validation is
/// performed at the storage boundary.
#[derive(Clone, Debug, PartialEq)]
pub struct PoolEntry {
    pub outcome: String,
    pub shares: i64,
}

/// Mathematical value of a `PoolEntry`.
pub struct PoolEntryV {
    pub outcome: Seq<char>,
    pub shares: i64,
}

impl DeepView for PoolEntry {
    type V = PoolEntryV;

    open spec fn deep_view(&self) -> PoolEntryV {
        PoolEntryV { outcome: self.outcome@, shares: self.shares }
    }
}

/// One entry of a user's cached-profit map.
#[derive(Clone, Debug, PartialEq)]
pub struct ProfitEntry {
    pub period: TimePeriod,
    pub profit: i64,
}

/// Mathematical value of a `ProfitEntry`.
pub struct ProfitEntryV {
    pub period: TimePeriod,
    pub profit: i64,
}

impl DeepView for ProfitEntry {
    type V = ProfitEntryV;

    open spec fn deep_view(&self) -> ProfitEntryV {
        ProfitEntryV { period: self.period, profit: self.profit }
    }
}

/// Rich text content attached to a full market record; opaque here and never
/// persisted.
#[derive(Clone, Debug, PartialEq)]
pub struct JSONContent {}

/// The largest timestamp the store can hold in an integer column.
pub open spec fn fits_time(t: u64) -> bool {
    t <= i64::MAX as u64
}

pub open spec fn opt_fits_time(t: Option<u64>) -> bool {
    match t {
        Option::Some(v) => fits_time(v),
        Option::None => true,
    }
}

// ---------------------------------------------------------------------------
// Persisted entities
// ---------------------------------------------------------------------------

/// A user profile, as persisted. Balance, deposits and cached profits are
/// opaque 64-bit patterns.
#[derive(Clone, Debug, PartialEq)]
pub struct User {
    pub id: String,
    /// Milliseconds since the epoch.
    pub created_time: u64,
    pub name: String,
    pub username: String,
    pub url: Option<String>,
    pub avatar_url: String,
    pub bio: Option<String>,
    pub banner_url: Option<String>,
    pub website: Option<String>,
    pub twitter_handle: Option<String>,
    pub discord_handle: Option<String>,
    pub is_bot: Option<bool>,
    pub is_admin: Option<bool>,
    pub is_trustworthy: Option<bool>,
    pub is_banned_from_posting: Option<bool>,
    pub user_deleted: Option<bool>,
    pub balance: i64,
    pub total_deposits: i64,
    pub last_bet_time: Option<u64>,
    pub current_betting_streak: Option<u64>,
    /// Cached profit per period.
    pub profit_cached: Vec<ProfitEntry>,
}

/// Mathematical value of a `User`.
pub struct UserV {
    pub id: Seq<char>,
    pub created_time: u64,
    pub name: Seq<char>,
    pub username: Seq<char>,
    pub url: Option<Seq<char>>,
    pub avatar_url: Seq<char>,
    pub bio: Option<Seq<char>>,
    pub banner_url: Option<Seq<char>>,
    pub website: Option<Seq<char>>,
    pub twitter_handle: Option<Seq<char>>,
    pub discord_handle: Option<Seq<char>>,
    pub is_bot: Option<bool>,
    pub is_admin: Option<bool>,
    pub is_trustworthy: Option<bool>,
    pub is_banned_from_posting: Option<bool>,
    pub user_deleted: Option<bool>,
    pub balance: i64,
    pub total_deposits: i64,
    pub last_bet_time: Option<u64>,
    pub current_betting_streak: Option<u64>,
    pub profit_cached: Seq<ProfitEntryV>,
}

pub open spec fn view_opt_str(o: Option<String>) -> Option<Seq<char>> {
    match o {
        Option::Some(s) => Option::Some(s@),
        Option::None => Option::None,
    }
}

impl DeepView for User {
    type V = UserV;

    open spec fn deep_view(&self) -> UserV {
        UserV {
            id: self.id@,
            created_time: self.created_time,
            name: self.name@,
            username: self.username@,
            url: view_opt_str(self.url),
            avatar_url: self.avatar_url@,
            bio: view_opt_str(self.bio),
            banner_url: view_opt_str(self.banner_url),
            website: view_opt_str(self.website),
            twitter_handle: view_opt_str(self.twitter_handle),
            discord_handle: view_opt_str(self.discord_handle),
            is_bot: self.is_bot,
            is_admin: self.is_admin,
            is_trustworthy: self.is_trustworthy,
            is_banned_from_posting: self.is_banned_from_posting,
            user_deleted: self.user_deleted,
            balance: self.balance,
            total_deposits: self.total_deposits,
            last_bet_time: self.last_bet_time,
            current_betting_streak: self.current_betting_streak,
            profit_cached: self.profit_cached.deep_view(),
        }
    }
}

impl UserV {
    /// A user the store can hold: every timestamp and streak fits an
    /// integer column and the profit map is addressable.
    pub open spec fn wf(self) -> bool {
        &&& fits_time(self.created_time)
        &&& opt_fits_time(self.last_bet_time)
        &&& opt_fits_time(self.current_betting_streak)
        &&& self.profit_cached.len() <= u64::MAX as nat
    }
}

/// The persisted projection of a market.
#[derive(Clone, Debug, PartialEq)]
pub struct LiteMarket {
    pub id: String,
    pub creator_id: String,
    pub creator_username: String,
    pub creator_name: String,
    pub creator_avatar_url: Option<String>,
    /// Milliseconds since the epoch; may be negative.
    pub close_time: Option<i64>,
    /// Milliseconds since the epoch.
    pub created_time: u64,
    pub question: String,
    /// The canonical URL; slug lookups match a substring of it.
    pub url: String,
    pub outcome_type: MarketOutcomeType,
    pub mechanism: MarketMechanism,
    pub probability: Option<i64>,
    /// Liquidity per outcome label; labels are opaque strings.
    pub pool: Option<Vec<PoolEntry>>,
    pub p: Option<i64>,
    pub total_liquidity: Option<i64>,
    pub value: Option<i64>,
    pub min: Option<i64>,
    pub max: Option<i64>,
    pub is_log_scale: Option<bool>,
    pub volume: i64,
    pub volume_24_hours: i64,
    pub is_resolved: bool,
    pub resolution_time: Option<u64>,
    pub resolution: Option<String>,
    pub resolution_probability: Option<i64>,
    pub last_updated_time: Option<u64>,
    pub last_bet_time: Option<u64>,
}

/// Mathematical value of a `LiteMarket`.
pub struct LiteMarketV {
    pub id: Seq<char>,
    pub creator_id: Seq<char>,
    pub creator_username: Seq<char>,
    pub creator_name: Seq<char>,
    pub creator_avatar_url: Option<Seq<char>>,
    pub close_time: Option<i64>,
    pub created_time: u64,
    pub question: Seq<char>,
    pub url: Seq<char>,
    pub outcome_type: MarketOutcomeType,
    pub mechanism: MarketMechanism,
    pub probability: Option<i64>,
    pub pool: Option<Seq<PoolEntryV>>,
    pub p: Option<i64>,
    pub total_liquidity: Option<i64>,
    pub value: Option<i64>,
    pub min: Option<i64>,
    pub max: Option<i64>,
    pub is_log_scale: Option<bool>,
    pub volume: i64,
    pub volume_24_hours: i64,
    pub is_resolved: bool,
    pub resolution_time: Option<u64>,
    pub resolution: Option<Seq<char>>,
    pub resolution_probability: Option<i64>,
    pub last_updated_time: Option<u64>,
    pub last_bet_time: Option<u64>,
}

impl DeepView for LiteMarket {
    type V = LiteMarketV;

    open spec fn deep_view(&self) -> LiteMarketV {
        LiteMarketV {
            id: self.id@,
            creator_id: self.creator_id@,
            creator_username: self.creator_username@,
            creator_name: self.creator_name@,
            creator_avatar_url: view_opt_str(self.creator_avatar_url),
            close_time: self.close_time,
            created_time: self.created_time,
            question: self.question@,
            url: self.url@,
            outcome_type: self.outcome_type,
            mechanism: self.mechanism,
            probability: self.probability,
            pool: match &self.pool {
                Option::Some(v) => Option::Some(v.deep_view()),
                Option::None => Option::None,
            },
            p: self.p,
            total_liquidity: self.total_liquidity,
            value: self.value,
            min: self.min,
            max: self.max,
            is_log_scale: self.is_log_scale,
            volume: self.volume,
            volume_24_hours: self.volume_24_hours,
            is_resolved: self.is_resolved,
            resolution_time: self.resolution_time,
            resolution: view_opt_str(self.resolution),
            resolution_probability: self.resolution_probability,
            last_updated_time: self.last_updated_time,
            last_bet_time: self.last_bet_time,
        }
    }
}

impl LiteMarketV {
    /// A market the store can hold: every timestamp fits an integer column
    /// and the pool is addressable.
    pub open spec fn wf(self) -> bool {
        &&& fits_time(self.created_time)
        &&& opt_fits_time(self.resolution_time)
        &&& opt_fits_time(self.last_updated_time)
        &&& opt_fits_time(self.last_bet_time)
        &&& match self.pool {
            Option::Some(es) => es.len() <= u64::MAX as nat,
            Option::None => true,
        }
    }
}

/// A market position attached to an answer of a multi-outcome market; part
/// of the full wire record, never persisted by this layer.
#[derive(Clone, Debug, PartialEq)]
pub struct Answer {
    pub id: String,
    pub created_time: u64,
    pub avatar_url: Option<String>,
    pub username: Option<String>,
    pub number: Option<u32>,
    pub name: Option<String>,
    pub contract_id: String,
    pub text: String,
    pub user_id: String,
    pub probability: i64,
}

/// A full market record as read from a dump: the persisted projection plus
/// fields this layer reads past.
#[derive(Clone, Debug, PartialEq)]
pub struct FullMarket {
    pub lite_market: LiteMarket,
    pub answers: Option<Vec<Answer>>,
    pub description: Option<JSONContent>,
    pub text_description: Option<String>,
    pub group_slugs: Option<Vec<String>>,
}

fn copy_opt_string(o: &Option<String>) -> (r: Option<String>)
    ensures
        view_opt_str(r) == view_opt_str(*o),
{
    match o {
        Option::Some(s) => Option::Some(s.clone()),
        Option::None => Option::None,
    }
}

fn copy_pool(v: &Vec<PoolEntry>) -> (r: Vec<PoolEntry>)
    ensures
        r.deep_view() == v.deep_view(),
{
    let mut out: Vec<PoolEntry> = Vec::new();
    assert(out.deep_view() =~= v.deep_view().subrange(0, 0));
    let mut i: usize = 0;
    while i < v.len()
        invariant
            0 <= i <= v.len(),
            out@.len() == i,
            out.deep_view() == v.deep_view().subrange(0, i as int),
        decreases v.len() - i,
    {
        let ghost pre = out.deep_view();
        out.push(PoolEntry { outcome: v[i].outcome.clone(), shares: v[i].shares });
        assert(out@[i as int].deep_view() == v@[i as int].deep_view());
        assert(out.deep_view() =~= pre.push(out@[i as int].deep_view()));
        assert(out.deep_view() =~= v.deep_view().subrange(0, i + 1));
        i = i + 1;
    }
    assert(v.deep_view().subrange(0, v@.len() as int) =~= v.deep_view());
    out
}

impl FullMarket {
    /// The persisted projection of this full record: the lite market alone,
    /// field for field.
    pub fn lite(&self) -> (r: LiteMarket)
        ensures
            r.deep_view() == self.lite_market.deep_view(),
    {
        let m = &self.lite_market;
        LiteMarket {
            id: m.id.clone(),
            creator_id: m.creator_id.clone(),
            creator_username: m.creator_username.clone(),
            creator_name: m.creator_name.clone(),
            creator_avatar_url: copy_opt_string(&m.creator_avatar_url),
            close_time: m.close_time,
            created_time: m.created_time,
            question: m.question.clone(),
            url: m.url.clone(),
            outcome_type: m.outcome_type,
            mechanism: m.mechanism,
            probability: m.probability,
            pool: match &m.pool {
                Option::Some(v) => Option::Some(copy_pool(v)),
                Option::None => Option::None,
            },
            p: m.p,
            total_liquidity: m.total_liquidity,
            value: m.value,
            min: m.min,
            max: m.max,
            is_log_scale: m.is_log_scale,
            volume: m.volume,
            volume_24_hours: m.volume_24_hours,
            is_resolved: m.is_resolved,
            resolution_time: m.resolution_time,
            resolution: copy_opt_string(&m.resolution),
            resolution_probability: m.resolution_probability,
            last_updated_time: m.last_updated_time,
            last_bet_time: m.last_bet_time,
        }
    }
}

/// A bet, as persisted. Amounts, shares and probabilities are opaque 64-bit
/// patterns.
#[derive(Clone, Debug, PartialEq)]
pub struct Bet {
    pub id: String,
    pub user_id: String,
    pub user_avatar_url: Option<String>,
    pub user_name: Option<String>,
    pub user_username: Option<String>,
    pub contract_id: String,
    pub answer_id: Option<String>,
    /// Milliseconds since the epoch.
    pub created_time: u64,
    pub amount: i64,
    pub loan_amount: Option<i64>,
    pub outcome: String,
    pub shares: i64,
    /// Superseded wire field; never persisted, always decoded as absent.
    pub shares_by_outcome: Option<Vec<PoolEntry>>,
    pub prob_before: i64,
    pub prob_after: i64,
    pub fees: Option<Fees>,
    pub is_api: Option<bool>,
    pub is_ante: bool,
    pub is_redemption: bool,
    pub is_challenge: bool,
    pub visibility: Visibility,
    pub challenge_slug: Option<String>,
    pub reply_to_comment_id: Option<String>,
    pub limit_props: Option<LimitProps>,
}

/// Mathematical value of a `Bet`.
pub struct BetV {
    pub id: Seq<char>,
    pub user_id: Seq<char>,
    pub user_avatar_url: Option<Seq<char>>,
    pub user_name: Option<Seq<char>>,
    pub user_username: Option<Seq<char>>,
    pub contract_id: Seq<char>,
    pub answer_id: Option<Seq<char>>,
    pub created_time: u64,
    pub amount: i64,
    pub loan_amount: Option<i64>,
    pub outcome: Seq<char>,
    pub shares: i64,
    pub shares_by_outcome: Option<Seq<PoolEntryV>>,
    pub prob_before: i64,
    pub prob_after: i64,
    pub fees: Option<FeesV>,
    pub is_api: Option<bool>,
    pub is_ante: bool,
    pub is_redemption: bool,
    pub is_challenge: bool,
    pub visibility: Visibility,
    pub challenge_slug: Option<Seq<char>>,
    pub reply_to_comment_id: Option<Seq<char>>,
    pub limit_props: Option<LimitPropsV>,
}

impl DeepView for Bet {
    type V = BetV;

    open spec fn deep_view(&self) -> BetV {
        BetV {
            id: self.id@,
            user_id: self.user_id@,
            user_avatar_url: view_opt_str(self.user_avatar_url),
            user_name: view_opt_str(self.user_name),
            user_username: view_opt_str(self.user_username),
            contract_id: self.contract_id@,
            answer_id: view_opt_str(self.answer_id),
            created_time: self.created_time,
            amount: self.amount,
            loan_amount: self.loan_amount,
            outcome: self.outcome@,
            shares: self.shares,
            shares_by_outcome: match &self.shares_by_outcome {
                Option::Some(v) => Option::Some(v.deep_view()),
                Option::None => Option::None,
            },
            prob_before: self.prob_before,
            prob_after: self.prob_after,
            fees: match &self.fees {
                Option::Some(f) => Option::Some(f.deep_view()),
                Option::None => Option::None,
            },
            is_api: self.is_api,
            is_ante: self.is_ante,
            is_redemption: self.is_redemption,
            is_challenge: self.is_challenge,
            visibility: self.visibility,
            challenge_slug: view_opt_str(self.challenge_slug),
            reply_to_comment_id: view_opt_str(self.reply_to_comment_id),
            limit_props: match &self.limit_props {
                Option::Some(l) => Option::Some(l.deep_view()),
                Option::None => Option::None,
            },
        }
    }
}

impl BetV {
    /// A bet the store can hold: timestamps fit an integer column, the fill
    /// history is addressable, and the superseded shares-by-outcome wire
    /// field is absent.
    pub open spec fn wf(self) -> bool {
        &&& fits_time(self.created_time)
        &&& self.shares_by_outcome is None
        &&& match self.limit_props {
            Option::Some(l) => l.fills.len() <= u64::MAX as nat,
            Option::None => true,
        }
    }
}

} // verus!

