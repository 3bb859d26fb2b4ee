//! Campaigns: named groups of symbols traded together, their per-symbol
//! intervals, and the registry that creates, starts, stops and deletes them.

use vstd::prelude::*;
use crate::text::{concat, str_eq};

verus! {

/// Campaign status.
#[derive(Debug, Clone, Copy, PartialEq, Eq, Structural)]
pub enum CampaignStatus {
    Created,
    Running,
    Stopped,
    Error,
}

/// Strategy switches of a campaign.
pub struct StrategyConfig {
    /// Enable trend following strategy
    pub trend_following: bool,
    /// Enable mean reversion strategy
    pub mean_reversion: bool,
}

/// Trade-count limits of a campaign.
pub struct RiskConfig {
    /// Maximum daily trades for the entire campaign
    pub max_daily_trades: usize,
    /// Maximum daily trades per symbol
    pub max_daily_trades_per_symbol: usize,
}

/// Correlation checking switches of a campaign.
pub struct CorrelationConfig {
    /// Enable correlation checking
    pub enabled: bool,
    /// Maximum number of correlated symbols to trade simultaneously
    pub max_correlated_symbols: usize,
}

/// Campaign configuration.
pub struct CampaignConfig {
    /// Campaign name (unique within a registry)
    pub name: String,
    /// Campaign description
    pub description: Option<String>,
    /// Enable/disable campaign
    pub enabled: bool,
    /// Symbols to trade
    pub symbols: Vec<String>,
    /// Symbol-specific intervals, as (symbol, interval) pairs
    pub symbol_intervals: Vec<(String, String)>,
    /// Interval of every symbol without its own
    pub default_interval: String,
    /// Strategy configuration
    pub strategies: StrategyConfig,
    /// Risk configuration
    pub risk: RiskConfig,
    /// Correlation configuration
    pub correlation: CorrelationConfig,
}

impl Default for StrategyConfig {
    fn default() -> (c: Self)
        ensures
            c.trend_following,
            !c.mean_reversion,
    {
        StrategyConfig { trend_following: true, mean_reversion: false }
    }
}

impl Default for RiskConfig {
    fn default() -> (c: Self)
        ensures
            c.max_daily_trades == 20,
            c.max_daily_trades_per_symbol == 5,
    {
        RiskConfig { max_daily_trades: 20, max_daily_trades_per_symbol: 5 }
    }
}

impl Default for CorrelationConfig {
    fn default() -> (c: Self)
        ensures
            !c.enabled,
            c.max_correlated_symbols == 2,
    {
        CorrelationConfig { enabled: false, max_correlated_symbols: 2 }
    }
}

impl Default for CampaignConfig {
    fn default() -> (c: Self)
        ensures
            c.name@ == "default"@,
            c.description is None,
            c.enabled,
            c.symbols@.len() == 1,
            c.symbols@[0]@ == "BTCUSDT"@,
            c.symbol_intervals@.len() == 0,
            c.default_interval@ == "1m"@,
            c.strategies.trend_following && !c.strategies.mean_reversion,
            c.risk.max_daily_trades == 20 && c.risk.max_daily_trades_per_symbol == 5,
            !c.correlation.enabled && c.correlation.max_correlated_symbols == 2,
    {
        let mut symbols: Vec<String> = Vec::new();
        symbols.push(String::from_str("BTCUSDT"));
        CampaignConfig {
            name: String::from_str("default"),
            description: None,
            enabled: true,
            symbols,
            symbol_intervals: Vec::new(),
            default_interval: String::from_str("1m"),
            strategies: StrategyConfig { trend_following: true, mean_reversion: false },
            risk: RiskConfig { max_daily_trades: 20, max_daily_trades_per_symbol: 5 },
            correlation: CorrelationConfig { enabled: false, max_correlated_symbols: 2 },
        }
    }
}

/// The interval of `symbol`: its own entry in `overrides` (the first one)
/// or else `default`.
pub open spec fn interval_for(
    overrides: Seq<(Seq<char>, Seq<char>)>,
    default: Seq<char>,
    symbol: Seq<char>,
) -> Seq<char>
    decreases overrides.len(),
{
    if overrides.len() == 0 {
        default
    } else if overrides[0].0 == symbol {
        overrides[0].1
    } else {
        interval_for(overrides.drop_first(), default, symbol)
    }
}

/// Views of (symbol, interval) pairs.
pub open spec fn pair_views(v: Seq<(String, String)>) -> Seq<(Seq<char>, Seq<char>)> {
    v.map_values(|p: (String, String)| (p.0@, p.1@))
}

/// Resolves the interval of one symbol from a configuration.
pub fn resolve_interval(config: &CampaignConfig, symbol: &str) -> (interval: String)
    ensures
        interval@ == interval_for(
            pair_views(config.symbol_intervals@),
            config.default_interval@,
            symbol@,
        ),
{
    let ghost all = pair_views(config.symbol_intervals@);
    let mut i: usize = 0;
    proof {
        assert(all.skip(0) =~= all);
    }
    while i < config.symbol_intervals.len()
        invariant
            i <= config.symbol_intervals.len(),
            all == pair_views(config.symbol_intervals@),
            interval_for(all, config.default_interval@, symbol@) == interval_for(
                all.skip(i as int),
                config.default_interval@,
                symbol@,
            ),
        decreases config.symbol_intervals.len() - i,
    {
        let ghost rest = all.skip(i as int);
        assert(rest[0] == all[i as int]);
        if str_eq(config.symbol_intervals[i].0.as_str(), symbol) {
            return config.symbol_intervals[i].1.clone();
        }
        assert(rest.drop_first() =~= all.skip(i + 1));
        i = i + 1;
    }
    assert(all.skip(i as int).len() == 0);
    config.default_interval.clone()
}

/// State of one symbol within a campaign.
pub struct SymbolState {
    pub symbol: String,
    pub interval: String,
    pub daily_trade_count: usize,
}

/// A campaign: its configuration, status and per-symbol state.
pub struct Campaign {
    pub config: CampaignConfig,
    pub status: CampaignStatus,
    pub symbol_states: Vec<SymbolState>,
    pub daily_trade_count: usize,
}

/// Symbols of a list of symbol states.
pub open spec fn state_symbols(v: Seq<SymbolState>) -> Seq<Seq<char>> {
    v.map_values(|s: SymbolState| s.symbol@)
}

/// Views of a vector of strings.
pub open spec fn string_views(v: Seq<String>) -> Seq<Seq<char>> {
    v.map_values(|s: String| s@)
}

impl Campaign {
    /// A new campaign in status `Created`: one state per distinct configured
    /// symbol, with its resolved interval and no trade yet.
    pub fn new(config: CampaignConfig) -> (c: Campaign)
        ensures
            c.status == CampaignStatus::Created,
            c.daily_trade_count == 0,
            c.config == config,
            state_symbols(c.symbol_states@).no_duplicates(),
            forall|s: Seq<char>|
                #![trigger state_symbols(c.symbol_states@).contains(s)]
                state_symbols(c.symbol_states@).contains(s) <==> string_views(
                    config.symbols@,
                ).contains(s),
            forall|k: int|
                0 <= k < c.symbol_states@.len() ==> {
                    &&& (#[trigger] c.symbol_states@[k]).interval@ == interval_for(
                        pair_views(config.symbol_intervals@),
                        config.default_interval@,
                        c.symbol_states@[k].symbol@,
                    )
                    &&& c.symbol_states@[k].daily_trade_count == 0
                },
    {
        let mut states: Vec<SymbolState> = Vec::new();
        let mut i: usize = 0;
        let ghost syms = string_views(config.symbols@);
        while i < config.symbols.len()
            invariant
                i <= config.symbols.len(),
                syms == string_views(config.symbols@),
                state_symbols(states@).no_duplicates(),
                forall|s: Seq<char>|
                    #![trigger state_symbols(states@).contains(s)]
                    state_symbols(states@).contains(s) <==> syms.take(i as int).contains(s),
                forall|k: int|
                    0 <= k < states@.len() ==> {
                        &&& (#[trigger] states@[k]).interval@ == interval_for(
                            pair_views(config.symbol_intervals@),
                            config.default_interval@,
                            states@[k].symbol@,
                        )
                        &&& states@[k].daily_trade_count == 0
                    },
            decreases config.symbols.len() - i,
        {
            let ghost before = state_symbols(states@);
            let ghost x = syms[i as int];
            assert(syms.take(i + 1) =~= syms.take(i as int).push(x));
            let sym = config.symbols[i].as_str();
            let mut present = false;
            let mut j: usize = 0;
            while j < states.len()
                invariant
                    j <= states.len(),
                    before == state_symbols(states@),
                    !present ==> forall|k: int| 0 <= k < j ==> before[k] != sym@,
                    present ==> before.contains(sym@),
                decreases states.len() - j,
            {
                if str_eq(states[j].symbol.as_str(), sym) {
                    present = true;
                    assert(before[j as int] == sym@);
                }
                j = j + 1;
            }
            if !present {
                let interval = resolve_interval(&config, sym);
                states.push(
                    SymbolState {
                        symbol: String::from_str(sym),
                        interval,
                        daily_trade_count: 0,
                    },
                );
                proof {
                    let after = state_symbols(states@);
                    assert(after =~= before.push(x));
                    assert(!before.contains(x)) by {
                        if before.contains(x) {
                            let k = choose|k: int| 0 <= k < before.len() && before[k] == x;
                            assert(before[k] != x);
                        }
                    }
                    assert forall|s: Seq<char>| #[trigger] after.contains(s) <==> syms.take(
                        i + 1,
                    ).contains(s) by {
                        let t0 = syms.take(i as int);
                        let t1 = syms.take(i + 1);
                        if after.contains(s) {
                            let k = choose|k: int| 0 <= k < after.len() && after[k] == s;
                            if k < before.len() {
                                assert(before[k] == s);
                                assert(before.contains(s));
                                let k2 = choose|k2: int| 0 <= k2 < t0.len() && t0[k2] == s;
                                assert(t1[k2] == s);
                            } else {
                                assert(t1[i as int] == x);
                            }
                        }
                        if t1.contains(s) {
                            let k = choose|k: int| 0 <= k < t1.len() && t1[k] == s;
                            if k < i {
                                assert(t0[k] == s);
                                assert(t0.contains(s));
                                assert(before.contains(s));
                                let k3 = choose|k3: int| 0 <= k3 < before.len() && before[k3] == s;
                                assert(after[k3] == s);
                            } else {
                                assert(after[before.len() as int] == x);
                            }
                        }
                    }
                }
            } else {
                proof {
                    assert forall|s: Seq<char>| #[trigger] before.contains(s) <==> syms.take(
                        i + 1,
                    ).contains(s) by {
                        let t0 = syms.take(i as int);
                        let t1 = syms.take(i + 1);
                        if before.contains(s) {
                            let k2 = choose|k2: int| 0 <= k2 < t0.len() && t0[k2] == s;
                            assert(t1[k2] == s);
                        }
                        if t1.contains(s) {
                            let k = choose|k: int| 0 <= k < t1.len() && t1[k] == s;
                            if k < i {
                                assert(t0[k] == s);
                            }
                        }
                    }
                }
            }
            i = i + 1;
        }
        assert(syms.take(i as int) =~= syms);
        Campaign { config, status: CampaignStatus::Created, symbol_states: states, daily_trade_count: 0 }
    }

    /// Start campaign
    pub fn start(&mut self)
        ensures
            final(self).status == CampaignStatus::Running,
            final(self).config == old(self).config,
            final(self).symbol_states == old(self).symbol_states,
            final(self).daily_trade_count == old(self).daily_trade_count,
    {
        self.status = CampaignStatus::Running;
    }

    /// Stop campaign
    pub fn stop(&mut self)
        ensures
            final(self).status == CampaignStatus::Stopped,
            final(self).config == old(self).config,
            final(self).symbol_states == old(self).symbol_states,
            final(self).daily_trade_count == old(self).daily_trade_count,
    {
        self.status = CampaignStatus::Stopped;
    }
}

/// Why a registry operation failed.
#[derive(Debug)]
pub enum CampaignError {
    /// A campaign of that name is already registered.
    AlreadyExists(String),
    /// No campaign of that name is registered.
    NotFound(String),
}

/// The message of a registry error.
pub open spec fn campaign_error_text(e: CampaignError) -> Seq<char> {
    match e {
        CampaignError::AlreadyExists(n) => "Campaign '"@ + n@ + "' already exists"@,
        CampaignError::NotFound(n) => "Campaign '"@ + n@ + "' not found"@,
    }
}

impl CampaignError {
    /// The message of the error.
    pub fn message(&self) -> (m: String)
        ensures
            m@ == campaign_error_text(*self),
    {
        match self {
            CampaignError::AlreadyExists(n) => {
                let mut m = concat("Campaign '", n.as_str());
                m.append("' already exists");
                m
            },
            CampaignError::NotFound(n) => {
                let mut m = concat("Campaign '", n.as_str());
                m.append("' not found");
                m
            },
        }
    }
}

/// Names of a list of campaigns.
pub open spec fn campaign_names(v: Seq<Campaign>) -> Seq<Seq<char>> {
    v.map_values(|c: Campaign| c.config.name@)
}

/// Registry of campaigns by name.
pub struct CampaignManager {
    campaigns: Vec<Campaign>,
}

impl CampaignManager {
    /// Registered names, in registration order.
    pub closed spec fn names(&self) -> Seq<Seq<char>> {
        campaign_names(self.campaigns@)
    }

    /// Well-formed: no name is registered twice.
    pub closed spec fn wf(&self) -> bool {
        self.names().no_duplicates()
    }

    /// Status of the campaign registered under `name`, if any.
    pub closed spec fn status(&self, name: Seq<char>) -> Option<CampaignStatus> {
        if self.names().contains(name) {
            Some(self.campaigns@[self.names().index_of(name)].status)
        } else {
            None
        }
    }

    /// A name has a status exactly when it is registered, that is, listed by
    /// `list_campaigns`.
    pub proof fn lemma_status_iff_listed(&self, name: Seq<char>)
        ensures
            self.status(name) is Some <==> self.names().contains(name),
    {
    }

    proof fn lemma_status_at(&self, i: int)
        requires
            self.wf(),
            0 <= i < self.campaigns@.len(),
        ensures
            self.status(self.names()[i]) == Some(self.campaigns@[i].status),
    {
        let n = self.names()[i];
        assert(self.names().contains(n));
        let k = self.names().index_of(n);
        assert(self.names()[k] == n);
    }

    /// An empty registry.
    pub fn new() -> (m: CampaignManager)
        ensures
            m.wf(),
            m.names().len() == 0,
            forall|n: Seq<char>| m.status(n) is None,
    {
        let m = CampaignManager { campaigns: Vec::new() };
        assert(m.names() =~= Seq::<Seq<char>>::empty());
        m
    }

    fn find(&self, name: &str) -> (r: Option<usize>)
        requires
            self.wf(),
        ensures
            r is None <==> !self.names().contains(name@),
            r matches Some(i) ==> i < self.campaigns@.len() && self.names()[i as int] == name@,
    {
        let mut i: usize = 0;
        while i < self.campaigns.len()
            invariant
                i <= self.campaigns.len(),
                forall|k: int| 0 <= k < i ==> self.names()[k] != name@,
            decreases self.campaigns.len() - i,
        {
            if str_eq(self.campaigns[i].config.name.as_str(), name) {
                assert(self.names()[i as int] == name@);
                return Some(i);
            }
            i = i + 1;
        }
        proof {
            if self.names().contains(name@) {
                let k = choose|k: int| 0 <= k < self.names().len() && self.names()[k] == name@;
                assert(self.names()[k] != name@);
            }
        }
        None
    }

    /// Registers a new campaign in status `Created` under its configured
    /// name; refuses a name that is already registered and then changes nothing.
    pub fn create_campaign(&mut self, config: CampaignConfig) -> (r: Result<String, CampaignError>)
        requires
            old(self).wf(),
        ensures
            final(self).wf(),
            r is Ok <==> old(self).status(config.name@) is None,
            r is Ok <==> !old(self).names().contains(config.name@),
            r matches Ok(n) ==> n@ == config.name@ && final(self).status(config.name@) == Some(
                CampaignStatus::Created,
            ) && final(self).names() == old(self).names().push(config.name@),
            r matches Err(e) ==> e matches CampaignError::AlreadyExists(n) && n@ == config.name@,
            r is Err ==> final(self).names() == old(self).names(),
            forall|n: Seq<char>| n != config.name@ ==> final(self).status(n) == old(self).status(n),
            r is Err ==> final(self).status(config.name@) == old(self).status(config.name@),
    {
        match self.find(config.name.as_str()) {
            Some(_) => Err(CampaignError::AlreadyExists(config.name.clone())),
            None => {
                let name = config.name.clone();
                let ghost old_names = self.names();
                let ghost old_self = *self;
                let campaign = Campaign::new(config);
                self.campaigns.push(campaign);
                proof {
                    assert(self.names() =~= old_names.push(name@));
                    assert(self.names().no_duplicates()) by {
                        assert forall|a: int, b: int|
                            0 <= a < self.names().len() && 0 <= b < self.names().len() && a != b
                            implies self.names()[a] != self.names()[b] by {
                            if a < old_names.len() && b < old_names.len() {
                                assert(self.names()[a] == old_names[a]);
                                assert(self.names()[b] == old_names[b]);
                            } else if a < old_names.len() {
                                assert(self.names()[a] == old_names[a]);
                                assert(old_names.contains(old_names[a]));
                            } else {
                                assert(self.names()[b] == old_names[b]);
                                assert(old_names.contains(old_names[b]));
                            }
                        }
                    }
                    self.lemma_status_at(old_names.len() as int);
                    assert forall|n: Seq<char>| n != name@ implies self.status(n) == old_self.status(
                        n,
                    ) by {
                        if old_names.contains(n) {
                            let k = old_names.index_of(n);
                            old_self.lemma_status_at(k);
                            self.lemma_status_at(k);
                            assert(self.names()[k] == old_names[k]);
                        } else {
                            assert(!self.names().contains(n)) by {
                                if self.names().contains(n) {
                                    let k = self.names().index_of(n);
                                    if k < old_names.len() {
                                        assert(old_names[k] == n);
                                    }
                                }
                            }
                        }
                    }
                }
                Ok(name)
            },
        }
    }

    fn set_status(&mut self, i: usize, status: CampaignStatus)
        requires
            old(self).wf(),
            i < old(self).campaigns@.len(),
        ensures
            final(self).wf(),
            final(self).names() == old(self).names(),
            final(self).status(old(self).names()[i as int]) == Some(status),
            forall|n: Seq<char>| n != old(self).names()[i as int] ==> final(self).status(n)
                == old(self).status(n),
    {
        let ghost old_self = *self;
        let mut c = self.campaigns.remove(i);
        c.status = status;
        self.campaigns.insert(i, c);
        proof {
            assert(self.names() =~= old_self.names());
            self.lemma_status_at(i as int);
            assert forall|n: Seq<char>| n != old_self.names()[i as int] implies self.status(n)
                == old_self.status(n) by {
                if old_self.names().contains(n) {
                    let k = old_self.names().index_of(n);
                    old_self.lemma_status_at(k);
                    self.lemma_status_at(k);
                }
            }
        }
    }

    /// Puts the named campaign in status `Running`.
    pub fn start_campaign(&mut self, name: &str) -> (r: Result<(), CampaignError>)
        requires
            old(self).wf(),
        ensures
            final(self).wf(),
            final(self).names() == old(self).names(),
            r is Ok <==> old(self).status(name@) is Some,
            r is Ok ==> final(self).status(name@) == Some(CampaignStatus::Running),
            r matches Err(e) ==> e matches CampaignError::NotFound(n) && n@ == name@,
            r is Err ==> final(self).status(name@) is None,
            forall|n: Seq<char>| n != name@ ==> final(self).status(n) == old(self).status(n),
    {
        match self.find(name) {
            Some(i) => {
                self.set_status(i, CampaignStatus::Running);
                Ok(())
            },
            None => Err(CampaignError::NotFound(String::from_str(name))),
        }
    }

    /// Puts the named campaign in status `Stopped`.
    pub fn stop_campaign(&mut self, name: &str) -> (r: Result<(), CampaignError>)
        requires
            old(self).wf(),
        ensures
            final(self).wf(),
            final(self).names() == old(self).names(),
            r is Ok <==> old(self).status(name@) is Some,
            r is Ok ==> final(self).status(name@) == Some(CampaignStatus::Stopped),
            r matches Err(e) ==> e matches CampaignError::NotFound(n) && n@ == name@,
            r is Err ==> final(self).status(name@) is None,
            forall|n: Seq<char>| n != name@ ==> final(self).status(n) == old(self).status(n),
    {
        match self.find(name) {
            Some(i) => {
                self.set_status(i, CampaignStatus::Stopped);
                Ok(())
            },
            None => Err(CampaignError::NotFound(String::from_str(name))),
        }
    }

    /// Status of the named campaign.
    pub fn get_campaign_status(&self, name: &str) -> (r: Option<CampaignStatus>)
        requires
            self.wf(),
        ensures
            r == self.status(name@),
    {
        match self.find(name) {
            Some(i) => {
                proof {
                    self.lemma_status_at(i as int);
                }
                Some(self.campaigns[i].status)
            },
            None => None,
        }
    }

    /// The named campaign.
    pub fn get_campaign(&self, name: &str) -> (r: Option<&Campaign>)
        requires
            self.wf(),
        ensures
            r is None <==> self.status(name@) is None,
            r matches Some(c) ==> c.config.name@ == name@ && self.status(name@) == Some(c.status),
    {
        match self.find(name) {
            Some(i) => {
                proof {
                    self.lemma_status_at(i as int);
                }
                Some(&self.campaigns[i])
            },
            None => None,
        }
    }

    /// Names of all registered campaigns.
    pub fn list_campaigns(&self) -> (names: Vec<String>)
        ensures
            string_views(names@) == self.names(),
    {
        let mut names: Vec<String> = Vec::new();
        let mut i: usize = 0;
        while i < self.campaigns.len()
            invariant
                i <= self.campaigns.len(),
                string_views(names@) == self.names().take(i as int),
            decreases self.campaigns.len() - i,
        {
            let ghost before = string_views(names@);
            let n = self.campaigns[i].config.name.clone();
            assert(n@ == self.names()[i as int]);
            names.push(n);
            proof {
                assert(string_views(names@) =~= before.push(self.names()[i as int]));
                assert(string_views(names@) =~= self.names().take(i + 1));
            }
            i = i + 1;
        }
        assert(self.names().take(i as int) =~= self.names());
        names
    }

    /// Removes the named campaign.
    pub fn delete_campaign(&mut self, name: &str) -> (r: Result<(), CampaignError>)
        requires
            old(self).wf(),
        ensures
            final(self).wf(),
            r is Ok <==> old(self).status(name@) is Some,
            final(self).status(name@) is None,
            r matches Err(e) ==> e matches CampaignError::NotFound(n) && n@ == name@,
            forall|n: Seq<char>| n != name@ ==> final(self).status(n) == old(self).status(n),
    {
        match self.find(name) {
            Some(i) => {
                let ghost old_self = *self;
                let ghost old_names = self.names();
                let _removed = self.campaigns.remove(i);
                proof {
                    assert(self.names() =~= old_names.remove(i as int));
                    assert forall|a: int, b: int|
                        0 <= a < self.names().len() && 0 <= b < self.names().len() && a != b
                        implies self.names()[a] != self.names()[b] by {
                        let a0 = if a < i { a } else { a + 1 };
                        let b0 = if b < i { b } else { b + 1 };
                        assert(self.names()[a] == old_names[a0]);
                        assert(self.names()[b] == old_names[b0]);
                    }
                    assert(!self.names().contains(name@)) by {
                        if self.names().contains(name@) {
                            let k = self.names().index_of(name@);
                            let k0 = if k < i { k } else { k + 1 };
                            assert(old_names[k0] == name@);
                            assert(old_names[i as int] == name@);
                        }
                    }
                    assert forall|n: Seq<char>| n != name@ implies self.status(n) == old_self.status(
                        n,
                    ) by {
                        if old_names.contains(n) {
                            let k = old_names.index_of(n);
                            old_self.lemma_status_at(k);
                            assert(k != i);
                            let k1 = if k < i { k } else { k - 1 };
                            assert(self.names()[k1] == n);
                            self.lemma_status_at(k1);
                        } else {
                            if self.names().contains(n) {
                                let k = self.names().index_of(n);
                                let k0 = if k < i { k } else { k + 1 };
                                assert(old_names[k0] == n);
                            }
                        }
                    }
                }
                Ok(())
            },
            None => Err(CampaignError::NotFound(String::from_str(name))),
        }
    }
}

/// Creating a campaign and then deleting it leaves every status as it was.
pub proof fn lemma_create_then_delete(
    before: CampaignManager,
    created: CampaignManager,
    deleted: CampaignManager,
    name: Seq<char>,
)
    requires
        before.status(name) is None,
        created.status(name) == Some(CampaignStatus::Created),
        forall|n: Seq<char>| n != name ==> created.status(n) == before.status(n),
        deleted.status(name) is None,
        forall|n: Seq<char>| n != name ==> deleted.status(n) == created.status(n),
    ensures
        forall|n: Seq<char>| deleted.status(n) == before.status(n),
{
}

} // verus!
