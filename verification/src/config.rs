use vstd::prelude::*;

verus! {

/// The browser and profile that open a link that no rule claims.
#[derive(Debug, Clone)]
pub struct DefaultFallback {
    pub browser: String,
    pub profile: Option<String>,
}

/// A routing rule: links whose host is `match_domain` (whatever the case),
/// or that `match_pattern` matches, open in the target. A pattern is a
/// regular expression searched for in the link's text, or, when it is not a
/// valid one, a wildcard pattern (`*`, `?`) for the whole host.
#[derive(Debug, Clone)]
pub struct Rule {
    pub match_domain: Option<String>,
    pub match_pattern: Option<String>,
    pub target_browser: String,
    pub target_profile: Option<String>,
}

impl Rule {
    /// A rule is valid when it has something to match on.
    pub open spec fn spec_is_valid(&self) -> bool {
        self.match_domain is Some || self.match_pattern is Some
    }

    pub fn is_valid(&self) -> (r: bool)
        ensures
            r == self.spec_is_valid(),
    {
        self.match_domain.is_some() || self.match_pattern.is_some()
    }
}

/// How long to wait for a link wrapper on `match_domain` to resolve.
#[derive(Debug, Clone)]
pub struct RedirectPolicy {
    pub match_domain: String,
    pub timeout_seconds: u32,
}

/// The number of seconds a redirect policy waits when it names none.
pub fn default_timeout() -> (r: u32)
    ensures
        r == 5,
{
    5
}

/// The whole routing configuration.
#[derive(Debug, Clone)]
pub struct Config {
    pub default: DefaultFallback,
    pub rules: Vec<Rule>,
    pub redirect_policies: Vec<RedirectPolicy>,
}


/// The number of rules in the list that are not valid.
pub open spec fn invalid_rule_count(rules: Seq<Rule>) -> nat
    decreases rules.len(),
{
    if rules.len() == 0 {
        0
    } else {
        invalid_rule_count(rules.drop_last()) + if rules.last().spec_is_valid() {
            0nat
        } else {
            1nat
        }
    }
}

/// Counts the rules of the configuration that have neither a domain nor a pattern.
pub fn count_invalid_rules(config: &Config) -> (r: usize)
    ensures
        r == invalid_rule_count(config.rules@),
{
    let n = config.rules.len();
    let mut count: usize = 0;
    let mut i: usize = 0;
    while i < n
        invariant
            n == config.rules@.len(),
            0 <= i <= n,
            count == invalid_rule_count(config.rules@.take(i as int)),
            count <= i,
        decreases n - i,
    {
        assert(config.rules@.take(i + 1).drop_last() =~= config.rules@.take(i as int));
        if !config.rules[i].is_valid() {
            count = count + 1;
        }
        i = i + 1;
    }
    assert(config.rules@.take(n as int) =~= config.rules@);
    count
}

/// Why no configuration could be had.
#[derive(Debug, Clone, Copy, PartialEq, Eq)]
pub enum ConfigError {
    /// The configuration file could not be used and nothing earlier was kept.
    NoValidConfig,
    /// The directory that holds the configuration file is unknown.
    DirectoryUnknown,
    /// There is no configuration file.
    FileNotFound,
}

/// The last configuration that was read and understood, kept to fall back
/// on when the configuration file later turns out unreadable or invalid.
#[derive(Debug)]
pub struct ConfigStore {
    last_good: Option<Config>,
}

impl View for ConfigStore {
    type V = Option<Config>;

    closed spec fn view(&self) -> Option<Config> {
        self.last_good
    }
}

/// What falling back to the last good configuration does next.
#[derive(Debug)]
pub enum FallbackStep<'a> {
    /// Use the configuration kept in memory.
    UseCached(&'a Config),
    /// Nothing is kept in memory: read the backup copy on disk.
    ReadBackup,
}

impl ConfigStore {
    /// Nothing kept yet.
    pub fn new() -> (s: ConfigStore)
        ensures
            s@ is None,
    {
        ConfigStore { last_good: None }
    }

    /// Keeps a configuration that was just read and understood.
    pub fn remember(&mut self, config: Config)
        ensures
            final(self)@ == Some(config),
    {
        self.last_good = Some(config);
    }

    /// The configuration kept, if any.
    pub fn last_good(&self) -> (r: Option<&Config>)
        ensures
            match self@ {
                Some(c) => r matches Some(x) && *x == c,
                None => r is None,
            },
    {
        match &self.last_good {
            Some(c) => Some(c),
            None => None,
        }
    }

    /// The first step of falling back: the configuration kept in memory when
    /// there is one, and otherwise the backup copy on disk.
    pub fn fallback_step(&self) -> (r: FallbackStep<'_>)
        ensures
            match self@ {
                Some(c) => r matches FallbackStep::UseCached(x) && *x == c,
                None => r is ReadBackup,
            },
    {
        match &self.last_good {
            Some(c) => FallbackStep::UseCached(c),
            None => FallbackStep::ReadBackup,
        }
    }

    /// The second step of falling back, with what the backup copy on disk
    /// yielded: a configuration is kept and used; nothing leaves no
    /// configuration at all.
    pub fn adopt_backup(&mut self, backup: Option<Config>) -> (r: Result<(), ConfigError>)
        ensures
            match backup {
                Some(c) => r is Ok && final(self)@ == Some(c),
                None => r == Err::<(), ConfigError>(ConfigError::NoValidConfig) && final(self)@ == old(self)@,
            },
    {
        match backup {
            Some(c) => {
                self.last_good = Some(c);
                Ok(())
            },
            None => Err(ConfigError::NoValidConfig),
        }
    }
}


/// What reading the configuration file came to.
#[derive(Debug)]
pub enum ConfigFileOutcome {
    /// The directory that holds the configuration file is unknown.
    DirectoryUnknown,
    /// There is no configuration file.
    NotFound,
    /// The file exists but could not be read.
    ReadFailed,
    /// The file was read and understood.
    Parsed(Config),
    /// The file was read but is not a valid configuration.
    ParseFailed,
}

/// What went wrong with a configuration file that exists.
#[derive(Debug, Clone, Copy, PartialEq, Eq)]
pub enum ConfigProblem {
    Unreadable,
    Unparsable,
}

/// What loading the configuration does next.
#[derive(Debug, Clone, Copy, PartialEq, Eq)]
pub enum LoadDecision {
    /// Use the configuration just read (now kept as the last good one) and
    /// save a backup copy; it has this many invalid rules.
    Accept(usize),
    /// Tell the user about the problem, then fall back to the last good configuration.
    FallBack(ConfigProblem),
    /// Give up with the error.
    Fail(ConfigError),
}

/// Decides what loading the configuration does with what reading the file
/// came to: a file that was understood is kept as the last good
/// configuration; an unreadable or invalid file leads to the fallback; with
/// no directory or no file at all, loading fails.
pub fn decide_load(store: &mut ConfigStore, outcome: ConfigFileOutcome) -> (r: LoadDecision)
    ensures
        match outcome {
            ConfigFileOutcome::Parsed(c) => r == LoadDecision::Accept(invalid_rule_count(c.rules@) as usize)
                && final(store)@ == Some(c),
            ConfigFileOutcome::DirectoryUnknown => r == LoadDecision::Fail(ConfigError::DirectoryUnknown)
                && final(store)@ == old(store)@,
            ConfigFileOutcome::NotFound => r == LoadDecision::Fail(ConfigError::FileNotFound) && final(store)@
                == old(store)@,
            ConfigFileOutcome::ReadFailed => r == LoadDecision::FallBack(ConfigProblem::Unreadable)
                && final(store)@ == old(store)@,
            ConfigFileOutcome::ParseFailed => r == LoadDecision::FallBack(ConfigProblem::Unparsable)
                && final(store)@ == old(store)@,
        },
{
    match outcome {
        ConfigFileOutcome::Parsed(c) => {
            let invalid = count_invalid_rules(&c);
            store.remember(c);
            LoadDecision::Accept(invalid)
        },
        ConfigFileOutcome::DirectoryUnknown => LoadDecision::Fail(ConfigError::DirectoryUnknown),
        ConfigFileOutcome::NotFound => LoadDecision::Fail(ConfigError::FileNotFound),
        ConfigFileOutcome::ReadFailed => LoadDecision::FallBack(ConfigProblem::Unreadable),
        ConfigFileOutcome::ParseFailed => LoadDecision::FallBack(ConfigProblem::Unparsable),
    }
}

/// A rule is valid exactly when it has a domain or a pattern.
pub proof fn law_valid_rule_has_domain_or_pattern(rule: Rule)
    ensures
        rule.spec_is_valid() <==> (rule.match_domain is Some || rule.match_pattern is Some),
{
}

/// The invalid rules counted are exactly the rules with neither a domain nor a pattern.
pub proof fn law_invalid_rules_counted(rules: Seq<Rule>)
    ensures
        invalid_rule_count(rules) == rules.filter(|r: Rule| r.match_domain is None && r.match_pattern is None).len(),
    decreases rules.len(),
{
    reveal_with_fuel(Seq::<_>::filter, 1);
    if rules.len() > 0 {
        law_invalid_rules_counted(rules.drop_last());
    }
}

} // verus!
