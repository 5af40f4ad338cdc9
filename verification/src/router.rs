//! Choosing the rule, or the default, that a link is routed to.
use vstd::prelude::*;

use crate::browser::{command_args, command_program, get_browser_command, BrowserCommand, TargetOs};
use crate::config::{Config, DefaultFallback, RedirectPolicy, Rule};
use crate::glob::{chars_of, glob_match, glob_matches};
use crate::debounce::{admits, after_request, RecentRequests};
use crate::outside::{
    lowercase, parse_url_host, regex_compiles, regex_finds, regex_is_match, to_lowercase, url_host, url_parses,
};

verus! {

/// Where a link goes: the first rule that claims it, or the default.
#[derive(Debug)]
pub enum RouteResult<'a> {
    Matched(&'a Rule),
    Fallback(&'a DefaultFallback),
}

/// Why a link could not be routed.
#[derive(Debug, Clone, Copy, PartialEq, Eq)]
pub enum RouteError {
    /// The text is not an absolute URL.
    InvalidUrl,
}

/// The host that routing compares with `match_domain`: the URL's host, or
/// the empty text when the URL has none.
pub open spec fn routing_domain(url: Seq<char>) -> Seq<char> {
    match url_host(url) {
        Some(h) => h,
        None => Seq::empty(),
    }
}

/// Whether two host names are the same, whatever their case.
pub open spec fn same_host(a: Seq<char>, b: Seq<char>) -> bool {
    lowercase(a) == lowercase(b)
}

/// Whether a pattern claims a link: a pattern that is a regular expression
/// must find a match anywhere in the link's text; any other pattern is read
/// as a wildcard pattern (`*`, `?`) that must match the whole host, whatever
/// the case.
pub open spec fn pattern_matches(pattern: Seq<char>, domain: Seq<char>, url: Seq<char>) -> bool {
    if regex_compiles(pattern) {
        regex_finds(pattern, url)
    } else {
        glob_matches(lowercase(pattern), lowercase(domain))
    }
}

/// A rule claims a link when its domain is the link's host (whatever the
/// case), or when its pattern matches the link.
pub open spec fn rule_matches(rule: Rule, domain: Seq<char>, url: Seq<char>) -> bool {
    ||| (rule.match_domain matches Some(d) && same_host(d@, domain))
    ||| (rule.match_pattern matches Some(p) && pattern_matches(p@, domain, url))
}

/// Whether the host is that of a link wrapper named by a redirect policy
/// (whatever the case).
pub open spec fn is_redirect_wrapper(policies: Seq<RedirectPolicy>, domain: Seq<char>) -> bool {
    exists|i: int| 0 <= i < policies.len() && same_host(#[trigger] policies[i].match_domain@, domain)
}

/// The index of the first rule at or after `start` that claims the link.
pub open spec fn first_match_from(rules: Seq<Rule>, start: int, domain: Seq<char>, url: Seq<char>) -> Option<int>
    decreases rules.len() - start,
{
    if start < 0 || start >= rules.len() {
        None
    } else if rule_matches(rules[start], domain, url) {
        Some(start)
    } else {
        first_match_from(rules, start + 1, domain, url)
    }
}

/// The index of the first rule that claims the link.
pub open spec fn first_match(rules: Seq<Rule>, domain: Seq<char>, url: Seq<char>) -> Option<int> {
    first_match_from(rules, 0, domain, url)
}

/// Where a link with the given host goes under the configuration: a link on
/// a redirect wrapper's host goes to the default browser, where the
/// extension follows it to its destination; any other link goes to the
/// first rule that claims it, or to the default.
pub open spec fn route_target<'a>(config: &'a Config, domain: Seq<char>, url: Seq<char>) -> RouteResult<'a> {
    if is_redirect_wrapper(config.redirect_policies@, domain) {
        RouteResult::Fallback(&config.default)
    } else {
        match first_match(config.rules@, domain, url) {
            Some(i) => RouteResult::Matched(&config.rules@[i]),
            None => RouteResult::Fallback(&config.default),
        }
    }
}

/// Whether the pattern claims the link whose lowercased host is `lowered_domain`.
fn pattern_claims(pattern: &str, lowered_domain: &String, Ghost(domain): Ghost<Seq<char>>, url_str: &str) -> (r: bool)
    requires
        lowered_domain@ == lowercase(domain),
    ensures
        r == pattern_matches(pattern@, domain, url_str@),
{
    match regex_is_match(pattern, url_str) {
        Ok(found) => found,
        Err(_) => {
            let lowered_pattern = to_lowercase(pattern);
            glob_match(&chars_of(lowered_pattern.as_str()), &chars_of(lowered_domain.as_str()))
        },
    }
}

/// Whether the rule claims the link whose lowercased host is `lowered_domain`.
fn rule_claims(rule: &Rule, lowered_domain: &String, Ghost(domain): Ghost<Seq<char>>, url_str: &str) -> (r: bool)
    requires
        lowered_domain@ == lowercase(domain),
    ensures
        r == rule_matches(*rule, domain, url_str@),
{
    if let Some(match_domain) = &rule.match_domain {
        if to_lowercase(match_domain.as_str()) == *lowered_domain {
            return true;
        }
    }
    if let Some(match_pattern) = &rule.match_pattern {
        if pattern_claims(match_pattern.as_str(), lowered_domain, Ghost(domain), url_str) {
            return true;
        }
    }
    false
}

/// Whether a redirect policy names the host whose lowercased form is `lowered_domain`.
fn wrapper_host(policies: &Vec<RedirectPolicy>, lowered_domain: &String, Ghost(domain): Ghost<Seq<char>>) -> (r: bool)
    requires
        lowered_domain@ == lowercase(domain),
    ensures
        r == is_redirect_wrapper(policies@, domain),
{
    let n = policies.len();
    let mut i: usize = 0;
    while i < n
        invariant
            n == policies@.len(),
            0 <= i <= n,
            lowered_domain@ == lowercase(domain),
            forall|j: int| 0 <= j < i ==> !same_host(#[trigger] policies@[j].match_domain@, domain),
        decreases n - i,
    {
        if to_lowercase(policies[i].match_domain.as_str()) == *lowered_domain {
            assert(same_host(policies@[i as int].match_domain@, domain));
            return true;
        }
        i = i + 1;
    }
    false
}

/// Routes a link whose host is `domain`: to the default when the host is a
/// redirect wrapper's, otherwise to the first rule of the configuration that
/// claims it, or to the default fallback when none does.
pub fn route_domain<'a>(domain: &String, url_str: &str, config: &'a Config) -> (r: RouteResult<'a>)
    ensures
        r == route_target(config, domain@, url_str@),
{
    let lowered_domain = to_lowercase(domain.as_str());
    if wrapper_host(&config.redirect_policies, &lowered_domain, Ghost(domain@)) {
        return RouteResult::Fallback(&config.default);
    }
    let n = config.rules.len();
    let mut i: usize = 0;
    while i < n
        invariant
            n == config.rules@.len(),
            0 <= i <= n,
            lowered_domain@ == lowercase(domain@),
            !is_redirect_wrapper(config.redirect_policies@, domain@),
            first_match_from(config.rules@, i as int, domain@, url_str@)
                == first_match(config.rules@, domain@, url_str@),
        decreases n - i,
    {
        let rule = &config.rules[i];
        if rule_claims(rule, &lowered_domain, Ghost(domain@), url_str) {
            return RouteResult::Matched(rule);
        }
        i = i + 1;
    }
    RouteResult::Fallback(&config.default)
}

/// Routes a URL against a configuration, returning the matching rule or the
/// default fallback; fails when the text is not an absolute URL.
pub fn route_url<'a>(url_str: &str, config: &'a Config) -> (r: Result<RouteResult<'a>, RouteError>)
    ensures
        r is Ok <==> url_parses(url_str@),
        r matches Ok(target) ==> target == route_target(config, routing_domain(url_str@), url_str@),
{
    match parse_url_host(url_str) {
        Ok(host) => {
            let domain = match host {
                Some(h) => h,
                None => String::new(),
            };
            Ok(route_domain(&domain, url_str, config))
        },
        Err(_) => Err(RouteError::InvalidUrl),
    }
}


/// The text of an optional string.
pub open spec fn opt_string_text(o: Option<String>) -> Option<Seq<char>> {
    match o {
        Some(s) => Some(s@),
        None => None,
    }
}

/// The browser and profile that a route leads to.
pub open spec fn route_browser(route: RouteResult) -> (Seq<char>, Option<Seq<char>>) {
    match route {
        RouteResult::Matched(rule) => (rule.target_browser@, opt_string_text(rule.target_profile)),
        RouteResult::Fallback(fallback) => (fallback.browser@, opt_string_text(fallback.profile)),
    }
}

/// Whether `cmd` opens `url` in the browser and profile that the route leads to.
pub open spec fn opens_route(cmd: BrowserCommand, os: TargetOs, route: RouteResult, url: Seq<char>) -> bool {
    let (browser, profile) = route_browser(route);
    &&& cmd.program@ == command_program(os, lowercase(browser), browser)
    &&& cmd.arg_texts() == command_args(os, lowercase(browser), browser, profile, url)
}

fn profile_str(profile: &Option<String>) -> (r: Option<&str>)
    ensures
        match r {
            Some(p) => *profile matches Some(q) && p@ == q@,
            None => *profile is None,
        },
{
    match profile {
        Some(p) => Some(p.as_str()),
        None => None,
    }
}

/// How to open a link: the command to run first, and, when that command
/// starts a rule's browser, the command that opens the link in the default
/// browser instead should that browser be missing.
///
/// On macOS and Windows the command starts a launcher (`open`, `cmd`) that
/// ends once it has handed the link over, and ends with a failure when the
/// browser cannot be found; there the launch is confirmed by waiting for the
/// launcher's exit status. Elsewhere the command is the browser itself, and
/// the launch fails when it cannot be started.
#[derive(Debug, Clone)]
pub struct LaunchPlan {
    /// The configured name of the browser that the command starts.
    pub browser: String,
    pub command: BrowserCommand,
    pub confirm_by_exit_status: bool,
    pub on_failure: Option<BrowserCommand>,
}

/// Whether the plan opens `url` where the route leads, falling back to the
/// default browser when a rule's browser cannot be started.
pub open spec fn plans_route(plan: LaunchPlan, os: TargetOs, config: &Config, route: RouteResult, url: Seq<char>) -> bool {
    &&& plan.browser@ == route_browser(route).0
    &&& opens_route(plan.command, os, route, url)
    &&& plan.confirm_by_exit_status == (os == TargetOs::MacOs || os == TargetOs::Windows)
    &&& match route {
        RouteResult::Matched(_) => plan.on_failure matches Some(f) && opens_route(
            f,
            os,
            RouteResult::Fallback(&config.default),
            url,
        ),
        RouteResult::Fallback(_) => plan.on_failure is None,
    }
}

/// The command that opens `url_str` in the default browser and profile.
fn default_command(url_str: &str, config: &Config, os: TargetOs) -> (cmd: BrowserCommand)
    ensures
        opens_route(cmd, os, RouteResult::Fallback(&config.default), url_str@),
{
    get_browser_command(os, config.default.browser.as_str(), profile_str(&config.default.profile), url_str)
}

/// Handles a request to open `url_str` at time `now_ns` (nanoseconds): a
/// repeat of a request for the same link made less than half a second
/// earlier is ignored (`Ok(None)`); otherwise the link is routed and the
/// plan that opens it in the chosen browser and profile is returned, with
/// the default browser to fall back on when a rule's browser is missing.
/// Fails when the text is not an absolute URL.
pub fn open_url(
    url_str: &str,
    config: &Config,
    recent: &mut RecentRequests,
    now_ns: u64,
    os: TargetOs,
) -> (r: Result<Option<LaunchPlan>, RouteError>)
    ensures
        final(recent)@ == after_request(old(recent)@, url_str@, now_ns),
        !admits(old(recent)@, url_str@, now_ns) ==> r == Ok::<Option<LaunchPlan>, RouteError>(None),
        admits(old(recent)@, url_str@, now_ns) ==> {
            &&& (r is Err <==> !url_parses(url_str@))
            &&& r matches Ok(opened) ==> opened matches Some(plan) && plans_route(
                plan,
                os,
                config,
                route_target(config, routing_domain(url_str@), url_str@),
                url_str@,
            )
        },
{
    if !recent.record_request(url_str, now_ns) {
        return Ok(None);
    }
    let route = route_url(url_str, config)?;
    let confirm = match os {
        TargetOs::MacOs | TargetOs::Windows => true,
        _ => false,
    };
    let plan = match route {
        RouteResult::Matched(rule) => LaunchPlan {
            browser: rule.target_browser.clone(),
            confirm_by_exit_status: confirm,
            command: get_browser_command(
                os,
                rule.target_browser.as_str(),
                profile_str(&rule.target_profile),
                url_str,
            ),
            on_failure: Some(default_command(url_str, config, os)),
        },
        RouteResult::Fallback(fallback) => LaunchPlan {
            browser: fallback.browser.clone(),
            confirm_by_exit_status: confirm,
            command: default_command(url_str, config, os),
            on_failure: None,
        },
    };
    Ok(Some(plan))
}

proof fn lemma_first_match_from(rules: Seq<Rule>, start: int, domain: Seq<char>, url: Seq<char>)
    requires
        0 <= start,
    ensures
        match first_match_from(rules, start, domain, url) {
            Some(i) => start <= i < rules.len() && rule_matches(rules[i], domain, url)
                && forall|j: int| start <= j < i ==> !rule_matches(#[trigger] rules[j], domain, url),
            None => forall|j: int| start <= j < rules.len() ==> !rule_matches(#[trigger] rules[j], domain, url),
        },
    decreases rules.len() - start,
{
    if start < rules.len() && !rule_matches(rules[start], domain, url) {
        lemma_first_match_from(rules, start + 1, domain, url);
    }
}

/// A link is routed to the first rule, in the order of the configuration,
/// that claims it; when no rule claims it, it goes to the default.
pub proof fn law_first_claiming_rule_wins(rules: Seq<Rule>, domain: Seq<char>, url: Seq<char>)
    ensures
        match first_match(rules, domain, url) {
            Some(i) => 0 <= i < rules.len() && rule_matches(rules[i], domain, url)
                && forall|j: int| 0 <= j < i ==> !rule_matches(#[trigger] rules[j], domain, url),
            None => forall|j: int| 0 <= j < rules.len() ==> !rule_matches(#[trigger] rules[j], domain, url),
        },
{
    lemma_first_match_from(rules, 0, domain, url);
}

/// A rule with neither a domain nor a pattern never claims a link.
pub proof fn law_invalid_rule_claims_nothing(rule: Rule, domain: Seq<char>, url: Seq<char>)
    requires
        !rule.spec_is_valid(),
    ensures
        !rule_matches(rule, domain, url),
{
}

proof fn lemma_prefix_first_match(rules: Seq<Rule>, more: Seq<Rule>, start: int, domain: Seq<char>, url: Seq<char>)
    requires
        0 <= start,
        first_match_from(rules, start, domain, url) is Some,
    ensures
        first_match_from(rules + more, start, domain, url) == first_match_from(rules, start, domain, url),
    decreases rules.len() - start,
{
    assert((rules + more)[start] == rules[start]);
    if !rule_matches(rules[start], domain, url) {
        lemma_prefix_first_match(rules, more, start + 1, domain, url);
    }
}

/// Rules added after a rule that claims a link do not change where it goes.
pub proof fn law_later_rules_do_not_matter(rules: Seq<Rule>, more: Seq<Rule>, domain: Seq<char>, url: Seq<char>)
    requires
        first_match(rules, domain, url) is Some,
    ensures
        first_match(rules + more, domain, url) == first_match(rules, domain, url),
{
    lemma_prefix_first_match(rules, more, 0, domain, url);
}


/// A link on the host of a redirect wrapper goes to the default browser,
/// whatever the rules say, so that the wrapper's check can run there.
pub proof fn law_wrapper_links_go_to_default(config: &Config, domain: Seq<char>, url: Seq<char>)
    requires
        is_redirect_wrapper(config.redirect_policies@, domain),
    ensures
        route_target(config, domain, url) == RouteResult::Fallback(&config.default),
{
}

/// A rule with a domain claims every link whose host is that domain, in
/// any case; without a pattern it claims no other link.
pub proof fn law_domain_rule_claims_its_host_in_any_case(rule: Rule, domain: Seq<char>, url: Seq<char>)
    requires
        rule.match_domain is Some,
    ensures
        lowercase(rule.match_domain->0@) == lowercase(domain) ==> rule_matches(rule, domain, url),
        rule.match_pattern is None ==> (rule_matches(rule, domain, url) <==> lowercase(rule.match_domain->0@)
            == lowercase(domain)),
{
}

/// A rule whose pattern is a valid regular expression, and that has no
/// domain, claims a link exactly when the expression finds a match anywhere
/// in the link's whole text, as written; the host alone does not decide.
pub proof fn law_regex_pattern_searches_whole_link(rule: Rule, domain: Seq<char>, url: Seq<char>)
    requires
        rule.match_domain is None,
        rule.match_pattern is Some,
        regex_compiles(rule.match_pattern->0@),
    ensures
        rule_matches(rule, domain, url) == regex_finds(rule.match_pattern->0@, url),
{
}

/// A rule whose pattern is not a valid regular expression, and that has no
/// domain, claims a link exactly when the pattern, read as a wildcard
/// pattern, matches the whole host, case aside.
pub proof fn law_wildcard_pattern_matches_whole_host(rule: Rule, domain: Seq<char>, url: Seq<char>)
    requires
        rule.match_domain is None,
        rule.match_pattern is Some,
        !regex_compiles(rule.match_pattern->0@),
    ensures
        rule_matches(rule, domain, url) == glob_matches(lowercase(rule.match_pattern->0@), lowercase(domain)),
{
}

/// Where a link goes: to the default when a redirect policy names its host
/// (case aside); otherwise to the first rule, in order, that claims it, and
/// to the default when no rule claims it.
pub proof fn law_route_target(config: &Config, domain: Seq<char>, url: Seq<char>)
    ensures
        (exists|k: int|
            0 <= k < config.redirect_policies@.len() && lowercase(#[trigger] config.redirect_policies@[k].match_domain@)
                == lowercase(domain)) ==> route_target(config, domain, url) == RouteResult::Fallback(&config.default),
        !(exists|k: int|
            0 <= k < config.redirect_policies@.len() && lowercase(#[trigger] config.redirect_policies@[k].match_domain@)
                == lowercase(domain)) ==> {
            &&& (forall|j: int| 0 <= j < config.rules@.len() ==> !rule_matches(#[trigger] config.rules@[j], domain, url))
                ==> route_target(config, domain, url) == RouteResult::Fallback(&config.default)
            &&& (exists|j: int| 0 <= j < config.rules@.len() && rule_matches(#[trigger] config.rules@[j], domain, url))
                ==> exists|i: int|
                0 <= i < config.rules@.len() && route_target(config, domain, url) == RouteResult::Matched(
                    &config.rules@[i],
                ) && rule_matches(config.rules@[i], domain, url) && forall|j: int|
                    0 <= j < i ==> !rule_matches(#[trigger] config.rules@[j], domain, url)
        },
{
    law_first_claiming_rule_wins(config.rules@, domain, url);
    if exists|k: int|
        0 <= k < config.redirect_policies@.len() && lowercase(#[trigger] config.redirect_policies@[k].match_domain@)
            == lowercase(domain) {
        let k = choose|k: int|
            0 <= k < config.redirect_policies@.len() && lowercase(#[trigger] config.redirect_policies@[k].match_domain@)
                == lowercase(domain);
        assert(same_host(config.redirect_policies@[k].match_domain@, domain));
    }
}

/// A matched rule leads to its own browser and profile; the default leads
/// to the default's browser and profile.
pub proof fn law_route_leads_to_its_browser_and_profile(rule: &Rule, fallback: &DefaultFallback)
    ensures
        route_browser(RouteResult::Matched(rule)) == (rule.target_browser@, match rule.target_profile {
            Some(p) => Some(p@),
            None => None,
        }),
        route_browser(RouteResult::Fallback(fallback)) == (fallback.browser@, match fallback.profile {
            Some(p) => Some(p@),
            None => None,
        }),
{
}

/// A launch plan starts the browser and profile that the route names; when
/// the route is a rule, it falls back to the default browser and profile;
/// on macOS and Windows, whose launchers hand the link over and end, the
/// launch is confirmed by the launcher's exit status.
pub proof fn law_launch_plan(plan: LaunchPlan, os: TargetOs, config: &Config, route: RouteResult, url: Seq<char>)
    requires
        plans_route(plan, os, config, route, url),
    ensures
        plan.confirm_by_exit_status <==> (os == TargetOs::MacOs || os == TargetOs::Windows),
        route matches RouteResult::Matched(rule) ==> {
            &&& plan.browser@ == rule.target_browser@
            &&& plan.command.program@ == command_program(os, lowercase(rule.target_browser@), rule.target_browser@)
            &&& plan.command.arg_texts() == command_args(
                os,
                lowercase(rule.target_browser@),
                rule.target_browser@,
                match rule.target_profile {
                    Some(p) => Some(p@),
                    None => None,
                },
                url,
            )
            &&& plan.on_failure is Some
            &&& plan.on_failure->0.program@ == command_program(
                os,
                lowercase(config.default.browser@),
                config.default.browser@,
            )
            &&& plan.on_failure->0.arg_texts() == command_args(
                os,
                lowercase(config.default.browser@),
                config.default.browser@,
                match config.default.profile {
                    Some(p) => Some(p@),
                    None => None,
                },
                url,
            )
        },
        route matches RouteResult::Fallback(fallback) ==> {
            &&& plan.browser@ == fallback.browser@
            &&& plan.command.program@ == command_program(os, lowercase(fallback.browser@), fallback.browser@)
            &&& plan.command.arg_texts() == command_args(
                os,
                lowercase(fallback.browser@),
                fallback.browser@,
                match fallback.profile {
                    Some(p) => Some(p@),
                    None => None,
                },
                url,
            )
            &&& plan.on_failure is None
        },
{
}

/// The host that routing uses is the URL's host, or nothing at all for a
/// URL without one.
pub proof fn law_routing_domain_is_the_host(url: Seq<char>)
    ensures
        url_host(url) matches Some(h) ==> routing_domain(url) == h,
        url_host(url) is None ==> routing_domain(url).len() == 0,
{
}

} // verus!
