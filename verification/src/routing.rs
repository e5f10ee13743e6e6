//! Pattern rules that route applications to channels.

use vstd::prelude::*;
use vstd::string::StringExecFns;
use crate::strutil::str_eq;
use crate::strutil::str_starts_with;

verus! {

/// How a rule's pattern is matched against an application name.
#[derive(Debug, Clone, Copy, PartialEq, Eq, Structural)]
pub enum PatternType {
    /// Byte-equal, case-sensitive match.
    Exact,
    /// Case-sensitive prefix match.
    Prefix,
    /// Whole-string regular-expression match; a pattern that does not
    /// compile never matches.
    Regex,
}

/// Whether `regex::Regex::new` accepts `pattern` once it is wrapped in a
/// whole-string anchor group (with the default size limit). The outcome
/// depends on the pattern alone.
pub uninterp spec fn regex_compiles(pattern: Seq<char>) -> bool;

/// Whether the whole of `text` matches the compiled `pattern`: what
/// `regex::Regex::is_match` returns for the pattern wrapped in a
/// whole-string anchor group. The outcome depends on the pattern and the
/// text alone.
pub uninterp spec fn regex_matches(pattern: Seq<char>, text: Seq<char>) -> bool;

/// Relies on `regex::Regex::new` and `regex::Regex::is_match`. The pattern
/// is wrapped in a whole-string anchor group, so a hit means the entire
/// text matches the pattern, not merely some substring of it. The two
/// calls are kept in one trusted body so that the match result can be
/// stated as a function of the pattern: a `regex::Regex` value is opaque
/// here, so a contract on `is_match` alone could not soundly tie its
/// result back to the pattern the regex was built from. Returns `None`
/// exactly when the anchored pattern does not compile.
#[verifier::external_body]
fn regex_try_match(pattern: &str, text: &str) -> (r: Option<bool>)
    ensures
        r is Some <==> regex_compiles(pattern@),
        r matches Some(b) ==> b == regex_matches(pattern@, text@),
{
    match regex::Regex::new(&format!("^(?:{pattern})$")) {
        Ok(re) => Some(re.is_match(text)),
        Err(_) => None,
    }
}

/// A rule for routing applications to channels.
#[derive(Debug)]
pub struct RouteRule {
    /// Pattern to match against an application name.
    pub pattern: String,
    /// How the pattern is matched.
    pub pattern_type: PatternType,
    /// Target channel name.
    pub channel: String,
    /// Priority; higher priorities are matched first.
    pub priority: i32,
}

impl Clone for RouteRule {
    fn clone(&self) -> (r: Self)
        ensures
            r == *self,
    {
        RouteRule {
            pattern: self.pattern.clone(),
            pattern_type: self.pattern_type,
            channel: self.channel.clone(),
            priority: self.priority,
        }
    }
}

/// Whether `rule` matches the application name `name`.
pub open spec fn spec_rule_matches(rule: RouteRule, name: Seq<char>) -> bool {
    match rule.pattern_type {
        PatternType::Exact => name == rule.pattern@,
        PatternType::Prefix => rule.pattern@.is_prefix_of(name),
        PatternType::Regex => regex_compiles(rule.pattern@) && regex_matches(rule.pattern@, name),
    }
}

impl RouteRule {
    /// Build a rule from its parts.
    pub fn new(pattern: String, pattern_type: PatternType, channel: String, priority: i32) -> (r:
        Self)
        ensures
            r.pattern == pattern,
            r.pattern_type == pattern_type,
            r.channel == channel,
            r.priority == priority,
    {
        RouteRule { pattern, pattern_type, channel, priority }
    }

    /// Whether this rule matches an application name. A regex pattern
    /// must match the whole name; one that does not compile matches
    /// nothing, and is never an error.
    pub fn matches(&self, app_name: &str) -> (r: bool)
        ensures
            r == spec_rule_matches(*self, app_name@),
    {
        match self.pattern_type {
            PatternType::Exact => str_eq(app_name, self.pattern.as_str()),
            PatternType::Prefix => str_starts_with(app_name, self.pattern.as_str()),
            PatternType::Regex => match regex_try_match(self.pattern.as_str(), app_name) {
                Some(b) => b,
                None => false,
            },
        }
    }
}

/// An active application route.
#[derive(Debug)]
pub struct AppRoute {
    /// Graph client or node id.
    pub app_id: u32,
    /// Application name as reported by the audio server.
    pub app_name: String,
    /// Binary name, for persistent routing.
    pub binary_name: Option<String>,
    /// Process id.
    pub pid: Option<u32>,
    /// Channel the application is currently assigned to.
    pub channel: String,
    /// Whether this route is saved.
    pub is_persistent: bool,
}

impl Clone for AppRoute {
    fn clone(&self) -> (r: Self)
        ensures
            r == *self,
    {
        AppRoute {
            app_id: self.app_id,
            app_name: self.app_name.clone(),
            binary_name: match &self.binary_name {
                Some(s) => Some(s.clone()),
                None => None,
            },
            pid: self.pid,
            channel: self.channel.clone(),
            is_persistent: self.is_persistent,
        }
    }
}

/// Whether some rule in `rules` matches `name`.
pub open spec fn some_rule_matches(rules: Seq<RouteRule>, name: Seq<char>) -> bool {
    exists|i: int| 0 <= i < rules.len() && spec_rule_matches(#[trigger] rules[i], name)
}

/// Whether index `i` wins the match for `name`: the rule matches, and every
/// other matching rule either has lower priority or equal priority and a
/// later position. Evaluation is therefore highest-priority first, and stable
/// by insertion order among rules of equal priority.
pub open spec fn wins_match(rules: Seq<RouteRule>, name: Seq<char>, i: int) -> bool {
    &&& 0 <= i < rules.len()
    &&& spec_rule_matches(rules[i], name)
    &&& forall|j: int|
        0 <= j < rules.len() && spec_rule_matches(#[trigger] rules[j], name) ==> rules[j].priority
            < rules[i].priority || (rules[j].priority == rules[i].priority && i <= j)
}

/// Whether `ch` is the channel of the winning rule for `name`.
pub open spec fn routed_to(rules: Seq<RouteRule>, name: Seq<char>, ch: Seq<char>) -> bool {
    exists|i: int| #[trigger] wins_match(rules, name, i) && ch == rules[i].channel@
}

/// What `find_channel_for_app` returns: the winning rule's channel for the
/// application name; failing that, for the binary name; failing both, `system`.
pub open spec fn spec_route(
    rules: Seq<RouteRule>,
    app_name: Seq<char>,
    binary_name: Option<Seq<char>>,
    ch: Seq<char>,
) -> bool {
    if some_rule_matches(rules, app_name) {
        routed_to(rules, app_name, ch)
    } else if binary_name matches Some(b) && some_rule_matches(rules, b) {
        routed_to(rules, binary_name->0, ch)
    } else {
        ch == "system"@
    }
}

/// At most one index wins the match for a given name.
pub proof fn lemma_winner_unique(rules: Seq<RouteRule>, name: Seq<char>, i: int, j: int)
    requires
        wins_match(rules, name, i),
        wins_match(rules, name, j),
    ensures
        i == j,
{
}

/// Whether index `b` wins the match for `name` among the first `k` rules.
spec fn wins_prefix(rules: Seq<RouteRule>, name: Seq<char>, k: int, b: int) -> bool {
    &&& 0 <= b < k
    &&& spec_rule_matches(rules[b], name)
    &&& forall|j: int|
        0 <= j < k && spec_rule_matches(#[trigger] rules[j], name) ==> rules[j].priority
            < rules[b].priority || (rules[j].priority == rules[b].priority && b <= j)
}

/// Find the winning rule index for `name` in `rules`, if any rule matches.
fn find_winner(rules: &[RouteRule], name: &str) -> (r: Option<usize>)
    ensures
        r is None <==> !some_rule_matches(rules@, name@),
        r matches Some(i) ==> wins_match(rules@, name@, i as int),
{
    let mut best: Option<usize> = None;
    let n: usize = rules.len();
    let mut k: usize = 0;
    while k < n
        invariant
            n == rules@.len(),
            k <= n,
            best is None ==> forall|j: int|
                0 <= j < k ==> !spec_rule_matches(#[trigger] rules@[j], name@),
            best matches Some(b) ==> wins_prefix(rules@, name@, k as int, b as int),
        decreases n - k,
    {
        if rules[k].matches(name) {
            match best {
                None => {
                    best = Some(k);
                },
                Some(b) => {
                    if rules[k].priority > rules[b].priority {
                        best = Some(k);
                    }
                },
            }
        }
        k += 1;
    }
    best
}

/// Find the channel for an application.
///
/// The winning rule is the earliest-inserted rule of the highest priority
/// that matches the application name; if none matches the application name
/// and a binary name is given, the same search runs on the binary name;
/// otherwise the result is the `system` channel.
pub fn find_channel_for_app(app_name: &str, binary_name: Option<&str>, rules: &[RouteRule]) -> (r:
    String)
    ensures
        spec_route(
            rules@,
            app_name@,
            match binary_name {
                Some(b) => Some(b@),
                None => None,
            },
            r@,
        ),
{
    match find_winner(rules, app_name) {
        Some(i) => {
            return rules[i].channel.clone();
        },
        None => {},
    }
    match binary_name {
        Some(binary) => {
            match find_winner(rules, binary) {
                Some(i) => {
                    return rules[i].channel.clone();
                },
                None => {},
            }
        },
        None => {},
    }
    String::from_str("system")
}

/// Whether `rs` is exactly the seeded rule list for common applications.
pub open spec fn is_default_rules(rs: Seq<RouteRule>) -> bool {
    &&& rs.len() == 9
    &&& rs[0].pattern@ == "discord"@ && rs[0].pattern_type is Prefix && rs[0].channel@
        == "voice"@ && rs[0].priority == 100
    &&& rs[1].pattern@ == "zoom"@ && rs[1].pattern_type is Prefix && rs[1].channel@ == "voice"@
        && rs[1].priority == 100
    &&& rs[2].pattern@ == "teams"@ && rs[2].pattern_type is Prefix && rs[2].channel@ == "voice"@
        && rs[2].priority == 100
    &&& rs[3].pattern@ == "spotify"@ && rs[3].pattern_type is Exact && rs[3].channel@ == "music"@
        && rs[3].priority == 100
    &&& rs[4].pattern@ == "rhythmbox"@ && rs[4].pattern_type is Exact && rs[4].channel@
        == "music"@ && rs[4].priority == 100
    &&& rs[5].pattern@ == "firefox"@ && rs[5].pattern_type is Exact && rs[5].channel@
        == "browser"@ && rs[5].priority == 50
    &&& rs[6].pattern@ == "chromium"@ && rs[6].pattern_type is Prefix && rs[6].channel@
        == "browser"@ && rs[6].priority == 50
    &&& rs[7].pattern@ == "chrome"@ && rs[7].pattern_type is Prefix && rs[7].channel@
        == "browser"@ && rs[7].priority == 50
    &&& rs[8].pattern@ == "steam"@ && rs[8].pattern_type is Exact && rs[8].channel@ == "game"@
        && rs[8].priority == 100
}

/// The routing rules seeded for common applications.
pub fn default_routes() -> (r: Vec<RouteRule>)
    ensures
        is_default_rules(r@),
        r@.len() == 9,
        r@[0].pattern@ == "discord"@ && r@[0].pattern_type is Prefix && r@[0].channel@ == "voice"@
            && r@[0].priority == 100,
        r@[1].pattern@ == "zoom"@ && r@[1].pattern_type is Prefix && r@[1].channel@ == "voice"@
            && r@[1].priority == 100,
        r@[2].pattern@ == "teams"@ && r@[2].pattern_type is Prefix && r@[2].channel@ == "voice"@
            && r@[2].priority == 100,
        r@[3].pattern@ == "spotify"@ && r@[3].pattern_type is Exact && r@[3].channel@ == "music"@
            && r@[3].priority == 100,
        r@[4].pattern@ == "rhythmbox"@ && r@[4].pattern_type is Exact && r@[4].channel@
            == "music"@ && r@[4].priority == 100,
        r@[5].pattern@ == "firefox"@ && r@[5].pattern_type is Exact && r@[5].channel@
            == "browser"@ && r@[5].priority == 50,
        r@[6].pattern@ == "chromium"@ && r@[6].pattern_type is Prefix && r@[6].channel@
            == "browser"@ && r@[6].priority == 50,
        r@[7].pattern@ == "chrome"@ && r@[7].pattern_type is Prefix && r@[7].channel@
            == "browser"@ && r@[7].priority == 50,
        r@[8].pattern@ == "steam"@ && r@[8].pattern_type is Exact && r@[8].channel@ == "game"@
            && r@[8].priority == 100,
{
    let mut v: Vec<RouteRule> = Vec::new();
    v.push(rule_of("discord", PatternType::Prefix, "voice", 100));
    v.push(rule_of("zoom", PatternType::Prefix, "voice", 100));
    v.push(rule_of("teams", PatternType::Prefix, "voice", 100));
    v.push(rule_of("spotify", PatternType::Exact, "music", 100));
    v.push(rule_of("rhythmbox", PatternType::Exact, "music", 100));
    v.push(rule_of("firefox", PatternType::Exact, "browser", 50));
    v.push(rule_of("chromium", PatternType::Prefix, "browser", 50));
    v.push(rule_of("chrome", PatternType::Prefix, "browser", 50));
    v.push(rule_of("steam", PatternType::Exact, "game", 100));
    v
}

/// Law: the router answers `system` exactly when no rule matched either
/// the application name or the binary name — provided no rule targets
/// the `system` channel itself, since such a rule would make the two
/// indistinguishable.
pub proof fn lemma_route_system_iff_no_match(
    rules: Seq<RouteRule>,
    app: Seq<char>,
    binary: Option<Seq<char>>,
    ch: Seq<char>,
)
    requires
        spec_route(rules, app, binary, ch),
        forall|i: int| 0 <= i < rules.len() ==> (#[trigger] rules[i]).channel@ != "system"@,
    ensures
        (ch == "system"@) <==> (!some_rule_matches(rules, app) && (binary matches Some(b)
            ==> !some_rule_matches(rules, b))),
{
    if some_rule_matches(rules, app) {
        let i = choose|i: int| #[trigger] wins_match(rules, app, i) && ch == rules[i].channel@;
        assert(ch != "system"@);
    } else if binary is Some && some_rule_matches(rules, binary->0) {
        let b = binary->0;
        let i = choose|i: int| #[trigger] wins_match(rules, b, i) && ch == rules[i].channel@;
        assert(ch != "system"@);
    }
}

/// The winning index carries over an order-preserving renumbering: `f`
/// maps old positions to new ones, `g` inverts it, and rules of equal
/// priority keep their relative order.
proof fn lemma_winner_transfer(
    rules1: Seq<RouteRule>,
    rules2: Seq<RouteRule>,
    f: spec_fn(int) -> int,
    g: spec_fn(int) -> int,
    name: Seq<char>,
    i: int,
)
    requires
        rules1.len() == rules2.len(),
        forall|k: int|
            0 <= k < rules1.len() ==> 0 <= #[trigger] f(k) < rules1.len() && rules2[f(k)]
                == rules1[k],
        forall|j: int| 0 <= j < rules2.len() ==> 0 <= #[trigger] g(j) < rules1.len() && f(g(j))
            == j,
        forall|k: int| 0 <= k < rules1.len() ==> g(#[trigger] f(k)) == k,
        forall|a: int, b: int|
            #![trigger f(a), f(b)]
            0 <= a < b < rules1.len() && rules1[a].priority == rules1[b].priority ==> f(a) < f(b),
        wins_match(rules1, name, i),
    ensures
        wins_match(rules2, name, f(i)),
{
    assert(rules2[f(i)] == rules1[i]);
    assert forall|j2: int|
        0 <= j2 < rules2.len() && spec_rule_matches(#[trigger] rules2[j2], name) implies
        rules2[j2].priority < rules2[f(i)].priority || (rules2[j2].priority == rules2[
        f(i)].priority && f(i) <= j2) by {
        let i2 = g(j2);
        assert(rules2[f(i2)] == rules1[i2]);
        assert(rules2[j2] == rules1[i2]);
        if rules1[i2].priority == rules1[i].priority {
            if i < i2 {
                assert(f(i) < f(i2));
            } else if i2 < i {
                assert(f(i2) < f(i));
                assert(i <= i2);
            }
        }
    }
}

/// Law: rule evaluation is stable under re-ordering that keeps rules of
/// equal priority in their insertion order. Renumbering the rules with
/// such an order-preserving bijection leaves the routing result
/// unchanged.
pub proof fn lemma_route_stable_under_reorder(
    rules1: Seq<RouteRule>,
    rules2: Seq<RouteRule>,
    f: spec_fn(int) -> int,
    g: spec_fn(int) -> int,
    app: Seq<char>,
    binary: Option<Seq<char>>,
    ch: Seq<char>,
)
    requires
        rules1.len() == rules2.len(),
        forall|k: int|
            0 <= k < rules1.len() ==> 0 <= #[trigger] f(k) < rules1.len() && rules2[f(k)]
                == rules1[k],
        forall|j: int| 0 <= j < rules2.len() ==> 0 <= #[trigger] g(j) < rules1.len() && f(g(j))
            == j,
        forall|k: int| 0 <= k < rules1.len() ==> g(#[trigger] f(k)) == k,
        forall|a: int, b: int|
            #![trigger f(a), f(b)]
            0 <= a < b < rules1.len() && rules1[a].priority == rules1[b].priority ==> f(a) < f(b),
        spec_route(rules1, app, binary, ch),
    ensures
        spec_route(rules2, app, binary, ch),
{
    assert forall|name: Seq<char>| #[trigger] some_rule_matches(rules1, name) implies
        some_rule_matches(rules2, name) by {
        let k = choose|k: int| 0 <= k < rules1.len() && spec_rule_matches(#[trigger] rules1[k], name);
        assert(rules2[f(k)] == rules1[k]);
        assert(spec_rule_matches(rules2[f(k)], name));
    }
    assert forall|name: Seq<char>| #[trigger] some_rule_matches(rules2, name) implies
        some_rule_matches(rules1, name) by {
        let j = choose|j: int| 0 <= j < rules2.len() && spec_rule_matches(#[trigger] rules2[j], name);
        assert(rules2[f(g(j))] == rules1[g(j)]);
        assert(spec_rule_matches(rules1[g(j)], name));
    }
    if some_rule_matches(rules1, app) {
        let i = choose|i: int| #[trigger] wins_match(rules1, app, i) && ch == rules1[i].channel@;
        lemma_winner_transfer(rules1, rules2, f, g, app, i);
        assert(rules2[f(i)] == rules1[i]);
        assert(wins_match(rules2, app, f(i)) && ch == rules2[f(i)].channel@);
    } else if binary is Some && some_rule_matches(rules1, binary->0) {
        let b = binary->0;
        let i = choose|i: int| #[trigger] wins_match(rules1, b, i) && ch == rules1[i].channel@;
        lemma_winner_transfer(rules1, rules2, f, g, b, i);
        assert(rules2[f(i)] == rules1[i]);
        assert(wins_match(rules2, b, f(i)) && ch == rules2[f(i)].channel@);
    }
}

/// Build a rule from borrowed parts.
fn rule_of(pattern: &str, pattern_type: PatternType, channel: &str, priority: i32) -> (r:
    RouteRule)
    ensures
        r.pattern@ == pattern@,
        r.pattern_type == pattern_type,
        r.channel@ == channel@,
        r.priority == priority,
{
    RouteRule {
        pattern: String::from_str(pattern),
        pattern_type,
        channel: String::from_str(channel),
        priority,
    }
}

} // verus!
