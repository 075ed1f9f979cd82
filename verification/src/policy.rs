//! Policy loading, compilation, and tier matching.
//!
//! A policy document maps tool names to an enabled flag and a set of named
//! actions, each declaring a tier and a non-empty list of command patterns.
//! Compilation groups the patterns of each tool by tier (merging same-tier
//! actions), rejects empty pattern lists, and builds one pattern-set matcher
//! per tier, stored highest privilege first — which is what later realizes
//! "highest privilege wins" when a command matches several tiers.

use vstd::prelude::*;
use vstd::string::*;
use crate::error::CherubError;
use crate::tier::Tier;

verus! {

// ------------------------------------------------------------------
// Outside types carried through the compiled policy
// ------------------------------------------------------------------

#[verifier::external_type_specification]
#[verifier::external_body]
pub struct ExRegexSet(regex::RegexSet);

#[verifier::external_type_specification]
#[verifier::external_body]
pub struct ExTomlValue(toml::Value);

#[verifier::external_type_specification]
#[verifier::external_body]
#[verifier::reject_recursive_types(K)]
#[verifier::reject_recursive_types(V)]
pub struct ExTomlMap<K, V>(toml::map::Map<K, V>);

// ------------------------------------------------------------------
// Names for what the outside calls return
// ------------------------------------------------------------------

/// The patterns a compiled pattern set was built from.
pub uninterp spec fn regex_set_patterns(rs: regex::RegexSet) -> Seq<Seq<char>>;

/// Whether any of `patterns` matches `command`, under the regular-expression
/// semantics of the matcher. A function of the patterns and the command
/// alone, so matching is deterministic.
pub uninterp spec fn regex_match(patterns: Seq<Seq<char>>, command: Seq<char>) -> bool;

/// Whether the single regular expression `pattern` matches `command`.
pub uninterp spec fn regex_match_one(pattern: Seq<char>, command: Seq<char>) -> bool;

/// The reason compiling `patterns` into one pattern set fails, if it does:
/// a malformed pattern or an exceeded resource limit. Compilation under the
/// fixed flags is a function of the patterns alone, and so is its error
/// text.
pub uninterp spec fn regex_set_error(patterns: Seq<Seq<char>>) -> Option<Seq<char>>;

/// The reason parsing TOML text fails, if it does. The parser is a function
/// of the text alone, and so is its error text.
pub uninterp spec fn toml_parse_error(text: Seq<char>) -> Option<Seq<char>>;

/// The top-level table that parsing the text yields; meaningful only when
/// parsing succeeds.
pub uninterp spec fn toml_parsed_table(text: Seq<char>) -> toml::map::Map<String, toml::Value>;

/// The entry a parsed table holds at a key, if any.
pub uninterp spec fn toml_entry(
    table: toml::map::Map<String, toml::Value>,
    key: Seq<char>,
) -> Option<toml::Value>;

/// The boolean a parsed TOML value holds, when it is a boolean.
pub uninterp spec fn toml_bool_of(value: toml::Value) -> Option<bool>;

/// The text a parsed TOML value holds, when it is a string.
pub uninterp spec fn toml_str_of(value: toml::Value) -> Option<Seq<char>>;

/// The elements a parsed TOML value holds, when it is an array.
pub uninterp spec fn toml_array_of(value: toml::Value) -> Option<Seq<toml::Value>>;

/// The table a parsed TOML value holds, when it is a table.
pub uninterp spec fn toml_table_of(value: toml::Value) -> Option<
    toml::map::Map<String, toml::Value>,
>;


/// The keys of a parsed TOML table, one per entry.
pub uninterp spec fn toml_keys(table: toml::map::Map<String, toml::Value>) -> Seq<Seq<char>>;

// ------------------------------------------------------------------
// Trusted wrappers around the outside calls
// ------------------------------------------------------------------

/// Relies on regex::RegexSetBuilder::build, with Unicode classes disabled, a
/// 1 MiB compiled-size limit and a nesting-depth limit of 50 to bound the
/// cost of compiling a hostile policy: success is a function of the
/// patterns alone; on success the set holds exactly the given patterns; on
/// failure the error text names the malformed pattern.
#[verifier::external_body]
fn build_regex_set(patterns: &Vec<String>) -> (r: Result<regex::RegexSet, String>)
    ensures
        r matches Ok(rs) ==> regex_set_patterns(rs) == patterns.deep_view() && regex_set_error(
            patterns.deep_view(),
        ) is None,
        r matches Err(detail) ==> regex_set_error(patterns.deep_view()) == Some(detail@),
{
    regex::RegexSetBuilder::new(patterns.iter())
        .size_limit(1 << 20)
        .nest_limit(50)
        .unicode(false)
        .build()
        .map_err(|e| e.to_string())
}

/// Relies on regex::RegexSet::is_match, documented to return true if and
/// only if at least one of the set's regexes matches the haystack: the
/// result is a function of the compiled patterns and the haystack alone,
/// and distributes as a union over the individual patterns.
#[verifier::external_body]
fn regex_set_is_match(rs: &regex::RegexSet, command: &str) -> (r: bool)
    ensures
        r == regex_match(regex_set_patterns(*rs), command@),
        r == (exists|i: int| 0 <= i < regex_set_patterns(*rs).len() && #[trigger] regex_match_one(regex_set_patterns(*rs)[i], command@)),
{
    rs.is_match(command)
}

/// Relies on toml::from_str for toml::Table: parses TOML text into its
/// top-level table, or reports the syntax problem in the error text.
/// Parsing is a function of the text alone.
#[verifier::external_body]
fn parse_toml_table(text: &str) -> (r: Result<toml::map::Map<String, toml::Value>, String>)
    ensures
        r is Ok == (toml_parse_error(text@) is None),
        r matches Ok(t) ==> t == toml_parsed_table(text@),
        r matches Err(detail) ==> toml_parse_error(text@) == Some(detail@),
{
    toml::from_str::<toml::Table>(text).map_err(|e| e.to_string())
}

/// Relies on toml::map::Map::keys: every key of the table, each exactly
/// once — a table holds each key at most once.
#[verifier::external_body]
fn toml_table_keys(table: &toml::map::Map<String, toml::Value>) -> (r: Vec<String>)
    ensures
        r.deep_view() == toml_keys(*table),
        forall|i: int, j: int|
            0 <= i < j < r.deep_view().len() ==> r.deep_view()[i] != r.deep_view()[j],
{
    table.keys().cloned().collect()
}

/// Relies on toml::map::Map::get: returns the entry for `key` exactly when
/// the table holds that key; the entry is a function of the table and the
/// key alone.
#[verifier::external_body]
fn toml_table_get<'a>(
    table: &'a toml::map::Map<String, toml::Value>,
    key: &str,
) -> (r: Option<&'a toml::Value>)
    ensures
        r is Some == toml_keys(*table).contains(key@),
        r is Some == (toml_entry(*table, key@) is Some),
        r matches Some(v) ==> toml_entry(*table, key@) == Some(*v),
{
    table.get(key)
}

/// Relies on toml::Value::as_bool: the boolean the value holds, Some
/// exactly for a TOML boolean; a function of the value alone.
#[verifier::external_body]
fn toml_as_bool(value: &toml::Value) -> (r: Option<bool>)
    ensures
        r == toml_bool_of(*value),
{
    value.as_bool()
}

/// Relies on toml::Value::as_str: the text the value holds, Some exactly
/// for a TOML string; a function of the value alone.
#[verifier::external_body]
fn toml_as_str(value: &toml::Value) -> (r: Option<String>)
    ensures
        r.deep_view() == toml_str_of(*value),
{
    value.as_str().map(|s| s.to_owned())
}

/// Relies on toml::Value::as_array: the elements the value holds, Some
/// exactly for a TOML array; a function of the value alone.
#[verifier::external_body]
fn toml_as_array<'a>(value: &'a toml::Value) -> (r: Option<&'a Vec<toml::Value>>)
    ensures
        r is Some == (toml_array_of(*value) is Some),
        r matches Some(a) ==> toml_array_of(*value) == Some(a@),
{
    value.as_array()
}

/// Relies on toml::Value::as_table: the table the value holds, Some exactly
/// for a TOML table; a function of the value alone.
#[verifier::external_body]
fn toml_as_table<'a>(
    value: &'a toml::Value,
) -> (r: Option<&'a toml::map::Map<String, toml::Value>>)
    ensures
        r is Some == (toml_table_of(*value) is Some),
        r matches Some(t) ==> toml_table_of(*value) == Some(*t),
{
    value.as_table()
}

// ------------------------------------------------------------------
// String helpers
// ------------------------------------------------------------------

/// Exact, case-sensitive string comparison.
fn str_eq(a: &str, b: &str) -> (r: bool)
    ensures
        r == (a@ == b@),
{
    let sa = a.to_owned();
    let sb = b.to_owned();
    sa == sb
}

// ------------------------------------------------------------------
// The raw policy model: a parsed document as plain values
// ------------------------------------------------------------------

/// One action from a policy document: a named pattern list at a tier.
pub struct RawAction {
    pub name: String,
    pub tier: Tier,
    pub patterns: Vec<String>,
}

pub ghost struct RawActionView {
    pub name: Seq<char>,
    pub tier: Tier,
    pub patterns: Seq<Seq<char>>,
}

impl View for RawAction {
    type V = RawActionView;

    open spec fn view(&self) -> RawActionView {
        RawActionView { name: self.name@, tier: self.tier, patterns: self.patterns.deep_view() }
    }
}

/// One tool entry from a policy document.
pub struct RawTool {
    pub name: String,
    pub enabled: bool,
    pub actions: Vec<RawAction>,
}

pub ghost struct RawToolView {
    pub name: Seq<char>,
    pub enabled: bool,
    pub actions: Seq<RawActionView>,
}

impl View for RawTool {
    type V = RawToolView;

    open spec fn view(&self) -> RawToolView {
        RawToolView {
            name: self.name@,
            enabled: self.enabled,
            actions: self.actions@.map_values(|a: RawAction| a@),
        }
    }
}

/// The case-sensitive tier names a policy document may use.
pub open spec fn spec_tier_from_name(s: Seq<char>) -> Option<Tier> {
    if s == "observe"@ {
        Some(Tier::Observe)
    } else if s == "act"@ {
        Some(Tier::Act)
    } else if s == "commit"@ {
        Some(Tier::Commit)
    } else {
        None
    }
}

/// Parse a declared tier name; tier names are case-sensitive lowercase, and
/// any other value is invalid.
pub fn tier_from_name(s: &str) -> (r: Option<Tier>)
    ensures
        r == spec_tier_from_name(s@),
{
    if str_eq(s, "observe") {
        Some(Tier::Observe)
    } else if str_eq(s, "act") {
        Some(Tier::Act)
    } else if str_eq(s, "commit") {
        Some(Tier::Commit)
    } else {
        None
    }
}

// ------------------------------------------------------------------
// The compiled policy model
// ------------------------------------------------------------------

/// A tier paired with its compiled pattern set.
#[derive(Debug)]
struct CompiledTier {
    tier: Tier,
    patterns: regex::RegexSet,
}

pub ghost struct TierView {
    pub tier: Tier,
    pub patterns: Seq<Seq<char>>,
}

impl View for CompiledTier {
    type V = TierView;

    closed spec fn view(&self) -> TierView {
        TierView { tier: self.tier, patterns: regex_set_patterns(self.patterns) }
    }
}

/// A tool's compiled matcher: its tier entries are stored highest privilege
/// first (Commit, Act, Observe), each holding a non-empty pattern set.
#[derive(Debug)]
pub struct CompiledTool {
    name: String,
    enabled: bool,
    tiers: Vec<CompiledTier>,
}

pub ghost struct ToolView {
    pub name: Seq<char>,
    pub enabled: bool,
    pub tiers: Seq<TierView>,
}

impl View for CompiledTool {
    type V = ToolView;

    closed spec fn view(&self) -> ToolView {
        ToolView {
            name: self.name@,
            enabled: self.enabled,
            tiers: self.tiers@.map_values(|t: CompiledTier| t@),
        }
    }
}

/// An immutable, compiled policy: one compiled matcher per declared tool.
#[derive(Debug)]
pub struct Policy {
    tools: Vec<CompiledTool>,
}

impl View for Policy {
    type V = Seq<ToolView>;

    closed spec fn view(&self) -> Seq<ToolView> {
        self.tools@.map_values(|t: CompiledTool| t@)
    }
}

/// Well-formedness of a compiled tool: tier entries in strictly descending
/// privilege order (so each tier appears at most once) and no empty pattern
/// set.
pub open spec fn tool_wf(t: ToolView) -> bool {
    &&& forall|i: int, j: int|
        0 <= i < j < t.tiers.len() ==> t.tiers[i].tier.rank() > t.tiers[j].tier.rank()
    &&& forall|i: int| 0 <= i < t.tiers.len() ==> t.tiers[i].patterns.len() > 0
}

/// Well-formedness of a whole policy.
pub open spec fn policy_wf(tools: Seq<ToolView>) -> bool {
    forall|i: int| 0 <= i < tools.len() ==> tool_wf(#[trigger] tools[i])
}

// ------------------------------------------------------------------
// Matching
// ------------------------------------------------------------------

/// The tier of the first entry whose pattern set matches the command. Tier
/// entries are stored highest privilege first, so the first match is the
/// highest-privilege match.
pub open spec fn spec_match_tier(tiers: Seq<TierView>, command: Seq<char>) -> Option<Tier>
    decreases tiers.len(),
{
    if tiers.len() == 0 {
        None
    } else if regex_match(tiers[0].patterns, command) {
        Some(tiers[0].tier)
    } else {
        spec_match_tier(tiers.drop_first(), command)
    }
}

/// The first declared tool carrying the name.
pub open spec fn spec_find_tool(tools: Seq<ToolView>, name: Seq<char>) -> Option<ToolView>
    decreases tools.len(),
{
    if tools.len() == 0 {
        None
    } else if tools[0].name == name {
        Some(tools[0])
    } else {
        spec_find_tool(tools.drop_first(), name)
    }
}

// ------------------------------------------------------------------
// Compilation: from a raw document to a compiled policy
// ------------------------------------------------------------------

/// The patterns declared for tier `t`, merged across a tool's actions in
/// declaration order: the effective pattern set for a tier is the union
/// across the actions sharing it.
pub open spec fn merged_patterns(actions: Seq<RawActionView>, t: Tier) -> Seq<Seq<char>>
    decreases actions.len(),
{
    if actions.len() == 0 {
        Seq::empty()
    } else {
        (if actions[0].tier == t {
            actions[0].patterns
        } else {
            Seq::empty()
        }) + merged_patterns(actions.drop_first(), t)
    }
}

/// A compiled tier entry for `t`, present only when some pattern was
/// collected at that tier.
pub open spec fn tier_entry(t: Tier, pats: Seq<Seq<char>>) -> Seq<TierView> {
    if pats.len() > 0 {
        seq![TierView { tier: t, patterns: pats }]
    } else {
        Seq::empty()
    }
}

/// The compiled tier entries of a tool: highest privilege first, with an
/// entry only for the tiers that collected at least one pattern.
pub open spec fn expected_tiers(actions: Seq<RawActionView>) -> Seq<TierView> {
    tier_entry(Tier::Commit, merged_patterns(actions, Tier::Commit)) + tier_entry(
        Tier::Act,
        merged_patterns(actions, Tier::Act),
    ) + tier_entry(Tier::Observe, merged_patterns(actions, Tier::Observe))
}

/// What compiling a raw tool yields on success.
pub open spec fn compiled_view(raw: RawToolView) -> ToolView {
    ToolView { name: raw.name, enabled: raw.enabled, tiers: expected_tiers(raw.actions) }
}

/// The validation message for the first action with an empty pattern list,
/// if any: an action with zero patterns is a configuration error.
pub open spec fn empty_action_error(tool: Seq<char>, actions: Seq<RawActionView>) -> Option<
    Seq<char>,
>
    decreases actions.len(),
{
    if actions.len() == 0 {
        None
    } else if actions[0].patterns.len() == 0 {
        Some(spec_empty_patterns_message(tool, actions[0].name))
    } else {
        empty_action_error(tool, actions.drop_first())
    }
}

pub open spec fn spec_empty_patterns_message(tool: Seq<char>, action: Seq<char>) -> Seq<char> {
    "tool '"@ + tool + "', action '"@ + action + "': patterns must not be empty"@
}

pub open spec fn spec_pattern_error_message(tool: Seq<char>, tier: Tier, detail: Seq<char>) -> Seq<
    char,
> {
    "tool '"@ + tool + "', tier '"@ + spec_tier_label(tier) + "': "@ + detail
}

pub open spec fn spec_tier_label(t: Tier) -> Seq<char> {
    match t {
        Tier::Observe => "Observe"@,
        Tier::Act => "Act"@,
        Tier::Commit => "Commit"@,
    }
}

/// The compile error of one tier's merged pattern list, if any: a tier
/// that collected no patterns builds nothing and cannot fail.
pub open spec fn tier_build_error(actions: Seq<RawActionView>, t: Tier) -> Option<Seq<char>> {
    if merged_patterns(actions, t).len() > 0 {
        regex_set_error(merged_patterns(actions, t))
    } else {
        None
    }
}

/// The validation message compiling one raw tool produces, if it fails: the
/// first action with an empty pattern list, else the first tier whose
/// merged patterns do not compile, in the order Commit, Act, Observe.
pub open spec fn spec_compile_tool_error(raw: RawToolView) -> Option<Seq<char>> {
    match empty_action_error(raw.name, raw.actions) {
        Some(m) => Some(m),
        None => match tier_build_error(raw.actions, Tier::Commit) {
            Some(d) => Some(spec_pattern_error_message(raw.name, Tier::Commit, d)),
            None => match tier_build_error(raw.actions, Tier::Act) {
                Some(d) => Some(spec_pattern_error_message(raw.name, Tier::Act, d)),
                None => match tier_build_error(raw.actions, Tier::Observe) {
                    Some(d) => Some(spec_pattern_error_message(raw.name, Tier::Observe, d)),
                    None => None,
                },
            },
        },
    }
}

fn tier_label(t: Tier) -> (r: &'static str)
    ensures
        r@ == spec_tier_label(t),
{
    match t {
        Tier::Observe => "Observe",
        Tier::Act => "Act",
        Tier::Commit => "Commit",
    }
}

fn empty_patterns_message(tool: &str, action: &str) -> (r: String)
    ensures
        r@ == spec_empty_patterns_message(tool@, action@),
{
    let mut s = "tool '".to_owned();
    s.append(tool);
    s.append("', action '");
    s.append(action);
    s.append("': patterns must not be empty");
    proof {
        assert(s@ =~= spec_empty_patterns_message(tool@, action@));
    }
    s
}

fn pattern_error_message(tool: &str, tier: Tier, detail: &str) -> (r: String)
    ensures
        r@ == spec_pattern_error_message(tool@, tier, detail@),
{
    let mut s = "tool '".to_owned();
    s.append(tool);
    s.append("', tier '");
    s.append(tier_label(tier));
    s.append("': ");
    s.append(detail);
    proof {
        assert(s@ =~= spec_pattern_error_message(tool@, tier, detail@));
    }
    s
}

/// Append clones of every element of `src` to `dst`.
fn append_all(dst: &mut Vec<String>, src: &Vec<String>)
    ensures
        final(dst).deep_view() == old(dst).deep_view() + src.deep_view(),
{
    let mut j: usize = 0;
    proof {
        assert(dst@ =~= old(dst)@ + src@.take(0));
    }
    while j < src.len()
        invariant
            j <= src.len(),
            dst@ == old(dst)@ + src@.take(j as int),
        decreases src.len() - j,
    {
        dst.push(src[j].clone());
        proof {
            assert(dst@ =~= old(dst)@ + src@.take(j as int + 1));
        }
        j = j + 1;
    }
    proof {
        assert(src@.take(src.len() as int) =~= src@);
        assert(dst@ == old(dst)@ + src@);
        assert forall|k: int| 0 <= k < dst.deep_view().len() implies dst.deep_view()[k] == (old(
            dst,
        ).deep_view() + src.deep_view())[k] by {
            assert(dst@[k] == (old(dst)@ + src@)[k]);
        }
        assert(dst.deep_view() =~= old(dst).deep_view() + src.deep_view());
    }
}

proof fn lemma_merged_push(actions: Seq<RawActionView>, a: RawActionView, t: Tier)
    ensures
        merged_patterns(actions.push(a), t) == merged_patterns(actions, t) + (if a.tier == t {
            a.patterns
        } else {
            Seq::<Seq<char>>::empty()
        }),
    decreases actions.len(),
{
    let tail = if a.tier == t {
        a.patterns
    } else {
        Seq::<Seq<char>>::empty()
    };
    if actions.len() == 0 {
        assert(actions.push(a)[0] == a);
        assert(actions.push(a).drop_first() =~= Seq::<RawActionView>::empty());
        assert(merged_patterns(actions.push(a), t) == tail + merged_patterns(
            Seq::<RawActionView>::empty(),
            t,
        ));
        assert(merged_patterns(actions.push(a), t) =~= merged_patterns(actions, t) + tail);
    } else {
        let head = if actions[0].tier == t {
            actions[0].patterns
        } else {
            Seq::<Seq<char>>::empty()
        };
        assert(actions.push(a)[0] == actions[0]);
        assert(actions.push(a).drop_first() =~= actions.drop_first().push(a));
        assert(merged_patterns(actions, t) == head + merged_patterns(actions.drop_first(), t));
        assert(merged_patterns(actions.push(a), t) == head + merged_patterns(
            actions.drop_first().push(a),
            t,
        ));
        lemma_merged_push(actions.drop_first(), a, t);
        assert(merged_patterns(actions.push(a), t) =~= merged_patterns(actions, t) + tail);
    }
}

proof fn lemma_empty_error_push(tool: Seq<char>, actions: Seq<RawActionView>, a: RawActionView)
    requires
        empty_action_error(tool, actions) is None,
    ensures
        empty_action_error(tool, actions.push(a)) == (if a.patterns.len() == 0 {
            Some(spec_empty_patterns_message(tool, a.name))
        } else {
            Option::<Seq<char>>::None
        }),
    decreases actions.len(),
{
    if actions.len() == 0 {
        assert(actions.push(a)[0] == a);
        assert(actions.push(a).drop_first() =~= Seq::<RawActionView>::empty());
    } else {
        assert(actions.push(a)[0] == actions[0]);
        assert(actions.push(a).drop_first() =~= actions.drop_first().push(a));
        lemma_empty_error_push(tool, actions.drop_first(), a);
    }
}

/// A validation message that names the tool and either the offending
/// action (empty pattern list) or the offending tier (pattern compile
/// failure) — the only two shapes policy validation ever produces.
pub open spec fn names_tool_and_cause(m: Seq<char>) -> bool {
    (exists|tool: Seq<char>, action: Seq<char>|
        m == #[trigger] spec_empty_patterns_message(tool, action)) || (exists|
        tool: Seq<char>,
        t: Tier,
        d: Seq<char>,
    |
        m == #[trigger] spec_pattern_error_message(tool, t, d))
}

proof fn lemma_empty_error_shape(tool: Seq<char>, actions: Seq<RawActionView>)
    ensures
        empty_action_error(tool, actions) matches Some(m) ==> names_tool_and_cause(m),
    decreases actions.len(),
{
    if actions.len() == 0 {
    } else if actions[0].patterns.len() == 0 {
        let m = spec_empty_patterns_message(tool, actions[0].name);
        assert(m == spec_empty_patterns_message(tool, actions[0].name));
        assert(names_tool_and_cause(m));
    } else {
        lemma_empty_error_shape(tool, actions.drop_first());
    }
}

proof fn lemma_tool_error_shape(raw: RawToolView)
    ensures
        spec_compile_tool_error(raw) matches Some(m) ==> names_tool_and_cause(m),
{
    lemma_empty_error_shape(raw.name, raw.actions);
    if empty_action_error(raw.name, raw.actions) is None {
        if tier_build_error(raw.actions, Tier::Commit) is Some {
            let d = tier_build_error(raw.actions, Tier::Commit)->Some_0;
            assert(spec_compile_tool_error(raw)->Some_0 == spec_pattern_error_message(
                raw.name,
                Tier::Commit,
                d,
            ));
        } else if tier_build_error(raw.actions, Tier::Act) is Some {
            let d = tier_build_error(raw.actions, Tier::Act)->Some_0;
            assert(spec_compile_tool_error(raw)->Some_0 == spec_pattern_error_message(
                raw.name,
                Tier::Act,
                d,
            ));
        } else if tier_build_error(raw.actions, Tier::Observe) is Some {
            let d = tier_build_error(raw.actions, Tier::Observe)->Some_0;
            assert(spec_compile_tool_error(raw)->Some_0 == spec_pattern_error_message(
                raw.name,
                Tier::Observe,
                d,
            ));
        }
    }
}

/// Every validation message a document compilation can produce names the
/// tool and the offending action or tier.
pub proof fn lemma_validation_message_shape(raws: Seq<RawToolView>)
    ensures
        spec_compile_tools_error(raws) matches Some(m) ==> names_tool_and_cause(m),
    decreases raws.len(),
{
    if raws.len() == 0 {
    } else if spec_compile_tool_error(raws[0]) is Some {
        lemma_tool_error_shape(raws[0]);
    } else {
        lemma_validation_message_shape(raws.drop_first());
    }
}

/// Compile one tool entry: group the declared actions' patterns by tier
/// (merging actions that share a tier), reject any action with an empty
/// pattern list, and build one pattern-set matcher per collected tier,
/// stored highest privilege first.
pub fn compile_tool(raw: &RawTool) -> (r: Result<CompiledTool, CherubError>)
    ensures
        r is Ok == (spec_compile_tool_error(raw@) is None),
        r matches Ok(t) ==> t@ == compiled_view(raw@),
        r matches Err(e) ==> (spec_compile_tool_error(raw@) matches Some(m) && e
            matches CherubError::PolicyValidation(s) && s@ == m),
{
    let ghost acts = raw@.actions;
    let mut commit_pats: Vec<String> = Vec::new();
    let mut act_pats: Vec<String> = Vec::new();
    let mut observe_pats: Vec<String> = Vec::new();
    let mut i: usize = 0;
    proof {
        assert(acts.take(0) =~= Seq::<RawActionView>::empty());
    }
    while i < raw.actions.len()
        invariant
            i <= raw.actions.len(),
            acts == raw@.actions,
            acts.len() == raw.actions.len(),
            commit_pats.deep_view() == merged_patterns(acts.take(i as int), Tier::Commit),
            act_pats.deep_view() == merged_patterns(acts.take(i as int), Tier::Act),
            observe_pats.deep_view() == merged_patterns(acts.take(i as int), Tier::Observe),
            empty_action_error(raw@.name, acts.take(i as int)) is None,
        decreases raw.actions.len() - i,
    {
        let action = &raw.actions[i];
        proof {
            assert(acts[i as int] == raw.actions@.map_values(|a: RawAction| a@)[i as int]);
            assert(acts.take(i as int).push(acts[i as int]) =~= acts.take(i as int + 1));
        }
        if action.patterns.len() == 0 {
            proof {
                lemma_empty_error_push(raw@.name, acts.take(i as int), acts[i as int]);
                lemma_empty_error_prefix(raw@.name, acts, i as int + 1);
            }
            return Err(
                CherubError::PolicyValidation(
                    empty_patterns_message(raw.name.as_str(), action.name.as_str()),
                ),
            );
        }
        proof {
            lemma_empty_error_push(raw@.name, acts.take(i as int), acts[i as int]);
            lemma_merged_push(acts.take(i as int), acts[i as int], Tier::Commit);
            lemma_merged_push(acts.take(i as int), acts[i as int], Tier::Act);
            lemma_merged_push(acts.take(i as int), acts[i as int], Tier::Observe);
        }
        match action.tier {
            Tier::Commit => append_all(&mut commit_pats, &action.patterns),
            Tier::Act => append_all(&mut act_pats, &action.patterns),
            Tier::Observe => append_all(&mut observe_pats, &action.patterns),
        }
        proof {
            assert(commit_pats.deep_view() =~= merged_patterns(acts.take(i as int + 1), Tier::Commit));
            assert(act_pats.deep_view() =~= merged_patterns(acts.take(i as int + 1), Tier::Act));
            assert(observe_pats.deep_view() =~= merged_patterns(acts.take(i as int + 1), Tier::Observe));
        }
        i = i + 1;
    }
    proof {
        assert(acts.take(acts.len() as int) =~= acts);
    }
    // Build each collected tier's matcher, highest privilege first.
    let mut tiers: Vec<CompiledTier> = Vec::new();
    if commit_pats.len() > 0 {
        match build_regex_set(&commit_pats) {
            Ok(rs) => tiers.push(CompiledTier { tier: Tier::Commit, patterns: rs }),
            Err(detail) => {
                return Err(
                    CherubError::PolicyValidation(
                        pattern_error_message(raw.name.as_str(), Tier::Commit, detail.as_str()),
                    ),
                );
            },
        }
    }
    if act_pats.len() > 0 {
        match build_regex_set(&act_pats) {
            Ok(rs) => tiers.push(CompiledTier { tier: Tier::Act, patterns: rs }),
            Err(detail) => {
                return Err(
                    CherubError::PolicyValidation(
                        pattern_error_message(raw.name.as_str(), Tier::Act, detail.as_str()),
                    ),
                );
            },
        }
    }
    if observe_pats.len() > 0 {
        match build_regex_set(&observe_pats) {
            Ok(rs) => tiers.push(CompiledTier { tier: Tier::Observe, patterns: rs }),
            Err(detail) => {
                return Err(
                    CherubError::PolicyValidation(
                        pattern_error_message(raw.name.as_str(), Tier::Observe, detail.as_str()),
                    ),
                );
            },
        }
    }
    let result = CompiledTool { name: raw.name.clone(), enabled: raw.enabled, tiers };
    proof {
        assert(result@.tiers =~= expected_tiers(acts));
    }
    Ok(result)
}

proof fn lemma_empty_error_prefix(tool: Seq<char>, actions: Seq<RawActionView>, i: int)
    requires
        0 <= i <= actions.len(),
        empty_action_error(tool, actions.take(i)) is Some,
    ensures
        empty_action_error(tool, actions) == empty_action_error(tool, actions.take(i)),
    decreases i,
{
    if actions.len() == 0 {
    } else if actions.take(i)[0].patterns.len() == 0 {
        assert(actions.take(i)[0] == actions[0]);
    } else {
        assert(actions.take(i)[0] == actions[0]);
        assert(actions.take(i).drop_first() =~= actions.drop_first().take(i - 1));
        lemma_empty_error_prefix(tool, actions.drop_first(), i - 1);
    }
}

/// The views of a vector of raw tools.
pub open spec fn raw_views(raws: Seq<RawTool>) -> Seq<RawToolView> {
    raws.map_values(|rt: RawTool| rt@)
}

/// What compiling a raw document yields on success: one compiled tool per
/// raw tool, in order.
pub open spec fn compiled_views(raws: Seq<RawToolView>) -> Seq<ToolView> {
    raws.map_values(|rv: RawToolView| compiled_view(rv))
}

/// Every successfully compiled tool is well-formed: its tier entries stand
/// in strictly descending privilege order — so each tier appears at most
/// once — and none holds an empty pattern set.
pub proof fn lemma_compiled_tool_wf(raw: RawToolView)
    ensures
        tool_wf(compiled_view(raw)),
{
    let c = tier_entry(Tier::Commit, merged_patterns(raw.actions, Tier::Commit));
    let a = tier_entry(Tier::Act, merged_patterns(raw.actions, Tier::Act));
    let o = tier_entry(Tier::Observe, merged_patterns(raw.actions, Tier::Observe));
    let tiers = compiled_view(raw).tiers;
    assert(tiers == c + a + o);
    assert forall|i: int| 0 <= i < tiers.len() implies #[trigger] tiers[i].patterns.len() > 0
        && (i < c.len() ==> tiers[i].tier == Tier::Commit) && (c.len() <= i < c.len() + a.len()
        ==> tiers[i].tier == Tier::Act) && (c.len() + a.len() <= i ==> tiers[i].tier
        == Tier::Observe) by {
        if i < c.len() {
            assert(tiers[i] == c[i]);
        } else if i < c.len() + a.len() {
            assert(tiers[i] == a[i - c.len()]);
        } else {
            assert(tiers[i] == o[i - c.len() - a.len()]);
        }
    }
    assert forall|i: int, j: int| 0 <= i < j < tiers.len() implies tiers[i].tier.rank()
        > tiers[j].tier.rank() by {
        assert(tiers[i].patterns.len() > 0);
        assert(tiers[j].patterns.len() > 0);
    }
}

/// The validation message compiling a raw document produces, if it fails:
/// the first tool that does not compile, in declaration order.
pub open spec fn spec_compile_tools_error(raws: Seq<RawToolView>) -> Option<Seq<char>>
    decreases raws.len(),
{
    if raws.len() == 0 {
        None
    } else if spec_compile_tool_error(raws[0]) is Some {
        spec_compile_tool_error(raws[0])
    } else {
        spec_compile_tools_error(raws.drop_first())
    }
}

/// Compile every tool entry of a raw document, in order, stopping at the
/// first invalid one.
pub fn compile_tools(raws: &Vec<RawTool>) -> (r: Result<Vec<CompiledTool>, CherubError>)
    ensures
        r is Ok == (spec_compile_tools_error(raw_views(raws@)) is None),
        r matches Ok(ts) ==> ts@.map_values(|t: CompiledTool| t@) == compiled_views(
            raw_views(raws@),
        ),
        r matches Err(e) ==> (spec_compile_tools_error(raw_views(raws@)) matches Some(m) && e
            matches CherubError::PolicyValidation(s) && s@ == m),
{
    let ghost rvs = raw_views(raws@);
    let mut out: Vec<CompiledTool> = Vec::new();
    let mut i: usize = 0;
    proof {
        assert(out@.map_values(|t: CompiledTool| t@) =~= compiled_views(rvs).take(0));
        assert(rvs.skip(0) =~= rvs);
    }
    while i < raws.len()
        invariant
            i <= raws.len(),
            rvs == raw_views(raws@),
            rvs.len() == raws.len(),
            out@.len() == i,
            out@.map_values(|t: CompiledTool| t@) == compiled_views(rvs).take(i as int),
            spec_compile_tools_error(rvs) == spec_compile_tools_error(rvs.skip(i as int)),
        decreases raws.len() - i,
    {
        proof {
            assert(rvs[i as int] == raws@[i as int]@);
            assert(rvs.skip(i as int)[0] == rvs[i as int]);
        }
        match compile_tool(&raws[i]) {
            Ok(t) => {
                out.push(t);
                proof {
                    assert(out@.map_values(|t: CompiledTool| t@) =~= compiled_views(rvs).take(
                        i as int + 1,
                    ));
                    assert(rvs.skip(i as int).drop_first() =~= rvs.skip(i as int + 1));
                }
            },
            Err(e) => {
                return Err(e);
            },
        }
        i = i + 1;
    }
    proof {
        assert(compiled_views(rvs).take(raws@.len() as int) =~= compiled_views(rvs));
        assert(rvs.skip(i as int).len() == 0);
    }
    Ok(out)
}

// ------------------------------------------------------------------
// Document extraction: from parsed TOML to the raw policy model
// ------------------------------------------------------------------

/// Concatenate three text pieces into one message.
fn field_message(before: &str, name: &str, after: &str) -> (r: String) {
    let mut s = before.to_owned();
    s.append(name);
    s.append(after);
    s
}

// ------------------------------------------------------------------
// The document schema, as spec functions over the parsed-TOML names
// ------------------------------------------------------------------

/// A policy document's only top-level key is `tools`.
pub open spec fn root_keys_ok(keys: Seq<Seq<char>>) -> bool {
    forall|i: int| 0 <= i < keys.len() ==> #[trigger] keys[i] == "tools"@
}

/// A tool table may hold only `enabled` and `actions`.
pub open spec fn tool_keys_ok(keys: Seq<Seq<char>>) -> bool {
    forall|i: int| 0 <= i < keys.len() ==> #[trigger] keys[i] == "enabled"@ || keys[i]
        == "actions"@
}

/// An action table may hold only `tier` and `patterns`.
pub open spec fn action_keys_ok(keys: Seq<Seq<char>>) -> bool {
    forall|i: int| 0 <= i < keys.len() ==> #[trigger] keys[i] == "tier"@ || keys[i]
        == "patterns"@
}

/// The pattern list an array denotes: every element must be a string.
pub open spec fn spec_extract_patterns(arr: Seq<toml::Value>) -> Option<Seq<Seq<char>>> {
    if forall|i: int| 0 <= i < arr.len() ==> (#[trigger] toml_str_of(arr[i])) is Some {
        Some(Seq::new(arr.len(), |i: int| toml_str_of(arr[i])->Some_0))
    } else {
        None
    }
}

/// The action a value denotes: a table holding only a valid `tier` name and
/// a `patterns` array of strings. None stands for a load error.
pub open spec fn spec_extract_action(name: Seq<char>, v: toml::Value) -> Option<RawActionView> {
    match toml_table_of(v) {
        None => None,
        Some(t) => if !action_keys_ok(toml_keys(t)) {
            None
        } else {
            match toml_entry(t, "tier"@) {
                None => None,
                Some(tv) => match toml_str_of(tv) {
                    None => None,
                    Some(ts) => match spec_tier_from_name(ts) {
                        None => None,
                        Some(tier) => match toml_entry(t, "patterns"@) {
                            None => None,
                            Some(pv) => match toml_array_of(pv) {
                                None => None,
                                Some(arr) => match spec_extract_patterns(arr) {
                                    None => None,
                                    Some(patterns) => Some(
                                        RawActionView { name, tier, patterns },
                                    ),
                                },
                            },
                        },
                    },
                },
            }
        },
    }
}

/// The action an actions table holds under a name.
pub open spec fn spec_action_at(
    t: toml::map::Map<String, toml::Value>,
    name: Seq<char>,
) -> Option<RawActionView> {
    match toml_entry(t, name) {
        None => None,
        Some(v) => spec_extract_action(name, v),
    }
}

/// The actions an actions table denotes, one per key in table order.
pub open spec fn spec_extract_actions(t: toml::map::Map<String, toml::Value>) -> Option<
    Seq<RawActionView>,
> {
    let names = toml_keys(t);
    if forall|i: int| 0 <= i < names.len() ==> (#[trigger] spec_action_at(t, names[i])) is Some {
        Some(Seq::new(names.len(), |i: int| spec_action_at(t, names[i])->Some_0))
    } else {
        None
    }
}

/// The tool a value denotes: a table holding only a required boolean
/// `enabled` and an optional `actions` table.
pub open spec fn spec_extract_tool(name: Seq<char>, v: toml::Value) -> Option<RawToolView> {
    match toml_table_of(v) {
        None => None,
        Some(t) => if !tool_keys_ok(toml_keys(t)) {
            None
        } else {
            match toml_entry(t, "enabled"@) {
                None => None,
                Some(ev) => match toml_bool_of(ev) {
                    None => None,
                    Some(enabled) => match toml_entry(t, "actions"@) {
                        None => Some(
                            RawToolView { name, enabled, actions: Seq::empty() },
                        ),
                        Some(av) => match toml_table_of(av) {
                            None => None,
                            Some(atbl) => match spec_extract_actions(atbl) {
                                None => None,
                                Some(actions) => Some(RawToolView { name, enabled, actions }),
                            },
                        },
                    },
                },
            }
        },
    }
}

/// The tool a tools table holds under a name.
pub open spec fn spec_tool_at(
    t: toml::map::Map<String, toml::Value>,
    name: Seq<char>,
) -> Option<RawToolView> {
    match toml_entry(t, name) {
        None => None,
        Some(v) => spec_extract_tool(name, v),
    }
}

/// The tools a tools table denotes, one per key in table order.
pub open spec fn spec_extract_tools(t: toml::map::Map<String, toml::Value>) -> Option<
    Seq<RawToolView>,
> {
    let names = toml_keys(t);
    if forall|i: int| 0 <= i < names.len() ==> (#[trigger] spec_tool_at(t, names[i])) is Some {
        Some(Seq::new(names.len(), |i: int| spec_tool_at(t, names[i])->Some_0))
    } else {
        None
    }
}

/// The raw tool list a parsed document denotes: the only top-level key is
/// `tools`, and an absent `tools` entry denotes no tool at all.
pub open spec fn spec_extract_policy(root: toml::map::Map<String, toml::Value>) -> Option<
    Seq<RawToolView>,
> {
    if !root_keys_ok(toml_keys(root)) {
        None
    } else {
        match toml_entry(root, "tools"@) {
            None => Some(Seq::empty()),
            Some(v) => match toml_table_of(v) {
                None => None,
                Some(tt) => spec_extract_tools(tt),
            },
        }
    }
}

/// The raw tool list a document's text denotes, or nothing when the text
/// does not parse or does not conform to the schema.
pub open spec fn spec_policy_doc(text: Seq<char>) -> Option<Seq<RawToolView>> {
    if toml_parse_error(text) is Some {
        None
    } else {
        spec_extract_policy(toml_parsed_table(text))
    }
}

/// Whether parsing the text must succeed: the text conforms to the schema
/// and every tool of the document compiles.
pub open spec fn spec_parse_ok(text: Seq<char>) -> bool {
    match spec_policy_doc(text) {
        Some(rvs) => spec_compile_tools_error(rvs) is None,
        None => false,
    }
}

/// Read one action table: its `tier` name and `patterns` list. Unknown
/// fields, a missing or non-string tier, an invalid tier name, and a missing
/// or non-string-array pattern list are all load errors (fail closed).
fn extract_action(name: &str, value: &toml::Value) -> (r: Result<RawAction, CherubError>)
    ensures
        r is Ok == (spec_extract_action(name@, *value) is Some),
        r matches Ok(a) ==> spec_extract_action(name@, *value) == Some(a@),
        r matches Err(e) ==> e matches CherubError::PolicyLoad(_),
{
    let table = match toml_as_table(value) {
        None => {
            return Err(
                CherubError::PolicyLoad(field_message("action '", name, "' must be a table")),
            );
        },
        Some(t) => t,
    };
    let ghost tbl = *table;
    let keys = toml_table_keys(table);
    let mut k: usize = 0;
    while k < keys.len()
        invariant
            k <= keys.len(),
            toml_table_of(*value) == Some(tbl),
            keys.deep_view() == toml_keys(tbl),
            forall|x: int|
                0 <= x < k ==> #[trigger] keys.deep_view()[x] == "tier"@ || keys.deep_view()[x]
                    == "patterns"@,
        decreases keys.len() - k,
    {
        if !str_eq(keys[k].as_str(), "tier") && !str_eq(keys[k].as_str(), "patterns") {
            proof {
                assert(toml_keys(tbl)[k as int] == keys@[k as int]@);
                assert(!action_keys_ok(toml_keys(tbl)));
                assert(spec_extract_action(name@, *value) is None);
            }
            return Err(
                CherubError::PolicyLoad(
                    field_message("action '", name, "' holds an unknown field"),
                ),
            );
        }
        proof {
            assert(keys.deep_view()[k as int] == keys@[k as int]@);
        }
        k = k + 1;
    }
    proof {
        assert(action_keys_ok(toml_keys(tbl)));
    }
    let tier = match toml_table_get(table, "tier") {
        None => {
            return Err(
                CherubError::PolicyLoad(field_message("action '", name, "' is missing `tier`")),
            );
        },
        Some(tv) => {
            match toml_as_str(tv) {
                None => {
                    return Err(
                        CherubError::PolicyLoad(
                            field_message("action '", name, "': `tier` must be a string"),
                        ),
                    );
                },
                Some(ts) => {
                    match tier_from_name(ts.as_str()) {
                        None => {
                            return Err(
                                CherubError::PolicyLoad(
                                    field_message(
                                        "action '",
                                        name,
                                        "': `tier` must be \"observe\", \"act\" or \"commit\"",
                                    ),
                                ),
                            );
                        },
                        Some(t) => t,
                    }
                },
            }
        },
    };
    let mut patterns: Vec<String> = Vec::new();
    match toml_table_get(table, "patterns") {
        None => {
            return Err(
                CherubError::PolicyLoad(
                    field_message("action '", name, "' is missing `patterns`"),
                ),
            );
        },
        Some(pv) => {
            match toml_as_array(pv) {
                None => {
                    return Err(
                        CherubError::PolicyLoad(
                            field_message("action '", name, "': `patterns` must be an array"),
                        ),
                    );
                },
                Some(arr) => {
                    proof {
                        assert(forall|ps: Seq<Seq<char>>|
                            spec_extract_patterns(arr@) == Some(ps)
                                ==> #[trigger] spec_extract_action(name@, *value) == Some(
                                RawActionView { name: name@, tier, patterns: ps },
                            ));
                        assert(spec_extract_patterns(arr@) is None ==> spec_extract_action(
                            name@,
                            *value,
                        ) is None);
                    }
                    let mut j: usize = 0;
                    while j < arr.len()
                        invariant
                            j <= arr.len(),
                            patterns@.len() == j,
                            forall|x: int|
                                0 <= x < j ==> (#[trigger] toml_str_of(arr@[x])) is Some
                                    && patterns.deep_view()[x] == toml_str_of(arr@[x])->Some_0,
                            forall|ps: Seq<Seq<char>>|
                                spec_extract_patterns(arr@) == Some(ps)
                                    ==> #[trigger] spec_extract_action(name@, *value) == Some(
                                    RawActionView { name: name@, tier, patterns: ps },
                                ),
                            spec_extract_patterns(arr@) is None ==> spec_extract_action(
                                name@,
                                *value,
                            ) is None,
                        decreases arr.len() - j,
                    {
                        match toml_as_str(&arr[j]) {
                            None => {
                                proof {
                                    assert(toml_str_of(arr@[j as int]) is None);
                                    assert(spec_extract_patterns(arr@) is None);
                                    assert(spec_extract_action(name@, *value) is None);
                                }
                                return Err(
                                    CherubError::PolicyLoad(
                                        field_message(
                                            "action '",
                                            name,
                                            "': every pattern must be a string",
                                        ),
                                    ),
                                );
                            },
                            Some(pat) => {
                                patterns.push(pat);
                            },
                        }
                        j = j + 1;
                    }
                    proof {
                        assert(spec_extract_patterns(arr@) matches Some(ps) && ps
                            =~= patterns.deep_view());
                    }
                },
            }
        },
    }
    let result = RawAction { name: name.to_owned(), tier, patterns };
    proof {
        assert(spec_extract_action(name@, *value) == Some(result@));
    }
    Ok(result)
}

/// Read one tool table: its required `enabled` flag and optional `actions`
/// table. Unknown fields are load errors (fail closed, so a typo in a policy
/// file cannot silently under-restrict).
fn extract_tool(name: &str, value: &toml::Value) -> (r: Result<RawTool, CherubError>)
    ensures
        r is Ok == (spec_extract_tool(name@, *value) is Some),
        r matches Ok(t) ==> spec_extract_tool(name@, *value) == Some(t@),
        r matches Err(e) ==> e matches CherubError::PolicyLoad(_),
{
    let table = match toml_as_table(value) {
        None => {
            return Err(CherubError::PolicyLoad(field_message("tool '", name, "' must be a table")));
        },
        Some(t) => t,
    };
    let ghost tbl = *table;
    let keys = toml_table_keys(table);
    let mut k: usize = 0;
    while k < keys.len()
        invariant
            k <= keys.len(),
            toml_table_of(*value) == Some(tbl),
            keys.deep_view() == toml_keys(tbl),
            forall|x: int|
                0 <= x < k ==> #[trigger] keys.deep_view()[x] == "enabled"@ || keys.deep_view()[x]
                    == "actions"@,
        decreases keys.len() - k,
    {
        if !str_eq(keys[k].as_str(), "enabled") && !str_eq(keys[k].as_str(), "actions") {
            proof {
                assert(toml_keys(tbl)[k as int] == keys@[k as int]@);
                assert(!tool_keys_ok(toml_keys(tbl)));
                assert(spec_extract_tool(name@, *value) is None);
            }
            return Err(
                CherubError::PolicyLoad(field_message("tool '", name, "' holds an unknown field")),
            );
        }
        proof {
            assert(keys.deep_view()[k as int] == keys@[k as int]@);
        }
        k = k + 1;
    }
    proof {
        assert(tool_keys_ok(toml_keys(tbl)));
    }
    let enabled = match toml_table_get(table, "enabled") {
        None => {
            return Err(
                CherubError::PolicyLoad(field_message("tool '", name, "' is missing `enabled`")),
            );
        },
        Some(ev) => {
            match toml_as_bool(ev) {
                None => {
                    return Err(
                        CherubError::PolicyLoad(
                            field_message("tool '", name, "': `enabled` must be a boolean"),
                        ),
                    );
                },
                Some(b) => b,
            }
        },
    };
    let mut actions: Vec<RawAction> = Vec::new();
    match toml_table_get(table, "actions") {
        None => {
            proof {
                assert(actions@.map_values(|a: RawAction| a@) =~= Seq::<RawActionView>::empty());
                assert(spec_extract_tool(name@, *value) == Some(
                    RawToolView {
                        name: name@,
                        enabled,
                        actions: actions@.map_values(|a: RawAction| a@),
                    },
                ));
            }
        },
        Some(av) => {
            match toml_as_table(av) {
                None => {
                    return Err(
                        CherubError::PolicyLoad(
                            field_message("tool '", name, "': `actions` must be a table"),
                        ),
                    );
                },
                Some(atbl) => {
                    proof {
                        assert(forall|acts: Seq<RawActionView>|
                            spec_extract_actions(*atbl) == Some(acts)
                                ==> #[trigger] spec_extract_tool(name@, *value) == Some(
                                RawToolView { name: name@, enabled, actions: acts },
                            ));
                        assert(spec_extract_actions(*atbl) is None ==> spec_extract_tool(
                            name@,
                            *value,
                        ) is None);
                    }
                    let action_names = toml_table_keys(atbl);
                    let mut j: usize = 0;
                    while j < action_names.len()
                        invariant
                            j <= action_names.len(),
                            action_names.deep_view() == toml_keys(*atbl),
                            actions@.len() == j,
                            forall|x: int|
                                0 <= x < j ==> (#[trigger] spec_action_at(
                                    *atbl,
                                    action_names.deep_view()[x],
                                )) is Some && actions@.map_values(|a: RawAction| a@)[x]
                                    == spec_action_at(*atbl, action_names.deep_view()[x])->Some_0,
                            forall|acts: Seq<RawActionView>|
                                spec_extract_actions(*atbl) == Some(acts)
                                    ==> #[trigger] spec_extract_tool(name@, *value) == Some(
                                    RawToolView { name: name@, enabled, actions: acts },
                                ),
                            spec_extract_actions(*atbl) is None ==> spec_extract_tool(
                                name@,
                                *value,
                            ) is None,
                        decreases action_names.len() - j,
                    {
                        proof {
                            assert(toml_keys(*atbl)[j as int] == action_names@[j as int]@);
                        }
                        match toml_table_get(atbl, action_names[j].as_str()) {
                            None => {
                                return vstd::pervasive::unreached();
                            },
                            Some(acv) => {
                                match extract_action(action_names[j].as_str(), acv) {
                                    Ok(a) => {
                                        actions.push(a);
                                        proof {
                                            let jj = j as int;
                                            assert(spec_action_at(
                                                *atbl,
                                                action_names.deep_view()[jj],
                                            ) == Some(a@));
                                            assert(actions@.map_values(|a: RawAction| a@)[jj]
                                                == a@);
                                        }
                                    },
                                    Err(e) => {
                                        proof {
                                            let jj = j as int;
                                            assert(spec_action_at(
                                                *atbl,
                                                action_names.deep_view()[jj],
                                            ) is None);
                                            assert(spec_extract_actions(*atbl) is None);
                                        }
                                        return Err(e);
                                    },
                                }
                            },
                        }
                        j = j + 1;
                    }
                    proof {
                        assert(spec_extract_actions(*atbl) matches Some(acts) && acts
                            =~= actions@.map_values(|a: RawAction| a@));
                    }
                },
            }
        },
    }
    let result = RawTool { name: name.to_owned(), enabled, actions };
    proof {
        assert(spec_extract_tool(name@, *value) == Some(result@));
    }
    Ok(result)
}

/// Read a whole policy document from its parsed top-level table: the only
/// key a document may carry is `tools`, and an absent or empty `tools` table
/// yields a policy that declares no tool at all. The extracted tools carry
/// pairwise distinct names, one per key of the `tools` table.
fn extract_policy(table: &toml::map::Map<String, toml::Value>) -> (r: Result<
    Vec<RawTool>,
    CherubError,
>)
    ensures
        r is Ok == (spec_extract_policy(*table) is Some),
        r matches Ok(ts) ==> spec_extract_policy(*table) == Some(raw_views(ts@)),
        r matches Err(e) ==> e matches CherubError::PolicyLoad(_),
        r matches Ok(ts) ==> forall|i: int, j: int|
            0 <= i < j < ts@.len() ==> (#[trigger] ts@[i])@.name != (#[trigger] ts@[j])@.name,
{
    let keys = toml_table_keys(table);
    let mut k: usize = 0;
    while k < keys.len()
        invariant
            k <= keys.len(),
            keys.deep_view() == toml_keys(*table),
            forall|x: int| 0 <= x < k ==> #[trigger] keys.deep_view()[x] == "tools"@,
        decreases keys.len() - k,
    {
        if !str_eq(keys[k].as_str(), "tools") {
            proof {
                assert(toml_keys(*table)[k as int] == keys@[k as int]@);
                assert(!root_keys_ok(toml_keys(*table)));
                assert(spec_extract_policy(*table) is None);
            }
            return Err(
                CherubError::PolicyLoad(
                    field_message("unknown field '", keys[k].as_str(), "' in policy document"),
                ),
            );
        }
        proof {
            assert(keys.deep_view()[k as int] == keys@[k as int]@);
        }
        k = k + 1;
    }
    proof {
        assert(root_keys_ok(toml_keys(*table)));
    }
    let mut tools: Vec<RawTool> = Vec::new();
    match toml_table_get(table, "tools") {
        None => {
            proof {
                assert(raw_views(tools@) =~= Seq::<RawToolView>::empty());
                assert(spec_extract_policy(*table) == Some(raw_views(tools@)));
            }
            Ok(tools)
        },
        Some(v) => {
            match toml_as_table(v) {
                None => Err(CherubError::PolicyLoad("`tools` must be a table".to_owned())),
                Some(tools_tbl) => {
                    proof {
                        assert(forall|tls: Seq<RawToolView>|
                            spec_extract_tools(*tools_tbl) == Some(tls)
                                ==> #[trigger] spec_extract_policy(*table) == Some(tls));
                        assert(spec_extract_tools(*tools_tbl) is None ==> spec_extract_policy(
                            *table,
                        ) is None);
                    }
                    let names = toml_table_keys(tools_tbl);
                    let mut j: usize = 0;
                    while j < names.len()
                        invariant
                            j <= names.len(),
                            names.deep_view() == toml_keys(*tools_tbl),
                            forall|x: int, y: int|
                                0 <= x < y < names.deep_view().len() ==> names.deep_view()[x]
                                    != names.deep_view()[y],
                            tools@.len() == j,
                            forall|x: int|
                                0 <= x < j ==> (#[trigger] spec_tool_at(
                                    *tools_tbl,
                                    names.deep_view()[x],
                                )) is Some && raw_views(tools@)[x] == spec_tool_at(
                                    *tools_tbl,
                                    names.deep_view()[x],
                                )->Some_0,
                            forall|x: int|
                                0 <= x < j ==> (#[trigger] tools@[x])@.name
                                    == names.deep_view()[x],
                            forall|tls: Seq<RawToolView>|
                                spec_extract_tools(*tools_tbl) == Some(tls)
                                    ==> #[trigger] spec_extract_policy(*table) == Some(tls),
                            spec_extract_tools(*tools_tbl) is None ==> spec_extract_policy(
                                *table,
                            ) is None,
                        decreases names.len() - j,
                    {
                        proof {
                            assert(toml_keys(*tools_tbl)[j as int] == names@[j as int]@);
                        }
                        match toml_table_get(tools_tbl, names[j].as_str()) {
                            None => {
                                return vstd::pervasive::unreached();
                            },
                            Some(tv) => {
                                match extract_tool(names[j].as_str(), tv) {
                                    Ok(t) => {
                                        tools.push(t);
                                        proof {
                                            let ghost jj = j as int;
                                            assert(spec_tool_at(
                                                *tools_tbl,
                                                names.deep_view()[jj],
                                            ) == Some(t@));
                                            assert(raw_views(tools@)[jj] == t@);
                                            assert(tools@[jj]@.name == names.deep_view()[jj]);
                                        }
                                    },
                                    Err(e) => {
                                        proof {
                                            let ghost jj = j as int;
                                            assert(spec_tool_at(
                                                *tools_tbl,
                                                names.deep_view()[jj],
                                            ) is None);
                                            assert(spec_extract_tools(*tools_tbl) is None);
                                        }
                                        return Err(e);
                                    },
                                }
                            },
                        }
                        j = j + 1;
                    }
                    proof {
                        assert(spec_extract_tools(*tools_tbl) matches Some(tls) && tls
                            =~= raw_views(tools@));
                        assert(spec_extract_policy(*table) == Some(raw_views(tools@)));
                    }
                    Ok(tools)
                },
            }
        },
    }
}

/// Hard cap on the size of a policy document, in bytes: larger documents are
/// rejected before parsing to bound the memory and CPU cost of a hostile or
/// corrupted policy source.
pub const MAX_POLICY_BYTES: usize = 64 * 1024;

impl CompiledTool {
    /// Whether this tool accepts commands at all.
    pub fn enabled(&self) -> (r: bool)
        ensures
            r == self@.enabled,
    {
        self.enabled
    }

    /// How many tiers collected at least one pattern.
    pub fn tier_count(&self) -> (r: usize)
        ensures
            r == self@.tiers.len(),
    {
        self.tiers.len()
    }

    /// Find the highest-privilege tier whose patterns match the command.
    /// Tiers are stored in descending privilege order (Commit, Act,
    /// Observe), so the first matching entry wins. A tier's pattern set
    /// matches exactly when one of its individual patterns does, so no
    /// match at all means every declared pattern of every tier fails.
    pub fn match_tier(&self, command: &str) -> (r: Option<Tier>)
        ensures
            r == spec_match_tier(self@.tiers, command@),
            r is None ==> forall|k: int, j: int|
                0 <= k < self@.tiers.len() && 0 <= j < self@.tiers[k].patterns.len()
                    ==> !regex_match_one(#[trigger] self@.tiers[k].patterns[j], command@),
            r matches Some(t) ==> exists|k: int, j: int|
                0 <= k < self@.tiers.len() && self@.tiers[k].tier == t && 0 <= j
                    < self@.tiers[k].patterns.len() && #[trigger] regex_match_one(
                    self@.tiers[k].patterns[j],
                    command@,
                ),
    {
        let ghost all = self@.tiers;
        proof {
            assert(all.skip(0) =~= all);
        }
        let mut i: usize = 0;
        while i < self.tiers.len()
            invariant
                i <= self.tiers.len(),
                all == self@.tiers,
                all.len() == self.tiers.len(),
                spec_match_tier(all, command@) == spec_match_tier(all.skip(i as int), command@),
                forall|k: int, j: int|
                    0 <= k < i && 0 <= j < all[k].patterns.len() ==> !regex_match_one(
                        #[trigger] all[k].patterns[j],
                        command@,
                    ),
            decreases self.tiers.len() - i,
        {
            if regex_set_is_match(&self.tiers[i].patterns, command) {
                proof {
                    assert(all.skip(i as int)[0] == all[i as int]);
                    let j = choose|j: int|
                        0 <= j < all[i as int].patterns.len() && #[trigger] regex_match_one(
                            all[i as int].patterns[j],
                            command@,
                        );
                    assert(regex_match_one(all[i as int].patterns[j], command@));
                }
                return Some(self.tiers[i].tier);
            }
            proof {
                assert(all.skip(i as int)[0] == all[i as int]);
                assert(all.skip(i as int).drop_first() =~= all.skip(i as int + 1));
                assert forall|j: int|
                    0 <= j < all[i as int].patterns.len() implies !regex_match_one(
                    all[i as int].patterns[j],
                    command@,
                ) by {}
            }
            i = i + 1;
        }
        proof {
            assert(all.skip(i as int).len() == 0);
        }
        None
    }
}

impl Policy {
    /// Parse and compile a policy from a TOML document.
    ///
    /// Fails closed: an oversized document (over the 64 KiB cap), a syntax
    /// error, an unknown field anywhere, an invalid tier name, or a missing
    /// required field is a load error; an empty pattern list or a malformed
    /// pattern is a validation error, and every validation message names
    /// the tool and the offending action or tier. Parsing succeeds exactly
    /// when the text is within the cap, parses as TOML, conforms to the
    /// schema, and every tool compiles — and the policy is then the
    /// compilation of this document's own tool entries, well-formed, with
    /// pairwise distinct tool names.
    pub fn parse(text: &str) -> (r: Result<Policy, CherubError>)
        ensures
            r is Ok == (text.spec_bytes().len() as usize <= MAX_POLICY_BYTES && spec_parse_ok(
                text@,
            )),
            r matches Ok(p) ==> p@ == compiled_views(spec_policy_doc(text@)->Some_0),
            r matches Ok(p) ==> policy_wf(p@),
            r matches Ok(p) ==> forall|i: int, j: int|
                0 <= i < j < p@.len() ==> (#[trigger] p@[i]).name != (#[trigger] p@[j]).name,
            text.spec_bytes().len() as usize > MAX_POLICY_BYTES ==> (r matches Err(e) && e
                matches CherubError::PolicyLoad(_)),
            text.spec_bytes().len() as usize <= MAX_POLICY_BYTES ==> (toml_parse_error(text@)
                matches Some(d) ==> (r matches Err(e) && e matches CherubError::PolicyLoad(m)
                && m@ == d)),
            (text.spec_bytes().len() as usize <= MAX_POLICY_BYTES && toml_parse_error(text@)
                is None && spec_extract_policy(toml_parsed_table(text@)) is None) ==> (r
                matches Err(e) && e matches CherubError::PolicyLoad(_)),
            text.spec_bytes().len() as usize <= MAX_POLICY_BYTES ==> (spec_policy_doc(text@)
                matches Some(rvs) ==> (spec_compile_tools_error(rvs) matches Some(m) ==> (r
                matches Err(e) && e matches CherubError::PolicyValidation(s) && s@ == m))),
            r matches Err(e) ==> (e matches CherubError::PolicyValidation(m)
                ==> names_tool_and_cause(m@)),
            r matches Err(e) ==> e matches CherubError::PolicyLoad(_) || e
                matches CherubError::PolicyValidation(_),
    {
        if text.len() > MAX_POLICY_BYTES {
            return Err(
                CherubError::PolicyLoad("policy document exceeds the 64 KiB size cap".to_owned()),
            );
        }
        let table = match parse_toml_table(text) {
            Err(detail) => {
                return Err(CherubError::PolicyLoad(detail));
            },
            Ok(t) => t,
        };
        let raws = match extract_policy(&table) {
            Err(e) => {
                proof {
                    assert(spec_policy_doc(text@) is None);
                }
                return Err(e);
            },
            Ok(r) => r,
        };
        proof {
            assert(spec_policy_doc(text@) == Some(raw_views(raws@)));
        }
        let tools = match compile_tools(&raws) {
            Err(e) => {
                proof {
                    lemma_validation_message_shape(raw_views(raws@));
                }
                return Err(e);
            },
            Ok(ts) => ts,
        };
        let p = Policy { tools };
        proof {
            let ghost rvs = raw_views(raws@);
            assert(p@ == compiled_views(rvs));
            assert(spec_compile_tools_error(rvs) is None);
            assert(spec_parse_ok(text@));
            assert forall|i: int| 0 <= i < p@.len() implies tool_wf(#[trigger] p@[i]) by {
                lemma_compiled_tool_wf(rvs[i]);
                assert(p@[i] == compiled_view(rvs[i]));
            }
            assert forall|i: int, j: int| 0 <= i < j < p@.len() implies (#[trigger] p@[i]).name
                != (#[trigger] p@[j]).name by {
                assert(p@[i] == compiled_view(rvs[i]));
                assert(p@[j] == compiled_view(rvs[j]));
                assert(rvs[i] == raws@[i]@);
                assert(rvs[j] == raws@[j]@);
            }
        }
        Ok(p)
    }

    /// Exact, case-sensitive lookup of a declared tool by name.
    pub fn find_tool(&self, name: &str) -> (r: Option<&CompiledTool>)
        ensures
            match r {
                Some(t) => spec_find_tool(self@, name@) == Some(t@),
                None => spec_find_tool(self@, name@) is None,
            },
    {
        let ghost all = self@;
        proof {
            assert(all.skip(0) =~= all);
        }
        let mut i: usize = 0;
        while i < self.tools.len()
            invariant
                i <= self.tools.len(),
                all == self@,
                all.len() == self.tools.len(),
                spec_find_tool(all, name@) == spec_find_tool(all.skip(i as int), name@),
            decreases self.tools.len() - i,
        {
            if str_eq(self.tools[i].name.as_str(), name) {
                proof {
                    assert(all.skip(i as int)[0] == all[i as int]);
                }
                return Some(&self.tools[i]);
            }
            proof {
                assert(all.skip(i as int)[0] == all[i as int]);
                assert(all.skip(i as int).drop_first() =~= all.skip(i as int + 1));
            }
            i = i + 1;
        }
        proof {
            assert(all.skip(i as int).len() == 0);
        }
        None
    }
}

impl core::str::FromStr for Policy {
    type Err = CherubError;

    /// Parse and compile a policy from a TOML string; see `Policy::parse`.
    fn from_str(text: &str) -> Result<Policy, CherubError> {
        Policy::parse(text)
    }
}

// ------------------------------------------------------------------
// Highest privilege wins
// ------------------------------------------------------------------

proof fn lemma_match_tier_ge(tiers: Seq<TierView>, command: Seq<char>, i: int)
    requires
        forall|x: int, y: int|
            0 <= x < y < tiers.len() ==> tiers[x].tier.rank() > tiers[y].tier.rank(),
        0 <= i < tiers.len(),
        regex_match(tiers[i].patterns, command),
    ensures
        spec_match_tier(tiers, command) is Some,
        spec_match_tier(tiers, command)->Some_0.rank() >= tiers[i].tier.rank(),
    decreases tiers.len(),
{
    if regex_match(tiers[0].patterns, command) {
        assert(spec_match_tier(tiers, command) == Some(tiers[0].tier));
    } else {
        let rest = tiers.drop_first();
        assert(rest[i - 1] == tiers[i]);
        assert forall|x: int, y: int|
            0 <= x < y < rest.len() implies rest[x].tier.rank() > rest[y].tier.rank() by {
            assert(rest[x] == tiers[x + 1]);
            assert(rest[y] == tiers[y + 1]);
        }
        lemma_match_tier_ge(rest, command, i - 1);
    }
}

proof fn lemma_match_tier_member(tiers: Seq<TierView>, command: Seq<char>)
    requires
        spec_match_tier(tiers, command) is Some,
    ensures
        exists|k: int|
            0 <= k < tiers.len() && #[trigger] tiers[k].tier == spec_match_tier(
                tiers,
                command,
            )->Some_0 && regex_match(tiers[k].patterns, command),
    decreases tiers.len(),
{
    if regex_match(tiers[0].patterns, command) {
        assert(tiers[0].tier == spec_match_tier(tiers, command)->Some_0);
    } else {
        let rest = tiers.drop_first();
        lemma_match_tier_member(rest, command);
        let k = choose|k: int|
            0 <= k < rest.len() && #[trigger] rest[k].tier == spec_match_tier(
                rest,
                command,
            )->Some_0 && regex_match(rest[k].patterns, command);
        assert(tiers[k + 1] == rest[k]);
    }
}

/// Highest privilege wins: in a well-formed tool, whenever a command's
/// pattern sets match at several tiers at once, the matched tier is the
/// maximum of all matching tiers — never a lower one. This is the
/// deliberate fail-safe bias: when in doubt about a command's danger, the
/// more dangerous classification is reported.
pub proof fn lemma_highest_privilege_wins(t: ToolView, command: Seq<char>)
    ensures
        tool_wf(t) ==> forall|i: int|
            0 <= i < t.tiers.len() && regex_match(#[trigger] t.tiers[i].patterns, command)
                ==> spec_match_tier(t.tiers, command) is Some && spec_match_tier(
                t.tiers,
                command,
            )->Some_0.rank() >= t.tiers[i].tier.rank(),
        tool_wf(t) && spec_match_tier(t.tiers, command) is Some ==> exists|k: int|
            0 <= k < t.tiers.len() && #[trigger] t.tiers[k].tier == spec_match_tier(
                t.tiers,
                command,
            )->Some_0 && regex_match(t.tiers[k].patterns, command),
{
    if tool_wf(t) {
        assert forall|i: int|
            0 <= i < t.tiers.len() && regex_match(#[trigger] t.tiers[i].patterns, command)
                implies spec_match_tier(t.tiers, command) is Some && spec_match_tier(
            t.tiers,
            command,
        )->Some_0.rank() >= t.tiers[i].tier.rank() by {
            lemma_match_tier_ge(t.tiers, command, i);
        }
        if spec_match_tier(t.tiers, command) is Some {
            lemma_match_tier_member(t.tiers, command);
        }
    }
}

} // verus!
