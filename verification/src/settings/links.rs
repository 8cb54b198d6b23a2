//! Links in terminal output: which kinds of text become clickable, and the
//! search engines that selected text can be looked up with.

use vstd::prelude::*;

use crate::settings::json::{
    as_string, items_view, json_get, json_path, json_view, lemma_items_view_step, spec_as_str, spec_json_get, spec_json_path, spec_member,
    spec_keys, JsonModel, JsonValue,
};
use crate::settings::normalize::opt_view;
use crate::text::{spec_trim, trim};

verus! {

/// Which kinds of text in terminal output become action links.
#[derive(Clone, Copy, Debug, PartialEq, Eq, Structural)]
pub struct ActionLinksMatcherSettings {
    /// IPv4 addresses.
    pub ipv4: bool,
    /// Archive file names.
    pub archive: bool,
    /// `host:port` pairs.
    pub host_port: bool,
}

impl Default for ActionLinksMatcherSettings {
    fn default() -> (r: Self)
        ensures
            r == spec_default_matchers(),
    {
        ActionLinksMatcherSettings { ipv4: true, archive: true, host_port: true }
    }
}

/// Every kind of action link is on until the user turns it off.
pub open spec fn spec_default_matchers() -> ActionLinksMatcherSettings {
    ActionLinksMatcherSettings { ipv4: true, archive: true, host_port: true }
}

/// The boolean member `key` of `obj`, else `fallback`.
pub open spec fn spec_member_bool(obj: JsonModel, key: Seq<char>, fallback: bool) -> bool {
    match spec_json_get(obj, key) {
        Some(JsonModel::Bool(b)) => b,
        _ => fallback,
    }
}

/// The boolean member `key` of `obj`, else `fallback`.
pub fn member_bool(obj: &JsonValue, key: &str, fallback: bool) -> (r: bool)
    ensures
        r == spec_member_bool(json_view(*obj), key@, fallback),
{
    match json_get(obj, key) {
        Some(JsonValue::Bool(b)) => *b,
        _ => fallback,
    }
}

/// The stored action-link kinds: each flag of the stored object, the default
/// for any it lacks; all defaults when there is no such setting.
pub open spec fn spec_action_links_matchers(doc: JsonModel) -> ActionLinksMatcherSettings {
    let d = spec_default_matchers();
    match spec_json_path(doc, spec_keys(seq!["terminal", "action_links_matchers"])) {
        Some(obj) => ActionLinksMatcherSettings {
            ipv4: spec_member_bool(obj, "ipv4"@, d.ipv4),
            archive: spec_member_bool(obj, "archive"@, d.archive),
            host_port: spec_member_bool(obj, "host_port"@, d.host_port),
        },
        None => d,
    }
}

/// Reads the action-link kinds from the settings document.
pub fn load_action_links_matchers(doc: &JsonValue) -> (r: ActionLinksMatcherSettings)
    ensures
        r == spec_action_links_matchers(json_view(*doc)),
{
    let defaults = ActionLinksMatcherSettings::default();
    match json_path(doc, &["terminal", "action_links_matchers"]) {
        Some(obj) => ActionLinksMatcherSettings {
            ipv4: member_bool(obj, "ipv4", defaults.ipv4),
            archive: member_bool(obj, "archive", defaults.archive),
            host_port: member_bool(obj, "host_port", defaults.host_port),
        },
        None => defaults,
    }
}

/// Each stored action-link flag is read back as stored: when the object at
/// `terminal.action_links_matchers` has a boolean member `ipv4`, `archive`
/// or `host_port`, the loaded flag is that boolean.
pub proof fn lemma_stored_matcher_flags_are_kept(doc: JsonModel, obj: JsonModel, b: bool)
    requires
        spec_json_path(doc, spec_keys(seq!["terminal", "action_links_matchers"])) == Some(obj),
    ensures
        spec_json_get(obj, "ipv4"@) == Some(JsonModel::Bool(b)) ==> spec_action_links_matchers(
            doc,
        ).ipv4 == b,
        spec_json_get(obj, "archive"@) == Some(JsonModel::Bool(b)) ==> spec_action_links_matchers(
            doc,
        ).archive == b,
        spec_json_get(obj, "host_port"@) == Some(JsonModel::Bool(b)) ==> spec_action_links_matchers(
            doc,
        ).host_port == b,
{
}

/// Saved action-link flags load back as saved: a document that holds the
/// stored form of `m` at `terminal.action_links_matchers` loads `m`.
pub proof fn lemma_saved_matchers_read_back(doc: JsonModel, m: ActionLinksMatcherSettings)
    requires
        spec_json_path(doc, spec_keys(seq!["terminal", "action_links_matchers"])) == Some(
            JsonModel::Object(
                seq![
                    ("ipv4"@, JsonModel::Bool(m.ipv4)),
                    ("archive"@, JsonModel::Bool(m.archive)),
                    ("host_port"@, JsonModel::Bool(m.host_port)),
                ],
            ),
        ),
    ensures
        spec_action_links_matchers(doc) == m,
{
    reveal_strlit("ipv4");
    reveal_strlit("archive");
    reveal_strlit("host_port");
    let members = seq![
        ("ipv4"@, JsonModel::Bool(m.ipv4)),
        ("archive"@, JsonModel::Bool(m.archive)),
        ("host_port"@, JsonModel::Bool(m.host_port)),
    ];
    assert("ipv4"@ != "archive"@ && "ipv4"@ != "host_port"@ && "archive"@ != "host_port"@) by {
        assert("ipv4"@.len() == 4 && "archive"@.len() == 7 && "host_port"@.len() == 9);
    }
    assert(members.drop_first()[0].0 == "archive"@);
    assert(members.drop_first().drop_first()[0].0 == "host_port"@);
    assert(spec_member(members, "ipv4"@) == Some(JsonModel::Bool(m.ipv4)));
    let m1 = members.drop_first();
    let m2 = m1.drop_first();
    assert(spec_member(m1, "archive"@) == Some(JsonModel::Bool(m.archive)));
    assert(spec_member(members, "archive"@) == Some(JsonModel::Bool(m.archive)));
    assert(spec_member(m2, "host_port"@) == Some(JsonModel::Bool(m.host_port)));
    assert(spec_member(m1, "host_port"@) == Some(JsonModel::Bool(m.host_port)));
    assert(spec_member(members, "host_port"@) == Some(JsonModel::Bool(m.host_port)));
}

/// A web search that selected text can be sent to.
pub struct SearchEngineConfig {
    pub name: String,
    /// The address to open, with a placeholder for the query.
    pub url_template: String,
    pub icon: Option<String>,
    pub show_in_menu: bool,
}

/// The plain value of a search engine.
pub struct SearchEngineView {
    pub name: Seq<char>,
    pub url_template: Seq<char>,
    pub icon: Option<Seq<char>>,
    pub show_in_menu: bool,
}

impl View for SearchEngineConfig {
    type V = SearchEngineView;

    open spec fn view(&self) -> SearchEngineView {
        SearchEngineView {
            name: self.name@,
            url_template: self.url_template@,
            icon: opt_view(self.icon),
            show_in_menu: self.show_in_menu,
        }
    }
}

/// The values of a list of search engines.
pub open spec fn engines_view(v: Seq<SearchEngineConfig>) -> Seq<SearchEngineView> {
    v.map_values(|e: SearchEngineConfig| e@)
}

/// One search engine.
pub fn search_engine(name: &str, url_template: &str) -> (r: SearchEngineConfig)
    ensures
        r@ == (SearchEngineView {
            name: name@,
            url_template: url_template@,
            icon: None,
            show_in_menu: true,
        }),
{
    SearchEngineConfig {
        name: String::from_str(name),
        url_template: String::from_str(url_template),
        icon: None,
        show_in_menu: true,
    }
}

/// The engines offered before the user sets any.
pub open spec fn spec_default_search_engines() -> Seq<SearchEngineView> {
    seq![
        SearchEngineView {
            name: "Google"@,
            url_template: "https://www.google.com/search?q={query}"@,
            icon: None,
            show_in_menu: true,
        },
        SearchEngineView {
            name: "Bing"@,
            url_template: "https://www.bing.com/search?q={query}"@,
            icon: None,
            show_in_menu: true,
        },
        SearchEngineView {
            name: "DuckDuckGo"@,
            url_template: "https://duckduckgo.com/?q={query}"@,
            icon: None,
            show_in_menu: true,
        },
    ]
}

/// The engines offered before the user sets any.
pub fn default_search_engines() -> (r: Vec<SearchEngineConfig>)
    ensures
        engines_view(r@) == spec_default_search_engines(),
{
    let mut r: Vec<SearchEngineConfig> = Vec::new();
    r.push(search_engine("Google", "https://www.google.com/search?q={query}"));
    r.push(search_engine("Bing", "https://www.bing.com/search?q={query}"));
    r.push(search_engine("DuckDuckGo", "https://duckduckgo.com/?q={query}"));
    assert(engines_view(r@) =~= spec_default_search_engines());
    r
}

/// The trimmed string member `key` of `obj`; empty when it has none.
pub open spec fn spec_member_text(obj: JsonModel, key: Seq<char>) -> Seq<char> {
    match spec_json_get(obj, key) {
        Some(v) => match spec_as_str(v) {
            Some(t) => spec_trim(t),
            None => Seq::empty(),
        },
        None => Seq::empty(),
    }
}

/// The trimmed string member `key` of `obj`, if it is a string that is not
/// blank.
pub open spec fn spec_member_optional_text(obj: JsonModel, key: Seq<char>) -> Option<Seq<char>> {
    if spec_member_text(obj, key).len() > 0 {
        Some(spec_member_text(obj, key))
    } else {
        None
    }
}

/// A stored search engine: name and address trimmed, the icon when one is
/// set, shown in the menu unless stored otherwise.
pub open spec fn spec_search_engine(obj: JsonModel) -> SearchEngineView {
    SearchEngineView {
        name: spec_member_text(obj, "name"@),
        url_template: spec_member_text(obj, "url_template"@),
        icon: spec_member_optional_text(obj, "icon"@),
        show_in_menu: spec_member_bool(obj, "show_in_menu"@, true),
    }
}

/// The engines stored in an array: one per object, other items skipped.
pub open spec fn spec_search_engines_of(items: Seq<JsonModel>) -> Seq<SearchEngineView>
    decreases items.len(),
{
    if items.len() == 0 {
        Seq::empty()
    } else {
        let r = spec_search_engines_of(items.drop_last());
        match items.last() {
            JsonModel::Object(_) => r.push(spec_search_engine(items.last())),
            _ => r,
        }
    }
}

/// The stored search engines; the default ones when the setting is not an
/// array.
pub open spec fn spec_search_engines(doc: JsonModel) -> Seq<SearchEngineView> {
    match spec_json_path(doc, spec_keys(seq!["search", "custom_engines"])) {
        Some(JsonModel::Array(items)) => spec_search_engines_of(items),
        _ => spec_default_search_engines(),
    }
}

/// The trimmed string member `key` of `obj`; empty when it has none.
pub fn member_text(obj: &JsonValue, key: &str) -> (r: String)
    ensures
        r@ == spec_member_text(json_view(*obj), key@),
{
    match json_get(obj, key) {
        Some(v) => match as_string(v) {
            Some(t) => trim(t.as_str()),
            None => String::new(),
        },
        None => String::new(),
    }
}

/// Reads one stored search engine from its object.
pub fn search_engine_from(obj: &JsonValue) -> (r: SearchEngineConfig)
    ensures
        r@ == spec_search_engine(json_view(*obj)),
{
    let name = member_text(obj, "name");
    let url_template = member_text(obj, "url_template");
    let icon_text = member_text(obj, "icon");
    let icon = if icon_text.as_str().is_empty() {
        None
    } else {
        Some(icon_text)
    };
    SearchEngineConfig {
        name,
        url_template,
        icon,
        show_in_menu: member_bool(obj, "show_in_menu", true),
    }
}

/// Reads the search engines from the settings document.
pub fn load_search_engines(doc: &JsonValue) -> (r: Vec<SearchEngineConfig>)
    ensures
        engines_view(r@) == spec_search_engines(json_view(*doc)),
{
    let items = match json_path(doc, &["search", "custom_engines"]) {
        Some(JsonValue::Array(items)) => items,
        _ => {
            return default_search_engines();
        },
    };
    let mut engines: Vec<SearchEngineConfig> = Vec::new();
    let mut i: usize = 0;
    while i < items.len()
        invariant
            i <= items@.len(),
            engines_view(engines@) == spec_search_engines_of(
                items_view(items@.take(i as int)),
            ),
        decreases items@.len() - i,
    {
        proof {
            lemma_items_view_step(items@, i as int);
        }
        match &items[i] {
            JsonValue::Object(_) => {
                let e = search_engine_from(&items[i]);
                let ghost prev = engines@;
                let ghost ev = e@;
                engines.push(e);
                assert(engines_view(engines@) =~= engines_view(prev).push(ev));
            },
            _ => {},
        }
        i += 1;
    }
    assert(items@.take(items@.len() as int) =~= items@);
    engines
}

} // verus!
