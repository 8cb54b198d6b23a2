//! How each stored setting is read back: the values a setting may take, and
//! what stands in for anything else.

use vstd::prelude::*;

use crate::settings::json::spec_keys;
use crate::text::{chars_of, spec_trim, str_eq, string_from_range, trim};

verus! {

/// The timestamp format that the terminal shows when none is set.
pub const DEFAULT_TERMINAL_TIMESTAMP_FORMAT: &'static str = "%H:%M:%S";

/// The longest timestamp format kept, in characters.
pub const MAX_TIMESTAMP_FORMAT_CHARS: usize = 64;

/// `value` when it is one of `options`, else `fallback`.
pub open spec fn spec_pick(value: Seq<char>, options: Seq<Seq<char>>, fallback: Seq<char>) -> Seq<
    char,
> {
    if options.contains(value) {
        value
    } else {
        fallback
    }
}

/// `value` when it is one of `options`, else `fallback` as a new string.
pub fn pick(value: String, options: &[&str], fallback: &str) -> (r: String)
    ensures
        r@ == spec_pick(value@, spec_keys(options@), fallback@),
{
    let ghost keys = spec_keys(options@);
    let mut i: usize = 0;
    while i < options.len()
        invariant
            i <= options@.len(),
            keys == spec_keys(options@),
            keys.len() == options@.len(),
            forall|j: int| 0 <= j < i ==> keys[j] != value@,
        decreases options@.len() - i,
    {
        if str_eq(value.as_str(), options[i]) {
            assert(keys[i as int] == value@);
            return value;
        }
        i += 1;
    }
    proof {
        if keys.contains(value@) {
            let j = choose|j: int| 0 <= j < keys.len() && keys[j] == value@;
            assert(keys[j] != value@);
        }
    }
    String::from_str(fallback)
}

/// The keep-alive mode: `strict` or `disabled` as given (trimmed), else
/// `compatible`.
pub open spec fn spec_keep_alive_mode(mode: Seq<char>) -> Seq<char> {
    spec_pick(spec_trim(mode), spec_keys(seq!["strict", "disabled"]), "compatible"@)
}

/// Reads a stored keep-alive mode.
pub fn normalize_keep_alive_mode(mode: &str) -> (r: String)
    ensures
        r@ == spec_keep_alive_mode(mode@),
{
    pick(trim(mode), &["strict", "disabled"], "compatible")
}

/// The keep-alive mode read back is the trimmed stored value when that is
/// `strict` or `disabled`, and `compatible` for anything else.
pub proof fn lemma_keep_alive_mode_keeps_known_modes(mode: Seq<char>)
    ensures
        (spec_trim(mode) == "strict"@ || spec_trim(mode) == "disabled"@) ==> spec_keep_alive_mode(
            mode,
        ) == spec_trim(mode),
        !(spec_trim(mode) == "strict"@ || spec_trim(mode) == "disabled"@) ==> spec_keep_alive_mode(
            mode,
        ) == "compatible"@,
{
    let keys = spec_keys(seq!["strict", "disabled"]);
    assert(keys.len() == 2);
    assert(keys[0] == "strict"@);
    assert(keys[1] == "disabled"@);
    if spec_trim(mode) == "strict"@ {
        assert(keys.contains(spec_trim(mode)));
    }
    if spec_trim(mode) == "disabled"@ {
        assert(keys.contains(spec_trim(mode)));
    }
}

/// The timestamp format: trimmed and cut to its first 64 characters; the
/// default when blank.
pub open spec fn spec_timestamp_format(format: Seq<char>) -> Seq<char> {
    let t = spec_trim(format);
    if t.len() == 0 {
        DEFAULT_TERMINAL_TIMESTAMP_FORMAT@
    } else if t.len() <= MAX_TIMESTAMP_FORMAT_CHARS {
        t
    } else {
        t.take(MAX_TIMESTAMP_FORMAT_CHARS as int)
    }
}

/// Reads a stored timestamp format.
pub fn normalize_timestamp_format(format: &str) -> (r: String)
    ensures
        r@ == spec_timestamp_format(format@),
{
    let t = trim(format);
    let v = chars_of(t.as_str());
    if v.len() == 0 {
        return String::from_str(DEFAULT_TERMINAL_TIMESTAMP_FORMAT);
    }
    if v.len() <= MAX_TIMESTAMP_FORMAT_CHARS {
        return t;
    }
    assert(v@.subrange(0, MAX_TIMESTAMP_FORMAT_CHARS as int) =~= v@.take(
        MAX_TIMESTAMP_FORMAT_CHARS as int,
    ));
    string_from_range(&v, 0, MAX_TIMESTAMP_FORMAT_CHARS)
}

/// The host-key policy: `strict`, `accept` or `prompt` exactly as given,
/// else `prompt`.
pub open spec fn spec_host_key_policy(policy: Seq<char>) -> Seq<char> {
    spec_pick(policy, spec_keys(seq!["strict", "accept", "prompt"]), "prompt"@)
}

/// Reads a host-key policy.
pub fn normalize_host_key_policy(policy: &str) -> (r: String)
    ensures
        r@ == spec_host_key_policy(policy@),
{
    pick(String::from_str(policy), &["strict", "accept", "prompt"], "prompt")
}

/// The ASCII lower-case code of `c`.
pub open spec fn spec_ascii_lower(c: char) -> u32 {
    let u = c as u32;
    if 0x41 <= u && u <= 0x5a {
        (u + 0x20) as u32
    } else {
        u
    }
}

/// Whether `a` and `b` are equal when ASCII letters are compared without case.
pub open spec fn spec_eq_ignore_ascii_case(a: Seq<char>, b: Seq<char>) -> bool {
    a.len() == b.len() && forall|i: int|
        0 <= i < a.len() ==> #[trigger] spec_ascii_lower(a[i]) == spec_ascii_lower(b[i])
}

/// The ASCII lower-case code of `c`.
pub fn ascii_lower(c: char) -> (r: u32)
    ensures
        r == spec_ascii_lower(c),
{
    let u = c as u32;
    if 0x41 <= u && u <= 0x5a {
        u + 0x20
    } else {
        u
    }
}

/// Whether `a` and `b` are equal when ASCII letters are compared without case.
pub fn eq_ignore_ascii_case(a: &str, b: &str) -> (r: bool)
    ensures
        r == spec_eq_ignore_ascii_case(a@, b@),
{
    let x = chars_of(a);
    let y = chars_of(b);
    if x.len() != y.len() {
        return false;
    }
    let mut i: usize = 0;
    while i < x.len()
        invariant
            i <= x@.len(),
            x@.len() == y@.len(),
            x@ == a@,
            y@ == b@,
            forall|j: int| 0 <= j < i ==> #[trigger] spec_ascii_lower(x@[j]) == spec_ascii_lower(
                y@[j],
            ),
        decreases x@.len() - i,
    {
        if ascii_lower(x[i]) != ascii_lower(y[i]) {
            return false;
        }
        i += 1;
    }
    true
}

/// The terminal encoding: `GBK` for any casing of `gbk`, else `UTF-8`.
pub open spec fn spec_interaction_encoding(encoding: Seq<char>) -> Seq<char> {
    if spec_eq_ignore_ascii_case(encoding, "gbk"@) {
        "GBK"@
    } else {
        "UTF-8"@
    }
}

/// Reads a stored terminal encoding.
pub fn normalize_interaction_encoding(encoding: &str) -> (r: String)
    ensures
        r@ == spec_interaction_encoding(encoding@),
{
    if eq_ignore_ascii_case(encoding, "gbk") {
        String::from_str("GBK")
    } else {
        String::from_str("UTF-8")
    }
}

/// The quick-command sort: `created`, `name` or `useCount` (trimmed), else
/// `created`.
pub open spec fn spec_quick_cmd_sort_mode(value: Seq<char>) -> Seq<char> {
    spec_pick(spec_trim(value), spec_keys(seq!["created", "name", "useCount"]), "created"@)
}

/// Reads a stored quick-command sort.
pub fn normalize_quick_cmd_sort_mode(value: &str) -> (r: String)
    ensures
        r@ == spec_quick_cmd_sort_mode(value@),
{
    pick(trim(value), &["created", "name", "useCount"], "created")
}

/// The quick-command view: `list`, `compact` or `tile` (trimmed), else
/// `tile`.
pub open spec fn spec_quick_cmd_view_mode(value: Seq<char>) -> Seq<char> {
    spec_pick(spec_trim(value), spec_keys(seq!["list", "compact", "tile"]), "tile"@)
}

/// Reads a stored quick-command view.
pub fn normalize_quick_cmd_view_mode(value: &str) -> (r: String)
    ensures
        r@ == spec_quick_cmd_view_mode(value@),
{
    pick(trim(value), &["list", "compact", "tile"], "tile")
}

/// The saved-connections sort: `name-asc` or `name-desc` (trimmed), else
/// `default`.
pub open spec fn spec_saved_connections_sort_mode(value: Seq<char>) -> Seq<char> {
    spec_pick(spec_trim(value), spec_keys(seq!["name-asc", "name-desc"]), "default"@)
}

/// Reads a stored saved-connections sort.
pub fn normalize_saved_connections_sort_mode(value: &str) -> (r: String)
    ensures
        r@ == spec_saved_connections_sort_mode(value@),
{
    pick(trim(value), &["name-asc", "name-desc"], "default")
}

/// The start page: `assets` (trimmed), else `workbench`.
pub open spec fn spec_start_workspace_mode(value: Seq<char>) -> Seq<char> {
    if spec_trim(value) == "assets"@ {
        "assets"@
    } else {
        "workbench"@
    }
}

/// Reads a stored start page.
pub fn normalize_start_workspace_mode(value: &str) -> (r: String)
    ensures
        r@ == spec_start_workspace_mode(value@),
{
    if str_eq(trim(value).as_str(), "assets") {
        String::from_str("assets")
    } else {
        String::from_str("workbench")
    }
}

/// The asset sort direction: `asc` or `desc` (trimmed); unset otherwise.
pub open spec fn spec_asset_sort_direction(value: Option<Seq<char>>) -> Option<Seq<char>> {
    match value {
        Some(v) => if spec_trim(v) == "asc"@ {
            Some("asc"@)
        } else if spec_trim(v) == "desc"@ {
            Some("desc"@)
        } else {
            None
        },
        None => None,
    }
}

/// The character view of an optional string.
pub open spec fn opt_view(v: Option<String>) -> Option<Seq<char>> {
    match v {
        Some(s) => Some(s@),
        None => None,
    }
}

/// Reads a stored asset sort direction; anything but `asc` or `desc` leaves
/// it unset.
pub fn normalize_asset_sort_direction(value: &Option<String>) -> (r: Option<String>)
    ensures
        opt_view(r) == spec_asset_sort_direction(opt_view(*value)),
{
    match value {
        Some(v) => {
            let t = trim(v.as_str());
            if str_eq(t.as_str(), "asc") {
                Some(String::from_str("asc"))
            } else if str_eq(t.as_str(), "desc") {
                Some(String::from_str("desc"))
            } else {
                None
            }
        },
        None => None,
    }
}

/// The action of a mouse click on a tab, exactly as given when known, else
/// `none`.
pub open spec fn spec_tab_mouse_action(action: Seq<char>) -> Seq<char> {
    spec_pick(
        action,
        spec_keys(
            seq![
                "none",
                "rename_tab",
                "copy_tab_name",
                "copy_server_ip",
                "duplicate_session",
                "multiplex_ssh",
                "reconnect_session",
                "disconnect_session",
                "close_tab",
            ],
        ),
        "none"@,
    )
}

/// Reads a stored tab mouse action.
pub fn normalize_tab_mouse_action(action: &str) -> (r: String)
    ensures
        r@ == spec_tab_mouse_action(action@),
{
    pick(
        String::from_str(action),
        &[
            "none",
            "rename_tab",
            "copy_tab_name",
            "copy_server_ip",
            "duplicate_session",
            "multiplex_ssh",
            "reconnect_session",
            "disconnect_session",
            "close_tab",
        ],
        "none",
    )
}

/// What a transfer does with an existing file: `ask`, `overwrite`, `skip` or
/// `rename` exactly as given, else `ask`.
pub open spec fn spec_transfer_duplicate_strategy(strategy: Seq<char>) -> Seq<char> {
    spec_pick(strategy, spec_keys(seq!["ask", "overwrite", "skip", "rename"]), "ask"@)
}

/// Reads a stored duplicate strategy.
pub fn normalize_transfer_duplicate_strategy(strategy: &str) -> (r: String)
    ensures
        r@ == spec_transfer_duplicate_strategy(strategy@),
{
    pick(String::from_str(strategy), &["ask", "overwrite", "skip", "rename"], "ask")
}

/// The editor for remote files: `external` or `internal` exactly as given,
/// else `external`.
pub open spec fn spec_transfer_editor_type(editor_type: Seq<char>) -> Seq<char> {
    spec_pick(editor_type, spec_keys(seq!["external", "internal"]), "external"@)
}

/// Reads a stored editor kind.
pub fn normalize_transfer_editor_type(editor_type: &str) -> (r: String)
    ensures
        r@ == spec_transfer_editor_type(editor_type@),
{
    pick(String::from_str(editor_type), &["external", "internal"], "external")
}

/// `s` without any number of leading `0o`.
pub open spec fn spec_strip_octal_prefixes(s: Seq<char>) -> Seq<char>
    decreases s.len(),
{
    if s.len() >= 2 && s[0] == '0' && s[1] == 'o' {
        spec_strip_octal_prefixes(s.skip(2))
    } else {
        s
    }
}

/// `s` without its leading zeros.
pub open spec fn spec_strip_zeros(s: Seq<char>) -> Seq<char>
    decreases s.len(),
{
    if s.len() > 0 && s[0] == '0' {
        spec_strip_zeros(s.drop_first())
    } else {
        s
    }
}

/// Whether every character of `s` is an octal digit.
pub open spec fn spec_all_octal(s: Seq<char>) -> bool {
    forall|i: int| 0 <= i < s.len() ==> '0' <= #[trigger] s[i] && s[i] <= '7'
}

/// Default file permissions: the trimmed value without `0o` prefixes and
/// leading zeros (`0` if nothing is left), kept when it is three or four
/// octal digits; else `644`.
pub open spec fn spec_transfer_file_permissions(value: Seq<char>) -> Seq<char> {
    let stripped = spec_strip_zeros(spec_strip_octal_prefixes(spec_trim(value)));
    let normalized = if stripped.len() == 0 {
        "0"@
    } else {
        stripped
    };
    if 3 <= normalized.len() && normalized.len() <= 4 && spec_all_octal(normalized) {
        normalized
    } else {
        "644"@
    }
}

/// The index in `v` past its leading `0o` prefixes and then its leading
/// zeros.
fn permission_digits_start(v: &Vec<char>) -> (a: usize)
    ensures
        a <= v@.len(),
        spec_strip_zeros(spec_strip_octal_prefixes(v@)) == v@.skip(a as int),
{
    let mut a: usize = 0;
    assert(v@.skip(0) =~= v@);
    while v.len() - a >= 2 && v[a] == '0' && v[a + 1] == 'o'
        invariant
            a <= v@.len(),
            spec_strip_octal_prefixes(v@) == spec_strip_octal_prefixes(v@.skip(a as int)),
        decreases v@.len() - a,
    {
        assert(v@.skip(a as int).skip(2) =~= v@.skip(a + 2));
        a += 2;
    }
    assert(spec_strip_octal_prefixes(v@.skip(a as int)) == v@.skip(a as int));
    while a < v.len() && v[a] == '0'
        invariant
            a <= v@.len(),
            spec_strip_zeros(spec_strip_octal_prefixes(v@)) == spec_strip_zeros(
                v@.skip(a as int),
            ),
        decreases v@.len() - a,
    {
        assert(v@.skip(a as int).drop_first() =~= v@.skip(a + 1));
        a += 1;
    }
    a
}

/// Reads stored default file permissions.
pub fn normalize_transfer_file_permissions(value: &str) -> (r: String)
    ensures
        r@ == spec_transfer_file_permissions(value@),
{
    let t = trim(value);
    let v = chars_of(t.as_str());
    let a = permission_digits_start(&v);
    let n = v.len() - a;
    if n == 0 {
        proof {
            reveal_strlit("0");
        }
        return String::from_str("644");
    }
    if n < 3 || n > 4 {
        return String::from_str("644");
    }
    let mut i = a;
    while i < v.len()
        invariant
            a <= i <= v@.len(),
            v@ == spec_trim(value@),
            spec_strip_zeros(spec_strip_octal_prefixes(v@)) == v@.skip(a as int),
            3 <= v@.len() - a <= 4,
            forall|j: int| a <= j < i ==> '0' <= #[trigger] v@[j] && v@[j] <= '7',
        decreases v@.len() - i,
    {
        if v[i] < '0' || v[i] > '7' {
            assert(v@.skip(a as int)[i - a] == v@[i as int]);
            assert(!spec_all_octal(v@.skip(a as int)));
            return String::from_str("644");
        }
        i += 1;
    }
    assert(spec_all_octal(v@.skip(a as int))) by {
        assert forall|j: int| 0 <= j < v@.skip(a as int).len() implies '0' <= #[trigger] v@.skip(
            a as int,
        )[j] && v@.skip(a as int)[j] <= '7' by {
            assert(v@.skip(a as int)[j] == v@[j + a]);
        }
    }
    assert(v@.subrange(a as int, v@.len() as int) =~= v@.skip(a as int));
    string_from_range(&v, a, v.len())
}

/// The title bar's centre reading: `resources`, `host`, `datetime`, `gpu` or
/// `npu` (trimmed), else `session`.
pub open spec fn spec_header_status_setting(value: Seq<char>) -> Seq<char> {
    spec_pick(
        spec_trim(value),
        spec_keys(seq!["resources", "host", "datetime", "gpu", "npu"]),
        "session"@,
    )
}

/// Reads a stored title-bar reading, defaulting to the session it always
/// showed.
pub fn normalize_header_status_mode(value: &str) -> (r: String)
    ensures
        r@ == spec_header_status_setting(value@),
{
    pick(trim(value), &["resources", "host", "datetime", "gpu", "npu"], "session")
}

/// The host-key policy is kept when it is `strict`, `accept` or `prompt`, and
/// is `prompt` for anything else.
pub proof fn lemma_host_key_policy_keeps_known_values(policy: Seq<char>)
    ensures
        (policy == "strict"@ || policy == "accept"@ || policy == "prompt"@) ==> spec_host_key_policy(policy) == policy,
        !(policy == "strict"@ || policy == "accept"@ || policy == "prompt"@) ==> spec_host_key_policy(policy) == "prompt"@,
{
    let keys = spec_keys(seq!["strict", "accept", "prompt"]);
    assert(keys.len() == 3);
    assert(keys[0] == "strict"@);
    assert(keys[1] == "accept"@);
    assert(keys[2] == "prompt"@);
    if policy == "strict"@ {
        assert(keys[0] == policy);
    }
    if policy == "accept"@ {
        assert(keys[1] == policy);
    }
    if policy == "prompt"@ {
        assert(keys[2] == policy);
    }
}

/// The quick-command sort order is the trimmed value when that is `created`,
/// `name` or `useCount`, and `created` for anything else.
pub proof fn lemma_quick_cmd_sort_mode_keeps_known_values(value: Seq<char>)
    ensures
        (spec_trim(value) == "created"@ || spec_trim(value) == "name"@ || spec_trim(value) == "useCount"@) ==> spec_quick_cmd_sort_mode(value) == spec_trim(value),
        !(spec_trim(value) == "created"@ || spec_trim(value) == "name"@ || spec_trim(value) == "useCount"@) ==> spec_quick_cmd_sort_mode(value) == "created"@,
{
    let keys = spec_keys(seq!["created", "name", "useCount"]);
    assert(keys.len() == 3);
    assert(keys[0] == "created"@);
    assert(keys[1] == "name"@);
    assert(keys[2] == "useCount"@);
    if spec_trim(value) == "created"@ {
        assert(keys[0] == spec_trim(value));
    }
    if spec_trim(value) == "name"@ {
        assert(keys[1] == spec_trim(value));
    }
    if spec_trim(value) == "useCount"@ {
        assert(keys[2] == spec_trim(value));
    }
}

/// The quick-command view is the trimmed value when that is `list`,
/// `compact` or `tile`, and `tile` for anything else.
pub proof fn lemma_quick_cmd_view_mode_keeps_known_values(value: Seq<char>)
    ensures
        (spec_trim(value) == "list"@ || spec_trim(value) == "compact"@ || spec_trim(value) == "tile"@) ==> spec_quick_cmd_view_mode(value) == spec_trim(value),
        !(spec_trim(value) == "list"@ || spec_trim(value) == "compact"@ || spec_trim(value) == "tile"@) ==> spec_quick_cmd_view_mode(value) == "tile"@,
{
    let keys = spec_keys(seq!["list", "compact", "tile"]);
    assert(keys.len() == 3);
    assert(keys[0] == "list"@);
    assert(keys[1] == "compact"@);
    assert(keys[2] == "tile"@);
    if spec_trim(value) == "list"@ {
        assert(keys[0] == spec_trim(value));
    }
    if spec_trim(value) == "compact"@ {
        assert(keys[1] == spec_trim(value));
    }
    if spec_trim(value) == "tile"@ {
        assert(keys[2] == spec_trim(value));
    }
}

/// The saved-connection order is the trimmed value when that is `name-asc`
/// or `name-desc`, and `default` for anything else.
pub proof fn lemma_saved_connections_sort_mode_keeps_known_values(value: Seq<char>)
    ensures
        (spec_trim(value) == "name-asc"@ || spec_trim(value) == "name-desc"@) ==> spec_saved_connections_sort_mode(value) == spec_trim(value),
        !(spec_trim(value) == "name-asc"@ || spec_trim(value) == "name-desc"@) ==> spec_saved_connections_sort_mode(value) == "default"@,
{
    let keys = spec_keys(seq!["name-asc", "name-desc"]);
    assert(keys.len() == 2);
    assert(keys[0] == "name-asc"@);
    assert(keys[1] == "name-desc"@);
    if spec_trim(value) == "name-asc"@ {
        assert(keys[0] == spec_trim(value));
    }
    if spec_trim(value) == "name-desc"@ {
        assert(keys[1] == spec_trim(value));
    }
}

/// The duplicate-file strategy is kept when it is `ask`, `overwrite`, `skip`
/// or `rename`, and is `ask` for anything else.
pub proof fn lemma_duplicate_strategy_keeps_known_values(strategy: Seq<char>)
    ensures
        (strategy == "ask"@ || strategy == "overwrite"@ || strategy == "skip"@ || strategy == "rename"@) ==> spec_transfer_duplicate_strategy(strategy) == strategy,
        !(strategy == "ask"@ || strategy == "overwrite"@ || strategy == "skip"@ || strategy == "rename"@) ==> spec_transfer_duplicate_strategy(strategy) == "ask"@,
{
    let keys = spec_keys(seq!["ask", "overwrite", "skip", "rename"]);
    assert(keys.len() == 4);
    assert(keys[0] == "ask"@);
    assert(keys[1] == "overwrite"@);
    assert(keys[2] == "skip"@);
    assert(keys[3] == "rename"@);
    if strategy == "ask"@ {
        assert(keys[0] == strategy);
    }
    if strategy == "overwrite"@ {
        assert(keys[1] == strategy);
    }
    if strategy == "skip"@ {
        assert(keys[2] == strategy);
    }
    if strategy == "rename"@ {
        assert(keys[3] == strategy);
    }
}

/// The editor choice is kept when it is `external` or `internal`, and is
/// `external` for anything else.
pub proof fn lemma_editor_type_keeps_known_values(editor_type: Seq<char>)
    ensures
        (editor_type == "external"@ || editor_type == "internal"@) ==> spec_transfer_editor_type(editor_type) == editor_type,
        !(editor_type == "external"@ || editor_type == "internal"@) ==> spec_transfer_editor_type(editor_type) == "external"@,
{
    let keys = spec_keys(seq!["external", "internal"]);
    assert(keys.len() == 2);
    assert(keys[0] == "external"@);
    assert(keys[1] == "internal"@);
    if editor_type == "external"@ {
        assert(keys[0] == editor_type);
    }
    if editor_type == "internal"@ {
        assert(keys[1] == editor_type);
    }
}

/// The title-bar reading is the trimmed value when that is `resources`,
/// `host`, `datetime`, `gpu` or `npu`, and `session` for anything else.
pub proof fn lemma_header_status_setting_keeps_known_values(value: Seq<char>)
    ensures
        (spec_trim(value) == "resources"@ || spec_trim(value) == "host"@ || spec_trim(value) == "datetime"@ || spec_trim(value) == "gpu"@ || spec_trim(value) == "npu"@) ==> spec_header_status_setting(value) == spec_trim(value),
        !(spec_trim(value) == "resources"@ || spec_trim(value) == "host"@ || spec_trim(value) == "datetime"@ || spec_trim(value) == "gpu"@ || spec_trim(value) == "npu"@) ==> spec_header_status_setting(value) == "session"@,
{
    let keys = spec_keys(seq!["resources", "host", "datetime", "gpu", "npu"]);
    assert(keys.len() == 5);
    assert(keys[0] == "resources"@);
    assert(keys[1] == "host"@);
    assert(keys[2] == "datetime"@);
    assert(keys[3] == "gpu"@);
    assert(keys[4] == "npu"@);
    if spec_trim(value) == "resources"@ {
        assert(keys[0] == spec_trim(value));
    }
    if spec_trim(value) == "host"@ {
        assert(keys[1] == spec_trim(value));
    }
    if spec_trim(value) == "datetime"@ {
        assert(keys[2] == spec_trim(value));
    }
    if spec_trim(value) == "gpu"@ {
        assert(keys[3] == spec_trim(value));
    }
    if spec_trim(value) == "npu"@ {
        assert(keys[4] == spec_trim(value));
    }
}

} // verus!
