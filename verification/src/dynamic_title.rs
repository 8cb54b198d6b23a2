//! Sanitising of titles that remote programs set through OSC escape sequences.

use unicode_normalization::UnicodeNormalization;
use unicode_segmentation::UnicodeSegmentation;
use vstd::prelude::*;
use vstd::seq_lib::lemma_flatten_concat;

use crate::text::{is_whitespace, spec_is_whitespace};

verus! {

/// The longest title, in code points, that a remote program may set.
pub const MAX_DYNAMIC_TITLE_CODE_POINTS: usize = 256;

/// The horizontal ellipsis that marks a truncated title.
pub const TITLE_ELLIPSIS: char = '\u{2026}';

/// Unicode Normalization Form C of a character sequence.
pub uninterp spec fn spec_nfc(s: Seq<char>) -> Seq<char>;

/// The extended grapheme clusters of a character sequence, in order.
pub uninterp spec fn spec_graphemes(s: Seq<char>) -> Seq<Seq<char>>;

/// `UnicodeNormalization::nfc` of `unicode-normalization`, collected: the
/// characters of `value` in Normalization Form C. What NFC gives for a given
/// input is left to the name `spec_nfc`.
#[verifier::external_body]
fn nfc_chars(value: &str) -> (r: Vec<char>)
    ensures
        r@ == spec_nfc(value@),
{
    value.nfc().collect()
}

/// `UnicodeSegmentation::graphemes(value, true)` of `unicode-segmentation`:
/// the extended grapheme clusters of `value`, in order. The crate yields
/// consecutive slices from the start to the end of the string, so the clusters
/// concatenate back to `value`; where the boundaries fall is left to the name
/// `spec_graphemes`.
#[verifier::external_body]
fn grapheme_clusters(value: &str) -> (r: Vec<String>)
    ensures
        r@.map_values(|g: String| g@) == spec_graphemes(value@),
        r@.map_values(|g: String| g@).flatten() == value@,
{
    value.graphemes(true).map(|g| g.to_string()).collect()
}

/// Bidirectional formatting controls that could reorder a title on screen.
pub open spec fn spec_is_bidi_formatting_control(c: char) -> bool {
    let u = c as u32;
    u == 0x061c || u == 0x200e || u == 0x200f || (0x202a <= u && u <= 0x202e) || (0x2066 <= u
        && u <= 0x206f)
}

/// C0 and C1 control characters, DEL included.
pub open spec fn spec_is_non_printing_control(c: char) -> bool {
    let u = c as u32;
    u <= 0x1f || (0x7f <= u && u <= 0x9f)
}

/// Whether `ch` is a bidirectional formatting control.
pub fn is_bidi_formatting_control(ch: char) -> (r: bool)
    ensures
        r == spec_is_bidi_formatting_control(ch),
{
    let u = ch as u32;
    u == 0x061c || u == 0x200e || u == 0x200f || (0x202a <= u && u <= 0x202e) || (0x2066 <= u
        && u <= 0x206f)
}

/// Whether `ch` is a C0/C1 control character or DEL.
pub fn is_non_printing_control(ch: char) -> (r: bool)
    ensures
        r == spec_is_non_printing_control(ch),
{
    let u = ch as u32;
    u <= 0x1f || (0x7f <= u && u <= 0x9f)
}

/// The state after reading `s`: the collapsed text so far, and whether a run
/// of white space is waiting to become a single space.
pub open spec fn collapse_state(s: Seq<char>) -> (Seq<char>, bool)
    decreases s.len(),
{
    if s.len() == 0 {
        (Seq::empty(), false)
    } else {
        let (out, pending) = collapse_state(s.drop_last());
        let ch = s.last();
        if spec_is_bidi_formatting_control(ch) {
            (out, pending)
        } else if spec_is_whitespace(ch) {
            (out, out.len() > 0)
        } else if spec_is_non_printing_control(ch) {
            (out, pending)
        } else if pending {
            (out.push(' ').push(ch), false)
        } else {
            (out.push(ch), false)
        }
    }
}

/// `s` with bidi controls and control characters removed, leading and
/// trailing white space dropped and inner runs of white space made one space.
pub open spec fn spec_collapse_title(s: Seq<char>) -> Seq<char> {
    collapse_state(s).0
}

/// Collapses white space and drops controls, as `spec_collapse_title` says.
pub fn collapse_title_chars(chars: &Vec<char>) -> (r: String)
    ensures
        r@ == spec_collapse_title(chars@),
{
    let mut normalized = String::new();
    let mut whitespace_pending = false;
    let mut i: usize = 0;
    while i < chars.len()
        invariant
            i <= chars@.len(),
            (normalized@, whitespace_pending) == collapse_state(chars@.take(i as int)),
        decreases chars@.len() - i,
    {
        let ch = chars[i];
        assert(chars@.take(i + 1).drop_last() == chars@.take(i as int));
        if is_bidi_formatting_control(ch) {
        } else if is_whitespace(ch) {
            whitespace_pending = !normalized.as_str().is_empty();
        } else if is_non_printing_control(ch) {
        } else {
            if whitespace_pending {
                normalized.push(' ');
                whitespace_pending = false;
            }
            normalized.push(ch);
        }
        i += 1;
    }
    assert(chars@.take(chars@.len() as int) == chars@);
    normalized
}

/// How many leading clusters of `cs` fit, one after another, in `limit` code
/// points.
pub open spec fn fit_count(cs: Seq<Seq<char>>, limit: int) -> nat
    decreases cs.len(),
{
    if cs.len() == 0 || cs[0].len() > limit {
        0
    } else {
        1 + fit_count(cs.drop_first(), limit - cs[0].len())
    }
}

/// The longest run of whole leading clusters of `cs` that fits in `limit`
/// code points, concatenated.
pub open spec fn spec_fitting_clusters(cs: Seq<Seq<char>>, limit: int) -> Seq<char> {
    cs.take(fit_count(cs, limit) as int).flatten()
}

/// `value` cut to at most `max` code points without splitting a grapheme
/// cluster; a cut title ends with an ellipsis that counts towards `max`.
pub open spec fn spec_truncate_grapheme_safe(value: Seq<char>, max: int) -> Seq<char> {
    if value.len() <= max {
        value
    } else if max <= 0 {
        Seq::empty()
    } else {
        spec_fitting_clusters(spec_graphemes(value), max - 1).push(TITLE_ELLIPSIS)
    }
}

/// What a remote program's title becomes once it is in NFC: `None` when
/// nothing printable is left, else the collapsed title cut to the limit.
pub open spec fn spec_sanitize_normalized_title(normalized: Seq<char>) -> Option<Seq<char>> {
    let collapsed = spec_collapse_title(normalized);
    if collapsed.len() == 0 {
        None
    } else {
        Some(spec_truncate_grapheme_safe(collapsed, MAX_DYNAMIC_TITLE_CODE_POINTS as int))
    }
}

/// A cleaned title: no bidi formatting or control character, no white space
/// other than a plain space, no space at either end and never two in a row.
pub open spec fn spec_is_clean_title(t: Seq<char>) -> bool {
    &&& forall|i: int|
        0 <= i < t.len() ==> !spec_is_bidi_formatting_control(#[trigger] t[i])
            && !spec_is_non_printing_control(t[i]) && (spec_is_whitespace(t[i]) ==> t[i] == ' ')
    &&& t.len() > 0 ==> t[0] != ' ' && t.last() != ' '
    &&& forall|i: int| 0 <= i < t.len() - 1 ==> !(#[trigger] t[i] == ' ' && t[i + 1] == ' ')
}

/// Collapsing leaves a clean title, and a pending space only ever follows text.
proof fn lemma_collapse_state_clean(s: Seq<char>)
    ensures
        spec_is_clean_title(collapse_state(s).0),
        collapse_state(s).1 ==> collapse_state(s).0.len() > 0,
    decreases s.len(),
{
    if s.len() > 0 {
        lemma_collapse_state_clean(s.drop_last());
        let (out, pending) = collapse_state(s.drop_last());
        let ch = s.last();
        if !spec_is_bidi_formatting_control(ch) && !spec_is_whitespace(ch)
            && !spec_is_non_printing_control(ch) {
            if pending {
                let t = out.push(' ').push(ch);
                assert forall|i: int| 0 <= i < t.len() - 1 implies !(#[trigger] t[i] == ' ' && t[
                    i + 1] == ' ') by {
                    if i < out.len() - 1 {
                        assert(t[i] == out[i] && t[i + 1] == out[i + 1]);
                    }
                }
                assert forall|i: int| 0 <= i < t.len() implies !spec_is_bidi_formatting_control(
                    #[trigger] t[i]) && !spec_is_non_printing_control(t[i]) && (
                spec_is_whitespace(t[i]) ==> t[i] == ' ') by {
                    if i < out.len() {
                        assert(t[i] == out[i]);
                    }
                }
            } else {
                let t = out.push(ch);
                assert forall|i: int| 0 <= i < t.len() - 1 implies !(#[trigger] t[i] == ' ' && t[
                    i + 1] == ' ') by {
                    if i < out.len() - 1 {
                        assert(t[i] == out[i] && t[i + 1] == out[i + 1]);
                    }
                }
                assert forall|i: int| 0 <= i < t.len() implies !spec_is_bidi_formatting_control(
                    #[trigger] t[i]) && !spec_is_non_printing_control(t[i]) && (
                spec_is_whitespace(t[i]) ==> t[i] == ' ') by {
                    if i < out.len() {
                        assert(t[i] == out[i]);
                    }
                }
            }
        }
    }
}

/// Dropping a control character (C0, DEL or C1) that is not white space
/// from a title never changes what the title collapses to: such characters
/// vanish without leaving a space behind.
pub proof fn lemma_controls_vanish_from_titles(s: Seq<char>, i: int)
    requires
        0 <= i < s.len(),
        (s[i] as u32) <= 0x1f || (0x7f <= (s[i] as u32) && (s[i] as u32) <= 0x9f),
        !spec_is_whitespace(s[i]),
    ensures
        spec_collapse_title(s.remove(i)) == spec_collapse_title(s),
        collapse_state(s.remove(i)) == collapse_state(s),
    decreases s.len(),
{
    if i == s.len() - 1 {
        assert(s.remove(i) =~= s.drop_last());
    } else {
        lemma_controls_vanish_from_titles(s.drop_last(), i);
        assert(s.remove(i).drop_last() =~= s.drop_last().remove(i));
        assert(s.remove(i).last() == s.last());
    }
}

/// Between two printable characters, collapsing puts a space only where the
/// title had white space: a title without white space collapses to its
/// printable characters alone, in order.
pub proof fn lemma_titles_without_white_space_gain_no_space(s: Seq<char>)
    requires
        forall|i: int| 0 <= i < s.len() ==> !spec_is_whitespace(#[trigger] s[i]),
    ensures
        !collapse_state(s).1,
        forall|j: int| 0 <= j < collapse_state(s).0.len() ==> #[trigger] collapse_state(s).0[j] != ' ',
    decreases s.len(),
{
    if s.len() > 0 {
        let d = s.drop_last();
        assert forall|i: int| 0 <= i < d.len() implies !spec_is_whitespace(#[trigger] d[i]) by {
            assert(d[i] == s[i]);
        }
        lemma_titles_without_white_space_gain_no_space(d);
        let out = collapse_state(d).0;
        let ch = s.last();
        assert(!spec_is_whitespace(ch));
        assert(ch != ' ') by {
            assert(spec_is_whitespace(' '));
        }
        let t = collapse_state(s).0;
        assert forall|j: int| 0 <= j < t.len() implies #[trigger] t[j] != ' ' by {
            if j < out.len() {
                if t.len() > out.len() {
                    assert(t == out.push(ch));
                    assert(t[j] == out[j]);
                }
            }
        }
    }
}

/// The clusters that fit in `limit` code points take at most `limit` of them.
proof fn lemma_fitting_clusters_len(cs: Seq<Seq<char>>, limit: int)
    ensures
        limit >= 0 ==> spec_fitting_clusters(cs, limit).len() <= limit,
        fit_count(cs, limit) <= cs.len(),
    decreases cs.len(),
{
    if cs.len() > 0 && cs[0].len() <= limit {
        lemma_fitting_clusters_len(cs.drop_first(), limit - cs[0].len());
        let n = fit_count(cs.drop_first(), limit - cs[0].len()) as int;
        assert(cs.take(1 + n) =~= seq![cs[0]] + cs.drop_first().take(n));
        lemma_flatten_concat(seq![cs[0]], cs.drop_first().take(n));
        seq![cs[0]].lemma_flatten_singleton();
    } else {
        assert(cs.take(0) == Seq::<Seq<char>>::empty());
    }
}

/// The concatenation of the leading clusters that fit in `limit` code points.
pub fn take_fitting_clusters(clusters: &Vec<String>, limit: usize) -> (r: String)
    ensures
        r@ == spec_fitting_clusters(clusters@.map_values(|g: String| g@), limit as int),
{
    let ghost cs = clusters@.map_values(|g: String| g@);
    let mut result = String::new();
    let mut used: usize = 0;
    let mut i: usize = 0;
    assert(cs.skip(0) == cs);
    while i < clusters.len()
        invariant
            i <= clusters@.len(),
            cs == clusters@.map_values(|g: String| g@),
            used <= limit,
            result@ == cs.take(i as int).flatten(),
            used == result@.len(),
            fit_count(cs, limit as int) == i + fit_count(cs.skip(i as int), limit - used),
        ensures
            result@ == cs.take(i as int).flatten(),
            fit_count(cs, limit as int) == i,
        decreases clusters@.len() - i,
    {
        assert(cs.skip(i as int).len() > 0);
        let grapheme = clusters[i].as_str();
        let grapheme_len = grapheme.unicode_len();
        assert(cs.skip(i as int)[0] == cs[i as int]);
        if grapheme_len > limit - used {
            assert(fit_count(cs.skip(i as int), limit - used) == 0);
            break;
        }
        assert(cs.skip(i as int).drop_first() == cs.skip(i + 1));
        assert(cs.take(i + 1) == cs.take(i as int).push(cs[i as int]));
        proof { cs.take(i as int).lemma_flatten_push(cs[i as int]); }
        result.append(grapheme);
        used += grapheme_len;
        i += 1;
    }
    result
}

/// Cuts `value` to at most `max_code_points` without splitting a grapheme
/// cluster, marking a cut with an ellipsis.
pub fn truncate_grapheme_safe(value: &str, max_code_points: usize) -> (r: String)
    ensures
        r@ == spec_truncate_grapheme_safe(value@, max_code_points as int),
        r@.len() <= max_code_points,
        value@.len() > max_code_points > 0 ==> r@.last() == TITLE_ELLIPSIS && r@.drop_last()
            == value@.take(r@.len() - 1),
{
    if value.unicode_len() <= max_code_points {
        return String::from_str(value);
    }
    if max_code_points == 0 {
        return String::new();
    }
    let content_limit = max_code_points - 1;
    let clusters = grapheme_clusters(value);
    let mut result = take_fitting_clusters(&clusters, content_limit);
    proof {
        let cs = clusters@.map_values(|g: String| g@);
        let n = fit_count(cs, content_limit as int) as int;
        lemma_fitting_clusters_len(cs, content_limit as int);
        assert(cs =~= cs.take(n) + cs.skip(n));
        lemma_flatten_concat(cs.take(n), cs.skip(n));
        assert(result@ =~= value@.take(result@.len() as int));
    }
    result.push(TITLE_ELLIPSIS);
    proof {
        assert(result@.drop_last() =~= value@.take(result@.len() - 1));
    }
    result
}

/// The title that a normalised (NFC) title becomes, as
/// `spec_sanitize_normalized_title` says.
pub fn sanitize_normalized_title(normalized: &Vec<char>) -> (r: Option<String>)
    ensures
        r is None <==> spec_sanitize_normalized_title(normalized@) is None,
        r matches Some(t) ==> t@ == spec_sanitize_normalized_title(normalized@)->0,
        r matches Some(t) ==> 0 < t@.len() <= MAX_DYNAMIC_TITLE_CODE_POINTS
            && spec_is_clean_title(t@),
{
    let collapsed = collapse_title_chars(normalized);
    if collapsed.as_str().is_empty() {
        return None;
    }
    let t = truncate_grapheme_safe(collapsed.as_str(), MAX_DYNAMIC_TITLE_CODE_POINTS);
    proof {
        lemma_collapse_state_clean(normalized@);
        if collapsed@.len() > MAX_DYNAMIC_TITLE_CODE_POINTS {
            lemma_cut_clean_title_stays_clean(collapsed@, t@);
        }
    }
    Some(t)
}

/// A clean title cut short and ended with an ellipsis is still clean.
proof fn lemma_cut_clean_title_stays_clean(c: Seq<char>, t: Seq<char>)
    requires
        spec_is_clean_title(c),
        t.len() > 0,
        t.last() == TITLE_ELLIPSIS,
        t.drop_last() == c.take(t.len() - 1),
        t.len() - 1 <= c.len(),
    ensures
        spec_is_clean_title(t),
{
    assert forall|i: int| 0 <= i < t.len() - 1 implies t[i] == c[i] by {
        assert(t[i] == t.drop_last()[i]);
    }
    assert forall|i: int| 0 <= i < t.len() - 1 implies !(#[trigger] t[i] == ' ' && t[i + 1]
        == ' ') by {
        if i + 1 < t.len() - 1 {
            assert(t[i] == c[i] && t[i + 1] == c[i + 1]);
        }
    }
    assert forall|i: int| 0 <= i < t.len() implies !spec_is_bidi_formatting_control(
        #[trigger] t[i]) && !spec_is_non_printing_control(t[i]) && (spec_is_whitespace(t[i])
        ==> t[i] == ' ') by {
        if i < t.len() - 1 {
            assert(t[i] == c[i]);
        }
    }
}

/// Sanitises a title that a remote program set: NFC, no bidi or control
/// characters, white space collapsed, at most
/// `MAX_DYNAMIC_TITLE_CODE_POINTS` code points. `None` when nothing is left.
pub fn sanitize_dynamic_title(value: &str) -> (r: Option<String>)
    ensures
        r is None <==> spec_sanitize_normalized_title(spec_nfc(value@)) is None,
        r matches Some(t) ==> t@ == spec_sanitize_normalized_title(spec_nfc(value@))->0,
        r matches Some(t) ==> 0 < t@.len() <= MAX_DYNAMIC_TITLE_CODE_POINTS
            && spec_is_clean_title(t@),
{
    let normalized = nfc_chars(value);
    sanitize_normalized_title(&normalized)
}

} // verus!
