//! Cursor arithmetic of the remote file editor: byte offsets into UTF-8 text
//! that always land between characters, and the lines, words and brackets
//! around them.

use std::ops::Range;

use vstd::prelude::*;

use crate::text::{chars_of, is_alphanumeric, is_whitespace, spec_is_alphanumeric, spec_is_whitespace};

verus! {

/// How many bytes UTF-8 takes for `c`.
pub open spec fn spec_width(c: char) -> int {
    let u = c as u32;
    if u <= 0x7f {
        1
    } else if u <= 0x7ff {
        2
    } else if u <= 0xffff {
        3
    } else {
        4
    }
}

/// How many bytes UTF-8 takes for `s`.
pub open spec fn spec_byte_len(s: Seq<char>) -> int
    decreases s.len(),
{
    if s.len() == 0 {
        0
    } else {
        spec_width(s[0]) + spec_byte_len(s.drop_first())
    }
}

/// The byte offset at which character `k` of `s` starts (the length of the
/// text for `k == s.len()`).
pub open spec fn spec_offset(s: Seq<char>, k: int) -> int {
    spec_byte_len(s.take(k))
}

/// The number of whole characters of `s` that fit in its first `o` bytes.
pub open spec fn spec_floor_index(s: Seq<char>, o: int) -> int
    decreases s.len(),
{
    if s.len() == 0 || spec_width(s[0]) > o {
        0
    } else {
        1 + spec_floor_index(s.drop_first(), o - spec_width(s[0]))
    }
}

/// `spec_width` is the length of the UTF-8 encoding of `c`.
pub proof fn lemma_width_is_utf8(c: char)
    ensures
        spec_width(c) == vstd::utf8::encode_scalar(c as u32).len(),
{
    vstd::utf8::char_is_scalar(c);
}

/// `spec_byte_len` is the length of the UTF-8 encoding of `s`.
pub proof fn lemma_byte_len_is_utf8(s: Seq<char>)
    ensures
        spec_byte_len(s) == vstd::utf8::encode_utf8(s).len(),
    decreases s.len(),
{
    if s.len() > 0 {
        lemma_width_is_utf8(s[0]);
        lemma_byte_len_is_utf8(s.drop_first());
    }
}

pub proof fn lemma_width_bounds(c: char)
    ensures
        1 <= spec_width(c) <= 4,
{
}

/// Adding a character adds its width.
pub proof fn lemma_byte_len_push(s: Seq<char>, c: char)
    ensures
        spec_byte_len(s.push(c)) == spec_byte_len(s) + spec_width(c),
    decreases s.len(),
{
    if s.len() > 0 {
        lemma_byte_len_push(s.drop_first(), c);
        assert(s.push(c).drop_first() =~= s.drop_first().push(c));
        assert(s.push(c)[0] == s[0]);
    } else {
        assert(s.push(c).drop_first() =~= Seq::<char>::empty());
        assert(s.push(c)[0] == c);
        assert(spec_byte_len(Seq::<char>::empty()) == 0);
    }
}

/// Offsets grow with the character index, by each character's width.
pub proof fn lemma_offset_step(s: Seq<char>, k: int)
    requires
        0 <= k < s.len(),
    ensures
        spec_offset(s, k + 1) == spec_offset(s, k) + spec_width(s[k]),
{
    assert(s.take(k + 1) =~= s.take(k).push(s[k]));
    lemma_byte_len_push(s.take(k), s[k]);
}

/// Offsets are increasing and bounded by the whole length.
pub proof fn lemma_offset_mono(s: Seq<char>, j: int, k: int)
    requires
        0 <= j <= k <= s.len(),
    ensures
        spec_offset(s, j) + (k - j) <= spec_offset(s, k),
        spec_offset(s, 0) == 0,
        spec_offset(s, s.len() as int) == spec_byte_len(s),
    decreases k - j,
{
    assert(s.take(0) =~= Seq::<char>::empty());
    assert(s.take(s.len() as int) =~= s);
    if j < k {
        lemma_offset_mono(s, j, k - 1);
        lemma_offset_step(s, k - 1);
        lemma_width_bounds(s[k - 1]);
    }
}

/// The floor index counts the characters whose end is within `o` bytes.
pub proof fn lemma_floor_index(s: Seq<char>, o: int)
    requires
        o >= 0,
    ensures
        0 <= spec_floor_index(s, o) <= s.len(),
        spec_offset(s, spec_floor_index(s, o)) <= o,
        spec_floor_index(s, o) < s.len() ==> spec_offset(s, spec_floor_index(s, o) + 1) > o,
    decreases s.len(),
{
    assert(s.take(0) =~= Seq::<char>::empty());
    if s.len() > 0 && spec_width(s[0]) <= o {
        let t = s.drop_first();
        lemma_floor_index(t, o - spec_width(s[0]));
        let k = spec_floor_index(t, o - spec_width(s[0]));
        assert(s.take(k + 1).drop_first() =~= t.take(k));
        assert(s.take(k + 1)[0] == s[0]);
        if k + 1 < s.len() {
            assert(s.take(k + 2).drop_first() =~= t.take(k + 1));
            assert(s.take(k + 2)[0] == s[0]);
        }
    } else if s.len() > 0 {
        assert(s.take(1).drop_first() =~= Seq::<char>::empty());
    }
}

/// The characters of `content` with the byte offset at which each starts,
/// and the whole length last.
pub struct Utf8Layout {
    pub chars: Vec<char>,
    pub starts: Vec<usize>,
}

impl Utf8Layout {
    /// Whether this is the layout of `s`.
    pub open spec fn is_layout_of(&self, s: Seq<char>) -> bool {
        &&& self.chars@ == s
        &&& self.starts@.len() == s.len() + 1
        &&& forall|k: int| 0 <= k <= s.len() ==> #[trigger] self.starts@[k] == spec_offset(s, k)
    }
}

/// The width of `c` in UTF-8.
pub fn width(c: char) -> (r: usize)
    ensures
        r == spec_width(c),
{
    let u = c as u32;
    if u <= 0x7f {
        1
    } else if u <= 0x7ff {
        2
    } else if u <= 0xffff {
        3
    } else {
        4
    }
}

/// The layout of `content`.
pub fn utf8_layout(content: &str) -> (r: Utf8Layout)
    requires
        spec_byte_len(content@) <= usize::MAX,
    ensures
        r.is_layout_of(content@),
{
    let chars = chars_of(content);
    let ghost s = chars@;
    let mut starts: Vec<usize> = Vec::new();
    let mut pos: usize = 0;
    let mut k: usize = 0;
    proof {
        lemma_offset_mono(s, 0, s.len() as int);
    }
    while k < chars.len()
        invariant
            k <= s.len(),
            s == chars@,
            s == content@,
            spec_byte_len(s) <= usize::MAX,
            pos == spec_offset(s, k as int),
            starts@.len() == k,
            forall|j: int| 0 <= j < k ==> #[trigger] starts@[j] == spec_offset(s, j),
        decreases s.len() - k,
    {
        starts.push(pos);
        proof {
            lemma_offset_step(s, k as int);
            lemma_offset_mono(s, k + 1, s.len() as int);
        }
        pos = pos + width(chars[k]);
        k += 1;
    }
    starts.push(pos);
    Utf8Layout { chars, starts }
}

/// The character index of the last boundary at or before byte `o`.
pub(crate) fn floor_index(layout: &Utf8Layout, o: usize) -> (k: usize)
    requires
        layout.is_layout_of(layout.chars@),
    ensures
        k == spec_floor_index(layout.chars@, o as int),
        k <= layout.chars@.len(),
{
    let ghost s = layout.chars@;
    proof {
        lemma_floor_index(s, o as int);
    }
    let mut k: usize = 0;
    while k < layout.chars.len() && layout.starts[k + 1] <= o
        invariant
            k <= spec_floor_index(s, o as int),
            layout.is_layout_of(s),
            s == layout.chars@,
            0 <= spec_floor_index(s, o as int) <= s.len(),
            spec_offset(s, spec_floor_index(s, o as int)) <= o,
            spec_floor_index(s, o as int) < s.len() ==> spec_offset(
                s,
                spec_floor_index(s, o as int) + 1,
            ) > o,
        decreases s.len() - k,
    {
        proof {
            let f = spec_floor_index(s, o as int);
            if k + 1 > f {
                lemma_offset_mono(s, f + 1, k + 1);
            }
        }
        k += 1;
    }
    proof {
        let f = spec_floor_index(s, o as int);
        if k < f {
            lemma_offset_mono(s, k + 1, f);
        }
    }
    k
}

/// The nearest boundary between characters at or before byte `offset`, no
/// further than the end.
pub open spec fn spec_nearest_char_boundary(s: Seq<char>, offset: int) -> int {
    spec_offset(s, spec_floor_index(s, offset))
}

/// The boundary before the character that ends at or before `offset`.
pub open spec fn spec_previous_char_boundary(s: Seq<char>, offset: int) -> int {
    let k = spec_floor_index(s, offset);
    if k == 0 {
        0
    } else {
        spec_offset(s, k - 1)
    }
}

/// The boundary after the character that starts at the nearest boundary;
/// the end when there is none.
pub open spec fn spec_next_char_boundary(s: Seq<char>, offset: int) -> int {
    let k = spec_floor_index(s, offset);
    if k == s.len() {
        spec_byte_len(s)
    } else {
        spec_offset(s, k + 1)
    }
}

/// The nearest boundary between characters at or before `offset`.
pub fn nearest_char_boundary(content: &str, offset: usize) -> (r: usize)
    requires
        spec_byte_len(content@) <= usize::MAX,
    ensures
        r == spec_nearest_char_boundary(content@, offset as int),
{
    let layout = utf8_layout(content);
    let k = floor_index(&layout, offset);
    layout.starts[k]
}

/// The boundary before the character that ends at or before `offset`.
pub fn previous_char_boundary(content: &str, offset: usize) -> (r: usize)
    requires
        spec_byte_len(content@) <= usize::MAX,
    ensures
        r == spec_previous_char_boundary(content@, offset as int),
{
    let layout = utf8_layout(content);
    let k = floor_index(&layout, offset);
    if k == 0 {
        0
    } else {
        layout.starts[k - 1]
    }
}

/// The boundary after the character at the nearest boundary.
pub fn next_char_boundary(content: &str, offset: usize) -> (r: usize)
    requires
        spec_byte_len(content@) <= usize::MAX,
    ensures
        r == spec_next_char_boundary(content@, offset as int),
{
    let layout = utf8_layout(content);
    let k = floor_index(&layout, offset);
    proof {
        lemma_offset_mono(content@, 0, content@.len() as int);
    }
    if k == layout.chars.len() {
        layout.starts[k]
    } else {
        layout.starts[k + 1]
    }
}

/// The index of the last line break among the first `k` characters.
pub open spec fn spec_last_newline_before(s: Seq<char>, k: int) -> Option<int>
    decreases k,
{
    if k <= 0 {
        None
    } else if s[k - 1] == '\n' {
        Some(k - 1)
    } else {
        spec_last_newline_before(s, k - 1)
    }
}

/// The index of the first line break at or after character `k`.
pub open spec fn spec_first_newline_from(s: Seq<char>, k: int) -> Option<int>
    decreases s.len() - k,
{
    if k < 0 || k >= s.len() {
        None
    } else if s[k] == '\n' {
        Some(k)
    } else {
        spec_first_newline_from(s, k + 1)
    }
}

/// Where the line holding `offset` starts: just after the last line break
/// before it.
pub open spec fn spec_line_start(s: Seq<char>, offset: int) -> int {
    match spec_last_newline_before(s, spec_floor_index(s, offset)) {
        Some(j) => spec_offset(s, j + 1),
        None => 0,
    }
}

/// Where the line holding `offset` ends: at the first line break from it,
/// else at the end of the text.
pub open spec fn spec_line_end(s: Seq<char>, offset: int) -> int {
    match spec_first_newline_from(s, spec_floor_index(s, offset)) {
        Some(j) => spec_offset(s, j),
        None => spec_byte_len(s),
    }
}

/// Where the line holding `offset` starts.
pub fn line_start(content: &str, offset: usize) -> (r: usize)
    requires
        spec_byte_len(content@) <= usize::MAX,
    ensures
        r == spec_line_start(content@, offset as int),
{
    let layout = utf8_layout(content);
    let ghost s = content@;
    let k = floor_index(&layout, offset);
    let mut j = k;
    while j > 0 && layout.chars[j - 1] != '\n'
        invariant
            j <= k <= s.len(),
            layout.is_layout_of(s),
            spec_last_newline_before(s, k as int) == spec_last_newline_before(s, j as int),
        decreases j,
    {
        j -= 1;
    }
    if j == 0 {
        0
    } else {
        layout.starts[j]
    }
}

/// Where the line holding `offset` ends.
pub fn line_end(content: &str, offset: usize) -> (r: usize)
    requires
        spec_byte_len(content@) <= usize::MAX,
    ensures
        r == spec_line_end(content@, offset as int),
{
    let layout = utf8_layout(content);
    let ghost s = content@;
    let k = floor_index(&layout, offset);
    let mut j = k;
    while j < layout.chars.len() && layout.chars[j] != '\n'
        invariant
            k <= j <= s.len(),
            layout.is_layout_of(s),
            spec_first_newline_from(s, k as int) == spec_first_newline_from(s, j as int),
        decreases s.len() - j,
    {
        j += 1;
    }
    proof {
        lemma_offset_mono(s, 0, s.len() as int);
    }
    layout.starts[j]
}

/// Whether byte `o` falls between two characters of `s` (or at an end).
pub open spec fn spec_is_boundary(s: Seq<char>, o: int) -> bool {
    0 <= o <= spec_byte_len(s) && spec_offset(s, spec_floor_index(s, o)) == o
}

/// The byte offset of character `column` of the text between the
/// boundaries `start` and `end`; `end` when the text is shorter.
pub open spec fn spec_byte_offset_for_char_column(
    s: Seq<char>,
    start: int,
    end: int,
    column: int,
) -> int {
    let a = spec_floor_index(s, start);
    let b = spec_floor_index(s, end);
    if column < b - a {
        spec_offset(s, a + column)
    } else {
        end
    }
}

/// The byte offset of character `column` between `start` and `end`.
pub fn byte_offset_for_char_column(content: &str, start: usize, end: usize, column: usize) -> (r:
    usize)
    requires
        spec_byte_len(content@) <= usize::MAX,
        start <= end,
        spec_is_boundary(content@, start as int),
        spec_is_boundary(content@, end as int),
    ensures
        r == spec_byte_offset_for_char_column(content@, start as int, end as int, column as int),
{
    let layout = utf8_layout(content);
    let a = floor_index(&layout, start);
    let b = floor_index(&layout, end);
    proof {
        let s = content@;
        if b < a {
            lemma_offset_mono(s, b as int, a as int);
        }
    }
    if b >= a && column < b - a {
        layout.starts[a + column]
    } else {
        end
    }
}

/// How many UTF-16 code units `c` takes.
pub open spec fn spec_utf16_width(c: char) -> int {
    if (c as u32) >= 0x10000 {
        2
    } else {
        1
    }
}

/// How many characters from the front are taken before `budget` UTF-16 code
/// units are reached.
pub open spec fn spec_utf16_chars(s: Seq<char>, budget: int) -> int
    decreases s.len(),
{
    if s.len() == 0 || budget <= 0 {
        0
    } else {
        1 + spec_utf16_chars(s.drop_first(), budget - spec_utf16_width(s[0]))
    }
}

pub proof fn lemma_utf16_chars_bound(s: Seq<char>, budget: int)
    ensures
        0 <= spec_utf16_chars(s, budget) <= s.len(),
    decreases s.len(),
{
    if s.len() > 0 && budget > 0 {
        lemma_utf16_chars_bound(s.drop_first(), budget - spec_utf16_width(s[0]));
    }
}

/// The byte offset that a UTF-16 offset stands for: characters are taken
/// while fewer than `offset` code units are passed.
pub open spec fn spec_utf16_to_utf8(s: Seq<char>, offset: int) -> int {
    spec_offset(s, spec_utf16_chars(s, offset))
}

/// The byte offset that a UTF-16 offset stands for.
pub fn utf16_to_utf8(content: &str, offset: usize) -> (r: usize)
    requires
        spec_byte_len(content@) <= usize::MAX,
    ensures
        r == spec_utf16_to_utf8(content@, offset as int),
{
    let layout = utf8_layout(content);
    let ghost s = content@;
    let mut k: usize = 0;
    let mut budget: usize = offset;
    proof {
        lemma_utf16_chars_bound(s, offset as int);
        assert(s.skip(0) =~= s);
    }
    while k < layout.chars.len() && budget > 0
        invariant
            k <= s.len(),
            layout.is_layout_of(s),
            k + spec_utf16_chars(s.skip(k as int), budget as int) == spec_utf16_chars(
                s,
                offset as int,
            ),
        decreases s.len() - k,
    {
        let w: usize = if (layout.chars[k] as u32) >= 0x10000 {
            2
        } else {
            1
        };
        let ghost t = s.skip(k as int);
        let ghost before = budget as int;
        assert(t.drop_first() =~= s.skip(k + 1));
        assert(t[0] == s[k as int]);
        assert(w == spec_utf16_width(t[0]));
        assert(spec_utf16_chars(t, before) == 1 + spec_utf16_chars(
            t.drop_first(),
            before - w,
        ));
        budget = if budget >= w {
            budget - w
        } else {
            0
        };
        proof {
            lemma_utf16_zero_budget(s.skip(k + 1), before - w);
        }
        k += 1;
    }
    proof {
        if k < s.len() {
            assert(spec_utf16_chars(s.skip(k as int), 0) == 0);
        } else {
            assert(s.skip(k as int).len() == 0);
        }
    }
    layout.starts[k]
}

/// Budgets at or below zero take nothing, so clamping them to zero changes
/// nothing.
proof fn lemma_utf16_zero_budget(s: Seq<char>, budget: int)
    ensures
        budget <= 0 ==> spec_utf16_chars(s, budget) == spec_utf16_chars(s, 0),
{
}

/// The bracket pair that `ch` belongs to, and whether it opens.
pub open spec fn spec_bracket_kind(ch: char) -> Option<(char, char, bool)> {
    if ch == '(' {
        Some(('(', ')', true))
    } else if ch == '[' {
        Some(('[', ']', true))
    } else if ch == '{' {
        Some(('{', '}', true))
    } else if ch == ')' {
        Some(('(', ')', false))
    } else if ch == ']' {
        Some(('[', ']', false))
    } else if ch == '}' {
        Some(('{', '}', false))
    } else {
        None
    }
}

/// The bracket pair that `ch` belongs to, and whether it opens.
pub fn bracket_kind(ch: char) -> (r: Option<(char, char, bool)>)
    ensures
        r == spec_bracket_kind(ch),
{
    if ch == '(' {
        Some(('(', ')', true))
    } else if ch == '[' {
        Some(('[', ']', true))
    } else if ch == '{' {
        Some(('{', '}', true))
    } else if ch == ')' {
        Some(('(', ')', false))
    } else if ch == ']' {
        Some(('[', ']', false))
    } else if ch == '}' {
        Some(('{', '}', false))
    } else {
        None
    }
}

/// The character that closes what `value` opens, for the brackets and
/// quotes the editor pairs.
pub open spec fn spec_matching_close_bracket(value: Seq<char>) -> Option<char> {
    if value == seq!['('] {
        Some(')')
    } else if value == seq!['['] {
        Some(']')
    } else if value == seq!['{'] {
        Some('}')
    } else if value == seq!['"'] {
        Some('"')
    } else if value == seq!['\''] {
        Some('\'')
    } else {
        None
    }
}

/// The character that closes what `value` opens.
pub fn matching_close_bracket(value: &str) -> (r: Option<char>)
    ensures
        r == spec_matching_close_bracket(value@),
{
    let v = chars_of(value);
    if v.len() != 1 {
        return None;
    }
    assert(v@ =~= seq![v@[0]]);
    let c = v[0];
    if c == '(' {
        Some(')')
    } else if c == '[' {
        Some(']')
    } else if c == '{' {
        Some('}')
    } else if c == '"' {
        Some('"')
    } else if c == '\'' {
        Some('\'')
    } else {
        None
    }
}

/// Whether `value` is one closing bracket or quote.
pub open spec fn spec_is_close_bracket(value: Seq<char>) -> bool {
    value.len() == 1 && (value[0] == ')' || value[0] == ']' || value[0] == '}' || value[0] == '"'
        || value[0] == '\'')
}

/// Whether `value` is one closing bracket or quote.
pub fn is_close_bracket(value: &str) -> (r: bool)
    ensures
        r == spec_is_close_bracket(value@),
{
    let v = chars_of(value);
    v.len() == 1 && (v[0] == ')' || v[0] == ']' || v[0] == '}' || v[0] == '"' || v[0] == '\'')
}

/// Whether `c` belongs to a word: alphanumeric, or an underscore.
pub open spec fn spec_is_word_char(c: char) -> bool {
    spec_is_alphanumeric(c) || c == '_'
}

/// Whether `c` belongs to a word.
pub fn is_word_char(ch: char) -> (r: bool)
    ensures
        r == spec_is_word_char(ch),
{
    is_alphanumeric(ch) || ch == '_'
}

/// Steps back from character index `k` while the character before it
/// satisfies `p`.
pub open spec fn spec_scan_back(s: Seq<char>, k: int, p: spec_fn(char) -> bool) -> int
    decreases k,
{
    if k <= 0 {
        k
    } else if p(s[k - 1]) {
        spec_scan_back(s, k - 1, p)
    } else {
        k
    }
}

/// Steps forward from character index `k` while the character there
/// satisfies `p`.
pub open spec fn spec_scan_forward(s: Seq<char>, k: int, p: spec_fn(char) -> bool) -> int
    decreases s.len() - k,
{
    if k >= s.len() {
        k
    } else if p(s[k]) {
        spec_scan_forward(s, k + 1, p)
    } else {
        k
    }
}

/// White space, as a predicate.
pub open spec fn spec_blank() -> spec_fn(char) -> bool {
    |c: char| spec_is_whitespace(c)
}

/// Characters that continue a run of word characters (`word`) or of
/// punctuation (`!word`); white space ends either.
pub open spec fn spec_run(word: bool) -> spec_fn(char) -> bool {
    |c: char| !spec_is_whitespace(c) && spec_is_word_char(c) == word
}

/// Whether `c` continues a run of word characters (`word`) or of
/// punctuation (`!word`).
fn continues_run(word: bool, c: char) -> (r: bool)
    ensures
        r == (spec_run(word))(c),
{
    !is_whitespace(c) && is_word_char(c) == word
}

/// Where moving one word to the left from `offset` lands: back over white
/// space, then over the run of word characters or of punctuation before it.
pub open spec fn spec_previous_word_boundary(s: Seq<char>, offset: int) -> int {
    let k = spec_scan_back(s, spec_floor_index(s, offset), spec_blank());
    if k == 0 {
        0
    } else {
        spec_offset(s, spec_scan_back(s, k, spec_run(spec_is_word_char(s[k - 1]))))
    }
}

/// Where moving one word to the right from `offset` lands: over the run of
/// word characters or of punctuation that starts there, then over white
/// space.
pub open spec fn spec_next_word_boundary(s: Seq<char>, offset: int) -> int {
    let k = spec_floor_index(s, offset);
    let j = if k < s.len() {
        spec_scan_forward(s, k, spec_run(spec_is_word_char(s[k])))
    } else {
        k
    };
    spec_offset(s, spec_scan_forward(s, j, spec_blank()))
}

pub proof fn lemma_scan_back_bound(s: Seq<char>, k: int, p: spec_fn(char) -> bool)
    requires
        0 <= k <= s.len(),
    ensures
        0 <= spec_scan_back(s, k, p) <= k,
    decreases k,
{
    if k > 0 && p(s[k - 1]) {
        lemma_scan_back_bound(s, k - 1, p);
    }
}

pub proof fn lemma_scan_forward_bound(s: Seq<char>, k: int, p: spec_fn(char) -> bool)
    requires
        0 <= k <= s.len(),
    ensures
        k <= spec_scan_forward(s, k, p) <= s.len(),
    decreases s.len() - k,
{
    if k < s.len() && p(s[k]) {
        lemma_scan_forward_bound(s, k + 1, p);
    }
}

/// The byte offset one word to the left of `offset`.
pub fn previous_word_boundary(content: &str, offset: usize) -> (r: usize)
    requires
        spec_byte_len(content@) <= usize::MAX,
    ensures
        r == spec_previous_word_boundary(content@, offset as int),
{
    let layout = utf8_layout(content);
    let ghost s = content@;
    let mut k = floor_index(&layout, offset);
    let ghost k0 = k as int;
    while k > 0 && is_whitespace(layout.chars[k - 1])
        invariant
            layout.is_layout_of(s),
            k <= s.len(),
            spec_scan_back(s, k as int, spec_blank()) == spec_scan_back(s, k0, spec_blank()),
        decreases k,
    {
        k -= 1;
    }
    if k == 0 {
        return 0;
    }
    let word = is_word_char(layout.chars[k - 1]);
    let ghost k1 = k as int;
    while k > 0 && continues_run(word, layout.chars[k - 1])
        invariant
            layout.is_layout_of(s),
            k <= s.len(),
            spec_scan_back(s, k as int, spec_run(word)) == spec_scan_back(s, k1, spec_run(word)),
        decreases k,
    {
        k -= 1;
    }
    layout.starts[k]
}

/// The byte offset one word to the right of `offset`.
pub fn next_word_boundary(content: &str, offset: usize) -> (r: usize)
    requires
        spec_byte_len(content@) <= usize::MAX,
    ensures
        r == spec_next_word_boundary(content@, offset as int),
{
    let layout = utf8_layout(content);
    let ghost s = content@;
    let mut k = floor_index(&layout, offset);
    let n = layout.chars.len();
    if k < n {
        let word = is_word_char(layout.chars[k]);
        let ghost k0 = k as int;
        while k < n && continues_run(word, layout.chars[k])
            invariant
                layout.is_layout_of(s),
                n == s.len(),
                k <= s.len(),
                spec_scan_forward(s, k as int, spec_run(word)) == spec_scan_forward(
                    s,
                    k0,
                    spec_run(word),
                ),
            decreases s.len() - k,
        {
            k += 1;
        }
    }
    let ghost k1 = k as int;
    while k < n && is_whitespace(layout.chars[k])
        invariant
            layout.is_layout_of(s),
            n == s.len(),
            k <= s.len(),
            spec_scan_forward(s, k as int, spec_blank()) == spec_scan_forward(s, k1, spec_blank()),
        decreases s.len() - k,
    {
        k += 1;
    }
    layout.starts[k]
}

/// Characters of the same kind as `target`, as double-clicking on `target`
/// groups them: white space other than line breaks, word characters, or
/// other visible characters.
pub open spec fn spec_same_kind(target: char) -> spec_fn(char) -> bool {
    |c: char|
        if spec_is_whitespace(target) {
            spec_is_whitespace(c) && c != '\n'
        } else if spec_is_word_char(target) {
            spec_is_word_char(c)
        } else {
            !spec_is_word_char(c) && !spec_is_whitespace(c)
        }
}

/// Whether `c` is of the same kind as `target`.
fn same_kind(target: char, c: char) -> (r: bool)
    ensures
        r == (spec_same_kind(target))(c),
{
    if is_whitespace(target) {
        is_whitespace(c) && c != '\n'
    } else if is_word_char(target) {
        is_word_char(c)
    } else {
        !is_word_char(c) && !is_whitespace(c)
    }
}

/// The byte range that a double click at `offset` selects: the character
/// there (the last one at the end of the text) and the characters of its
/// kind on both sides; a line break alone.
pub open spec fn spec_word_bounds(s: Seq<char>, offset: int) -> (int, int) {
    if s.len() == 0 {
        (0, 0)
    } else {
        let f = spec_floor_index(s, offset);
        let k = if f == s.len() {
            f - 1
        } else {
            f
        };
        if s[k] == '\n' {
            (spec_offset(s, k), spec_offset(s, k + 1))
        } else {
            (
                spec_offset(s, spec_scan_back(s, k, spec_same_kind(s[k]))),
                spec_offset(s, spec_scan_forward(s, k + 1, spec_same_kind(s[k]))),
            )
        }
    }
}

/// The byte range that a double click at `offset` selects.
pub fn word_bounds(content: &str, offset: usize) -> (r: (usize, usize))
    requires
        spec_byte_len(content@) <= usize::MAX,
    ensures
        (r.0 as int, r.1 as int) == spec_word_bounds(content@, offset as int),
{
    let layout = utf8_layout(content);
    let ghost s = content@;
    let n = layout.chars.len();
    if n == 0 {
        return (0, 0);
    }
    let mut k = floor_index(&layout, offset);
    if k == n {
        k = k - 1;
    }
    let target = layout.chars[k];
    if target == '\n' {
        return (layout.starts[k], layout.starts[k + 1]);
    }
    let mut start = k;
    while start > 0 && same_kind(target, layout.chars[start - 1])
        invariant
            layout.is_layout_of(s),
            n == s.len(),
            start <= k < n,
            target == s[k as int],
            spec_scan_back(s, start as int, spec_same_kind(target)) == spec_scan_back(
                s,
                k as int,
                spec_same_kind(target),
            ),
        decreases start,
    {
        start -= 1;
    }
    let mut end = k + 1;
    while end < n && same_kind(target, layout.chars[end])
        invariant
            layout.is_layout_of(s),
            n == s.len(),
            k < end <= n,
            target == s[k as int],
            spec_scan_forward(s, end as int, spec_same_kind(target)) == spec_scan_forward(
                s,
                k + 1,
                spec_same_kind(target),
            ),
        decreases n - end,
    {
        end += 1;
    }
    (layout.starts[start], layout.starts[end])
}

/// Whether `value` is a single double or single quote.
pub open spec fn spec_is_quote(value: Seq<char>) -> bool {
    value == seq!['"'] || value == seq!['\'']
}

/// Whether typing `value` at `offset` also inserts its closing partner:
/// always for brackets; for a quote only when no word character comes
/// right before and the text ends, or white space or a closing bracket,
/// comma or semicolon comes, right after.
pub open spec fn spec_should_auto_close(s: Seq<char>, offset: int, value: Seq<char>) -> bool {
    if !spec_is_quote(value) {
        true
    } else {
        let k = spec_floor_index(s, offset);
        &&& !(k > 0 && spec_is_word_char(s[k - 1]))
        &&& (k >= s.len() || spec_is_whitespace(s[k]) || s[k] == ')' || s[k] == ']' || s[k]
            == '}' || s[k] == ',' || s[k] == ';')
    }
}

/// Whether typing `value` at `offset` also inserts its closing partner.
pub fn should_auto_close(content: &str, offset: usize, value: &str) -> (r: bool)
    requires
        spec_byte_len(content@) <= usize::MAX,
        spec_is_quote(value@) ==> spec_is_boundary(content@, offset as int),
    ensures
        r == spec_should_auto_close(content@, offset as int, value@),
{
    let v = chars_of(value);
    let quote = v.len() == 1 && (v[0] == '"' || v[0] == '\'');
    proof {
        if v.len() == 1 {
            assert(v@ =~= seq![v@[0]]);
        }
    }
    if !quote {
        return true;
    }
    let layout = utf8_layout(content);
    let k = floor_index(&layout, offset);
    let n = layout.chars.len();
    let after_word = k > 0 && is_word_char(layout.chars[k - 1]);
    if after_word {
        return false;
    }
    if k >= n {
        return true;
    }
    let next = layout.chars[k];
    is_whitespace(next) || next == ')' || next == ']' || next == '}' || next == ',' || next == ';'
}

/// The buttons of a pointing device.
#[derive(Clone, Copy, Debug, PartialEq, Eq, Structural)]
pub enum MouseButton {
    Left,
    Right,
    Middle,
    Navigate(NavigationDirection),
}

/// The two side buttons that move back and forward.
#[derive(Clone, Copy, Debug, PartialEq, Eq, Structural)]
pub enum NavigationDirection {
    Back,
    Forward,
}

/// Whether a drag still extends the selection: only while selecting and
/// the left button is held.
pub fn remote_text_selection_drag_active(selecting: bool, pressed_button: Option<MouseButton>) -> (r:
    bool)
    ensures
        r == (selecting && pressed_button == Some(MouseButton::Left)),
{
    selecting && match pressed_button {
        Some(MouseButton::Left) => true,
        _ => false,
    }
}

/// Scans forward from character index `j` for the `close` that balances
/// an `open` before `j`, with `depth` more opens seen since.
pub open spec fn spec_find_close(s: Seq<char>, j: int, open: char, close: char, depth: nat) -> Option<
    int,
>
    decreases s.len() - j,
{
    if j >= s.len() {
        None
    } else if s[j] == open {
        spec_find_close(s, j + 1, open, close, depth + 1)
    } else if s[j] == close {
        if depth == 0 {
            Some(j)
        } else {
            spec_find_close(s, j + 1, open, close, (depth - 1) as nat)
        }
    } else {
        spec_find_close(s, j + 1, open, close, depth)
    }
}

/// Scans back from before character index `j` for the `open` that balances
/// a `close` at or after `j`, with `depth` more closes seen since.
pub open spec fn spec_find_open(s: Seq<char>, j: int, open: char, close: char, depth: nat) -> Option<
    int,
>
    decreases j,
{
    if j <= 0 {
        None
    } else if s[j - 1] == close {
        spec_find_open(s, j - 1, open, close, depth + 1)
    } else if s[j - 1] == open {
        if depth == 0 {
            Some(j - 1)
        } else {
            spec_find_open(s, j - 1, open, close, (depth - 1) as nat)
        }
    } else {
        spec_find_open(s, j - 1, open, close, depth)
    }
}

/// The bracket next to `offset` that the editor pairs: the one right after
/// it, else the one right before it, with its character index.
pub open spec fn spec_bracket_near(s: Seq<char>, offset: int) -> Option<(int, (char, char, bool))> {
    let c = spec_floor_index(s, offset);
    if c < s.len() && spec_bracket_kind(s[c]) is Some {
        Some((c, spec_bracket_kind(s[c])->0))
    } else if c > 0 && spec_bracket_kind(s[c - 1]) is Some {
        Some((c - 1, spec_bracket_kind(s[c - 1])->0))
    } else {
        None
    }
}

/// The byte ranges of the bracket next to `cursor` and of its partner,
/// opening one first; `None` when there is no bracket or no partner.
pub open spec fn spec_matching_bracket_ranges(s: Seq<char>, cursor: int) -> Option<
    ((int, int), (int, int)),
> {
    match spec_bracket_near(s, cursor) {
        None => None,
        Some((b, (open, close, forward))) => if forward {
            match spec_find_close(s, b + 1, open, close, 0) {
                Some(m) => Some(
                    (
                        (spec_offset(s, b), spec_offset(s, b + 1)),
                        (spec_offset(s, m), spec_offset(s, m + 1)),
                    ),
                ),
                None => None,
            }
        } else {
            match spec_find_open(s, b, open, close, 0) {
                Some(m) => Some(
                    (
                        (spec_offset(s, m), spec_offset(s, m + 1)),
                        (spec_offset(s, b), spec_offset(s, b + 1)),
                    ),
                ),
                None => None,
            }
        }
    }
}

/// Two byte ranges as pairs of bounds.
pub open spec fn range_pair_view(r: Option<(Range<usize>, Range<usize>)>) -> Option<
    ((int, int), (int, int)),
> {
    match r {
        None => None,
        Some((a, b)) => Some(((a.start as int, a.end as int), (b.start as int, b.end as int))),
    }
}

/// The byte ranges of the bracket next to `cursor` and of its partner.
pub fn matching_bracket_ranges(content: &str, cursor: usize) -> (r: Option<
    (Range<usize>, Range<usize>),
>)
    requires
        spec_byte_len(content@) <= usize::MAX,
    ensures
        range_pair_view(r) == spec_matching_bracket_ranges(content@, cursor as int),
{
    let layout = utf8_layout(content);
    let ghost s = content@;
    let n = layout.chars.len();
    let c = floor_index(&layout, cursor);
    let mut b: usize = 0;
    let mut kind: Option<(char, char, bool)> = None;
    if c < n {
        kind = bracket_kind(layout.chars[c]);
        b = c;
    }
    if kind.is_none() && c > 0 {
        kind = bracket_kind(layout.chars[c - 1]);
        b = c - 1;
    }
    let (open, close, forward) = match kind {
        None => {
            return None;
        },
        Some(k) => k,
    };
    assert(spec_bracket_near(s, cursor as int) == Some((b as int, (open, close, forward))));
    if forward {
        let mut j = b + 1;
        let mut depth: usize = 0;
        while j < n
            invariant
                layout.is_layout_of(s),
                s == content@,
                spec_bracket_near(s, cursor as int) == Some((b as int, (open, close, forward))),
                n == s.len(),
                b < n,
                b + 1 <= j <= n,
                forward,
                depth <= j - (b + 1),
                spec_find_close(s, j as int, open, close, depth as nat) == spec_find_close(
                    s,
                    b + 1,
                    open,
                    close,
                    0,
                ),
            decreases n - j,
        {
            let ch = layout.chars[j];
            if ch == open {
                depth += 1;
            } else if ch == close {
                if depth == 0 {
                    assert(spec_find_close(s, j as int, open, close, 0) == Some(j as int));
                    let first = Range { start: layout.starts[b], end: layout.starts[b + 1] };
                    let second = Range { start: layout.starts[j], end: layout.starts[j + 1] };
                    return Some((first, second));
                }
                depth -= 1;
            }
            j += 1;
        }
        None
    } else {
        let mut j = b;
        let mut depth: usize = 0;
        while j > 0
            invariant
                layout.is_layout_of(s),
                s == content@,
                spec_bracket_near(s, cursor as int) == Some((b as int, (open, close, forward))),
                n == s.len(),
                b < n,
                j <= b,
                depth <= b - j,
                !forward,
                spec_find_open(s, j as int, open, close, depth as nat) == spec_find_open(
                    s,
                    b as int,
                    open,
                    close,
                    0,
                ),
            decreases j,
        {
            let ch = layout.chars[j - 1];
            if ch == close {
                depth += 1;
            } else if ch == open {
                if depth == 0 {
                    assert(spec_find_open(s, j as int, open, close, 0) == Some(j - 1));
                    let first = Range { start: layout.starts[j - 1], end: layout.starts[j] };
                    let second = Range { start: layout.starts[b], end: layout.starts[b + 1] };
                    return Some((first, second));
                }
                depth -= 1;
            }
            j -= 1;
        }
        None
    }
}

/// The byte lengths of the pieces of `s` between line breaks, in order:
/// one more piece than there are line breaks.
pub open spec fn spec_line_lengths(s: Seq<char>) -> Seq<int>
    decreases s.len(),
{
    if s.len() == 0 {
        seq![0]
    } else {
        let before = spec_line_lengths(s.drop_last());
        if s.last() == '\n' {
            before.push(0)
        } else {
            before.update(before.len() - 1, before.last() + spec_width(s.last()))
        }
    }
}

/// A sequence of machine integers as mathematical integers.
pub open spec fn ints(v: Seq<usize>) -> Seq<int> {
    v.map_values(|x: usize| x as int)
}

proof fn lemma_line_lengths(s: Seq<char>)
    ensures
        spec_line_lengths(s).len() >= 1,
        forall|i: int|
            0 <= i < spec_line_lengths(s).len() ==> 0 <= #[trigger] spec_line_lengths(s)[i]
                <= spec_byte_len(s),
    decreases s.len(),
{
    if s.len() > 0 {
        let t = s.drop_last();
        lemma_line_lengths(t);
        assert(t.push(s.last()) =~= s);
        lemma_byte_len_push(t, s.last());
        lemma_width_bounds(s.last());
    }
}

/// The byte lengths of the lines of `content`.
fn line_lengths(content: &str) -> (r: Vec<usize>)
    requires
        spec_byte_len(content@) <= usize::MAX,
    ensures
        ints(r@) == spec_line_lengths(content@),
{
    let chars = chars_of(content);
    let ghost s = content@;
    let mut lens: Vec<usize> = Vec::new();
    lens.push(0);
    let mut k: usize = 0;
    proof {
        assert(s.take(0) =~= Seq::<char>::empty());
        assert(ints(lens@) =~= spec_line_lengths(s.take(0)));
        lemma_offset_mono(s, 0, s.len() as int);
    }
    while k < chars.len()
        invariant
            chars@ == s,
            k <= s.len(),
            spec_byte_len(s) <= usize::MAX,
            ints(lens@) =~= spec_line_lengths(s.take(k as int)),
        decreases s.len() - k,
    {
        let c = chars[k];
        let ghost t = s.take(k as int);
        proof {
            assert(s.take(k + 1).drop_last() =~= t);
            assert(s.take(k + 1).last() == c);
            lemma_line_lengths(t);
            lemma_offset_step(s, k as int);
            lemma_offset_mono(s, k + 1, s.len() as int);
        }
        if c == '\n' {
            lens.push(0);
        } else {
            let last = lens.len() - 1;
            assert(lens@[last as int] as int == spec_line_lengths(t)[last as int]);
            let grown = lens[last] + width(c);
            lens.set(last, grown);
        }
        k += 1;
    }
    proof {
        assert(s.take(s.len() as int) =~= s);
    }
    lens
}

/// `x`, or the largest machine integer when `x` is larger.
pub open spec fn spec_sat(x: int) -> int {
    if x > usize::MAX {
        usize::MAX as int
    } else {
        x
    }
}

/// Walks the visual rows from `row` while a logical line of `len` bytes is
/// not yet covered, `consumed` of its bytes being covered so far; an empty
/// visual row ends the walk too. Gives the bytes covered and the row after.
pub open spec fn spec_cover_line(len: int, visual: Seq<int>, consumed: int, row: int) -> (int, int)
    decreases visual.len() - row,
{
    if consumed < len && 0 <= row < visual.len() {
        let covered = spec_sat(consumed + visual[row]);
        if visual[row] == 0 {
            (covered, row + 1)
        } else {
            spec_cover_line(len, visual, covered, row + 1)
        }
    } else {
        (consumed, row)
    }
}

/// The visual row at which the logical line after one of `len` bytes,
/// starting at visual row `row`, starts; a line that the rows do not cover
/// takes one row more.
pub open spec fn spec_row_after_line(len: int, visual: Seq<int>, row: int) -> int {
    if len == 0 {
        spec_sat(row + 1)
    } else {
        let (consumed, next) = spec_cover_line(len, visual, 0, row);
        if consumed < len {
            spec_sat(next + 1)
        } else {
            next
        }
    }
}

/// The visual rows at which the logical lines from `i` on start, line `i`
/// starting at `row`.
pub open spec fn spec_rows_from(logical: Seq<int>, visual: Seq<int>, i: int, row: int) -> Seq<int>
    decreases logical.len() - i,
{
    if i >= logical.len() || i < 0 {
        seq![]
    } else {
        seq![row] + spec_rows_from(
            logical,
            visual,
            i + 1,
            spec_row_after_line(logical[i], visual, row),
        )
    }
}

/// For each line of `content`, the row of `wrapped` (the same text after
/// soft wrapping) at which it starts.
pub open spec fn spec_line_number_visual_rows(content: Seq<char>, wrapped: Seq<char>) -> Seq<int> {
    spec_rows_from(spec_line_lengths(content), spec_line_lengths(wrapped), 0, 0)
}

/// The visual row after a logical line of `len` bytes that starts at `row`.
fn row_after_line(len: usize, visual: &Vec<usize>, row: usize) -> (r: usize)
    ensures
        r == spec_row_after_line(len as int, ints(visual@), row as int),
{
    if len == 0 {
        return row.saturating_add(1);
    }
    let ghost v = ints(visual@);
    let mut consumed: usize = 0;
    let mut next: usize = row;
    let mut stop = false;
    while !stop && consumed < len && next < visual.len()
        invariant
            v == ints(visual@),
            len > 0,
            (if stop {
                (consumed as int, next as int)
            } else {
                spec_cover_line(len as int, v, consumed as int, next as int)
            }) == spec_cover_line(len as int, v, 0, row as int),
        decreases visual.len() - next,
    {
        let piece = visual[next];
        consumed = consumed.saturating_add(piece);
        next += 1;
        if piece == 0 {
            stop = true;
        }
    }
    if consumed < len {
        next.saturating_add(1)
    } else {
        next
    }
}

/// For each line of `content`, the row of `wrapped_text` at which it
/// starts.
pub fn line_number_visual_rows(content: &str, wrapped_text: &str) -> (r: Vec<usize>)
    requires
        spec_byte_len(content@) <= usize::MAX,
        spec_byte_len(wrapped_text@) <= usize::MAX,
    ensures
        ints(r@) == spec_line_number_visual_rows(content@, wrapped_text@),
{
    let logical = line_lengths(content);
    let visual = line_lengths(wrapped_text);
    let ghost lg = ints(logical@);
    let ghost vs = ints(visual@);
    let mut rows: Vec<usize> = Vec::new();
    let mut row: usize = 0;
    let mut i: usize = 0;
    proof {
        assert(ints(rows@) =~= Seq::<int>::empty());
        assert(Seq::<int>::empty() + spec_rows_from(lg, vs, 0, 0) =~= spec_rows_from(lg, vs, 0, 0));
    }
    while i < logical.len()
        invariant
            lg == ints(logical@),
            vs == ints(visual@),
            i <= logical@.len(),
            ints(rows@) + spec_rows_from(lg, vs, i as int, row as int) == spec_rows_from(
                lg,
                vs,
                0,
                0,
            ),
        decreases logical@.len() - i,
    {
        let ghost before = ints(rows@);
        rows.push(row);
        let next = row_after_line(logical[i], &visual, row);
        proof {
            assert(ints(rows@) =~= before.push(row as int));
            assert(before + spec_rows_from(lg, vs, i as int, row as int) =~= ints(rows@)
                + spec_rows_from(lg, vs, i + 1, next as int));
        }
        row = next;
        i += 1;
    }
    proof {
        assert(ints(rows@) + Seq::<int>::empty() =~= ints(rows@));
    }
    rows
}

proof fn lemma_last_newline_bound(s: Seq<char>, k: int)
    requires
        0 <= k <= s.len(),
    ensures
        spec_last_newline_before(s, k) matches Some(j) ==> 0 <= j < k,
    decreases k,
{
    if k > 0 && s[k - 1] != '\n' {
        lemma_last_newline_bound(s, k - 1);
    }
}

proof fn lemma_first_newline_bound(s: Seq<char>, k: int)
    requires
        0 <= k <= s.len(),
    ensures
        spec_first_newline_from(s, k) matches Some(j) ==> k <= j < s.len(),
    decreases s.len() - k,
{
    if k < s.len() && s[k] != '\n' {
        lemma_first_newline_bound(s, k + 1);
    }
}

/// The byte offset of every character index lies between two characters,
/// and leads back to that index.
pub proof fn lemma_offset_is_boundary(s: Seq<char>, k: int)
    requires
        0 <= k <= s.len(),
    ensures
        spec_is_boundary(s, spec_offset(s, k)),
        spec_floor_index(s, spec_offset(s, k)) == k,
{
    lemma_offset_mono(s, 0, k);
    lemma_offset_mono(s, k, s.len() as int);
    let o = spec_offset(s, k);
    lemma_floor_index(s, o);
    let f = spec_floor_index(s, o);
    if f < k {
        lemma_offset_mono(s, f + 1, k);
    }
    if f > k {
        lemma_offset_mono(s, k, f);
    }
}

/// Every position that the editor's cursor arithmetic gives lies between
/// two characters of the text or at one of its ends, so no edit can split
/// a character. The character steps move by exactly one character, and the
/// line and word ranges hold the cursor's own boundary.
pub proof fn lemma_cursor_positions_are_char_boundaries(s: Seq<char>, offset: int)
    requires
        offset >= 0,
    ensures
        spec_is_boundary(s, spec_nearest_char_boundary(s, offset)),
        spec_is_boundary(s, spec_previous_char_boundary(s, offset)),
        spec_is_boundary(s, spec_next_char_boundary(s, offset)),
        spec_is_boundary(s, spec_previous_word_boundary(s, offset)),
        spec_is_boundary(s, spec_next_word_boundary(s, offset)),
        spec_is_boundary(s, spec_line_start(s, offset)),
        spec_is_boundary(s, spec_line_end(s, offset)),
        spec_is_boundary(s, spec_word_bounds(s, offset).0),
        spec_is_boundary(s, spec_word_bounds(s, offset).1),
        spec_is_boundary(s, spec_utf16_to_utf8(s, offset)),
        spec_nearest_char_boundary(s, offset) <= offset,
        spec_previous_char_boundary(s, offset) <= spec_nearest_char_boundary(s, offset)
            <= spec_next_char_boundary(s, offset),
        0 < spec_nearest_char_boundary(s, offset) ==> spec_previous_char_boundary(s, offset)
            < spec_nearest_char_boundary(s, offset),
        spec_nearest_char_boundary(s, offset) < spec_byte_len(s) ==> spec_nearest_char_boundary(
            s,
            offset,
        ) < spec_next_char_boundary(s, offset),
        spec_previous_word_boundary(s, offset) <= spec_nearest_char_boundary(s, offset)
            <= spec_next_word_boundary(s, offset),
        spec_line_start(s, offset) <= spec_nearest_char_boundary(s, offset) <= spec_line_end(
            s,
            offset,
        ),
        spec_word_bounds(s, offset).0 <= spec_nearest_char_boundary(s, offset)
            <= spec_word_bounds(s, offset).1,
{
    let n = s.len() as int;
    lemma_floor_index(s, offset);
    let f = spec_floor_index(s, offset);
    lemma_offset_mono(s, 0, n);
    lemma_offset_is_boundary(s, f);
    if f > 0 {
        lemma_offset_is_boundary(s, f - 1);
        lemma_offset_mono(s, f - 1, f);
    }
    if f < n {
        lemma_offset_is_boundary(s, f + 1);
        lemma_offset_mono(s, f, f + 1);
    }
    // moving by words
    let b = spec_scan_back(s, f, spec_blank());
    lemma_scan_back_bound(s, f, spec_blank());
    if b > 0 {
        let w = spec_scan_back(s, b, spec_run(spec_is_word_char(s[b - 1])));
        lemma_scan_back_bound(s, b, spec_run(spec_is_word_char(s[b - 1])));
        lemma_offset_is_boundary(s, w);
        lemma_offset_mono(s, w, f);
    } else {
        lemma_offset_is_boundary(s, 0);
    }
    let j = if f < n {
        spec_scan_forward(s, f, spec_run(spec_is_word_char(s[f])))
    } else {
        f
    };
    if f < n {
        lemma_scan_forward_bound(s, f, spec_run(spec_is_word_char(s[f])));
    }
    lemma_scan_forward_bound(s, j, spec_blank());
    let e = spec_scan_forward(s, j, spec_blank());
    lemma_offset_is_boundary(s, e);
    lemma_offset_mono(s, f, e);
    // lines
    lemma_last_newline_bound(s, f);
    if let Some(i) = spec_last_newline_before(s, f) {
        lemma_offset_is_boundary(s, i + 1);
        lemma_offset_mono(s, i + 1, f);
    }
    lemma_first_newline_bound(s, f);
    if let Some(i) = spec_first_newline_from(s, f) {
        lemma_offset_is_boundary(s, i);
        lemma_offset_mono(s, f, i);
    } else {
        lemma_offset_is_boundary(s, n);
    }
    // double-click ranges
    if n > 0 {
        let k = if f == n {
            f - 1
        } else {
            f
        };
        lemma_offset_is_boundary(s, k);
        lemma_offset_is_boundary(s, k + 1);
        lemma_offset_mono(s, k, k + 1);
        let p = spec_same_kind(s[k]);
        lemma_scan_back_bound(s, k, p);
        lemma_scan_forward_bound(s, k + 1, p);
        lemma_offset_is_boundary(s, spec_scan_back(s, k, p));
        lemma_offset_is_boundary(s, spec_scan_forward(s, k + 1, p));
        lemma_offset_mono(s, spec_scan_back(s, k, p), k);
        lemma_offset_mono(s, k + 1, spec_scan_forward(s, k + 1, p));
        lemma_offset_mono(s, k, f);
        lemma_offset_mono(s, f, k + 1);
    } else {
        lemma_offset_is_boundary(s, 0);
    }
    // UTF-16 offsets
    lemma_utf16_chars_bound(s, offset);
    lemma_offset_is_boundary(s, spec_utf16_chars(s, offset));
}

proof fn lemma_first_newline_is_newline(s: Seq<char>, k: int)
    requires
        0 <= k <= s.len(),
    ensures
        spec_first_newline_from(s, k) matches Some(j) ==> s[j] == '\n',
    decreases s.len() - k,
{
    if k < s.len() && s[k] != '\n' {
        lemma_first_newline_is_newline(s, k + 1);
    }
}

/// A line that ends before the end of the text ends at a line break, one
/// byte long, so the next line starts one byte later, between characters.
pub proof fn lemma_line_end_before_break(s: Seq<char>, offset: int)
    requires
        offset >= 0,
    ensures
        spec_line_end(s, offset) < spec_byte_len(s) ==> spec_is_boundary(
            s,
            spec_line_end(s, offset) + 1,
        ),
{
    lemma_floor_index(s, offset);
    let f = spec_floor_index(s, offset);
    lemma_first_newline_bound(s, f);
    lemma_first_newline_is_newline(s, f);
    if let Some(j) = spec_first_newline_from(s, f) {
        lemma_offset_step(s, j);
        lemma_offset_is_boundary(s, j + 1);
    }
}

/// A boundary is its own nearest boundary.
pub proof fn lemma_boundary_is_nearest(s: Seq<char>, o: int)
    requires
        spec_is_boundary(s, o),
    ensures
        spec_nearest_char_boundary(s, o) == o,
{
}

/// A larger UTF-16 offset never stands for fewer characters.
pub proof fn lemma_utf16_chars_mono(s: Seq<char>, b1: int, b2: int)
    requires
        b1 <= b2,
    ensures
        spec_utf16_chars(s, b1) <= spec_utf16_chars(s, b2),
    decreases s.len(),
{
    lemma_utf16_chars_bound(s, b2);
    if s.len() > 0 && b1 > 0 {
        lemma_utf16_chars_mono(s.drop_first(), b1 - spec_utf16_width(s[0]), b2 - spec_utf16_width(s[0]));
    }
}

} // verus!
