//! The shell command that restores the working directory after an SSH
//! reconnect.

use vstd::prelude::*;

use crate::text::{is_control, spec_is_control};

verus! {

/// `s` with every single quote written as `'\''`, so that it can stand
/// between single quotes in a POSIX shell word.
pub open spec fn spec_quote_body(s: Seq<char>) -> Seq<char>
    decreases s.len(),
{
    if s.len() == 0 {
        Seq::empty()
    } else if s.last() == '\'' {
        spec_quote_body(s.drop_last()) + seq!['\'', '\\', '\'', '\'']
    } else {
        spec_quote_body(s.drop_last()).push(s.last())
    }
}

/// `s` as one single-quoted POSIX shell word.
pub open spec fn spec_single_quoted(s: Seq<char>) -> Seq<char> {
    seq!['\''] + spec_quote_body(s) + seq!['\'']
}

/// The command for `cwd`: `None` for an empty path or one that holds a
/// control character, else `cd -- ` followed by the quoted path.
pub open spec fn spec_reconnect_cwd_command(cwd: Seq<char>) -> Option<Seq<char>> {
    if cwd.len() == 0 || exists|i: int| 0 <= i < cwd.len() && spec_is_control(#[trigger] cwd[i]) {
        None
    } else {
        Some(seq!['c', 'd', ' ', '-', '-', ' '] + spec_single_quoted(cwd))
    }
}

/// Reading state of a POSIX shell word: the text so far, whether a single
/// quote is open, and whether a backslash escapes the next character.
pub open spec fn shell_word_state(w: Seq<char>) -> (Seq<char>, bool, bool)
    decreases w.len(),
{
    if w.len() == 0 {
        (Seq::empty(), false, false)
    } else {
        let (out, quoted, escaped) = shell_word_state(w.drop_last());
        let c = w.last();
        if escaped {
            (out.push(c), quoted, false)
        } else if quoted {
            if c == '\'' {
                (out, false, false)
            } else {
                (out.push(c), true, false)
            }
        } else if c == '\'' {
            (out, true, false)
        } else if c == '\\' {
            (out, false, true)
        } else {
            (out.push(c), false, false)
        }
    }
}

/// What a POSIX shell reads from the word `w`, when the word is complete (no
/// quote left open and no dangling backslash).
pub open spec fn spec_shell_word_value(w: Seq<char>) -> Option<Seq<char>> {
    let (out, quoted, escaped) = shell_word_state(w);
    if quoted || escaped {
        None
    } else {
        Some(out)
    }
}

proof fn lemma_quoted_prefix_state(s: Seq<char>)
    ensures
        shell_word_state(seq!['\''] + spec_quote_body(s)) == (s, true, false),
    decreases s.len(),
{
    if s.len() == 0 {
        assert(seq!['\''] + spec_quote_body(s) =~= seq!['\'']);
        assert(seq!['\''].drop_last() =~= Seq::<char>::empty());
        assert(s =~= Seq::<char>::empty());
        let e = Seq::<char>::empty();
        let w = e.push('\'');
        assert(w =~= seq!['\'']);
        assert(w.drop_last() =~= e);
        assert(shell_word_state(e) == (e, false, false));
        assert(shell_word_state(w) == (e, true, false));
    } else {
        lemma_quoted_prefix_state(s.drop_last());
        let x = seq!['\''] + spec_quote_body(s.drop_last());
        let c = s.last();
        if c == '\'' {
            let p = s.drop_last();
            let w1 = x.push('\'');
            let w2 = w1.push('\\');
            let w3 = w2.push('\'');
            let w4 = w3.push('\'');
            assert(w1.drop_last() =~= x);
            assert(shell_word_state(w1) == (p, false, false));
            assert(w2.drop_last() =~= w1);
            assert(shell_word_state(w2) == (p, false, true));
            assert(w3.drop_last() =~= w2);
            assert(shell_word_state(w3) == (p.push('\''), false, false));
            assert(w4.drop_last() =~= w3);
            assert(shell_word_state(w4) == (p.push('\''), true, false));
            assert(seq!['\''] + spec_quote_body(s) =~= w4);
            assert(p.push('\'') =~= s);
        } else {
            assert(seq!['\''] + spec_quote_body(s) =~= x.push(c));
            assert(x.push(c).drop_last() =~= x);
            assert(s.drop_last().push(c) =~= s);
        }
    }
}

/// A POSIX shell reads the single-quoted word back as exactly `s`.
pub proof fn lemma_single_quoted_reads_back(s: Seq<char>)
    ensures
        spec_shell_word_value(spec_single_quoted(s)) == Some(s),
{
    lemma_quoted_prefix_state(s);
    let x = seq!['\''] + spec_quote_body(s);
    assert(spec_single_quoted(s) =~= x.push('\''));
    assert(x.push('\'').drop_last() =~= x);
}

/// The path of a reconnect command, read back by the shell, is the path it
/// was built from.
pub proof fn lemma_reconnect_command_targets_cwd(cwd: Seq<char>)
    requires
        spec_reconnect_cwd_command(cwd) is Some,
    ensures
        spec_reconnect_cwd_command(cwd)->0 == seq!['c', 'd', ' ', '-', '-', ' '] + spec_single_quoted(
            cwd,
        ),
        spec_shell_word_value(spec_single_quoted(cwd)) == Some(cwd),
{
    lemma_single_quoted_reads_back(cwd);
}

/// Builds `cd -- '<cwd>'` for a POSIX shell, or `None` when `cwd` is empty or
/// holds a control character.
pub fn build_ssh_reconnect_cwd_command(cwd: &str) -> (r: Option<String>)
    ensures
        r is None <==> spec_reconnect_cwd_command(cwd@) is None,
        r matches Some(c) ==> c@ == spec_reconnect_cwd_command(cwd@)->0,
{
    let chars = crate::text::chars_of(cwd);
    if chars.len() == 0 {
        return None;
    }
    let mut i: usize = 0;
    while i < chars.len()
        invariant
            i <= chars@.len(),
            chars@ == cwd@,
            forall|j: int| 0 <= j < i ==> !spec_is_control(#[trigger] chars@[j]),
        decreases chars@.len() - i,
    {
        if is_control(chars[i]) {
            return None;
        }
        i += 1;
    }
    let mut out = String::new();
    out.push('c');
    out.push('d');
    out.push(' ');
    out.push('-');
    out.push('-');
    out.push(' ');
    out.push('\'');
    let ghost head = out@;
    let mut k: usize = 0;
    while k < chars.len()
        invariant
            k <= chars@.len(),
            out@ == head + spec_quote_body(chars@.take(k as int)),
        decreases chars@.len() - k,
    {
        let c = chars[k];
        assert(chars@.take(k + 1).drop_last() =~= chars@.take(k as int));
        if c == '\'' {
            out.push('\'');
            out.push('\\');
            out.push('\'');
            out.push('\'');
            assert(out@ =~= head + spec_quote_body(chars@.take(k + 1)));
        } else {
            out.push(c);
            assert(out@ =~= head + spec_quote_body(chars@.take(k + 1)));
        }
        k += 1;
    }
    out.push('\'');
    assert(chars@.take(chars@.len() as int) =~= chars@);
    assert(out@ =~= seq!['c', 'd', ' ', '-', '-', ' '] + spec_single_quoted(cwd@));
    Some(out)
}

} // verus!
