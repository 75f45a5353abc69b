//! Command recognition.
//!
//! A message text invokes a command when it begins with `/`, the verb
//! after the slash matches `start` or `help` without regard to ASCII
//! case, and any `@mention` glued to the verb names this bot.  The verb
//! ends at the first `@` or whitespace character; a mention ends at the
//! first whitespace character; whatever follows the first token is
//! ignored.  `parse_command_spec` states that grammar; `parse_command`
//! is the executable parser proved to decide it.

use vstd::prelude::*;
use vstd::string::StrSliceExecFns;

verus! {

/// A recognized command.
#[derive(Clone, Copy, Debug, PartialEq, Eq, Structural)]
pub enum Command {
    Start,
    Help,
}

/// Whitespace for token splitting.
pub open spec fn is_space_char(c: char) -> bool {
    c == ' ' || c == '\t' || c == '\n' || c == '\r'
}

/// Characters that end the verb: whitespace, or the `@` that opens a
/// mention.
pub open spec fn is_verb_break(c: char) -> bool {
    is_space_char(c) || c == '@'
}

/// Whether `c` is an ASCII capital letter.
pub open spec fn is_ascii_upper(c: char) -> bool {
    65 <= c as u32 && c as u32 <= 90
}

/// Equality of two characters up to ASCII case.
pub open spec fn chars_eq_ci(a: char, b: char) -> bool {
    ||| a == b
    ||| (is_ascii_upper(a) && a as u32 + 32 == b as u32)
    ||| (is_ascii_upper(b) && b as u32 + 32 == a as u32)
}

/// Equality of two character sequences up to ASCII case.
pub open spec fn seqs_eq_ci(a: Seq<char>, b: Seq<char>) -> bool {
    a.len() == b.len() && (forall|i: int| 0 <= i < a.len() ==> chars_eq_ci(a[i], b[i]))
}

/// The first position at or after `i` holding a verb-breaking
/// character, or the length of `s` when none follows.
pub open spec fn verb_end(s: Seq<char>, i: int) -> int
    decreases s.len() - i,
{
    if i < 0 || i >= s.len() {
        s.len() as int
    } else if is_verb_break(s[i]) {
        i
    } else {
        verb_end(s, i + 1)
    }
}

/// The first position at or after `i` holding whitespace, or the
/// length of `s` when none follows.
pub open spec fn space_end(s: Seq<char>, i: int) -> int
    decreases s.len() - i,
{
    if i < 0 || i >= s.len() {
        s.len() as int
    } else if is_space_char(s[i]) {
        i
    } else {
        space_end(s, i + 1)
    }
}

/// What a message text invokes, given the bot's own username: the
/// parsed command, or nothing when the text is not a command addressed
/// to this bot.
pub open spec fn parse_command_spec(text: Seq<char>, username: Seq<char>) -> Option<Command> {
    if text.len() == 0 || text[0] != '/' {
        Option::None
    } else {
        let ve = verb_end(text, 1);
        let verb = text.subrange(1, ve);
        let mention_ok = if ve < text.len() && text[ve] == '@' {
            seqs_eq_ci(text.subrange(ve + 1, space_end(text, ve + 1)), username)
        } else {
            true
        };
        if !mention_ok {
            Option::None
        } else if seqs_eq_ci(verb, "start"@) {
            Option::Some(Command::Start)
        } else if seqs_eq_ci(verb, "help"@) {
            Option::Some(Command::Help)
        } else {
            Option::None
        }
    }
}

/// A scan that stopped at the first break is the break position that
/// `verb_end` names.
proof fn lemma_verb_end_at(s: Seq<char>, start: int, i: int)
    requires
        0 <= start <= i <= s.len(),
        forall|j: int| start <= j < i ==> !is_verb_break(s[j]),
        i == s.len() || is_verb_break(s[i]),
    ensures
        verb_end(s, start) == i,
    decreases i - start,
{
    if start < i {
        lemma_verb_end_at(s, start + 1, i);
    }
}

/// A scan that stopped at the first whitespace is the position that
/// `space_end` names.
proof fn lemma_space_end_at(s: Seq<char>, start: int, i: int)
    requires
        0 <= start <= i <= s.len(),
        forall|j: int| start <= j < i ==> !is_space_char(s[j]),
        i == s.len() || is_space_char(s[i]),
    ensures
        space_end(s, start) == i,
    decreases i - start,
{
    if start < i {
        lemma_space_end_at(s, start + 1, i);
    }
}

/// Runtime test for `is_verb_break`.
fn is_verb_break_char(c: char) -> (r: bool)
    ensures
        r == is_verb_break(c),
{
    c == ' ' || c == '\t' || c == '\n' || c == '\r' || c == '@'
}

/// Runtime test for `is_space_char`.
fn is_space(c: char) -> (r: bool)
    ensures
        r == is_space_char(c),
{
    c == ' ' || c == '\t' || c == '\n' || c == '\r'
}

/// Runtime test for `chars_eq_ci`.
fn chars_ci(a: char, b: char) -> (r: bool)
    ensures
        r == chars_eq_ci(a, b),
{
    if a == b {
        true
    } else {
        let au = a as u32;
        let bu = b as u32;
        (65 <= au && au <= 90 && au + 32 == bu) || (65 <= bu && bu <= 90 && bu + 32 == au)
    }
}

/// Whether `text[start..end]` equals `target` up to ASCII case.
fn range_eq_ci(text: &str, start: usize, end: usize, target: &str) -> (r: bool)
    requires
        start <= end <= text@.len(),
    ensures
        r == seqs_eq_ci(text@.subrange(start as int, end as int), target@),
{
    let tlen = target.unicode_len();
    if end - start != tlen {
        return false;
    }
    let mut k: usize = 0;
    while k < tlen
        invariant
            start <= end <= text@.len(),
            end - start == tlen,
            tlen == target@.len(),
            0 <= k <= tlen,
            forall|j: int| 0 <= j < k ==> chars_eq_ci(text@[start + j], target@[j]),
        decreases tlen - k,
    {
        if !chars_ci(text.get_char(start + k), target.get_char(k)) {
            assert(!chars_eq_ci(
                text@.subrange(start as int, end as int)[k as int],
                target@[k as int],
            ));
            return false;
        }
        k += 1;
    }
    assert forall|i: int| 0 <= i < tlen implies chars_eq_ci(
        text@.subrange(start as int, end as int)[i],
        target@[i],
    ) by {
        assert(text@.subrange(start as int, end as int)[i] == text@[start + i]);
    }
    true
}

/// Parse a message text against this bot's username.
///
/// Returns exactly what `parse_command_spec` names: the command when
/// the text is `/start` or `/help` (in any ASCII case, optionally
/// mentioning this bot, optionally followed by more words), and
/// nothing otherwise.
pub fn parse_command(text: &str, bot_username: &str) -> (r: Option<Command>)
    ensures
        r == parse_command_spec(text@, bot_username@),
{
    let n = text.unicode_len();
    if n == 0 {
        return Option::None;
    }
    if text.get_char(0) != '/' {
        return Option::None;
    }
    let mut i: usize = 1;
    while i < n && !is_verb_break_char(text.get_char(i))
        invariant
            n == text@.len(),
            1 <= i <= n,
            forall|j: int| 1 <= j < i ==> !is_verb_break(text@[j]),
        decreases n - i,
    {
        i += 1;
    }
    proof {
        lemma_verb_end_at(text@, 1, i as int);
    }
    let mention_ok: bool = if i < n && text.get_char(i) == '@' {
        let ms = i + 1;
        let mut j: usize = ms;
        while j < n && !is_space(text.get_char(j))
            invariant
                n == text@.len(),
                ms <= j <= n,
                forall|k: int| ms <= k < j ==> !is_space_char(text@[k]),
            decreases n - j,
        {
            j += 1;
        }
        proof {
            lemma_space_end_at(text@, ms as int, j as int);
        }
        range_eq_ci(text, ms, j, bot_username)
    } else {
        true
    };
    if !mention_ok {
        Option::None
    } else if range_eq_ci(text, 1, i, "start") {
        Option::Some(Command::Start)
    } else if range_eq_ci(text, 1, i, "help") {
        Option::Some(Command::Help)
    } else {
        Option::None
    }
}

} // verus!
