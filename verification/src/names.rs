//! The names of generated items, each derived from the command's name alone.

use vstd::prelude::*;
use vstd::string::StringExecFns;

verus! {

/// The uppercase mapping of a character as `char::to_uppercase` yields it:
/// one character or more.
pub uninterp spec fn char_uppercase(c: char) -> Seq<char>;

/// Collects what `char::to_uppercase` yields for `c`. The contract gives the
/// result its name and claims nothing else of it.
#[verifier::external_body]
fn uppercase_of(c: char) -> (upper: String)
    ensures
        upper@ == char_uppercase(c),
{
    c.to_uppercase().collect()
}

/// A word with its first character replaced by that character's uppercase
/// mapping; the empty word stays empty.
pub open spec fn capitalized(word: Seq<char>) -> Seq<char> {
    if word.len() == 0 {
        word
    } else {
        char_uppercase(word[0]) + word.skip(1)
    }
}

/// What the character at `i` contributes to the pascal-cased text: nothing
/// for an underscore, its uppercase mapping where it starts a word, itself
/// elsewhere.
pub open spec fn pascal_piece(s: Seq<char>, i: int) -> Seq<char> {
    if s[i] == '_' {
        Seq::empty()
    } else if i == 0 || s[i - 1] == '_' {
        char_uppercase(s[i])
    } else {
        seq![s[i]]
    }
}

/// The contributions of the first `n` characters, in order.
pub open spec fn pascal_prefix(s: Seq<char>, n: int) -> Seq<char>
    decreases n,
{
    if n <= 0 {
        Seq::empty()
    } else {
        pascal_prefix(s, n - 1) + pascal_piece(s, n - 1)
    }
}

/// The text in pascal case: the words between underscores, each capitalized,
/// joined without a separator.
pub open spec fn pascal_case(s: Seq<char>) -> Seq<char> {
    pascal_prefix(s, s.len() as int)
}

/// A stretch without underscores that begins a word contributes the
/// capitalized stretch.
pub proof fn lemma_word_contribution(s: Seq<char>, start: int, end: int)
    requires
        0 <= start <= end <= s.len(),
        start == 0 || s[start - 1] == '_',
        forall|j: int| start <= j < end ==> s[j] != '_',
    ensures
        pascal_prefix(s, end) == pascal_prefix(s, start) + capitalized(s.subrange(start, end)),
    decreases end - start,
{
    let word = s.subrange(start, end);
    if end == start {
        assert(pascal_prefix(s, start) + capitalized(word) =~= pascal_prefix(s, start));
    } else if end == start + 1 {
        assert(pascal_prefix(s, start) == pascal_prefix(s, end - 1));
        assert(capitalized(word) =~= pascal_piece(s, start));
    } else {
        lemma_word_contribution(s, start, end - 1);
        let shorter = s.subrange(start, end - 1);
        assert(capitalized(word) =~= capitalized(shorter) + seq![s[end - 1]]);
        assert(pascal_prefix(s, end) =~= pascal_prefix(s, start) + capitalized(word));
    }
}

/// Appends `word` to `out` with `first_upper` in place of its first
/// character; an empty word adds nothing.
pub fn push_capitalized(out: &mut String, word: &str, first_upper: &str)
    ensures
        final(out)@ == old(out)@ + (if word@.len() == 0 {
            word@
        } else {
            first_upper@ + word@.skip(1)
        }),
{
    let n: usize = word.unicode_len();
    if n > 0 {
        out.append(first_upper);
        out.append(word.substring_char(1, n));
        proof {
            assert(word@.subrange(1, n as int) =~= word@.skip(1));
            assert(final(out)@ =~= old(out)@ + (first_upper@ + word@.skip(1)));
        }
    } else {
        assert(final(out)@ =~= old(out)@ + word@);
    }
}

/// Appends the capitalized stretch of `s` from `start` to `end` to `out`.
fn push_word(out: &mut String, s: &str, start: usize, end: usize)
    requires
        start <= end <= s@.len(),
    ensures
        final(out)@ == old(out)@ + capitalized(s@.subrange(start as int, end as int)),
{
    if start < end {
        let upper = uppercase_of(s.get_char(start));
        push_capitalized(out, s.substring_char(start, end), upper.as_str());
    } else {
        assert(final(out)@ =~= old(out)@ + capitalized(s@.subrange(start as int, end as int)));
    }
}

/// Turns a snake-case name into pascal case: `tick_world` becomes
/// `TickWorld`. Underscores are dropped and empty words add nothing.
pub fn to_pascal_case(s: &str) -> (out: String)
    ensures
        out@ == pascal_case(s@),
{
    let n: usize = s.unicode_len();
    let mut out = String::new();
    let mut start: usize = 0;
    let mut i: usize = 0;
    while i < n
        invariant
            start <= i <= n,
            n == s@.len(),
            start == 0 || s@[start - 1] == '_',
            forall|j: int| start <= j < i ==> s@[j] != '_',
            out@ == pascal_prefix(s@, start as int),
        decreases n - i,
    {
        if s.get_char(i) == '_' {
            push_word(&mut out, s, start, i);
            proof {
                lemma_word_contribution(s@, start as int, i as int);
                assert(pascal_prefix(s@, i + 1) =~= pascal_prefix(s@, i as int));
            }
            start = i + 1;
        }
        i += 1;
    }
    push_word(&mut out, s, start, n);
    proof {
        lemma_word_contribution(s@, start as int, n as int);
    }
    out
}

/// The name of the hidden inner function of the command `name`.
pub open spec fn inner_name_of(name: Seq<char>) -> Seq<char> {
    "__webtau_"@ + name
}

/// The name of the argument record of the command `name`.
pub open spec fn args_record_name_of(name: Seq<char>) -> Seq<char> {
    "__Webtau"@ + pascal_case(name) + "Args"@
}

/// The name of the hidden inner function: the reserved prefix, an
/// underscore and the command's name.
pub fn inner_name(name: &str) -> (out: String)
    ensures
        out@ == inner_name_of(name@),
{
    String::from_str("__webtau_").concat(name)
}

/// The name of the record that carries a command's extra parameters over
/// the sandbox boundary.
pub fn args_record_name(name: &str) -> (out: String)
    ensures
        out@ == args_record_name_of(name@),
{
    let pascal = to_pascal_case(name);
    String::from_str("__Webtau").concat(pascal.as_str()).concat("Args")
}

} // verus!
