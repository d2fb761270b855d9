//! How a configuration field's identifier becomes an environment variable name.
//!
//! `database_url` becomes `DATABASE_URL`, `workerCount` becomes
//! `WORKER_COUNT`, and an identifier with no lowercase letter is used as it is.

use vstd::prelude::*;

use crate::text::{chars_of, push_char, string_from_chars};

verus! {

/// An ASCII lowercase letter.
pub open spec fn is_lower(c: char) -> bool {
    'a' <= c && c <= 'z'
}

/// An ASCII uppercase letter.
pub open spec fn is_upper(c: char) -> bool {
    'A' <= c && c <= 'Z'
}

/// An ASCII decimal digit.
pub open spec fn is_digit(c: char) -> bool {
    '0' <= c && c <= '9'
}

/// The ASCII uppercase form of a character; other characters are unchanged.
pub open spec fn upper(c: char) -> char {
    if is_lower(c) {
        ((c as u32) - 32) as char
    } else {
        c
    }
}

/// Whether the character before position `i` is a lowercase letter or a digit.
pub open spec fn follows_lower_or_digit(s: Seq<char>, i: int) -> bool {
    i > 0 && (is_lower(s[i - 1]) || is_digit(s[i - 1]))
}

/// What the character at position `i` becomes: an uppercase letter that
/// follows a lowercase letter or a digit gets an underscore before it, and
/// every character is upper-cased.
pub open spec fn screaming_piece(s: Seq<char>, i: int) -> Seq<char> {
    if is_upper(s[i]) && follows_lower_or_digit(s, i) {
        seq!['_', s[i]]
    } else {
        seq![upper(s[i])]
    }
}

/// The screaming-snake-case form of the first `n` characters of `s`.
pub open spec fn screaming_prefix(s: Seq<char>, n: int) -> Seq<char>
    decreases n,
{
    if n <= 0 {
        Seq::empty()
    } else {
        screaming_prefix(s, n - 1) + screaming_piece(s, n - 1)
    }
}

/// The screaming-snake-case form of `s`.
pub open spec fn screaming(s: Seq<char>) -> Seq<char> {
    screaming_prefix(s, s.len() as int)
}

/// Whether `s` holds an ASCII lowercase letter.
pub open spec fn has_lower(s: Seq<char>) -> bool {
    exists|i: int| 0 <= i < s.len() && is_lower(#[trigger] s[i])
}

/// The environment variable name for a field identifier.
pub open spec fn env_name_for(ident: Seq<char>) -> Seq<char> {
    if has_lower(ident) {
        screaming(ident)
    } else {
        ident
    }
}

/// Whether every character of `s` is a lowercase letter, a digit or `_`.
pub open spec fn is_snake_case(s: Seq<char>) -> bool {
    forall|i: int| 0 <= i < s.len() ==> is_lower(#[trigger] s[i]) || is_digit(s[i]) || s[i] == '_'
}

fn is_ascii_lower(c: char) -> (b: bool)
    ensures
        b == is_lower(c),
{
    'a' <= c && c <= 'z'
}

fn is_ascii_upper(c: char) -> (b: bool)
    ensures
        b == is_upper(c),
{
    'A' <= c && c <= 'Z'
}

fn is_ascii_digit(c: char) -> (b: bool)
    ensures
        b == is_digit(c),
{
    '0' <= c && c <= '9'
}

fn to_upper(c: char) -> (u: char)
    ensures
        u == upper(c),
{
    if is_ascii_lower(c) {
        let code: u32 = c as u32;
        let shifted: u8 = (code - 32) as u8;
        shifted as char
    } else {
        c
    }
}

/// Converts `snake_case` or `camelCase` text to `SCREAMING_SNAKE_CASE`.
pub fn snake_to_screaming(value: &str) -> (out: String)
    ensures
        out@ == screaming(value@),
{
    let chars = chars_of(value);
    let mut output = String::new();
    let mut previous_was_lower_or_digit = false;
    let mut i: usize = 0;
    while i < chars.len()
        invariant
            chars@ == value@,
            i <= chars.len(),
            output@ == screaming_prefix(chars@, i as int),
            previous_was_lower_or_digit == follows_lower_or_digit(chars@, i as int),
        decreases chars.len() - i,
    {
        let ch = chars[i];
        if is_ascii_upper(ch) && previous_was_lower_or_digit {
            push_char(&mut output, '_');
            push_char(&mut output, ch);
        } else {
            push_char(&mut output, to_upper(ch));
        }
        previous_was_lower_or_digit = is_ascii_lower(ch) || is_ascii_digit(ch);
        i = i + 1;
    }
    output
}

fn contains_lower(chars: &Vec<char>) -> (b: bool)
    ensures
        b == has_lower(chars@),
{
    let mut i: usize = 0;
    while i < chars.len()
        invariant
            i <= chars.len(),
            forall|j: int| 0 <= j < i ==> !is_lower(#[trigger] chars@[j]),
        decreases chars.len() - i,
    {
        if is_ascii_lower(chars[i]) {
            return true;
        }
        i = i + 1;
    }
    false
}

/// The environment variable name for a field identifier: identifiers with a
/// lowercase letter are converted to screaming snake case, others are kept.
pub fn env_name_from_field_ident(ident: &str) -> (name: String)
    ensures
        name@ == env_name_for(ident@),
{
    let chars = chars_of(ident);
    if contains_lower(&chars) {
        snake_to_screaming(ident)
    } else {
        string_from_chars(&chars)
    }
}

proof fn lemma_upper_not_lower(c: char)
    ensures
        !is_lower(upper(c)),
{
}

proof fn lemma_screaming_prefix_no_lower(s: Seq<char>, n: int)
    requires
        0 <= n <= s.len(),
    ensures
        !has_lower(screaming_prefix(s, n)),
    decreases n,
{
    if n > 0 {
        lemma_screaming_prefix_no_lower(s, n - 1);
        lemma_upper_not_lower(s[n - 1]);
        let a = screaming_prefix(s, n - 1);
        let b = screaming_piece(s, n - 1);
        assert forall|i: int| 0 <= i < (a + b).len() implies !is_lower(#[trigger] (a + b)[i]) by {
            if i < a.len() {
                assert((a + b)[i] == a[i]);
            } else {
                assert((a + b)[i] == b[i - a.len()]);
            }
        }
    }
}

/// A generated variable name holds no lowercase letter.
pub proof fn lemma_env_name_has_no_lowercase(ident: Seq<char>)
    ensures
        !has_lower(env_name_for(ident)),
{
    lemma_screaming_prefix_no_lower(ident, ident.len() as int);
}

/// Naming is idempotent: a generated name maps to itself, so an uppercase
/// field maps to the same uppercase variable name.
pub proof fn lemma_env_name_idempotent(ident: Seq<char>)
    ensures
        env_name_for(env_name_for(ident)) == env_name_for(ident),
{
    lemma_env_name_has_no_lowercase(ident);
}

proof fn lemma_snake_prefix(s: Seq<char>, n: int)
    requires
        0 <= n <= s.len(),
        is_snake_case(s),
    ensures
        screaming_prefix(s, n) == s.take(n).map_values(|c: char| upper(c)),
    decreases n,
{
    if n > 0 {
        lemma_snake_prefix(s, n - 1);
        assert(!is_upper(s[n - 1])) by {
            assert(is_lower(s[n - 1]) || is_digit(s[n - 1]) || s[n - 1] == '_');
        }
        assert(s.take(n).map_values(|c: char| upper(c)) == s.take(n - 1).map_values(
            |c: char| upper(c),
        ).push(upper(s[n - 1])));
    }
}

/// A snake_case identifier (lowercase letters, digits, underscores) maps to
/// its character-by-character uppercase form, with no underscore added.
pub proof fn lemma_snake_case_is_uppercased(ident: Seq<char>)
    requires
        is_snake_case(ident),
    ensures
        screaming(ident) == ident.map_values(|c: char| upper(c)),
{
    lemma_snake_prefix(ident, ident.len() as int);
    assert(ident.take(ident.len() as int) == ident);
}

} // verus!
