//! Escaping text for chat channels that read Markdown.
use vstd::prelude::*;

use crate::text::push_char;

verus! {

/// The characters that Markdown gives a meaning to.
pub open spec fn is_markdown_special(c: char) -> bool {
    c == '_' || c == '.' || c == '*' || c == '[' || c == ']' || c == '(' || c == ')' || c == '~'
        || c == '`' || c == '>' || c == '#' || c == '+' || c == '-' || c == '=' || c == '|' || c
        == '{' || c == '}' || c == '!'
}

/// One character as it is written in escaped text.
pub open spec fn escape_char(c: char) -> Seq<char> {
    if is_markdown_special(c) {
        seq!['\\', c]
    } else {
        seq![c]
    }
}

/// `s` with a backslash before every special character.
pub open spec fn escaped(s: Seq<char>) -> Seq<char>
    decreases s.len(),
{
    if s.len() == 0 {
        Seq::empty()
    } else {
        escaped(s.drop_last()) + escape_char(s.last())
    }
}

/// Whether `c` is one of the characters that Markdown gives a meaning to.
pub fn is_special(c: char) -> (r: bool)
    ensures
        r == is_markdown_special(c),
{
    c == '_' || c == '.' || c == '*' || c == '[' || c == ']' || c == '(' || c == ')' || c == '~'
        || c == '`' || c == '>' || c == '#' || c == '+' || c == '-' || c == '=' || c == '|' || c
        == '{' || c == '}' || c == '!'
}

/// Puts a backslash before every character that Markdown would read as markup.
pub fn escape_markdown(input: String) -> (r: String)
    ensures
        r@ == escaped(input@),
{
    let n = input.unicode_len();
    let mut out = String::new();
    let mut i: usize = 0;
    while i < n
        invariant
            n == input@.len(),
            i <= n,
            out@ == escaped(input@.take(i as int)),
        decreases n - i,
    {
        let c = input.as_str().get_char(i);
        if is_special(c) {
            push_char(&mut out, '\\');
        }
        push_char(&mut out, c);
        proof {
            let t = input@.take(i + 1);
            assert(t.drop_last() =~= input@.take(i as int));
            assert(t.last() == c);
            assert(out@ =~= escaped(input@.take(i as int)) + escape_char(c));
        }
        i = i + 1;
    }
    assert(input@.take(n as int) =~= input@);
    out
}

} // verus!
