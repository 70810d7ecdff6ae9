//! Identifier-case predicates and conversions. Identifiers are judged by
//! their ASCII letters: `snake_case` means lower-case letters, digits and
//! underscores; `PascalCase` means a leading capital and alphanumerics.

use vstd::prelude::*;

verus! {

/// Whether `c` is an ASCII capital letter.
pub open spec fn is_up(c: char) -> bool {
    'A' <= c <= 'Z'
}

/// Whether `c` is an ASCII lower-case letter.
pub open spec fn is_low(c: char) -> bool {
    'a' <= c <= 'z'
}

/// Whether `c` is an ASCII digit.
pub open spec fn is_digit(c: char) -> bool {
    '0' <= c <= '9'
}

/// The lower-case form of an ASCII capital; other characters are unchanged.
pub open spec fn low_char(c: char) -> char {
    if is_up(c) {
        ((c as u8) + 32) as char
    } else {
        c
    }
}

/// The capital form of an ASCII lower-case letter; other characters are
/// unchanged.
pub open spec fn up_char(c: char) -> char {
    if is_low(c) {
        ((c as u8) - 32) as char
    } else {
        c
    }
}

fn low_char_exec(c: char) -> (r: char)
    ensures
        r == low_char(c),
{
    if 'A' <= c && c <= 'Z' {
        ((c as u8) + 32) as char
    } else {
        c
    }
}

fn up_char_exec(c: char) -> (r: char)
    ensures
        r == up_char(c),
{
    if 'a' <= c && c <= 'z' {
        ((c as u8) - 32) as char
    } else {
        c
    }
}

/// Whether every character of `s` is a lower-case letter, a digit, or an
/// underscore.
pub open spec fn spec_is_snake_case(s: Seq<char>) -> bool {
    forall|i: int| 0 <= i < s.len() ==> is_low(s[i]) || is_digit(s[i]) || s[i] == '_'
}

/// Whether `s` opens with a capital letter and holds only alphanumerics.
pub open spec fn spec_is_pascal_case(s: Seq<char>) -> bool {
    &&& s.len() > 0
    &&& is_up(s[0])
    &&& forall|i: int| 0 <= i < s.len() ==> is_up(s[i]) || is_low(s[i]) || is_digit(s[i])
}

/// Whether the identifier is in snake case.
pub fn is_snake_case(s: &str) -> (r: bool)
    ensures
        r == spec_is_snake_case(s@),
{
    let len = s.unicode_len();
    let mut i: usize = 0;
    while i < len
        invariant
            i <= len,
            len == s@.len(),
            forall|j: int| 0 <= j < i ==> is_low(s@[j]) || is_digit(s@[j]) || s@[j] == '_',
        decreases len - i,
    {
        let c = s.get_char(i);
        if !(('a' <= c && c <= 'z') || ('0' <= c && c <= '9') || c == '_') {
            return false;
        }
        i = i + 1;
    }
    true
}

/// Whether the identifier is in Pascal case.
pub fn is_pascal_case(s: &str) -> (r: bool)
    ensures
        r == spec_is_pascal_case(s@),
{
    let len = s.unicode_len();
    if len == 0 {
        return false;
    }
    let first = s.get_char(0);
    if !('A' <= first && first <= 'Z') {
        return false;
    }
    let mut i: usize = 0;
    while i < len
        invariant
            i <= len,
            len == s@.len(),
            forall|j: int| 0 <= j < i ==> is_up(s@[j]) || is_low(s@[j]) || is_digit(s@[j]),
        decreases len - i,
    {
        let c = s.get_char(i);
        if !(('A' <= c && c <= 'Z') || ('a' <= c && c <= 'z') || ('0' <= c && c <= '9')) {
            return false;
        }
        i = i + 1;
    }
    true
}

/// The snake-case conversion that lowercases every character and puts an
/// underscore before each capital after the first character.
pub open spec fn snake_rec(s: Seq<char>, first: bool) -> Seq<char>
    decreases s,
{
    if s.len() == 0 {
        Seq::empty()
    } else {
        (if is_up(s[0]) && !first {
            seq!['_', low_char(s[0])]
        } else {
            seq![low_char(s[0])]
        }) + snake_rec(s.drop_first(), false)
    }
}

/// The snake-case form of `s`.
pub open spec fn spec_to_snake(s: Seq<char>) -> Seq<char> {
    snake_rec(s, true)
}

/// Converts an identifier to snake case: an underscore goes before each
/// capital after the first character, and every character is lowercased.
pub fn to_snake_case(s: &str) -> (r: String)
    ensures
        r@ == spec_to_snake(s@),
{
    let len = s.unicode_len();
    let mut out = String::new();
    let mut i: usize = 0;
    proof {
        assert(s@.skip(0) =~= s@);
        assert(out@ + snake_rec(s@, true) =~= snake_rec(s@, true));
    }
    while i < len
        invariant
            i <= len,
            len == s@.len(),
            spec_to_snake(s@) == out@ + snake_rec(s@.skip(i as int), i == 0),
        decreases len - i,
    {
        let c = s.get_char(i);
        proof {
            assert(s@.skip(i as int).drop_first() =~= s@.skip(i as int + 1));
            assert(s@.skip(i as int)[0] == s@[i as int]);
        }
        if ('A' <= c && c <= 'Z') && i > 0 {
            crate::text::push_char(&mut out, '_');
        }
        crate::text::push_char(&mut out, low_char_exec(c));
        i = i + 1;
    }
    proof {
        assert(s@.skip(len as int) =~= Seq::<char>::empty());
        assert(spec_to_snake(s@) =~= out@);
    }
    out
}

/// The snake-case conversion used by the fixer: non-letters are kept as
/// they are, and an underscore goes before a capital only when the text so
/// far is non-empty and does not already end in an underscore.
pub open spec fn fixer_snake_rec(s: Seq<char>, acc: Seq<char>) -> Seq<char>
    decreases s,
{
    if s.len() == 0 {
        acc
    } else {
        let acc2 = if is_up(s[0]) {
            (if acc.len() > 0 && acc[acc.len() - 1] != '_' {
                acc + seq!['_']
            } else {
                acc
            }) + seq![low_char(s[0])]
        } else {
            acc + seq![s[0]]
        };
        fixer_snake_rec(s.drop_first(), acc2)
    }
}

/// The fixer's snake-case form of `s`.
pub open spec fn spec_fixer_snake(s: Seq<char>) -> Seq<char> {
    fixer_snake_rec(s, Seq::empty())
}

/// The fixer's snake-case conversion.
pub fn fixer_to_snake_case(s: &str) -> (r: String)
    ensures
        r@ == spec_fixer_snake(s@),
{
    let len = s.unicode_len();
    let mut out = String::new();
    let mut i: usize = 0;
    proof {
        assert(s@.skip(0) =~= s@);
    }
    while i < len
        invariant
            i <= len,
            len == s@.len(),
            spec_fixer_snake(s@) == fixer_snake_rec(s@.skip(i as int), out@),
        decreases len - i,
    {
        let c = s.get_char(i);
        proof {
            assert(s@.skip(i as int).drop_first() =~= s@.skip(i as int + 1));
            assert(s@.skip(i as int)[0] == s@[i as int]);
        }
        if 'A' <= c && c <= 'Z' {
            let outlen = out.as_str().unicode_len();
            if outlen > 0 && out.as_str().get_char(outlen - 1) != '_' {
                crate::text::push_char(&mut out, '_');
            }
            crate::text::push_char(&mut out, low_char_exec(c));
        } else {
            crate::text::push_char(&mut out, c);
        }
        i = i + 1;
    }
    proof {
        assert(s@.skip(len as int) =~= Seq::<char>::empty());
    }
    out
}

/// The Pascal-case conversion: underscores are dropped, and the character
/// after each dropped underscore, as well as the first character, is
/// capitalized.
pub open spec fn pascal_rec(s: Seq<char>, cap: bool) -> Seq<char>
    decreases s,
{
    if s.len() == 0 {
        Seq::empty()
    } else if s[0] == '_' {
        pascal_rec(s.drop_first(), true)
    } else if cap {
        seq![up_char(s[0])] + pascal_rec(s.drop_first(), false)
    } else {
        seq![s[0]] + pascal_rec(s.drop_first(), false)
    }
}

/// The fixer's Pascal-case form of `s`.
pub open spec fn spec_fixer_pascal(s: Seq<char>) -> Seq<char> {
    pascal_rec(s, true)
}

/// The fixer's Pascal-case conversion.
pub fn fixer_to_pascal_case(s: &str) -> (r: String)
    ensures
        r@ == spec_fixer_pascal(s@),
{
    let len = s.unicode_len();
    let mut out = String::new();
    let mut cap = true;
    let mut i: usize = 0;
    proof {
        assert(s@.skip(0) =~= s@);
        assert(out@ + pascal_rec(s@, true) =~= pascal_rec(s@, true));
    }
    while i < len
        invariant
            i <= len,
            len == s@.len(),
            spec_fixer_pascal(s@) == out@ + pascal_rec(s@.skip(i as int), cap),
        decreases len - i,
    {
        let c = s.get_char(i);
        proof {
            assert(s@.skip(i as int).drop_first() =~= s@.skip(i as int + 1));
            assert(s@.skip(i as int)[0] == s@[i as int]);
        }
        if c == '_' {
            cap = true;
        } else if cap {
            crate::text::push_char(&mut out, up_char_exec(c));
            cap = false;
        } else {
            crate::text::push_char(&mut out, c);
        }
        i = i + 1;
    }
    proof {
        assert(s@.skip(len as int) =~= Seq::<char>::empty());
    }
    out
}

} // verus!
