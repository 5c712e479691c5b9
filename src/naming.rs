//! Conversions between the identifier styles of Rust and JavaScript.
use vstd::prelude::*;
use crate::text::push_char;

verus! {

/// `c` in upper case when it is an ASCII lower-case letter, `c` otherwise.
pub open spec fn ascii_upper(c: char) -> char {
    if 'a' <= c && c <= 'z' {
        ((c as u8) - 32) as char
    } else {
        c
    }
}

/// camelCase of `s`: each `_` is dropped and the character after it is
/// upper-cased; `cap` says whether the first character follows a `_`.
pub open spec fn camel_from(s: Seq<char>, cap: bool) -> Seq<char>
    decreases s.len(),
{
    if s.len() == 0 {
        Seq::empty()
    } else if s[0] == '_' {
        camel_from(s.drop_first(), true)
    } else if cap {
        seq![ascii_upper(s[0])] + camel_from(s.drop_first(), false)
    } else {
        seq![s[0]] + camel_from(s.drop_first(), false)
    }
}

/// camelCase of the snake_case name `s`.
pub open spec fn camel_case(s: Seq<char>) -> Seq<char> {
    camel_from(s, false)
}

/// Whether `c` has the Unicode `Uppercase` property.
pub uninterp spec fn uppercase_of(c: char) -> bool;

/// The first character of the lower-case mapping of `c`.
pub uninterp spec fn lowercase_first_of(c: char) -> char;

/// snake_case of `s`: every character is lower-cased, and an upper-case
/// character that is not the first gets a `_` before it.
pub open spec fn snake_from(s: Seq<char>, first: bool) -> Seq<char>
    decreases s.len(),
{
    if s.len() == 0 {
        Seq::empty()
    } else {
        let sep = if !first && uppercase_of(s[0]) {
            seq!['_']
        } else {
            Seq::empty()
        };
        sep + seq![lowercase_first_of(s[0])] + snake_from(s.drop_first(), false)
    }
}

/// snake_case of the CamelCase name `s`.
pub open spec fn snake_case(s: Seq<char>) -> Seq<char> {
    snake_from(s, true)
}

/// Relies on `char::is_uppercase`, which depends on the character alone.
#[verifier::external_body]
fn is_uppercase(c: char) -> (r: bool)
    ensures
        r == uppercase_of(c),
{
    c.is_uppercase()
}

/// Relies on `char::to_lowercase`, whose mapping depends on the character
/// alone and always yields at least one character.
#[verifier::external_body]
fn lowercase_first(c: char) -> (r: char)
    ensures
        r == lowercase_first_of(c),
{
    c.to_lowercase().next().unwrap()
}

pub fn to_ascii_upper(c: char) -> (r: char)
    ensures
        r == ascii_upper(c),
{
    if 'a' <= c && c <= 'z' {
        ((c as u8) - 32) as char
    } else {
        c
    }
}

proof fn lemma_rest(s: Seq<char>, i: int)
    requires
        0 <= i < s.len(),
    ensures
        s.subrange(i, s.len() as int).drop_first() == s.subrange(i + 1, s.len() as int),
        s.subrange(i, s.len() as int)[0] == s[i],
{
    assert(s.subrange(i, s.len() as int).drop_first() =~= s.subrange(i + 1, s.len() as int));
}

/// Converts a snake_case name to camelCase.
pub fn to_camel_case(s: &str) -> (r: String)
    ensures
        r@ == camel_case(s@),
{
    let n = s.unicode_len();
    let mut result = String::new();
    let mut capitalize_next = false;
    let mut i: usize = 0;
    assert(s@.subrange(0, n as int) =~= s@);
    while i < n
        invariant
            n == s@.len(),
            i <= n,
            result@ + camel_from(s@.subrange(i as int, n as int), capitalize_next) == camel_case(
                s@,
            ),
        decreases n - i,
    {
        let c = s.get_char(i);
        proof {
            lemma_rest(s@, i as int);
        }
        let ghost rest = s@.subrange(i + 1, n as int);
        let ghost before = result@;
        if c == '_' {
            capitalize_next = true;
        } else if capitalize_next {
            let u = to_ascii_upper(c);
            push_char(&mut result, u);
            assert(result@ + camel_from(rest, false) =~= before + (seq![u] + camel_from(
                rest,
                false,
            )));
            capitalize_next = false;
        } else {
            push_char(&mut result, c);
            assert(result@ + camel_from(rest, false) =~= before + (seq![c] + camel_from(
                rest,
                false,
            )));
        }
        i = i + 1;
    }
    assert(camel_from(s@.subrange(n as int, n as int), capitalize_next) =~= Seq::empty());
    assert(result@ =~= result@ + Seq::<char>::empty());
    result
}

/// Converts a CamelCase name to snake_case.
pub fn to_snake_case(s: &str) -> (r: String)
    ensures
        r@ == snake_case(s@),
{
    let n = s.unicode_len();
    let mut result = String::new();
    let mut i: usize = 0;
    assert(s@.subrange(0, n as int) =~= s@);
    while i < n
        invariant
            n == s@.len(),
            i <= n,
            result@ + snake_from(s@.subrange(i as int, n as int), i == 0) == snake_case(s@),
        decreases n - i,
    {
        let c = s.get_char(i);
        proof {
            lemma_rest(s@, i as int);
        }
        let ghost rest = s@.subrange(i + 1, n as int);
        let ghost before = result@;
        let upper = is_uppercase(c);
        if i > 0 && upper {
            push_char(&mut result, '_');
        }
        let lower = lowercase_first(c);
        push_char(&mut result, lower);
        let ghost sep = if i > 0 && upper {
            seq!['_']
        } else {
            Seq::empty()
        };
        assert(result@ =~= before + sep + seq![lower]);
        assert(result@ + snake_from(rest, false) =~= before + (sep + seq![lower] + snake_from(
            rest,
            false,
        )));
        i = i + 1;
    }
    assert(snake_from(s@.subrange(n as int, n as int), n == 0) =~= Seq::empty());
    assert(result@ =~= result@ + Seq::<char>::empty());
    result
}

} // verus!
