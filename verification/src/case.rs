//! Case conversion of the first character of a name.

use vstd::prelude::*;
use vstd::string::*;

verus! {

/// The lowercase mapping of a character, as `char::to_lowercase` yields it
/// (Unicode's full case mapping; one or more characters).
pub uninterp spec fn char_lowercase(c: char) -> Seq<char>;

/// The uppercase mapping of a character, as `char::to_uppercase` yields it
/// (Unicode's full case mapping; one or more characters).
pub uninterp spec fn char_uppercase(c: char) -> Seq<char>;

/// An ASCII character.
pub open spec fn is_ascii_char(c: char) -> bool {
    (c as u32) < 128
}

/// ASCII lowercasing: `A`..`Z` become `a`..`z`, every other character stays.
pub open spec fn ascii_lower(c: char) -> char {
    if 'A' <= c && c <= 'Z' {
        ((c as u32) + 32) as char
    } else {
        c
    }
}

/// ASCII uppercasing: `a`..`z` become `A`..`Z`, every other character stays.
pub open spec fn ascii_upper(c: char) -> char {
    if 'a' <= c && c <= 'z' {
        ((c as u32) - 32) as char
    } else {
        c
    }
}

/// `s` with its first character replaced by that character's lowercase
/// mapping; the empty sequence stays empty.
pub open spec fn camel_case(s: Seq<char>) -> Seq<char> {
    if s.len() == 0 {
        Seq::empty()
    } else {
        char_lowercase(s[0]) + s.drop_first()
    }
}

/// `s` with its first character replaced by that character's uppercase
/// mapping; the empty sequence stays empty.
pub open spec fn capitalized(s: Seq<char>) -> Seq<char> {
    if s.len() == 0 {
        Seq::empty()
    } else {
        char_uppercase(s[0]) + s.drop_first()
    }
}

/// `camel_case` where the first character is ASCII: that character is
/// lowercased the ASCII way.
pub open spec fn ascii_camel_case(s: Seq<char>) -> Seq<char> {
    if s.len() == 0 {
        Seq::empty()
    } else {
        seq![ascii_lower(s[0])] + s.drop_first()
    }
}

/// `capitalized` where the first character is ASCII: that character is
/// uppercased the ASCII way.
pub open spec fn ascii_capitalized(s: Seq<char>) -> Seq<char> {
    if s.len() == 0 {
        Seq::empty()
    } else {
        seq![ascii_upper(s[0])] + s.drop_first()
    }
}

/// A sequence that is empty or begins with an ASCII character.
pub open spec fn starts_ascii(s: Seq<char>) -> bool {
    s.len() == 0 || is_ascii_char(s[0])
}

/// Calls `char::to_lowercase` and collects the characters it yields.
/// Claimed: the result is the named mapping `char_lowercase(c)`, it holds at
/// least one character, and for an ASCII character it is the single ASCII
/// lowercase character. The full Unicode mapping is left unstated.
#[verifier::external_body]
fn lowercase_char(c: char) -> (r: String)
    ensures
        r@ == char_lowercase(c),
        r@.len() >= 1,
        is_ascii_char(c) ==> r@ == seq![ascii_lower(c)],
{
    c.to_lowercase().collect::<String>()
}

/// Calls `char::to_uppercase` and collects the characters it yields.
/// Claimed: the result is the named mapping `char_uppercase(c)`, it holds at
/// least one character, and for an ASCII character it is the single ASCII
/// uppercase character. The full Unicode mapping is left unstated.
#[verifier::external_body]
fn uppercase_char(c: char) -> (r: String)
    ensures
        r@ == char_uppercase(c),
        r@.len() >= 1,
        is_ascii_char(c) ==> r@ == seq![ascii_upper(c)],
{
    c.to_uppercase().collect::<String>()
}

/// PascalCase to camelCase: lowercases the first character only.
pub fn to_camel_case(s: &str) -> (r: String)
    ensures
        r@ == camel_case(s@),
        starts_ascii(s@) ==> r@ == ascii_camel_case(s@),
        r@.len() >= s@.len(),
        s@.len() == 0 ==> r@.len() == 0,
        s@.len() > 0 ==> char_lowercase(s@[0]).len() >= 1 && r@ == char_lowercase(s@[0])
            + s@.drop_first(),
        s@.len() > 0 && 'A' <= s@[0] && s@[0] <= 'Z' ==> r@.len() == s@.len() && r@[0] == ((
        s@[0] as u32) + 32) as char && r@.drop_first() == s@.drop_first(),
{
    let n = s.unicode_len();
    if n == 0 {
        return String::new();
    }
    let first = s.get_char(0);
    let rest = s.substring_char(1, n);
    let mut out = lowercase_char(first);
    out.append(rest);
    assert(rest@ =~= s@.drop_first());
    out
}

/// Uppercases the first character only.
pub fn capitalize_first(s: &str) -> (r: String)
    ensures
        r@ == capitalized(s@),
        starts_ascii(s@) ==> r@ == ascii_capitalized(s@),
        r@.len() >= s@.len(),
        s@.len() == 0 ==> r@.len() == 0,
        s@.len() > 0 ==> char_uppercase(s@[0]).len() >= 1 && r@ == char_uppercase(s@[0])
            + s@.drop_first(),
        s@.len() > 0 && 'a' <= s@[0] && s@[0] <= 'z' ==> r@.len() == s@.len() && r@[0] == ((
        s@[0] as u32) - 32) as char && r@.drop_first() == s@.drop_first(),
{
    let n = s.unicode_len();
    if n == 0 {
        return String::new();
    }
    let first = s.get_char(0);
    let rest = s.substring_char(1, n);
    let mut out = uppercase_char(first);
    out.append(rest);
    assert(rest@ =~= s@.drop_first());
    out
}

/// For names that begin with an ASCII character, camelCasing twice is the
/// same as camelCasing once, and the result again begins with an ASCII
/// character.
pub proof fn lemma_camel_case_idempotent(s: Seq<char>)
    requires
        starts_ascii(s),
    ensures
        starts_ascii(ascii_camel_case(s)),
        ascii_camel_case(ascii_camel_case(s)) == ascii_camel_case(s),
{
    if s.len() > 0 {
        let c = s[0];
        let l = ascii_lower(c);
        assert((l as u32) < 128);
        assert(ascii_lower(l) == l);
        assert(ascii_camel_case(s)[0] == l);
        assert(ascii_camel_case(s).drop_first() =~= s.drop_first());
        assert(ascii_camel_case(ascii_camel_case(s)) =~= ascii_camel_case(s));
    }
}

/// camelCase changes the first character only, into its lowercase mapping:
/// an empty name stays empty, and otherwise the result is that mapping
/// followed by every other character of the name, in order.
pub proof fn lemma_camel_case_maps_first_char(s: Seq<char>)
    ensures
        s.len() == 0 ==> camel_case(s).len() == 0,
        s.len() > 0 ==> camel_case(s).len() == char_lowercase(s[0]).len() + s.len() - 1,
        s.len() > 0 ==> camel_case(s).subrange(0, char_lowercase(s[0]).len() as int)
            == char_lowercase(s[0]),
        forall|i: int|
            0 < i < s.len() ==> #[trigger] camel_case(s)[char_lowercase(s[0]).len() + i - 1]
                == s[i],
{
    if s.len() > 0 {
        let l = char_lowercase(s[0]);
        assert(camel_case(s).subrange(0, l.len() as int) =~= l);
    }
}

/// Capitalizing changes the first character only, into its uppercase
/// mapping: an empty name stays empty, and otherwise the result is that
/// mapping followed by every other character of the name, in order.
pub proof fn lemma_capitalized_maps_first_char(s: Seq<char>)
    ensures
        s.len() == 0 ==> capitalized(s).len() == 0,
        s.len() > 0 ==> capitalized(s).len() == char_uppercase(s[0]).len() + s.len() - 1,
        s.len() > 0 ==> capitalized(s).subrange(0, char_uppercase(s[0]).len() as int)
            == char_uppercase(s[0]),
        forall|i: int|
            0 < i < s.len() ==> #[trigger] capitalized(s)[char_uppercase(s[0]).len() + i - 1]
                == s[i],
{
    if s.len() > 0 {
        let u = char_uppercase(s[0]);
        assert(capitalized(s).subrange(0, u.len() as int) =~= u);
    }
}

/// For a name that begins with an ASCII capital letter, of any length, the
/// ASCII camelCase form has the same length, begins with the matching small
/// letter, and keeps every later character.
pub proof fn lemma_ascii_camel_case_lowers_capital(s: Seq<char>)
    requires
        s.len() > 0,
        'A' <= s[0] && s[0] <= 'Z',
    ensures
        ascii_camel_case(s).len() == s.len(),
        'a' <= ascii_camel_case(s)[0] && ascii_camel_case(s)[0] <= 'z',
        ascii_camel_case(s)[0] as u32 == s[0] as u32 + 32,
        forall|i: int| 0 < i < s.len() ==> #[trigger] ascii_camel_case(s)[i] == s[i],
{
    assert(ascii_camel_case(s)[0] == ascii_lower(s[0]));
}

/// camelCasing twice is the same as camelCasing once for any name whose
/// first character's lowercase mapping is nonempty and maps its own first
/// character to itself. Names that begin with an ASCII character are the
/// case that `lemma_camel_case_idempotent` covers; for other characters the
/// hypothesis is a fact of Unicode's case tables that this library does not
/// assume.
pub proof fn lemma_camel_case_idempotent_when_settled(s: Seq<char>)
    requires
        s.len() > 0 ==> char_lowercase(s[0]).len() >= 1 && char_lowercase(
            char_lowercase(s[0])[0],
        ) == seq![char_lowercase(s[0])[0]],
    ensures
        camel_case(camel_case(s)) == camel_case(s),
{
    if s.len() > 0 {
        let l = char_lowercase(s[0]);
        let once = camel_case(s);
        assert(once =~= l + s.drop_first());
        assert(once[0] == l[0]);
        assert(once.drop_first() =~= l.drop_first() + s.drop_first());
        assert(seq![l[0]] + (l.drop_first() + s.drop_first()) =~= once);
    }
}

/// A PascalCase name whose first character is an ASCII capital letter comes
/// back unchanged when camelCased and then capitalized.
pub proof fn lemma_capitalize_undoes_camel_case(s: Seq<char>)
    requires
        s.len() > 0,
        'A' <= s[0] && s[0] <= 'Z',
    ensures
        starts_ascii(ascii_camel_case(s)),
        ascii_capitalized(ascii_camel_case(s)) == s,
{
    let c = s[0];
    let l = ascii_lower(c);
    assert('a' <= l && l <= 'z');
    assert(ascii_upper(l) == c);
    assert(ascii_camel_case(s)[0] == l);
    assert(ascii_camel_case(s).drop_first() =~= s.drop_first());
    assert(ascii_capitalized(ascii_camel_case(s)) =~= s);
}

} // verus!
