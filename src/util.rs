use vstd::prelude::*;

verus! {

/// What `char::to_uppercase` yields for a character, collected into a string.
pub uninterp spec fn uppercase_of(c: char) -> Seq<char>;

/// Relies on `char::to_uppercase`: the upper-case mapping of one character,
/// which depends on the character alone.
#[verifier::external_body]
fn char_to_uppercase(c: char) -> (r: String)
    ensures
        r@ == uppercase_of(c),
{
    c.to_uppercase().collect()
}

/// Relies on `char`'s `to_string`: a string that holds exactly that character.
#[verifier::external_body]
pub(crate) fn char_text(c: char) -> (r: String)
    ensures
        r@ == seq![c],
{
    c.to_string()
}

/// The text with its first character replaced by its upper-case mapping.
pub open spec fn uppercase_first(s: Seq<char>) -> Seq<char> {
    if s.len() == 0 {
        Seq::empty()
    } else {
        uppercase_of(s[0]) + s.skip(1)
    }
}

pub fn uppercase_first_letter(s: &str) -> (r: String)
    ensures
        r@ == uppercase_first(s@),
{
    let n = s.unicode_len();
    if n == 0 {
        String::new()
    } else {
        let first = char_to_uppercase(s.get_char(0));
        let rest = s.substring_char(1, n);
        let r = first.concat(rest);
        proof {
            assert(rest@ =~= s@.skip(1));
        }
        r
    }
}

} // verus!
