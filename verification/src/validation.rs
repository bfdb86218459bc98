use vstd::prelude::*;

use crate::errors::{empty_name_msg, AppError};
use crate::user::NewUser;

verus! {

/// The Unicode white-space characters: the set that trimming strips from the
/// ends of a name.
pub open spec fn is_space(c: char) -> bool {
    let v = c as u32;
    (9 <= v && v <= 13) || v == 32 || v == 0x85 || v == 0xA0 || v == 0x1680 || (0x2000 <= v && v
        <= 0x200A) || v == 0x2028 || v == 0x2029 || v == 0x202F || v == 0x205F || v == 0x3000
}

/// A name trims to nothing exactly when every character is white space; the
/// empty name holds no other characters and so trims to nothing as well.
pub open spec fn all_whitespace(s: Seq<char>) -> bool {
    forall|i: int| 0 <= i < s.len() ==> is_space(s[i])
}

/// White-space test for one character, equal to the spec-level set.
pub fn is_space_char(c: char) -> (r: bool)
    ensures
        r == is_space(c),
{
    let v = c as u32;
    (9 <= v && v <= 13) || v == 32 || v == 0x85 || v == 0xA0 || v == 0x1680 || (0x2000 <= v && v
        <= 0x200A) || v == 0x2028 || v == 0x2029 || v == 0x202F || v == 0x205F || v == 0x3000
}

/// Whether `s` trims to the empty string, that is, holds no character beyond
/// white space.
pub fn trims_to_empty(s: &str) -> (r: bool)
    ensures
        r == all_whitespace(s@),
{
    let n = s.unicode_len();
    for i in 0..n
        invariant
            n == s@.len(),
            forall|j: int| 0 <= j < i ==> is_space(s@[j]),
    {
        if !is_space_char(s.get_char(i)) {
            return false;
        }
    }
    true
}

/// Checks the creation payload before any storage call: the name must not
/// trim to nothing. No length limit, character-set restriction or
/// duplicate-name rule is applied.
pub fn validate_new_user(new: &NewUser) -> (r: Result<(), AppError>)
    ensures
        r is Ok <==> !all_whitespace(new.name@),
        all_whitespace(new.name@) ==> (r matches Err(AppError::Validation(m)) && m@
            == empty_name_msg()),
{
    if trims_to_empty(new.name.as_str()) {
        proof {
            reveal_strlit("Name must not be empty");
            assert(("Name must not be empty")@ =~= empty_name_msg());
        }
        Err(AppError::Validation(String::from_str("Name must not be empty")))
    } else {
        Ok(())
    }
}

} // verus!
