//! The rules that a name and a password must meet before anything is stored.

use crate::errors::{one_field_error, MyError};
use vstd::prelude::*;

verus! {

/// The characters that a name or a password may hold: ASCII letters, ASCII
/// digits, and `# $ @ ! % & * ?`.
pub open spec fn is_policy_char(c: char) -> bool {
    ||| 'A' <= c <= 'Z'
    ||| 'a' <= c <= 'z'
    ||| '0' <= c <= '9'
    ||| c == '#'
    ||| c == '$'
    ||| c == '@'
    ||| c == '!'
    ||| c == '%'
    ||| c == '&'
    ||| c == '*'
    ||| c == '?'
}

/// Every character of `s` is one that the policies allow.
pub open spec fn all_policy_chars(s: Seq<char>) -> bool {
    forall|i: int| 0 <= i < s.len() ==> is_policy_char(#[trigger] s[i])
}

/// Tells whether the policies allow `c`.
pub fn policy_char(c: char) -> (r: bool)
    ensures
        r == is_policy_char(c),
{
    (c >= 'A' && c <= 'Z') || (c >= 'a' && c <= 'z') || (c >= '0' && c <= '9') || c == '#' || c
        == '$' || c == '@' || c == '!' || c == '%' || c == '&' || c == '*' || c == '?'
}

/// A rule on a text: how many characters it may have. The characters
/// themselves are those of [`is_policy_char`].
#[derive(Clone, Copy, Debug, PartialEq, Eq, Structural)]
pub struct Policy {
    pub min_len: usize,
    pub max_len: usize,
}

/// Fewest characters of a name.
pub const NAME_MIN_LEN: usize = 3;

/// Most characters of a name.
pub const NAME_MAX_LEN: usize = 15;

/// Fewest characters of a password.
pub const PASSWORD_MIN_LEN: usize = 8;

/// Most characters of a password.
pub const PASSWORD_MAX_LEN: usize = 30;

/// The rule on names.
pub open spec fn name_rule() -> Policy {
    Policy { min_len: NAME_MIN_LEN, max_len: NAME_MAX_LEN }
}

/// The rule on passwords.
pub open spec fn password_rule() -> Policy {
    Policy { min_len: PASSWORD_MIN_LEN, max_len: PASSWORD_MAX_LEN }
}

/// What a refused name is told.
pub open spec fn name_message() -> Seq<char> {
    "must be 3-15 characters in alphabet, numbers or symbols"@
}

/// What a refused password is told.
pub open spec fn password_message() -> Seq<char> {
    "must be 8-30 characters in alphabet, numbers or symbols"@
}

impl Policy {
    /// The text has a length within the bounds and only allowed characters.
    pub open spec fn admits(self, s: Seq<char>) -> bool {
        self.min_len <= s.len() <= self.max_len && all_policy_chars(s)
    }

    /// The rule on names: 3 to 15 characters.
    pub fn for_names() -> (p: Policy)
        ensures
            p == name_rule(),
    {
        Policy { min_len: NAME_MIN_LEN, max_len: NAME_MAX_LEN }
    }

    /// The rule on passwords: 8 to 30 characters.
    pub fn for_passwords() -> (p: Policy)
        ensures
            p == password_rule(),
    {
        Policy { min_len: PASSWORD_MIN_LEN, max_len: PASSWORD_MAX_LEN }
    }

    /// Tells whether `s` meets the rule.
    pub fn permits(&self, s: &str) -> (r: bool)
        ensures
            r == self.admits(s@),
    {
        broadcast use vstd::string::axiom_spec_iter;

        let len = s.unicode_len();
        if len < self.min_len || len > self.max_len {
            return false;
        }
        let mut allowed: bool = true;
        let chars = s.chars();
        for c in it: chars
            invariant
                it.seq() == s@,
                allowed == (forall|i: int|
                    0 <= i < it.index() ==> is_policy_char(#[trigger] s@[i])),
        {
            if !policy_char(c) {
                allowed = false;
            }
        }
        allowed
    }
}

/// What [`validate_name`] and [`validate_password`] return: nothing for a
/// text that meets `rule`, and else a validation failure that names `field`
/// with `message`.
pub open spec fn validated(
    rule: Policy,
    text: Seq<char>,
    field: Seq<char>,
    message: Seq<char>,
    r: Result<(), MyError>,
) -> bool {
    if rule.admits(text) {
        r is Ok
    } else {
        r matches Err(e) && e@ == one_field_error(field, message)
    }
}

/// Holds a name against the rule on names.
pub fn validate_name(name: &str) -> (r: Result<(), MyError>)
    ensures
        validated(name_rule(), name@, "name"@, name_message(), r),
{
    if Policy::for_names().permits(name) {
        Ok(())
    } else {
        Err(
            MyError::invalid_field(
                "name",
                "must be 3-15 characters in alphabet, numbers or symbols",
            ),
        )
    }
}

/// Holds a password against the rule on passwords.
pub fn validate_password(password: &str) -> (r: Result<(), MyError>)
    ensures
        validated(password_rule(), password@, "password"@, password_message(), r),
{
    if Policy::for_passwords().permits(password) {
        Ok(())
    } else {
        Err(
            MyError::invalid_field(
                "password",
                "must be 8-30 characters in alphabet, numbers or symbols",
            ),
        )
    }
}

/// A text that is too short, or that holds a character outside the allowed
/// set, meets neither rule's demand on it.
pub proof fn lemma_short_or_foreign_is_refused(rule: Policy, text: Seq<char>, at: int)
    requires
        text.len() < rule.min_len || (0 <= at < text.len() && !is_policy_char(text[at])),
    ensures
        !rule.admits(text),
{
}

} // verus!
