//! Project-name validation: a raw name is trimmed and lowercased, then held
//! against the identifier grammar `^[a-zA-Z_][a-zA-Z0-9_]*$`. Validation never
//! repairs a name beyond the trim and the lowercasing.

use vstd::prelude::*;

use crate::error::CliError;

verus! {

/// A character is acceptable as the first character of a project name:
/// an ASCII letter or an underscore.
pub open spec fn is_ident_start(c: char) -> bool {
    ('a' <= c && c <= 'z') || ('A' <= c && c <= 'Z') || c == '_'
}

/// A character is acceptable in the rest of a project name:
/// an ASCII letter, an ASCII digit, or an underscore.
pub open spec fn is_ident_char(c: char) -> bool {
    is_ident_start(c) || ('0' <= c && c <= '9')
}

/// A valid project name: nonempty, starts with a letter or underscore, and
/// continues with letters, digits, or underscores.
pub open spec fn valid_ident(s: Seq<char>) -> bool {
    &&& s.len() > 0
    &&& is_ident_start(s[0])
    &&& forall|i: int| 0 < i < s.len() ==> is_ident_char(#[trigger] s[i])
}

/// The characters of a string with leading and trailing whitespace removed.
pub uninterp spec fn trimmed_of(s: Seq<char>) -> Seq<char>;

/// The characters of a string converted to lowercase.
pub uninterp spec fn lowered_of(s: Seq<char>) -> Seq<char>;

/// The normal form of a raw project name: trimmed, then lowercased.
pub open spec fn normalized_of(s: Seq<char>) -> Seq<char> {
    lowered_of(trimmed_of(s))
}

/// Relies on str::trim: removes leading and trailing whitespace, a result
/// that depends on the characters alone.
#[verifier::external_body]
fn trim_str(s: &str) -> (r: String)
    ensures
        r@ == trimmed_of(s@),
{
    s.trim().to_owned()
}

/// Relies on str::to_lowercase: maps each character to its lowercase
/// equivalent, a result that depends on the characters alone.
#[verifier::external_body]
fn lowercase_str(s: &str) -> (r: String)
    ensures
        r@ == lowered_of(s@),
{
    s.to_lowercase()
}

/// Checks a string against the project-name grammar.
pub fn is_valid_identifier(s: &str) -> (r: bool)
    ensures
        r == valid_ident(s@),
{
    let len = s.unicode_len();
    if len == 0 {
        return false;
    }
    let c0 = s.get_char(0);
    if !((('a' <= c0 && c0 <= 'z') || ('A' <= c0 && c0 <= 'Z')) || c0 == '_') {
        return false;
    }
    let mut i: usize = 1;
    while i < len
        invariant
            1 <= i <= len,
            len == s@.len(),
            is_ident_start(s@[0]),
            forall|j: int| 0 < j < i ==> is_ident_char(#[trigger] s@[j]),
        decreases len - i,
    {
        let c = s.get_char(i);
        let ok = (('a' <= c && c <= 'z') || ('A' <= c && c <= 'Z')) || c == '_' || ('0' <= c
            && c <= '9');
        if !ok {
            return false;
        }
        i += 1;
    }
    true
}

/// Validates a raw project name. The name is trimmed and lowercased; the
/// normalized name is accepted exactly when it satisfies the identifier
/// grammar, and is returned unchanged beyond that normalization.
pub fn validate_name(name: &str) -> (r: Result<String, CliError>)
    ensures
        r is Ok <==> valid_ident(normalized_of(name@)),
        r is Ok ==> r->Ok_0@ == normalized_of(name@) && valid_ident(r->Ok_0@),
        r is Err ==> r->Err_0 == CliError::ProjectName,
{
    let trimmed = trim_str(name);
    let normalized = lowercase_str(trimmed.as_str());
    if is_valid_identifier(normalized.as_str()) {
        Ok(normalized)
    } else {
        Err(CliError::project_name_err())
    }
}

} // verus!
