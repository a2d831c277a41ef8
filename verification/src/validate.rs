//! Validation of usernames and user-supplied project paths.
//!
//! A username names a sandbox container and a home directory, so it is held
//! to a fixed charset and length bound before it reaches any engine call or
//! filesystem path.

use vstd::prelude::*;

verus! {

use vstd::string::StrSliceExecFns;

/// Exclusive upper bound on the length of a username, in characters.
pub const USERNAME_LEN_BOUND: usize = 32;

/// Exclusive upper bound on the length of a project path, in characters.
pub const PROJECT_PATH_LEN_BOUND: usize = 64;

/// A character a username may contain: ASCII lower-case letters, digits,
/// or a hyphen.
pub open spec fn is_username_char(c: char) -> bool {
    ('a' <= c && c <= 'z') || ('0' <= c && c <= '9') || c == '-'
}

/// A valid username is non-empty, shorter than the length bound, and made of
/// username characters only.
pub open spec fn valid_username(s: Seq<char>) -> bool {
    &&& s.len() > 0
    &&& s.len() < USERNAME_LEN_BOUND
    &&& forall|i: int| 0 <= i < s.len() ==> is_username_char(#[trigger] s[i])
}

/// Decides whether `username` may name a user: non-empty, shorter than the
/// length bound, and made of ASCII lower-case letters, digits and hyphens.
pub fn is_valid_username(username: &str) -> (r: bool)
    ensures
        r == valid_username(username@),
{
    let len = username.unicode_len();
    if len == 0 || len >= USERNAME_LEN_BOUND {
        return false;
    }
    let mut i: usize = 0;
    while i < len
        invariant
            len == username@.len(),
            0 < len < USERNAME_LEN_BOUND,
            i <= len,
            forall|j: int| 0 <= j < i ==> is_username_char(#[trigger] username@[j]),
        decreases len - i,
    {
        let c = username.get_char(i);
        if !(('a' <= c && c <= 'z') || ('0' <= c && c <= '9') || c == '-') {
            return false;
        }
        i += 1;
    }
    true
}

/// A character a project path may contain.
pub open spec fn is_project_path_char(c: char) -> bool {
    ||| is_username_char(c)
    ||| c == '/'
    ||| c == '.'
    ||| c == '_'
}

/// A valid project path is non-empty, shorter than the length bound, does not
/// start with a slash, holds no empty path segment (`//`) and no parent
/// reference (`..`), and is made of path characters only.
pub open spec fn valid_project_path(s: Seq<char>) -> bool {
    &&& s.len() > 0
    &&& s.len() < PROJECT_PATH_LEN_BOUND
    &&& s[0] != '/'
    &&& forall|i: int| 0 <= i < s.len() ==> is_project_path_char(#[trigger] s[i])
    &&& forall|i: int|
        0 <= i < s.len() - 1 ==> !(#[trigger] s[i] == '/' && s[i + 1] == '/') && !(s[i] == '.'
            && s[i + 1] == '.')
}

/// Decides whether `path` may name a project below a user's home: it must be
/// relative, free of `//` and `..`, and made of the allowed characters.
pub fn is_valid_project_path(path: &str) -> (r: bool)
    ensures
        r == valid_project_path(path@),
{
    let len = path.unicode_len();
    if len == 0 || len >= PROJECT_PATH_LEN_BOUND {
        return false;
    }
    if path.get_char(0) == '/' {
        return false;
    }
    let mut i: usize = 0;
    let mut prev: char = '/';
    while i < len
        invariant
            len == path@.len(),
            0 < len < PROJECT_PATH_LEN_BOUND,
            i <= len,
            path@[0] != '/',
            forall|j: int| 0 <= j < i ==> is_project_path_char(#[trigger] path@[j]),
            forall|j: int|
                0 <= j < i - 1 ==> !(#[trigger] path@[j] == '/' && path@[j + 1] == '/') && !(path@[j]
                    == '.' && path@[j + 1] == '.'),
            i > 0 ==> prev == path@[i - 1],
        decreases len - i,
    {
        let c = path.get_char(i);
        let ok = ('a' <= c && c <= 'z') || ('0' <= c && c <= '9') || c == '-' || c == '/' || c == '.'
            || c == '_';
        if !ok {
            return false;
        }
        if i > 0 && ((prev == '/' && c == '/') || (prev == '.' && c == '.')) {
            return false;
        }
        prev = c;
        i += 1;
    }
    true
}

} // verus!
