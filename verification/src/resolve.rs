//! Home-directory expansion of path strings. Every filesystem operation
//! resolves its path(s) through here before touching the filesystem.

use vstd::prelude::*;
use vstd::string::StringExecFns;

use crate::errors::FsError;

verus! {

/// The path is exactly `~`.
pub open spec fn is_tilde(p: Seq<char>) -> bool {
    p.len() == 1 && p[0] == '~'
}

/// The path starts with `~/`.
pub open spec fn has_tilde_prefix(p: Seq<char>) -> bool {
    p.len() >= 2 && p[0] == '~' && p[1] == '/'
}

/// The path asks for home-directory expansion.
pub open spec fn needs_home(p: Seq<char>) -> bool {
    is_tilde(p) || has_tilde_prefix(p)
}

/// The resolved form of `p` against the home directory `home`: `~` becomes
/// `home`, `~/sub` becomes `home`, a separator and `sub` (for any `sub`,
/// the empty one included), and every other path stays as it is.
pub open spec fn spec_resolved(p: Seq<char>, home: Seq<char>) -> Seq<char> {
    if is_tilde(p) {
        home
    } else if has_tilde_prefix(p) {
        home + seq!['/'] + p.subrange(2, p.len() as int)
    } else {
        p
    }
}

/// Resolves a path string: a path that does not ask for expansion is
/// returned unchanged, and a `~`-prefixed one is expanded against `home`,
/// failing when no home directory value is available.
pub fn resolve_path(path: &str, home: Option<&String>) -> (r: Result<String, FsError>)
    ensures
        !needs_home(path@) ==> (r matches Ok(p) && p@ == path@),
        home matches Some(h) ==> (needs_home(path@) ==> (r matches Ok(p) && p@ == spec_resolved(
            path@,
            h@,
        ))),
        needs_home(path@) && home is None ==> (r matches Err(e) && e == FsError::Resolution),
{
    let len = path.unicode_len();
    let tilde_only = len == 1 && path.get_char(0) == '~';
    let tilde_prefix = len >= 2 && path.get_char(0) == '~' && path.get_char(1) == '/';
    if !tilde_only && !tilde_prefix {
        return Ok(path.to_owned());
    }
    match home {
        None => Err(FsError::Resolution),
        Some(h) => {
            if tilde_only {
                Ok(h.clone())
            } else {
                let suffix = path.substring_char(2, len);
                let r = h.clone().concat("/").concat(suffix);
                proof {
                    reveal_strlit("/");
                    assert("/"@ =~= seq!['/']);
                    assert(r@ =~= spec_resolved(path@, h@));
                }
                Ok(r)
            }
        },
    }
}

} // verus!
