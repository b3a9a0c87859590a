//! Plain-string path work: expanding a leading `~` and joining a directory
//! with a base file name.
//!
//! The caller looks the home directory up and canonicalizes what the
//! expansion yields; the library computes on the strings alone. Directories
//! reach the join as canonical absolute strings, so it only has to insert a
//! separator: the one canonical directory that already ends in `/` is the
//! filesystem root.

use vstd::prelude::*;
use vstd::string::StrSliceExecFns;

verus! {

/// `path` with a leading `~` expanded to the home directory: `~` alone
/// becomes `home`, `~/rest` becomes `home` followed by `/rest`, and any
/// other path — `~user` forms included — stays as it is.
pub open spec fn expand_tilde_spec(path: Seq<char>, home: Seq<char>) -> Seq<char> {
    if path.len() > 0 && path[0] == '~' && (path.len() == 1 || path[1] == '/') {
        home + path.skip(1)
    } else {
        path
    }
}

/// Expands a leading `~` in `path` to `home`, the invoking user's home
/// directory as the caller looked it up.
pub fn expand_tilde(path: &String, home: &String) -> (r: String)
    ensures
        r@ == expand_tilde_spec(path@, home@),
{
    let n = path.as_str().unicode_len();
    if n > 0 && path.as_str().get_char(0) == '~' {
        if n == 1 || path.as_str().get_char(1) == '/' {
            let mut r = home.clone();
            r.append(path.as_str().substring_char(1, n));
            proof {
                assert(r@ =~= expand_tilde_spec(path@, home@));
            }
            return r;
        }
    }
    path.clone()
}

/// The path of `file` inside the directory `dir`: `dir` and `file` with a
/// single `/` between them, no separator added when `dir` itself ends in one.
pub open spec fn join_spec(dir: Seq<char>, file: Seq<char>) -> Seq<char> {
    if dir.len() > 0 && dir.last() == '/' {
        dir + file
    } else {
        dir + seq!['/'] + file
    }
}

/// Appends `file` to the directory `dir`, inserting a `/` unless `dir`
/// already ends in one.
pub fn join_path(dir: &String, file: &String) -> (r: String)
    ensures
        r@ == join_spec(dir@, file@),
{
    let n = dir.as_str().unicode_len();
    let mut r = dir.clone();
    if n == 0 || dir.as_str().get_char(n - 1) != '/' {
        proof {
            reveal_strlit("/");
        }
        r.append("/");
    }
    r.append(file.as_str());
    proof {
        assert(r@ =~= join_spec(dir@, file@));
    }
    r
}

} // verus!
