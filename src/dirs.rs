use vstd::prelude::*;
use vstd::string::{StrSliceExecFns, StringExecFns};

use crate::text::{chars_of, count_char, count_of, find_last, last_index_of};

verus! {

/// The directory that `CWD p` asks for, from the current directory `cwd`: `./rest` and a bare
/// name are appended to `cwd` with a separator; a path starting with `/` replaces `cwd`.
pub open spec fn resolved_directory(cwd: Seq<char>, p: Seq<char>) -> Seq<char> {
    if p.len() >= 2 && p[0] == '.' && p[1] == '/' {
        cwd + "/"@ + p.skip(2)
    } else if p.len() >= 1 && p[0] == '/' {
        p
    } else {
        cwd + "/"@ + p
    }
}

/// The directory that `CDUP` moves to: `cwd` without its last separator and what follows it.
/// There is none when `cwd` holds fewer than two separators.
pub open spec fn parent_of(cwd: Seq<char>) -> Option<Seq<char>> {
    if count_of(cwd, '/') < 2 {
        None
    } else {
        Some(cwd.take(last_index_of(cwd, '/')))
    }
}

/// Computes the directory that `CWD` asks for.
pub fn resolve_directory(cwd: &str, p: &str) -> (r: String)
    ensures
        r@ == resolved_directory(cwd@, p@),
{
    let v = chars_of(p);
    if v.len() >= 2 && v[0] == '.' && v[1] == '/' {
        let rest = p.substring_char(2, v.len());
        let mut r = String::from_str(cwd);
        r.append("/");
        r.append(rest);
        assert(rest@ =~= p@.skip(2));
        r
    } else if v.len() >= 1 && v[0] == '/' {
        String::from_str(p)
    } else {
        let mut r = String::from_str(cwd);
        r.append("/");
        r.append(p);
        r
    }
}

/// Computes the directory that `CDUP` moves to, if there is one.
pub fn parent_directory(cwd: &str) -> (r: Option<String>)
    ensures
        match r {
            Some(s) => parent_of(cwd@) == Some(s@),
            None => parent_of(cwd@) is None,
        },
{
    let v = chars_of(cwd);
    if count_char(&v, '/') < 2 {
        return None;
    }
    match find_last(&v, '/') {
        Some(i) => {
            let s = cwd.substring_char(0, i);
            assert(s@ =~= cwd@.take(i as int));
            Some(String::from_str(s))
        },
        None => {
            proof {
                lemma_no_last_means_none(cwd@, '/');
            }
            None
        },
    }
}

proof fn lemma_no_last_means_none(s: Seq<char>, c: char)
    requires
        last_index_of(s, c) == -1,
    ensures
        count_of(s, c) == 0,
    decreases s.len(),
{
    if s.len() > 0 {
        lemma_no_last_means_none(s.drop_last(), c);
    }
}

} // verus!
