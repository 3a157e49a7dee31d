use vstd::prelude::*;

use crate::paths::{join_path, path_join};
use crate::target_sets::views;

verus! {

/// Whether a path is absolute.
pub open spec fn is_absolute(path: Seq<char>) -> bool {
    path.len() > 0 && path[0] == '/'
}

/// The files that may hold the executable `command`: the command itself when
/// it is an absolute path, else the command under each directory of the
/// search path, in search order.
pub open spec fn executable_candidates_of(command: Seq<char>, search_path: Seq<String>) -> Seq<Seq<char>> {
    if is_absolute(command) {
        seq![command]
    } else {
        search_path.map_values(|dir: String| path_join(dir@, command))
    }
}

/// The files that may hold the executable `command`; the command is
/// runnable when one of them is an executable file.
pub fn executable_candidates(command: &str, search_path: &Vec<String>) -> (r: Vec<String>)
    ensures
        views(r@) == executable_candidates_of(command@, search_path@),
{
    let mut r: Vec<String> = Vec::new();
    if command.unicode_len() > 0 && command.get_char(0) == '/' {
        r.push(String::from_str(command));
        assert(views(r@) =~= seq![command@]);
        return r;
    }
    let mut i: usize = 0;
    while i < search_path.len()
        invariant
            i <= search_path@.len(),
            !is_absolute(command@),
            views(r@) =~= search_path@.take(i as int).map_values(|dir: String| path_join(dir@, command@)),
        decreases search_path@.len() - i,
    {
        let p = join_path(search_path[i].as_str(), command);
        let ghost before = r@;
        r.push(p);
        assert(views(r@) =~= views(before).push(p@));
        assert(search_path@.take(i + 1) =~= search_path@.take(i as int).push(search_path@[i as int]));
        i = i + 1;
    }
    assert(search_path@.take(search_path@.len() as int) =~= search_path@);
    r
}


/// Character-wise equality of two strings.
pub fn str_eq(a: &str, b: &str) -> (r: bool)
    ensures
        r == (a@ == b@),
{
    let n = a.unicode_len();
    if n != b.unicode_len() {
        return false;
    }
    let mut i: usize = 0;
    while i < n
        invariant
            n == a@.len(),
            n == b@.len(),
            i <= n,
            forall|j: int| 0 <= j < i ==> a@[j] == b@[j],
        decreases n - i,
    {
        if a.get_char(i) != b.get_char(i) {
            return false;
        }
        i = i + 1;
    }
    assert(a@ =~= b@);
    true
}

} // verus!
