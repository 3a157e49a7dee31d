use vstd::prelude::*;
use vstd::string::*;

verus! {

/// `base` joined with `component` the way a Unix path is extended: an
/// absolute component replaces the base, an empty base is replaced, and a
/// separator is put between the two unless the base already ends in one.
pub open spec fn path_join(base: Seq<char>, component: Seq<char>) -> Seq<char> {
    if component.len() > 0 && component[0] == '/' {
        component
    } else if base.len() == 0 {
        component
    } else if base.last() == '/' {
        base + component
    } else {
        base + seq!['/'] + component
    }
}

/// Joins a path component onto a base path.
pub fn join_path(base: &str, component: &str) -> (r: String)
    ensures
        r@ == path_join(base@, component@),
{
    let clen = component.unicode_len();
    if clen > 0 && component.get_char(0) == '/' {
        return String::from_str(component);
    }
    let blen = base.unicode_len();
    if blen == 0 {
        return String::from_str(component);
    }
    let mut r = String::from_str(base);
    if base.get_char(blen - 1) != '/' {
        proof {
            reveal_strlit("/");
        }
        r.append("/");
    }
    r.append(component);
    r
}

} // verus!
