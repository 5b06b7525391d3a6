use vstd::prelude::*;
use vstd::string::{StrSliceExecFns, StringExecFns};

verus! {

/// `parent` joined with the single path component `name`: a separator is
/// put between them unless `parent` is empty or already ends with one.
pub open spec fn join_spec(parent: Seq<char>, name: Seq<char>) -> Seq<char> {
    if parent.len() == 0 {
        name
    } else if parent.last() == '/' {
        parent + name
    } else {
        parent + seq!['/'] + name
    }
}

/// Joins the path component `name` onto `parent`.
pub fn join_path(parent: &str, name: &str) -> (r: String)
    ensures
        r@ == join_spec(parent@, name@),
{
    let n = parent.unicode_len();
    if n == 0 {
        return String::from_str(name);
    }
    let mut out = String::from_str(parent);
    if parent.get_char(n - 1) != '/' {
        proof {
            reveal_strlit("/");
        }
        out.append("/");
    }
    out.append(name);
    assert(out@ =~= join_spec(parent@, name@));
    out
}

} // verus!
