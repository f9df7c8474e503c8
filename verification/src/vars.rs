//! The variables that the VPN client hands over, as pairs of name and value.

use vstd::prelude::*;

verus! {

/// The value of the variable called `name`: that of the first pair with
/// exactly this name, letter case included.
pub open spec fn lookup(vars: Seq<(Seq<char>, Seq<char>)>, name: Seq<char>) -> Option<Seq<char>>
    decreases vars.len(),
{
    if vars.len() == 0 {
        None
    } else if vars[0].0 == name {
        Some(vars[0].1)
    } else {
        lookup(vars.drop_first(), name)
    }
}

/// The view of a value that may be absent.
pub open spec fn text_view(text: Option<String>) -> Option<Seq<char>> {
    match text {
        Some(t) => Some(t@),
        None => None,
    }
}

/// Looks the variable `name` up among `vars`.
pub fn find(vars: &Vec<(String, String)>, name: &str) -> (r: Option<String>)
    ensures
        text_view(r) == lookup(vars.deep_view(), name@),
{
    let wanted: String = String::from_str(name);
    let mut i: usize = 0;
    assert(vars.deep_view().skip(0) =~= vars.deep_view());
    while i < vars.len()
        invariant
            i <= vars.len(),
            wanted@ == name@,
            lookup(vars.deep_view(), name@) == lookup(vars.deep_view().skip(i as int), name@),
        decreases vars.len() - i,
    {
        let ghost rest = vars.deep_view().skip(i as int);
        assert(rest[0] == vars.deep_view()[i as int]);
        assert(rest.drop_first() =~= vars.deep_view().skip(i + 1));
        if vars[i].0 == wanted {
            return Some(vars[i].1.clone());
        }
        i = i + 1;
    }
    None
}

} // verus!
