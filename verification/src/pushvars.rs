//! Pushvars: caller-supplied key/value pairs accompanying a movement
//! request, used for hook bypass tokens and policy overrides.

use vstd::prelude::*;

use crate::strutil;

verus! {

/// The pushvars of one request, in the order the caller supplied them.
pub type Pushvars = Vec<(String, String)>;

/// The value stored under `name`, taking the first pair when a name is
/// repeated.
pub open spec fn pushvar_lookup(pushvars: Seq<(String, String)>, name: Seq<char>) -> Option<
    Seq<char>,
>
    decreases pushvars.len(),
{
    if pushvars.len() == 0 {
        None
    } else if pushvars[0].0@ == name {
        Some(pushvars[0].1@)
    } else {
        pushvar_lookup(pushvars.drop_first(), name)
    }
}

/// The value stored under `name` in the optional pushvars.
pub open spec fn opt_pushvar_lookup(
    pushvars: Option<Seq<(String, String)>>,
    name: Seq<char>,
) -> Option<Seq<char>> {
    match pushvars {
        Some(pv) => pushvar_lookup(pv, name),
        None => None,
    }
}

/// Look up the value stored under `name`.
pub fn get_pushvar<'a>(pushvars: &'a Pushvars, name: &str) -> (r: Option<&'a String>)
    ensures
        match r {
            Some(v) => pushvar_lookup(pushvars@, name@) == Some(v@),
            None => pushvar_lookup(pushvars@, name@) is None,
        },
{
    proof {
        assert(pushvars@.skip(0) =~= pushvars@);
    }
    let mut i: usize = 0;
    while i < pushvars.len()
        invariant
            0 <= i <= pushvars.len(),
            pushvar_lookup(pushvars@, name@) == pushvar_lookup(pushvars@.skip(i as int), name@),
        decreases pushvars.len() - i,
    {
        proof {
            assert(pushvars@.skip(i as int)[0] == pushvars@[i as int]);
            assert(pushvars@.skip(i as int).drop_first() =~= pushvars@.skip(i + 1));
        }
        if strutil::str_eq(pushvars[i].0.as_str(), name) {
            return Some(&pushvars[i].1);
        }
        i += 1;
    }
    proof {
        assert(pushvars@.skip(pushvars.len() as int).len() == 0);
    }
    None
}

} // verus!
