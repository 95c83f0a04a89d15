//! The reduced-motion accessibility policy: a pure decision over the startup
//! configuration, evaluated once at process entry. The environment value and
//! the argument list are captured by the caller and passed in as plain
//! values; the policy never re-reads process state.

use vstd::prelude::*;

use crate::str_eq;

verus! {

/// Environment values (compared case-sensitively) that enable reduced motion.
pub open spec fn is_enable_value(s: Seq<char>) -> bool {
    ||| s == "1"@
    ||| s == "true"@
    ||| s == "TRUE"@
    ||| s == "yes"@
    ||| s == "YES"@
}

/// Command-line flags that enable reduced motion.
pub open spec fn is_motion_flag(s: Seq<char>) -> bool {
    ||| s == "--reduce-motion"@
    ||| s == "--no-animations"@
}

/// The policy: reduced motion holds when the environment value enables it
/// or some argument carries one of the two flags.
pub open spec fn spec_reduce_motion(env_value: Option<String>, args: Seq<String>) -> bool {
    ||| (env_value is Some && is_enable_value(env_value.unwrap()@))
    ||| exists|i: int| 0 <= i < args.len() && is_motion_flag(#[trigger] args[i]@)
}

/// Whether the startup configuration asks for reduced motion: true exactly
/// when the environment value is one of the accepted enable strings, or the
/// argument list contains one of the two accessibility flags. Absent inputs
/// contribute false; there is no error condition.
pub fn reduce_motion_requested(env_value: &Option<String>, args: &Vec<String>) -> (r: bool)
    ensures
        r == spec_reduce_motion(*env_value, args@),
{
    let env_set = match env_value {
        Some(v) => {
            str_eq(v.as_str(), "1") || str_eq(v.as_str(), "true") || str_eq(v.as_str(), "TRUE")
                || str_eq(v.as_str(), "yes") || str_eq(v.as_str(), "YES")
        },
        None => false,
    };

    let mut arg_set = false;
    let mut i: usize = 0;
    while i < args.len()
        invariant
            i <= args@.len(),
            arg_set == exists|j: int| 0 <= j < i && is_motion_flag(#[trigger] args@[j]@),
        decreases args@.len() - i,
    {
        let a = &args[i];
        if str_eq(a.as_str(), "--reduce-motion") || str_eq(a.as_str(), "--no-animations") {
            proof {
                assert(is_motion_flag(args@[i as int]@));
            }
            arg_set = true;
        }
        i = i + 1;
    }

    env_set || arg_set
}

} // verus!
