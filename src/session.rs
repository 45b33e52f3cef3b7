//! Finding the session bus address in a snapshot of the environment.

use vstd::prelude::*;

verus! {

/// The environment variable that names the session bus address.
pub const SESSION_BUS_ADDRESS_VAR: &'static str = "DBUS_SESSION_BUS_ADDRESS";

/// The variable's name as text.
pub open spec fn session_var() -> Seq<char> {
    SESSION_BUS_ADDRESS_VAR@
}

/// Whether no entry of `env` before `n` is named `key`.
pub open spec fn absent_before(env: Seq<(String, String)>, key: Seq<char>, n: int) -> bool {
    forall|j: int| 0 <= j < n ==> #[trigger] env[j].0@ != key
}

/// The value of the first entry of `env` named `key`, if any.
pub open spec fn lookup(env: Seq<(String, String)>, key: Seq<char>) -> Option<Seq<char>> {
    if exists|i: int| 0 <= i < env.len() && env[i].0@ == key && absent_before(env, key, i) {
        let i = choose|i: int| 0 <= i < env.len() && env[i].0@ == key && absent_before(env, key, i);
        Some(env[i].1@)
    } else {
        None
    }
}

/// The session bus address in an environment snapshot of `(name, value)`
/// pairs: the value of the first entry named `DBUS_SESSION_BUS_ADDRESS`.
pub fn get_dbus_session_address(env: &Vec<(String, String)>) -> (r: Option<String>)
    ensures
        r matches Some(v) ==> lookup(env@, session_var()) == Some(v@),
        r is None ==> lookup(env@, session_var()) is None,
{
    let key = SESSION_BUS_ADDRESS_VAR.to_owned();
    let mut i: usize = 0;
    while i < env.len()
        invariant
            0 <= i <= env.len(),
            key@ == session_var(),
            absent_before(env@, session_var(), i as int),
        decreases env.len() - i,
    {
        if env[i].0 == key {
            proof {
                let k = choose|k: int|
                    0 <= k < env@.len() && env@[k].0@ == session_var() && absent_before(
                        env@,
                        session_var(),
                        k,
                    );
                if k < i {
                } else if k > i {
                    assert(env@[i as int].0@ != session_var());
                }
            }
            return Some(env[i].1.clone());
        }
        i = i + 1;
    }
    proof {
        if exists|k: int|
            0 <= k < env@.len() && env@[k].0@ == session_var() && absent_before(
                env@,
                session_var(),
                k,
            ) {
            let k = choose|k: int|
                0 <= k < env@.len() && env@[k].0@ == session_var() && absent_before(
                    env@,
                    session_var(),
                    k,
                );
            assert(env@[k].0@ != session_var());
        }
    }
    None
}

} // verus!
