//! Small verified utilities: character-wise string comparison and the
//! tick-length configuration table.

use vstd::prelude::*;

verus! {

/// Whether two string slices hold the same characters.
pub fn str_eq(a: &str, b: &str) -> (r: bool)
    ensures
        r == (a@ == b@),
{
    let n = a.unicode_len();
    let m = b.unicode_len();
    if n != m {
        proof {
            if a@ == b@ {
                assert(a@.len() == b@.len());
            }
        }
        return false;
    }
    for i in 0..n
        invariant
            n == a@.len(),
            n == b@.len(),
            forall|j: int| 0 <= j < i ==> a@[j] == b@[j],
    {
        let ca = a.get_char(i);
        let cb = b.get_char(i);
        if ca != cb {
            return false;
        }
    }
    proof {
        assert(a@ =~= b@);
    }
    true
}

/// The tick length chosen by a deployment route: the default board runs at
/// 150 ms per tick, and two faster routes shorten it. This is the only
/// configuration surface of the game.
pub open spec fn tick_length_spec(path: Option<Seq<char>>) -> u64 {
    match path {
        Some(p) => if p == "/sped"@ {
            100u64
        } else if p == "/ahhh"@ {
            50u64
        } else {
            150u64
        },
        None => 150u64,
    }
}

/// Milliseconds between game ticks for the given route path, if any.
pub fn get_tick_length(path: Option<&str>) -> (ms: u64)
    ensures
        ms == tick_length_spec(match path {
            Some(p) => Some(p@),
            None => None,
        }),
{
    match path {
        Some(p) => {
            if str_eq(p, "/sped") {
                100
            } else if str_eq(p, "/ahhh") {
                50
            } else {
                150
            }
        },
        None => 150,
    }
}

} // verus!
