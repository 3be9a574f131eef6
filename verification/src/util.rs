use crate::generic_types::Peer;
use vstd::prelude::*;

verus! {

/// Generates `n` participants, with the identifiers `0..n` in rising order,
/// each in the default status of its peer type.
pub fn generate_participiants<P: Clone + Peer>(n: u32) -> (peers: Vec<P>)
    ensures
        peers@.len() == n,
        forall|i: int|
            0 <= i < n ==> (#[trigger] peers@[i]).id() == i && peers@[i].current_status()
                == P::default_status(),
{
    let mut peers: Vec<P> = Vec::new();
    let mut id: u32 = 0;
    while id < n
        invariant
            id <= n,
            peers@.len() == id,
            forall|i: int|
                0 <= i < id ==> (#[trigger] peers@[i]).id() == i && peers@[i].current_status()
                    == P::default_status(),
        decreases n - id,
    {
        peers.push(P::create(id));
        id = id + 1;
    }
    peers
}

} // verus!
