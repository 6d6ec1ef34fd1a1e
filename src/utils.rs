use vstd::prelude::*;

use crate::crypto::{compact_of_der, der_to_compact, opt_bytes};
use crate::script::{minimal_pushes, minimal_pushes_of};

verus! {

/// The compact form of the first pushed datum, from index `i` on, that parses
/// as a DER signature; opcodes are passed over.
pub open spec fn first_signature(pushes: Seq<Option<Seq<u8>>>, i: int) -> Option<Seq<u8>>
    decreases pushes.len() - i,
{
    if i < 0 || i >= pushes.len() {
        None
    } else if pushes[i] matches Some(d) && compact_of_der(d) is Some {
        compact_of_der(pushes[i]->Some_0)
    } else {
        first_signature(pushes, i + 1)
    }
}

/// The first DER signature pushed by `script`, read with minimal pushes, as a
/// 64-byte compact signature.
pub fn get_signature(script: &[u8]) -> (r: Option<Vec<u8>>)
    ensures
        r matches Some(s) ==> first_signature(minimal_pushes_of(script@), 0) == Some(s@),
        r is None ==> first_signature(minimal_pushes_of(script@), 0) is None,
{
    let pushes = minimal_pushes(script);
    let ghost all = minimal_pushes_of(script@);
    let mut i: usize = 0;
    while i < pushes.len()
        invariant
            i <= pushes@.len(),
            all == minimal_pushes_of(script@),
            pushes@.len() == all.len(),
            forall|k: int| 0 <= k < pushes@.len() ==> opt_bytes(#[trigger] pushes@[k]) == all[k],
            first_signature(all, 0) == first_signature(all, i as int),
        decreases pushes@.len() - i,
    {
        assert(opt_bytes(pushes@[i as int]) == all[i as int]);
        match &pushes[i] {
            Some(data) => match der_to_compact(data.as_slice()) {
                Some(sig) => {
                    assert(first_signature(all, i as int) == compact_of_der(all[i as int]->Some_0));
                    return Some(sig);
                },
                None => {},
            },
            None => {},
        }
        i = i + 1;
    }
    None
}

} // verus!
