//! Laws of the ledger: properties that relate several operations, proved
//! once and for all over the abstract transitions of [`State`]. Each
//! executable operation promises in its contract to apply exactly its
//! abstract transition, so these laws hold of every run of the ledger.

use crate::state::Error;
use crate::state::Origin;
use crate::state::State;
use vstd::prelude::*;

verus! {

/// Registration is effective and unrepeatable: whenever the privileged
/// authority successfully registers `who`, the new state counts `who` as a
/// manufacturer, and repeating the same call fails with
/// `ManufacturerAlreadyPresent` and changes nothing.
pub proof fn lemma_add_manufacturer_registers(s: State, who: u64)
    requires
        s.add_manufacturer(Origin::Root, who).1 is Ok,
    ensures
        ({
            let s1 = s.add_manufacturer(Origin::Root, who).0;
            &&& s1.manufacturers.contains(who)
            &&& s1.add_manufacturer(Origin::Root, who).1 == Err::<(), Error>(
                Error::ManufacturerAlreadyPresent,
            )
            &&& s1.add_manufacturer(Origin::Root, who).0 == s1
        }),
{
}

/// Adding a product needs a manufacturer: for any hash, a signed caller who
/// is not a current manufacturer member always gets `UnAuthorisedPerson`
/// and changes nothing, and a successful add proves membership.
pub proof fn lemma_add_product_needs_manufacturer(s: State, who: u64, hash: u64)
    ensures
        s.add_product(Origin::Signed(who), hash).1 is Ok ==> s.manufacturers.contains(who),
        !s.manufacturers.contains(who) ==> s.add_product(Origin::Signed(who), hash) == (
            s,
            Err::<(), Error>(Error::UnAuthorisedPerson),
        ),
{
}

/// A product authenticates exactly once: after a successful registration of
/// `hash`, the first authenticity check succeeds, and any further check —
/// by any caller, at any tick — fails with `UnAuthenticProduct` and changes
/// nothing, because the hash has left the fresh catalog.
pub proof fn lemma_check_authenticity_succeeds_once(
    s: State,
    seller: u64,
    buyer1: u64,
    buyer2: u64,
    hash: u64,
    now1: u64,
    now2: u64,
)
    requires
        s.add_product(Origin::Signed(seller), hash).1 is Ok,
    ensures
        ({
            let s1 = s.add_product(Origin::Signed(seller), hash).0;
            let s2 = s1.check_authenticity(Origin::Signed(buyer1), hash, now1).0;
            &&& s1.check_authenticity(Origin::Signed(buyer1), hash, now1).1 is Ok
            &&& s2.check_authenticity(Origin::Signed(buyer2), hash, now2).1 == Err::<(), Error>(
                Error::UnAuthenticProduct,
            )
            &&& s2.check_authenticity(Origin::Signed(buyer2), hash, now2).0 == s2
        }),
{
}

/// Refunding succeeds exactly while the product is partially sold: a signed
/// refund returns `Ok` if and only if the hash is in the partially-sold
/// set; otherwise — never sold, already returned, or already swept — it
/// fails with `UnsoldProduct` and changes nothing. In particular, after the
/// sweep consumes the hash's scheduled tick, a refund fails.
pub proof fn lemma_refund_iff_partially_sold(s: State, caller: u64, hash: u64, tick: u64)
    ensures
        s.refund_products(Origin::Signed(caller), hash).1 is Ok <==> s.partial.contains(hash),
        !s.partial.contains(hash) ==> s.refund_products(Origin::Signed(caller), hash) == (
            s,
            Err::<(), Error>(Error::UnsoldProduct),
        ),
        s.scheduled.contains((tick, hash)) ==> s.on_initialize(tick).refund_products(
            Origin::Signed(caller),
            hash,
        ).1 == Err::<(), Error>(Error::UnsoldProduct),
{
}

/// The sweep is deterministic and idempotent: sweeping the tick at which a
/// hash is scheduled removes it from the partially-sold set; sweeping any
/// other tick leaves the hash and its schedule entry untouched; and
/// sweeping the same tick twice is the same as sweeping it once.
pub proof fn lemma_sweep_determinism(s: State, t: u64, t2: u64, hash: u64)
    requires
        s.scheduled.contains((t, hash)),
    ensures
        !s.on_initialize(t).partial.contains(hash),
        s.partial.contains(hash) && t2 != t && (forall|u: u64|
            s.scheduled.contains((u, hash)) ==> u == t) ==> s.on_initialize(t2).partial.contains(
            hash,
        ) && s.on_initialize(t2).scheduled.contains((t, hash)),
        s.on_initialize(t).on_initialize(t) == s.on_initialize(t),
{
    assert(s.on_initialize(t).on_initialize(t) =~= s.on_initialize(t));
}

} // verus!
