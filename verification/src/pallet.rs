//! The executable ledger. A [`Pallet`] owns the five registries as sorted
//! vectors; each operation validates every precondition before writing, so a
//! call either fully applies or fails with a specific [`Error`] and no state
//! change. Each contract says that the operation applies exactly the
//! abstract transition of [`State`].

use crate::expiry;
use crate::ordered_set;
use crate::state::Error;
use crate::state::Event;
use crate::state::Origin;
use crate::state::State;
use vstd::prelude::*;

verus! {

/// Host-supplied configuration: the fixed length of the return window, in
/// ticks.
pub trait Config {
    /// How many ticks after a sale the product may still be refunded.
    fn expire_time() -> u64;
}

/// The ledger: registries of manufacturers and of product hashes in each
/// lifecycle state, the expiry schedule that drives the sweep, and the log
/// of emitted events.
pub struct Pallet {
    /// Identities allowed to add products, strictly sorted.
    pub manufacturers: Vec<u64>,
    /// Hashes registered and not yet sold, strictly sorted.
    pub products_hash: Vec<u64>,
    /// Hashes sold and still within their return window, strictly sorted.
    pub partial_sell_products: Vec<u64>,
    /// Hashes refunded within their window, in refund order.
    pub returned_products: Vec<u64>,
    /// Pairs `(tick, hash)` sorted lexicographically: the return window of
    /// `hash` closes at `tick`.
    pub partial_product_time: Vec<(u64, u64)>,
    /// Length of the return window, in ticks.
    pub expire_time: u64,
    /// Events emitted so far, oldest first.
    pub events: Vec<Event>,
}

impl View for Pallet {
    type V = State;

    open spec fn view(&self) -> State {
        State {
            manufacturers: Set::new(|a: u64| self.manufacturers@.contains(a)),
            fresh: Set::new(|h: u64| self.products_hash@.contains(h)),
            partial: Set::new(|h: u64| self.partial_sell_products@.contains(h)),
            returned: self.returned_products@,
            scheduled: Set::new(|p: (u64, u64)| self.partial_product_time@.contains(p)),
            window: self.expire_time,
            events: self.events@,
        }
    }
}

impl Pallet {
    /// The registries are well formed: each ordered set is strictly sorted.
    pub open spec fn wf(&self) -> bool {
        &&& ordered_set::sorted(self.manufacturers@)
        &&& ordered_set::sorted(self.products_hash@)
        &&& ordered_set::sorted(self.partial_sell_products@)
        &&& expiry::pair_sorted(self.partial_product_time@)
    }

    /// An empty ledger whose return window is `expire_time` ticks long.
    pub fn new(expire_time: u64) -> (p: Pallet)
        ensures
            p.wf(),
            p@ == State::initial(expire_time),
    {
        let p = Pallet {
            manufacturers: Vec::new(),
            products_hash: Vec::new(),
            partial_sell_products: Vec::new(),
            returned_products: Vec::new(),
            partial_product_time: Vec::new(),
            expire_time,
            events: Vec::new(),
        };
        proof {
            assert(p@ =~= State::initial(expire_time));
        }
        p
    }

    /// An empty ledger whose return window comes from the configuration `C`.
    pub fn new_for_config<C: Config>() -> (p: Pallet)
        ensures
            p.wf(),
            p@ == State::initial(p@.window),
    {
        Pallet::new(C::expire_time())
    }

    /// Whether `who` may currently add products.
    pub fn is_manufacturer(&self, who: u64) -> (r: bool)
        requires
            self.wf(),
        ensures
            r == self@.manufacturers.contains(who),
    {
        ordered_set::contains(&self.manufacturers, who)
    }

    /// Registers `who` as a manufacturer. Only the privileged authority
    /// may; registering a member again fails and changes nothing.
    pub fn add_manufacturer(&mut self, origin: Origin, who: u64) -> (r: Result<(), Error>)
        requires
            old(self).wf(),
        ensures
            final(self).wf(),
            final(self)@ == old(self)@.add_manufacturer(origin, who).0,
            r == old(self)@.add_manufacturer(origin, who).1,
    {
        match origin {
            Origin::Signed(_) => Err(Error::BadOrigin),
            Origin::Root => match ordered_set::insert_unique(&mut self.manufacturers, who) {
                Err(_) => Err(Error::ManufacturerAlreadyPresent),
                Ok(()) => {
                    self.events.push(Event::ManufacturerAdded);
                    proof {
                        assert(self@ =~= old(self)@.add_manufacturer(origin, who).0);
                    }
                    Ok(())
                },
            },
        }
    }

    /// Registers the product `hash` in the fresh catalog. The caller must
    /// be a signed, registered manufacturer; a hash already in the catalog
    /// is rejected and nothing changes.
    pub fn add_product(&mut self, origin: Origin, hash: u64) -> (r: Result<(), Error>)
        requires
            old(self).wf(),
        ensures
            final(self).wf(),
            final(self)@ == old(self)@.add_product(origin, hash).0,
            r == old(self)@.add_product(origin, hash).1,
    {
        let who = match origin {
            Origin::Root => {
                return Err(Error::BadOrigin);
            },
            Origin::Signed(who) => who,
        };
        if !ordered_set::contains(&self.manufacturers, who) {
            return Err(Error::UnAuthorisedPerson);
        }
        match ordered_set::insert_unique(&mut self.products_hash, hash) {
            Err(_) => Err(Error::ProductAlreadyPresent),
            Ok(()) => {
                self.events.push(Event::ProductAdded);
                proof {
                    assert(self@ =~= old(self)@.add_product(origin, hash).0);
                }
                Ok(())
            },
        }
    }

    /// The single authenticity oracle: succeeds exactly when `hash` is in
    /// the fresh catalog. On success the product is sold for the first
    /// time: it moves to the partially-sold set and its expiry is scheduled
    /// one return window after `now`. A hash that already left the catalog
    /// is reported counterfeit rather than re-confirmed.
    pub fn check_authenticity(&mut self, origin: Origin, hash: u64, now: u64) -> (r: Result<
        (),
        Error,
    >)
        requires
            old(self).wf(),
            now + old(self).expire_time <= u64::MAX,
        ensures
            final(self).wf(),
            final(self)@ == old(self)@.check_authenticity(origin, hash, now).0,
            r == old(self)@.check_authenticity(origin, hash, now).1,
    {
        match origin {
            Origin::Root => {
                return Err(Error::BadOrigin);
            },
            Origin::Signed(_) => {},
        };
        match ordered_set::remove_if_present(&mut self.products_hash, hash) {
            Err(_) => Err(Error::UnAuthenticProduct),
            Ok(()) => {
                let _ = ordered_set::insert_unique(&mut self.partial_sell_products, hash);
                let refund_invalid = now + self.expire_time;
                expiry::schedule(&mut self.partial_product_time, refund_invalid, hash);
                self.events.push(Event::AuthenticProduct);
                proof {
                    assert(self@ =~= old(self)@.check_authenticity(origin, hash, now).0);
                }
                Ok(())
            },
        }
    }

    /// Returns a product that is still within its window: it moves from the
    /// partially-sold set to the returned list and its scheduled expiry is
    /// dropped. A hash not currently sold — never sold, already returned,
    /// or already swept — is rejected and nothing changes.
    pub fn refund_products(&mut self, origin: Origin, hash: u64) -> (r: Result<(), Error>)
        requires
            old(self).wf(),
        ensures
            final(self).wf(),
            final(self)@ == old(self)@.refund_products(origin, hash).0,
            r == old(self)@.refund_products(origin, hash).1,
    {
        match origin {
            Origin::Root => {
                return Err(Error::BadOrigin);
            },
            Origin::Signed(_) => {},
        };
        match ordered_set::remove_if_present(&mut self.partial_sell_products, hash) {
            Err(_) => Err(Error::UnsoldProduct),
            Ok(()) => {
                self.returned_products.push(hash);
                expiry::unschedule_hash(&mut self.partial_product_time, hash);
                proof {
                    assert(self@ =~= old(self)@.refund_products(origin, hash).0);
                }
                Ok(())
            },
        }
    }

    /// The per-tick sweep, invoked once per tick `n` by the external clock:
    /// every hash whose window closes at exactly `n` leaves the
    /// partially-sold set — implicitly sold — and its schedule entry is
    /// consumed. Safe on a tick with no entries, and a no-op when repeated.
    pub fn on_initialize(&mut self, n: u64)
        requires
            old(self).wf(),
        ensures
            final(self).wf(),
            final(self)@ == old(self)@.on_initialize(n),
    {
        let due = expiry::take_due(&mut self.partial_product_time, n);
        let mut k: usize = 0;
        while k < due.len()
            invariant
                k <= due@.len(),
                ordered_set::sorted(self.partial_sell_products@),
                forall|h: u64|
                    self.partial_sell_products@.contains(h) <==> old(
                        self,
                    ).partial_sell_products@.contains(h) && !(exists|j: int|
                        0 <= j < k && due@[j] == h),
                forall|h: u64|
                    due@.contains(h) <==> old(self).partial_product_time@.contains((n, h)),
                expiry::pair_sorted(self.partial_product_time@),
                forall|p: (u64, u64)|
                    self.partial_product_time@.contains(p) <==> old(
                        self,
                    ).partial_product_time@.contains(p) && p.0 != n,
                self.manufacturers == old(self).manufacturers,
                self.products_hash == old(self).products_hash,
                self.returned_products == old(self).returned_products,
                self.expire_time == old(self).expire_time,
                self.events == old(self).events,
            decreases due@.len() - k,
        {
            let _ = ordered_set::remove_if_present(&mut self.partial_sell_products, due[k]);
            proof {
                assert forall|h: u64|
                    self.partial_sell_products@.contains(h) <==> old(
                        self,
                    ).partial_sell_products@.contains(h) && !(exists|j: int|
                        0 <= j < k + 1 && due@[j] == h) by {
                    if h == due@[k as int] {
                        assert(due@[k as int] == h);
                    }
                }
            }
            k = k + 1;
        }
        proof {
            assert forall|h: u64|
                self.partial_sell_products@.contains(h) == (old(
                    self,
                ).partial_sell_products@.contains(h) && !old(self).partial_product_time@.contains(
                    (n, h),
                )) by {
                assert(due@.contains(h) <==> (exists|j: int| 0 <= j < k && due@[j] == h));
            }
            assert(self@ =~= old(self)@.on_initialize(n));
        }
    }
}

} // verus!
