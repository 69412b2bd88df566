//! The abstract state of the ledger and the transition each operation
//! performs on it. Every executable operation of [`crate::pallet::Pallet`]
//! promises in its contract to apply exactly the transition written here.

use vstd::prelude::*;

verus! {

/// The provenance of a call: either the single systemwide privileged
/// authority, or an ordinary identity authenticated by the host.
#[derive(Clone, Copy, Debug)]
pub enum Origin {
    /// The privileged authority that may register manufacturers.
    Root,
    /// An ordinary authenticated caller.
    Signed(u64),
}

/// Observable events emitted on successful operations, in order.
#[derive(Clone, Copy, PartialEq, Eq, Debug)]
pub enum Event {
    /// A product hash entered the fresh catalog.
    ProductAdded,
    /// An identity entered the manufacturer registry.
    ManufacturerAdded,
    /// A fresh product was confirmed authentic and sold.
    AuthenticProduct,
}

/// Why an operation failed. Failures never change the state.
#[derive(Clone, Copy, PartialEq, Eq, Debug)]
pub enum Error {
    /// The call needed the privileged authority, or needed an ordinary
    /// signed caller, and the origin was the other kind.
    BadOrigin,
    /// The signed caller is not a registered manufacturer.
    UnAuthorisedPerson,
    /// The product hash is already in the fresh catalog.
    ProductAlreadyPresent,
    /// The identity is already in the manufacturer registry.
    ManufacturerAlreadyPresent,
    /// The product hash is not in the fresh catalog: it is counterfeit or
    /// was already sold.
    UnAuthenticProduct,
    /// The product hash is not currently within a return window.
    UnsoldProduct,
}

/// The ledger's state, mathematically: the manufacturer registry, the three
/// product registries, the expiry schedule, the fixed return window, and the
/// events emitted so far.
#[verifier::ext_equal]
pub struct State {
    /// Identities allowed to add products.
    pub manufacturers: Set<u64>,
    /// Hashes registered and not yet sold.
    pub fresh: Set<u64>,
    /// Hashes sold and still within their return window.
    pub partial: Set<u64>,
    /// Hashes refunded within their window, in refund order.
    pub returned: Seq<u64>,
    /// Pairs `(tick, hash)`: the return window of `hash` closes at `tick`.
    pub scheduled: Set<(u64, u64)>,
    /// Length of the return window, in ticks.
    pub window: u64,
    /// Events emitted so far, oldest first.
    pub events: Seq<Event>,
}

impl State {
    /// The state of a freshly constructed ledger: everything empty.
    pub open spec fn initial(window: u64) -> State {
        State {
            manufacturers: Set::empty(),
            fresh: Set::empty(),
            partial: Set::empty(),
            returned: Seq::empty(),
            scheduled: Set::empty(),
            window,
            events: Seq::empty(),
        }
    }

    /// Registering a manufacturer: only the privileged authority may, and
    /// only an identity not yet registered.
    pub open spec fn add_manufacturer(self, origin: Origin, who: u64) -> (State, Result<
        (),
        Error,
    >) {
        match origin {
            Origin::Signed(_) => (self, Err(Error::BadOrigin)),
            Origin::Root => if self.manufacturers.contains(who) {
                (self, Err(Error::ManufacturerAlreadyPresent))
            } else {
                (
                    State {
                        manufacturers: self.manufacturers.insert(who),
                        events: self.events.push(Event::ManufacturerAdded),
                        ..self
                    },
                    Ok(()),
                )
            },
        }
    }

    /// Registering a product: any signed manufacturer may add any hash not
    /// already in the fresh catalog.
    pub open spec fn add_product(self, origin: Origin, hash: u64) -> (State, Result<(), Error>) {
        match origin {
            Origin::Root => (self, Err(Error::BadOrigin)),
            Origin::Signed(who) => if !self.manufacturers.contains(who) {
                (self, Err(Error::UnAuthorisedPerson))
            } else if self.fresh.contains(hash) {
                (self, Err(Error::ProductAlreadyPresent))
            } else {
                (
                    State {
                        fresh: self.fresh.insert(hash),
                        events: self.events.push(Event::ProductAdded),
                        ..self
                    },
                    Ok(()),
                )
            },
        }
    }

    /// The authenticity oracle: a hash is authentic exactly while it is in
    /// the fresh catalog. Confirming it sells the product, moving it to the
    /// partially-sold set with an expiry scheduled a window after `now`.
    pub open spec fn check_authenticity(self, origin: Origin, hash: u64, now: u64) -> (State, Result<
        (),
        Error,
    >) {
        match origin {
            Origin::Root => (self, Err(Error::BadOrigin)),
            Origin::Signed(_) => if !self.fresh.contains(hash) {
                (self, Err(Error::UnAuthenticProduct))
            } else {
                (
                    State {
                        fresh: self.fresh.remove(hash),
                        partial: self.partial.insert(hash),
                        scheduled: self.scheduled.insert(((now + self.window) as u64, hash)),
                        events: self.events.push(Event::AuthenticProduct),
                        ..self
                    },
                    Ok(()),
                )
            },
        }
    }

    /// Refunding: any signed caller may return a product that is still
    /// within its window. The product moves to the returned list and its
    /// scheduled expiry is dropped, so the sweep never revisits it.
    pub open spec fn refund_products(self, origin: Origin, hash: u64) -> (State, Result<
        (),
        Error,
    >) {
        match origin {
            Origin::Root => (self, Err(Error::BadOrigin)),
            Origin::Signed(_) => if !self.partial.contains(hash) {
                (self, Err(Error::UnsoldProduct))
            } else {
                (
                    State {
                        partial: self.partial.remove(hash),
                        returned: self.returned.push(hash),
                        scheduled: Set::new(
                            |p: (u64, u64)| self.scheduled.contains(p) && p.1 != hash,
                        ),
                        ..self
                    },
                    Ok(()),
                )
            },
        }
    }

    /// The per-tick sweep: every hash whose window closes at exactly `n`
    /// leaves the partially-sold set — becoming implicitly sold — and its
    /// schedule entry is consumed. A tick with no entries is a no-op.
    pub open spec fn on_initialize(self, n: u64) -> State {
        State {
            partial: Set::new(
                |h: u64| self.partial.contains(h) && !self.scheduled.contains((n, h)),
            ),
            scheduled: Set::new(|p: (u64, u64)| self.scheduled.contains(p) && p.0 != n),
            ..self
        }
    }
}

} // verus!
