//! A ledger that tracks the provenance and sale lifecycle of physical
//! products identified by opaque, totally-ordered hashes.

pub mod expiry;
pub mod laws;
pub mod ordered_set;
pub mod pallet;
pub mod state;

pub use pallet::Config;
pub use pallet::Pallet;

pub use state::Error;
pub use state::Event;
pub use state::Origin;
pub use state::State;
