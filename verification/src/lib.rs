//! A record store for a social graph: profiles, posts and tweets, and the
//! likes, reactions and comments that actors attach to them.
//!
//! Every record lives at an address that is derived from seeds: who acts, on
//! what, and where needed a digest of the text. That a relation exists is that
//! its record exists at its address, so a second like of one post by one actor
//! is refused because the address is taken. Each operation checks addresses,
//! authority and text limits before it changes anything, moves counters with
//! exact arithmetic, and either takes effect as a whole or leaves the ledger
//! as it was.

pub mod address;
pub mod counter;
pub mod errors;
pub mod guard;
pub mod instagram;
pub mod instruction;
pub mod ledger;
pub mod records;
pub mod seeds;
pub mod text;
pub mod twitter;
