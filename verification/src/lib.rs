//! Settlement engines for two pooled-stake wagering games: a two-player
//! coin-flip match and a capacity-bounded multi-player lottery round.
//!
//! The crate is the policy layer only: it decides how much value moves, to
//! whom, and when. Value itself lives in a [`ledger::Ledger`], a model of the
//! hosting platform's accounts in which every balance change is an atomic
//! transfer and the total supply never changes.

pub mod cointoss;
pub mod fees;
pub mod ledger;
pub mod luckyblock;
pub mod rng;
