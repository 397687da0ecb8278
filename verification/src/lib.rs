//! Construction of the taproot contract that locks one player's payout
//! output, and prediction of the weight of the inputs that spend it.
//!
//! A contract is made of the joint key of the winner and the market maker
//! ([`key_agg`]), three leaf scripts ([`script`]), the tree that commits to
//! them ([`taproot`]) and the joint key tweaked by the tree's root. The
//! contract itself is [`spend_info::split::SplitSpendInfo`]; the weight of
//! an input that spends it through one of the scripts is predicted by
//! [`weight`].

pub mod errors;
pub mod hashlock;
pub mod key_agg;
pub mod keys;
pub mod parties;
pub mod script;
pub mod spend_info;
pub mod taproot;
pub mod weight;
