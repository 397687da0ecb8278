//! The two parties of a payout contract.

use vstd::prelude::*;
use vstd::slice::slice_to_vec;

use crate::keys::PublicKey;

verus! {

/// A player who holds a winning ticket.
#[derive(Debug)]
pub struct Player {
    /// The key under which the player signs.
    pub pubkey: PublicKey,
    /// The SHA-256 digest of the ticket preimage, which the player buys
    /// from the market maker.
    pub ticket_hash: Vec<u8>,
    /// The SHA-256 digest of the payout preimage, which the player sells to
    /// the market maker.
    pub payout_hash: Vec<u8>,
}

/// What a player is made of.
pub struct PlayerView {
    /// The compressed encoding of the player's key.
    pub pubkey: Seq<u8>,
    /// The digest of the ticket preimage.
    pub ticket_hash: Seq<u8>,
    /// The digest of the payout preimage.
    pub payout_hash: Seq<u8>,
}

impl View for Player {
    type V = PlayerView;

    open spec fn view(&self) -> PlayerView {
        PlayerView {
            pubkey: self.pubkey@,
            ticket_hash: self.ticket_hash@,
            payout_hash: self.payout_hash@,
        }
    }
}

impl Clone for Player {
    fn clone(&self) -> (copy: Self)
        ensures
            copy@ == self@,
    {
        Player {
            pubkey: self.pubkey.clone(),
            ticket_hash: slice_to_vec(self.ticket_hash.as_slice()),
            payout_hash: slice_to_vec(self.payout_hash.as_slice()),
        }
    }
}

/// The market maker, who funds the payouts.
#[derive(Debug)]
pub struct MarketMaker {
    /// The key under which the market maker signs.
    pub pubkey: PublicKey,
}

impl View for MarketMaker {
    type V = Seq<u8>;

    open spec fn view(&self) -> Seq<u8> {
        self.pubkey@
    }
}

impl Clone for MarketMaker {
    fn clone(&self) -> (copy: Self)
        ensures
            copy@ == self@,
    {
        MarketMaker { pubkey: self.pubkey.clone() }
    }
}

} // verus!
