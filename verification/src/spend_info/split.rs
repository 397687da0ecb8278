//! The taproot contract of one player's payout output, with three ways to
//! spend it:
//!
//! 1. The win script pays the player who knows the ticket preimage, after
//!    one round of block delay.
//! 2. The reclaim script pays the market maker after two rounds of block
//!    delay.
//! 3. The sellback script pays the market maker at once, given the payout
//!    preimage that the player sold.

use vstd::prelude::*;
use vstd::slice::slice_to_vec;

use crate::errors::Error;
use crate::hashlock::{HASH_SIZE, PREIMAGE_SIZE};
use crate::key_agg::{
    aggregate, joint_key_spec, key_agg_context_pubkey, key_agg_pubkey, musig_taproot_tweak, tweak,
};
use crate::keys::{xonly, PUBLIC_KEY_SIZE};
use crate::parties::{MarketMaker, Player, PlayerView};
use crate::script::{
    lemma_block_delta_decides_timelocks, lemma_leaf_script_lens, p2tr_script, p2tr_script_spec,
    push_int_spec, reclaim_script, reclaim_script_spec, sellback_script, sellback_script_spec,
    win_script, win_script_spec, OP_PUSHNUM_1, P2TR_SCRIPT_SIZE,
};
use crate::taproot::{
    commitment_tree_spec, commitment_tree_wf, control_block_bytes, lemma_control_block_len,
    lemma_sellback_proof_shortest, CommitmentTree, CommitmentTreeView,
};
use crate::weight::{
    elements_size, input_weight_spec, script_size_spec, witness_size_spec, InputWeightPrediction,
    SCHNORR_SIGNATURE_SIZE,
};
use musig2::KeyAggContext;

verus! {

/// What a payout contract holds.
pub struct SplitSpendInfoView {
    /// The joint key of the market maker and the winner, in compressed
    /// encoding.
    pub joint_key: Seq<u8>,
    /// The joint key tweaked by the root of the commitment tree, in
    /// compressed encoding.
    pub tweaked_key: Seq<u8>,
    /// The payout in satoshis.
    pub payout_value: u64,
    /// The commitment tree of the three scripts.
    pub tree: CommitmentTreeView,
    /// The winner.
    pub winner: PlayerView,
    /// The key of the market maker against whom the contract was made, in
    /// compressed encoding.
    pub market_maker: Seq<u8>,
    /// The block delay of one round with which the contract was made.
    pub block_delta: u16,
    /// The win script.
    pub win_script: Seq<u8>,
    /// The reclaim script.
    pub reclaim_script: Seq<u8>,
    /// The sellback script.
    pub sellback_script: Seq<u8>,
}

/// The payout contract of `winner` against the market maker with the key
/// `market_maker`, or the error with which its construction fails.
///
/// The keys are aggregated first, then the scripts are generated, the tree
/// is assembled under the joint key, and the joint key is tweaked by the
/// tree's root. The tree builder's answer is followed as it is defined;
/// [`SplitSpendInfo::new`] states that it never refuses three leaves.
pub open spec fn split_spend_info_spec(
    winner: PlayerView,
    market_maker: Seq<u8>,
    payout_value: u64,
    block_delta: u16,
) -> Result<SplitSpendInfoView, Error> {
    match joint_key_spec(market_maker, winner.pubkey) {
        None => Err(Error::Setup),
        Some(joint_key) => {
            if winner.ticket_hash.len() != HASH_SIZE || winner.payout_hash.len() != HASH_SIZE {
                Err(Error::Validation)
            } else {
                let win_script = win_script_spec(
                    block_delta,
                    winner.ticket_hash,
                    xonly(winner.pubkey),
                );
                let reclaim_script = reclaim_script_spec(block_delta, xonly(market_maker));
                let sellback_script = sellback_script_spec(winner.payout_hash, xonly(market_maker));
                match commitment_tree_spec(
                    xonly(joint_key),
                    sellback_script,
                    win_script,
                    reclaim_script,
                ) {
                    None => Err(Error::TreeBuild),
                    Some(tree) => match musig_taproot_tweak(joint_key, tree.merkle_root) {
                        None => Err(Error::Setup),
                        Some(tweaked_key) => Ok(
                            SplitSpendInfoView {
                                joint_key,
                                tweaked_key,
                                payout_value,
                                tree,
                                winner,
                                market_maker,
                                block_delta,
                                win_script,
                                reclaim_script,
                                sellback_script,
                            },
                        ),
                    },
                }
            }
        },
    }
}

/// The locking script of a payout contract.
pub open spec fn script_pubkey_spec(info: SplitSpendInfoView) -> Seq<u8> {
    p2tr_script_spec(info.tree.output_key)
}

/// The lengths of the witness elements of a spend through the win script:
/// the player's signature, the ticket preimage, the script and its control
/// block.
pub open spec fn win_witness_lengths(info: SplitSpendInfoView) -> Seq<usize> {
    seq![
        SCHNORR_SIGNATURE_SIZE,
        PREIMAGE_SIZE,
        info.win_script.len() as usize,
        control_block_bytes(info.tree.win_proof).len() as usize,
    ]
}

/// The lengths of the witness elements of a spend through the reclaim
/// script: the market maker's signature, the script and its control block.
pub open spec fn reclaim_witness_lengths(info: SplitSpendInfoView) -> Seq<usize> {
    seq![
        SCHNORR_SIGNATURE_SIZE,
        info.reclaim_script.len() as usize,
        control_block_bytes(info.tree.reclaim_proof).len() as usize,
    ]
}

/// The lengths of the witness elements of a spend through the sellback
/// script: the market maker's signature, the payout preimage, the script
/// and its control block.
pub open spec fn sellback_witness_lengths(info: SplitSpendInfoView) -> Seq<usize> {
    seq![
        SCHNORR_SIGNATURE_SIZE,
        PREIMAGE_SIZE,
        info.sellback_script.len() as usize,
        control_block_bytes(info.tree.sellback_proof).len() as usize,
    ]
}

/// The weight that an input without unlocking script adds besides the
/// bytes of its witness elements, none of them longer than 252 bytes: four
/// for the compact size of the empty script, one for the count of the
/// elements, and one for the compact size of each element.
pub open spec fn base_overhead(elements: nat) -> nat {
    4 + 1 + elements
}

/// The taproot contract of one player's payout output.
pub struct SplitSpendInfo {
    untweaked_ctx: KeyAggContext,
    tweaked_ctx: KeyAggContext,
    payout_value: u64,
    tree: CommitmentTree,
    winner: Player,
    win_script: Vec<u8>,
    reclaim_script: Vec<u8>,
    sellback_script: Vec<u8>,
    market_maker: Ghost<Seq<u8>>,
    block_delta: Ghost<u16>,
}

impl View for SplitSpendInfo {
    type V = SplitSpendInfoView;

    closed spec fn view(&self) -> SplitSpendInfoView {
        SplitSpendInfoView {
            joint_key: key_agg_pubkey(self.untweaked_ctx),
            tweaked_key: key_agg_pubkey(self.tweaked_ctx),
            payout_value: self.payout_value,
            tree: self.tree@,
            winner: self.winner@,
            market_maker: self.market_maker@,
            block_delta: self.block_delta@,
            win_script: self.win_script@,
            reclaim_script: self.reclaim_script@,
            sellback_script: self.sellback_script@,
        }
    }
}

impl SplitSpendInfo {
    /// What holds of every payout contract. It is the contract of its
    /// winner against its market maker: the tweaked key is bound to the
    /// root of the very tree that holds the three stored scripts. The tree
    /// stands under the joint key, and the win and the reclaim script are
    /// each proved by two hashes.
    #[verifier::type_invariant]
    pub open spec fn inv(self) -> bool {
        &&& split_spend_info_spec(
            self@.winner,
            self@.market_maker,
            self@.payout_value,
            self@.block_delta,
        ) == Ok::<SplitSpendInfoView, Error>(self@)
        &&& self@.winner.pubkey.len() == PUBLIC_KEY_SIZE
        &&& self@.market_maker.len() == PUBLIC_KEY_SIZE
        &&& commitment_tree_wf(self@.tree)
        &&& self@.tree.sellback_proof.internal_key == xonly(self@.joint_key)
        &&& self@.tree.win_proof.merkle_branch.len() == 2
        &&& self@.tree.reclaim_proof.merkle_branch.len() == 2
    }

    /// Constructs the payout contract of `winner` against `market_maker`,
    /// for a payout of `payout_value` satoshis and rounds of `block_delta`
    /// blocks.
    ///
    /// Fails with [`Error::Setup`] where the two keys cannot be aggregated
    /// or the joint key cannot be tweaked by the root of the tree, and with
    /// [`Error::Validation`] unless both hashes of the winner are 32 bytes
    /// long. It never fails with [`Error::TreeBuild`]: a tree of three
    /// leaves is always built. Two different keys that cannot be aggregated
    /// or tweaked are not known: with well-formed hashes and different keys,
    /// a failure points to a defect and not to a bad input.
    pub fn new(
        winner: Player,
        market_maker: &MarketMaker,
        payout_value: u64,
        block_delta: u16,
    ) -> (info: Result<SplitSpendInfo, Error>)
        ensures
            match info {
                Ok(i) => {
                    &&& split_spend_info_spec(winner@, market_maker@, payout_value, block_delta)
                        == Ok::<SplitSpendInfoView, Error>(i@)
                    &&& i.inv()
                },
                Err(e) => {
                    &&& split_spend_info_spec(winner@, market_maker@, payout_value, block_delta)
                        == Err::<SplitSpendInfoView, Error>(e)
                    &&& e != Error::TreeBuild
                },
            },
    {
        proof {
            use_type_invariant(&winner.pubkey);
            use_type_invariant(&market_maker.pubkey);
        }
        let untweaked_ctx = match aggregate(&market_maker.pubkey, &winner.pubkey) {
            Ok(ctx) => ctx,
            Err(e) => {
                return Err(e);
            },
        };
        let joint_key = key_agg_context_pubkey(&untweaked_ctx);

        let winner_key = winner.pubkey.serialize_xonly();
        let market_maker_key = market_maker.pubkey.serialize_xonly();

        // Spent with: <player signature> <ticket preimage>
        let win_script = match win_script(
            block_delta,
            winner.ticket_hash.as_slice(),
            winner_key.as_slice(),
        ) {
            Ok(script) => script,
            Err(e) => {
                return Err(e);
            },
        };

        // Spent with: <market maker signature>
        let reclaim_script = match reclaim_script(block_delta, market_maker_key.as_slice()) {
            Ok(script) => script,
            Err(e) => {
                return Err(e);
            },
        };

        // Spent with: <market maker signature> <payout preimage>
        let sellback_script = match sellback_script(
            winner.payout_hash.as_slice(),
            market_maker_key.as_slice(),
        ) {
            Ok(script) => script,
            Err(e) => {
                return Err(e);
            },
        };

        proof {
            lemma_leaf_script_lens(
                block_delta,
                winner.ticket_hash@,
                winner.payout_hash@,
                winner_key@,
                market_maker_key@,
            );
        }
        let tree = match CommitmentTree::build(
            &joint_key,
            &sellback_script,
            &win_script,
            &reclaim_script,
        ) {
            Ok(tree) => tree,
            Err(e) => {
                return Err(e);
            },
        };

        let tweaked_ctx = match tweak(&untweaked_ctx, tree.merkle_root().as_slice()) {
            Ok(ctx) => ctx,
            Err(e) => {
                return Err(e);
            },
        };

        Ok(
            SplitSpendInfo {
                untweaked_ctx,
                tweaked_ctx,
                payout_value,
                tree,
                winner,
                win_script,
                reclaim_script,
                sellback_script,
                market_maker: Ghost(market_maker@),
                block_delta: Ghost(block_delta),
            },
        )
    }

    /// The context of the joint key, before the tweak.
    pub fn key_agg_ctx_untweaked(&self) -> (ctx: &KeyAggContext)
        ensures
            key_agg_pubkey(*ctx) == self@.joint_key,
    {
        &self.untweaked_ctx
    }

    /// The context of the joint key tweaked by the root of the tree: the
    /// context to sign with.
    pub fn key_agg_ctx_tweaked(&self) -> (ctx: &KeyAggContext)
        ensures
            key_agg_pubkey(*ctx) == self@.tweaked_key,
            musig_taproot_tweak(self@.joint_key, self@.tree.merkle_root) == Some(
                key_agg_pubkey(*ctx),
            ),
    {
        proof {
            use_type_invariant(self);
        }
        &self.tweaked_ctx
    }

    /// The locking script of the payout output: 34 bytes, the version 1
    /// marker and a push of the x-only output key.
    pub fn script_pubkey(&self) -> (script: Vec<u8>)
        ensures
            script@ == script_pubkey_spec(self@),
            script@.len() == P2TR_SCRIPT_SIZE,
            script@[0] == OP_PUSHNUM_1,
            script@.subrange(2, P2TR_SCRIPT_SIZE as int) == self@.tree.output_key,
    {
        let script = p2tr_script(self.tree.output_key().as_slice()).unwrap();
        script
    }

    /// The payout in satoshis.
    pub fn payout_value(&self) -> (value: u64)
        ensures
            value == self@.payout_value,
    {
        self.payout_value
    }

    /// The winner.
    pub fn winner(&self) -> (winner: &Player)
        ensures
            winner@ == self@.winner,
    {
        &self.winner
    }

    /// The commitment tree of the three scripts.
    pub fn commitment_tree(&self) -> (tree: &CommitmentTree)
        ensures
            tree@ == self@.tree,
    {
        &self.tree
    }

    /// The win script.
    pub fn win_script(&self) -> (script: &Vec<u8>)
        ensures
            script@ == self@.win_script,
    {
        &self.win_script
    }

    /// The reclaim script.
    pub fn reclaim_script(&self) -> (script: &Vec<u8>)
        ensures
            script@ == self@.reclaim_script,
    {
        &self.reclaim_script
    }

    /// The sellback script.
    pub fn sellback_script(&self) -> (script: &Vec<u8>)
        ensures
            script@ == self@.sellback_script,
    {
        &self.sellback_script
    }

    /// The lengths of the witness elements of a spend through the win
    /// script: `<player signature> <ticket preimage> <script> <control block>`.
    pub fn win_witness_lengths(&self) -> (lengths: Vec<usize>)
        ensures
            lengths@ == win_witness_lengths(self@),
    {
        vec![
            SCHNORR_SIGNATURE_SIZE,
            PREIMAGE_SIZE,
            self.win_script.len(),
            self.tree.win_proof().size(),
        ]
    }

    /// The lengths of the witness elements of a spend through the reclaim
    /// script: `<market maker signature> <script> <control block>`.
    pub fn reclaim_witness_lengths(&self) -> (lengths: Vec<usize>)
        ensures
            lengths@ == reclaim_witness_lengths(self@),
    {
        vec![
            SCHNORR_SIGNATURE_SIZE,
            self.reclaim_script.len(),
            self.tree.reclaim_proof().size(),
        ]
    }

    /// The lengths of the witness elements of a spend through the sellback
    /// script:
    /// `<market maker signature> <payout preimage> <script> <control block>`.
    pub fn sellback_witness_lengths(&self) -> (lengths: Vec<usize>)
        ensures
            lengths@ == sellback_witness_lengths(self@),
    {
        vec![
            SCHNORR_SIGNATURE_SIZE,
            PREIMAGE_SIZE,
            self.sellback_script.len(),
            self.tree.sellback_proof().size(),
        ]
    }

    /// Predicts the weight of an input that spends the payout output
    /// through the win script: the overhead of a witness of four elements,
    /// and the bytes of the signature, the preimage, the script and its
    /// control block.
    pub fn input_weight_for_win_tx(&self) -> (prediction: InputWeightPrediction)
        ensures
            prediction.spec_script_size() == script_size_spec(0),
            prediction.spec_witness_size() == witness_size_spec(win_witness_lengths(self@)),
            prediction.spec_weight() == input_weight_spec(0, win_witness_lengths(self@)),
            prediction.spec_weight() == base_overhead(4) + SCHNORR_SIGNATURE_SIZE + PREIMAGE_SIZE
                + self@.win_script.len() + control_block_bytes(self@.tree.win_proof).len(),
    {
        let lengths = self.win_witness_lengths();
        proof {
            use_type_invariant(self);
            self.lemma_sizes();
            reveal_with_fuel(elements_size, 5);
        }
        InputWeightPrediction::new(0, lengths.as_slice())
    }

    /// Predicts the weight of an input that spends the payout output
    /// through the reclaim script: the overhead of a witness of three
    /// elements, and the bytes of the signature, the script and its control
    /// block.
    pub fn input_weight_for_reclaim_tx(&self) -> (prediction: InputWeightPrediction)
        ensures
            prediction.spec_script_size() == script_size_spec(0),
            prediction.spec_witness_size() == witness_size_spec(reclaim_witness_lengths(self@)),
            prediction.spec_weight() == input_weight_spec(0, reclaim_witness_lengths(self@)),
            prediction.spec_weight() == base_overhead(3) + SCHNORR_SIGNATURE_SIZE
                + self@.reclaim_script.len() + control_block_bytes(self@.tree.reclaim_proof).len(),
    {
        let lengths = self.reclaim_witness_lengths();
        proof {
            use_type_invariant(self);
            self.lemma_sizes();
            reveal_with_fuel(elements_size, 4);
        }
        InputWeightPrediction::new(0, lengths.as_slice())
    }

    /// Predicts the weight of an input that spends the payout output
    /// through the sellback script: the overhead of a witness of four
    /// elements, and the bytes of the signature, the preimage, the script
    /// and its control block.
    pub fn input_weight_for_sellback_tx(&self) -> (prediction: InputWeightPrediction)
        ensures
            prediction.spec_script_size() == script_size_spec(0),
            prediction.spec_witness_size() == witness_size_spec(sellback_witness_lengths(self@)),
            prediction.spec_weight() == input_weight_spec(0, sellback_witness_lengths(self@)),
            prediction.spec_weight() == base_overhead(4) + SCHNORR_SIGNATURE_SIZE + PREIMAGE_SIZE
                + self@.sellback_script.len() + control_block_bytes(
                self@.tree.sellback_proof,
            ).len(),
    {
        let lengths = self.sellback_witness_lengths();
        proof {
            use_type_invariant(self);
            self.lemma_sizes();
            reveal_with_fuel(elements_size, 5);
        }
        InputWeightPrediction::new(0, lengths.as_slice())
    }

    /// The sizes of the scripts and control blocks of a payout contract.
    pub proof fn lemma_sizes(self)
        requires
            self.inv(),
        ensures
            self@.win_script.len() == push_int_spec(self@.block_delta as nat).len() + 71,
            self@.reclaim_script.len() == push_int_spec(2 * (self@.block_delta as nat)).len()
                + 36,
            72 <= self@.win_script.len() <= 77,
            37 <= self@.reclaim_script.len() <= 42,
            self@.sellback_script.len() == 69,
            control_block_bytes(self@.tree.win_proof).len() == 97,
            control_block_bytes(self@.tree.reclaim_proof).len() == 97,
            control_block_bytes(self@.tree.sellback_proof).len() == 65,
    {
        let winner = self@.winner;
        lemma_leaf_script_lens(
            self@.block_delta,
            winner.ticket_hash,
            winner.payout_hash,
            xonly(winner.pubkey),
            xonly(self@.market_maker),
        );
        lemma_control_block_len(self@.tree.win_proof);
        lemma_control_block_len(self@.tree.reclaim_proof);
        lemma_control_block_len(self@.tree.sellback_proof);
    }
}

impl Clone for SplitSpendInfo {
    fn clone(&self) -> (copy: Self)
        ensures
            copy@ == self@,
    {
        proof {
            use_type_invariant(self);
        }
        SplitSpendInfo {
            untweaked_ctx: self.untweaked_ctx.clone(),
            tweaked_ctx: self.tweaked_ctx.clone(),
            payout_value: self.payout_value,
            tree: self.tree.clone(),
            winner: self.winner.clone(),
            win_script: slice_to_vec(self.win_script.as_slice()),
            reclaim_script: slice_to_vec(self.reclaim_script.as_slice()),
            sellback_script: slice_to_vec(self.sellback_script.as_slice()),
            market_maker: self.market_maker,
            block_delta: self.block_delta,
        }
    }
}

/// The witness of a spend through the win script and of a spend through
/// the reclaim script have elements of the same lengths in any two payout
/// contracts with the same block delay, whatever their keys, hashes and
/// payouts: the predicted sizes depend on the block delay alone.
pub proof fn lemma_timelocked_witness_by_block_delta(a: SplitSpendInfo, b: SplitSpendInfo)
    requires
        a.inv(),
        b.inv(),
        a@.block_delta == b@.block_delta,
    ensures
        win_witness_lengths(a@) == win_witness_lengths(b@),
        reclaim_witness_lengths(a@) == reclaim_witness_lengths(b@),
        win_witness_lengths(a@) == seq![
            SCHNORR_SIGNATURE_SIZE,
            PREIMAGE_SIZE,
            (push_int_spec(a@.block_delta as nat).len() + 71) as usize,
            97usize,
        ],
        reclaim_witness_lengths(a@) == seq![
            SCHNORR_SIGNATURE_SIZE,
            (push_int_spec(2 * (a@.block_delta as nat)).len() + 36) as usize,
            97usize,
        ],
{
    a.lemma_sizes();
    b.lemma_sizes();
}

/// The witness of a spend through the sellback script has elements of the
/// same lengths in every payout contract: a signature of 64 bytes, a
/// preimage of 32, the script of 69 and the control block of 65.
pub proof fn lemma_sellback_witness_constant(info: SplitSpendInfo)
    requires
        info.inv(),
    ensures
        sellback_witness_lengths(info@) == seq![
            SCHNORR_SIGNATURE_SIZE,
            PREIMAGE_SIZE,
            69usize,
            65usize,
        ],
{
    info.lemma_sizes();
}

/// Two payout contracts made for the same winner, market maker, payout and
/// block delay hold the same keys, scripts, tree and control blocks, byte
/// for byte, and lock their outputs with the same script.
pub proof fn lemma_construction_deterministic(a: SplitSpendInfo, b: SplitSpendInfo)
    requires
        a.inv(),
        b.inv(),
        a@.winner == b@.winner,
        a@.market_maker == b@.market_maker,
        a@.payout_value == b@.payout_value,
        a@.block_delta == b@.block_delta,
    ensures
        a@ == b@,
        script_pubkey_spec(a@) == script_pubkey_spec(b@),
        control_block_bytes(a@.tree.win_proof) == control_block_bytes(b@.tree.win_proof),
        control_block_bytes(a@.tree.reclaim_proof) == control_block_bytes(b@.tree.reclaim_proof),
        control_block_bytes(a@.tree.sellback_proof) == control_block_bytes(
            b@.tree.sellback_proof,
        ),
{
}

/// Of two payout contracts that differ in the block delay alone, the win
/// scripts differ and the reclaim scripts differ, while the joint key, the
/// sellback script, the winner and the payout are the same.
pub proof fn lemma_block_delta_changes_timelocked_scripts(
    winner: PlayerView,
    market_maker: Seq<u8>,
    payout_value: u64,
    block_delta: u16,
    other_delta: u16,
)
    requires
        block_delta != other_delta,
        split_spend_info_spec(winner, market_maker, payout_value, block_delta) is Ok,
        split_spend_info_spec(winner, market_maker, payout_value, other_delta) is Ok,
    ensures
        ({
            let a = split_spend_info_spec(winner, market_maker, payout_value, block_delta)->Ok_0;
            let b = split_spend_info_spec(winner, market_maker, payout_value, other_delta)->Ok_0;
            &&& a.win_script != b.win_script
            &&& a.reclaim_script != b.reclaim_script
            &&& a.joint_key == b.joint_key
            &&& a.sellback_script == b.sellback_script
            &&& a.winner == b.winner
            &&& a.payout_value == b.payout_value
        }),
{
    lemma_block_delta_decides_timelocks(
        block_delta,
        other_delta,
        winner.ticket_hash,
        xonly(winner.pubkey),
        xonly(market_maker),
    );
}

/// In every payout contract the tree is the tree of the three stored
/// scripts under the joint key, every control block names the joint key as
/// its internal key, and the tweaked key is the joint key tweaked by the
/// root of that tree.
pub proof fn lemma_tweaked_key_bound_to_tree(info: SplitSpendInfo)
    requires
        info.inv(),
    ensures
        commitment_tree_spec(
            xonly(info@.joint_key),
            info@.sellback_script,
            info@.win_script,
            info@.reclaim_script,
        ) == Some(info@.tree),
        info@.tree.win_proof.internal_key == xonly(info@.joint_key),
        info@.tree.reclaim_proof.internal_key == xonly(info@.joint_key),
        info@.tree.sellback_proof.internal_key == xonly(info@.joint_key),
        musig_taproot_tweak(info@.joint_key, info@.tree.merkle_root) == Some(info@.tweaked_key),
{
}

/// In every payout contract the control block of the sellback script is no
/// larger than the control block of the win script or of the reclaim
/// script.
pub proof fn lemma_sellback_control_block_smallest(info: SplitSpendInfo)
    requires
        info.inv(),
    ensures
        control_block_bytes(info@.tree.sellback_proof).len() <= control_block_bytes(
            info@.tree.win_proof,
        ).len(),
        control_block_bytes(info@.tree.sellback_proof).len() <= control_block_bytes(
            info@.tree.reclaim_proof,
        ).len(),
{
    lemma_sellback_proof_shortest(info@.tree);
}

/// The three scripts of a payout contract differ from one another: the
/// tree has three leaves.
pub proof fn lemma_three_distinct_leaves(info: SplitSpendInfo)
    requires
        info.inv(),
    ensures
        info@.win_script != info@.reclaim_script,
        info@.win_script != info@.sellback_script,
        info@.reclaim_script != info@.sellback_script,
{
    info.lemma_sizes();
}

} // verus!
