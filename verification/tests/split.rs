use bitcoin::opcodes::all::{OP_CHECKSIG, OP_CSV, OP_DROP, OP_EQUALVERIFY, OP_SHA256};
use bitcoin::script::Builder;
use bitcoin::taproot::{LeafVersion, TaprootSpendInfo};
use bitcoin::ScriptBuf;
use musig2::KeyAggContext;
use secp::Point;
use split_spend::errors::Error;
use split_spend::hashlock::{HASH_SIZE, PREIMAGE_SIZE};
use split_spend::keys::PublicKey;
use split_spend::parties::{MarketMaker, Player};
use split_spend::spend_info::split::SplitSpendInfo;

const TICKET_HASH: [u8; 32] = [0x11; 32];
const PAYOUT_HASH: [u8; 32] = [0x22; 32];

fn point_of(secret: u8) -> Point {
    let sk = secp256k1::SecretKey::from_slice(&[secret; 32]).unwrap();
    Point::from(secp256k1::PublicKey::from_secret_key(secp256k1::SECP256K1, &sk))
}

fn key_of(secret: u8) -> PublicKey {
    PublicKey::from_bytes(&point_of(secret).serialize()).unwrap()
}

fn winner_of(secret: u8) -> Player {
    Player {
        pubkey: key_of(secret),
        ticket_hash: TICKET_HASH.to_vec(),
        payout_hash: PAYOUT_HASH.to_vec(),
    }
}

/// The contract of the winner with the secret 1 against the market maker
/// with the secret 2.
fn contract(payout_value: u64, block_delta: u16) -> SplitSpendInfo {
    let market_maker = MarketMaker { pubkey: key_of(2) };
    SplitSpendInfo::new(winner_of(1), &market_maker, payout_value, block_delta).unwrap()
}

/// The same contract, built with the outside crates alone.
fn reference(block_delta: u16) -> (KeyAggContext, KeyAggContext, TaprootSpendInfo, [ScriptBuf; 3]) {
    reference_for(1, 2, block_delta)
}

/// The contract of the winner with the secret `winner` against the market
/// maker with the secret `maker`, built with the outside crates alone.
fn reference_for(
    winner: u8,
    maker: u8,
    block_delta: u16,
) -> (KeyAggContext, KeyAggContext, TaprootSpendInfo, [ScriptBuf; 3]) {
    let (winner, maker) = (point_of(winner), point_of(maker));
    let mut pubkeys = vec![maker, winner];
    pubkeys.sort();
    let untweaked = KeyAggContext::new(pubkeys).unwrap();
    let joint: Point = untweaked.aggregated_pubkey();
    let win = Builder::new()
        .push_int(block_delta as i64)
        .push_opcode(OP_CSV)
        .push_opcode(OP_DROP)
        .push_opcode(OP_SHA256)
        .push_slice(TICKET_HASH)
        .push_opcode(OP_EQUALVERIFY)
        .push_slice(winner.serialize_xonly())
        .push_opcode(OP_CHECKSIG)
        .into_script();
    let reclaim = Builder::new()
        .push_int(2 * block_delta as i64)
        .push_opcode(OP_CSV)
        .push_opcode(OP_DROP)
        .push_slice(maker.serialize_xonly())
        .push_opcode(OP_CHECKSIG)
        .into_script();
    let sellback = Builder::new()
        .push_opcode(OP_SHA256)
        .push_slice(PAYOUT_HASH)
        .push_opcode(OP_EQUALVERIFY)
        .push_slice(maker.serialize_xonly())
        .push_opcode(OP_CHECKSIG)
        .into_script();
    let tree = TaprootSpendInfo::with_huffman_tree(
        secp256k1::SECP256K1,
        joint.into(),
        [(2, sellback.clone()), (1, win.clone()), (1, reclaim.clone())],
    )
    .unwrap();
    let root: [u8; 32] = bitcoin::hashes::Hash::to_byte_array(tree.merkle_root().unwrap());
    let tweaked = untweaked.clone().with_taproot_tweak(&root).unwrap();
    (untweaked, tweaked, tree, [win, reclaim, sellback])
}

#[test]
fn script_pubkey_is_a_taproot_output() {
    for (payout_value, block_delta) in [(100_000u64, 144u16), (0, 0), (u64::MAX, u16::MAX)] {
        let script = contract(payout_value, block_delta).script_pubkey();
        assert_eq!(script.len(), 34);
        assert_eq!(script[0], 0x51);
        assert_eq!(script[1], 0x20);
    }
}

#[test]
fn script_pubkey_is_that_of_bitcoin() {
    let info = contract(100_000, 144);
    let (_, _, tree, _) = reference(144);
    let expected = ScriptBuf::new_p2tr_tweaked(tree.output_key());
    assert_eq!(info.script_pubkey(), expected.into_bytes());
    assert!(ScriptBuf::from_bytes(info.script_pubkey()).is_p2tr());
}

#[test]
fn the_tweaked_key_is_the_key_of_the_locking_script() {
    for block_delta in [1u16, 144, 1008, u16::MAX] {
        let info = contract(100_000, block_delta);
        let tweaked: Point = info.key_agg_ctx_tweaked().aggregated_pubkey();
        assert_eq!(tweaked.serialize_xonly()[..], info.script_pubkey()[2..]);
        assert_eq!(tweaked.serialize_xonly()[..], info.commitment_tree().output_key()[..]);
    }
}

#[test]
fn the_contexts_are_those_of_the_signing_library() {
    let info = contract(100_000, 144);
    let (untweaked, tweaked, _, _) = reference(144);
    assert_eq!(
        info.key_agg_ctx_untweaked().aggregated_pubkey::<Point>(),
        untweaked.aggregated_pubkey::<Point>()
    );
    assert_eq!(
        info.key_agg_ctx_tweaked().aggregated_pubkey::<Point>(),
        tweaked.aggregated_pubkey::<Point>()
    );
    assert_eq!(info.key_agg_ctx_untweaked().pubkeys(), untweaked.pubkeys());
    assert_eq!(
        info.key_agg_ctx_tweaked().aggregated_pubkey_untweaked::<Point>(),
        untweaked.aggregated_pubkey::<Point>()
    );
}

#[test]
fn the_internal_key_is_the_joint_key() {
    let info = contract(100_000, 144);
    let joint: Point = info.key_agg_ctx_untweaked().aggregated_pubkey();
    let tree = info.commitment_tree();
    assert_eq!(tree.win_proof().internal_key(), joint.serialize_xonly().to_vec());
    assert_eq!(tree.reclaim_proof().internal_key(), joint.serialize_xonly().to_vec());
    assert_eq!(tree.sellback_proof().internal_key(), joint.serialize_xonly().to_vec());
}

#[test]
fn contract_for_winner_and_market_maker_at_delay_144() {
    let info = contract(100_000, 144);
    let winner = point_of(1).serialize_xonly();
    let maker = point_of(2).serialize_xonly();

    let mut win = vec![0x02, 0x90, 0x00, 0xb2, 0x75, 0xa8, 0x20];
    win.extend_from_slice(&TICKET_HASH);
    win.extend_from_slice(&[0x88, 0x20]);
    win.extend_from_slice(&winner);
    win.push(0xac);
    assert_eq!(info.win_script(), &win);

    let mut reclaim = vec![0x02, 0x20, 0x01, 0xb2, 0x75, 0x20];
    reclaim.extend_from_slice(&maker);
    reclaim.push(0xac);
    assert_eq!(info.reclaim_script(), &reclaim);

    let mut sellback = vec![0xa8, 0x20];
    sellback.extend_from_slice(&PAYOUT_HASH);
    sellback.extend_from_slice(&[0x88, 0x20]);
    sellback.extend_from_slice(&maker);
    sellback.push(0xac);
    assert_eq!(info.sellback_script(), &sellback);

    assert_eq!(info.payout_value(), 100_000);
}

#[test]
fn the_scripts_are_those_of_the_bitcoin_builder() {
    for block_delta in [0u16, 1, 16, 17, 144, 255, 256, 40_000, u16::MAX] {
        let info = contract(100_000, block_delta);
        let (_, _, _, [win, reclaim, sellback]) = reference(block_delta);
        assert_eq!(info.win_script()[..], win.as_bytes()[..]);
        assert_eq!(info.reclaim_script()[..], reclaim.as_bytes()[..]);
        assert_eq!(info.sellback_script()[..], sellback.as_bytes()[..]);
    }
}

#[test]
fn the_tree_holds_exactly_the_stored_scripts() {
    let info = contract(100_000, 144);
    let (_, _, tree, scripts) = reference(144);
    assert_eq!(tree.script_map().len(), 3);
    let root: [u8; 32] = bitcoin::hashes::Hash::to_byte_array(tree.merkle_root().unwrap());
    assert_eq!(info.commitment_tree().merkle_root()[..], root[..]);
    let proofs = [
        info.commitment_tree().win_proof(),
        info.commitment_tree().reclaim_proof(),
        info.commitment_tree().sellback_proof(),
    ];
    for (script, proof) in scripts.iter().zip(proofs) {
        let block = tree.control_block(&(script.clone(), LeafVersion::TapScript)).unwrap();
        assert_eq!(proof.serialize(), block.serialize());
    }
}

#[test]
fn every_control_block_verifies_its_script() {
    for block_delta in [1u16, 144, u16::MAX] {
        let info = contract(100_000, block_delta);
        let tree = info.commitment_tree();
        let output_key = secp256k1::XOnlyPublicKey::from_slice(&info.script_pubkey()[2..]).unwrap();
        let leaves = [
            (info.win_script(), tree.win_proof()),
            (info.reclaim_script(), tree.reclaim_proof()),
            (info.sellback_script(), tree.sellback_proof()),
        ];
        for (script, proof) in leaves {
            let block = bitcoin::taproot::ControlBlock::decode(&proof.serialize()).unwrap();
            let script = ScriptBuf::from_bytes(script.clone());
            assert!(block.verify_taproot_commitment(secp256k1::SECP256K1, output_key, &script));
        }
        // A control block does not verify another leaf's script.
        let block =
            bitcoin::taproot::ControlBlock::decode(&tree.win_proof().serialize()).unwrap();
        let reclaim = ScriptBuf::from_bytes(info.reclaim_script().clone());
        assert!(!block.verify_taproot_commitment(secp256k1::SECP256K1, output_key, &reclaim));
    }
}

#[test]
fn the_sellback_control_block_is_the_smallest() {
    for block_delta in [0u16, 144, u16::MAX] {
        let info = contract(100_000, block_delta);
        let tree = info.commitment_tree();
        assert!(tree.sellback_proof().size() <= tree.win_proof().size());
        assert!(tree.sellback_proof().size() <= tree.reclaim_proof().size());
        assert_eq!(tree.sellback_proof().size(), 65);
        assert_eq!(tree.win_proof().size(), 97);
        assert_eq!(tree.reclaim_proof().size(), 97);
    }
}

#[test]
fn the_win_input_weighs_overhead_signature_preimage_script_and_proof() {
    let info = contract(100_000, 144);
    let prediction = info.input_weight_for_win_tx();
    let script = info.win_script().len();
    let proof = info.commitment_tree().win_proof().size();
    assert_eq!((script, proof), (74, 97));
    assert_eq!(prediction.script_size(), 1);
    assert_eq!(prediction.witness_size(), 1 + 4 + 64 + 32 + script + proof);
    assert_eq!(prediction.weight(), 9 + 64 + PREIMAGE_SIZE + script + proof);
    assert_eq!(prediction.weight(), 276);
}

#[test]
fn the_reclaim_input_weighs_overhead_signature_script_and_proof() {
    let info = contract(100_000, 144);
    let prediction = info.input_weight_for_reclaim_tx();
    let script = info.reclaim_script().len();
    let proof = info.commitment_tree().reclaim_proof().size();
    assert_eq!((script, proof), (39, 97));
    assert_eq!(prediction.script_size(), 1);
    assert_eq!(prediction.witness_size(), 1 + 3 + 64 + script + proof);
    assert_eq!(prediction.weight(), 8 + 64 + script + proof);
    assert_eq!(prediction.weight(), 208);
}

#[test]
fn the_sellback_input_weighs_overhead_signature_preimage_script_and_proof() {
    let info = contract(100_000, 144);
    let prediction = info.input_weight_for_sellback_tx();
    let script = info.sellback_script().len();
    let proof = info.commitment_tree().sellback_proof().size();
    assert_eq!((script, proof), (69, 65));
    assert_eq!(prediction.script_size(), 1);
    assert_eq!(prediction.witness_size(), 1 + 4 + 64 + 32 + script + proof);
    assert_eq!(prediction.weight(), 9 + 64 + PREIMAGE_SIZE + script + proof);
    assert_eq!(prediction.weight(), 239);
}

#[test]
fn the_input_weights_are_those_that_bitcoin_predicts() {
    for block_delta in [0u16, 16, 144, u16::MAX] {
        let info = contract(100_000, block_delta);
        let (_, _, tree, [win, reclaim, sellback]) = reference(block_delta);
        let size = |script: &ScriptBuf| {
            tree.control_block(&(script.clone(), LeafVersion::TapScript)).unwrap().size()
        };
        let cases = [
            (info.input_weight_for_win_tx(), vec![64, 32, win.len(), size(&win)]),
            (info.input_weight_for_reclaim_tx(), vec![64, reclaim.len(), size(&reclaim)]),
            (info.input_weight_for_sellback_tx(), vec![64, 32, sellback.len(), size(&sellback)]),
        ];
        for (prediction, lengths) in cases {
            let expected = bitcoin::transaction::InputWeightPrediction::new(0, lengths);
            let total = bitcoin::transaction::predict_weight([expected], []).to_wu();
            // Around the input: version, counts and locktime at factor
            // four, outpoint and sequence, segwit marker and flag.
            let frame = 4 * (4 + 1 + 1 + 4) + 4 * (32 + 4 + 4) + 2;
            assert_eq!(prediction.weight() as u64, total - frame);
        }
    }
}

#[test]
fn the_block_delta_changes_the_timelocked_scripts_only() {
    let a = contract(100_000, 144);
    let b = contract(100_000, 145);
    assert_ne!(a.win_script(), b.win_script());
    assert_ne!(a.reclaim_script(), b.reclaim_script());
    assert_eq!(a.sellback_script(), b.sellback_script());
    assert_eq!(
        a.key_agg_ctx_untweaked().aggregated_pubkey::<Point>(),
        b.key_agg_ctx_untweaked().aggregated_pubkey::<Point>()
    );
    assert_eq!(a.payout_value(), b.payout_value());
}

#[test]
fn the_root_and_the_output_key_commit_to_the_block_delta() {
    let a = contract(100_000, 144);
    let b = contract(100_000, 145);
    assert_ne!(a.commitment_tree().merkle_root(), b.commitment_tree().merkle_root());
    assert_ne!(a.script_pubkey(), b.script_pubkey());
}

#[test]
fn equal_inputs_give_equal_contracts() {
    let a = contract(100_000, 144);
    let b = contract(100_000, 144);
    assert_eq!(a.script_pubkey(), b.script_pubkey());
    assert_eq!(a.win_script(), b.win_script());
    assert_eq!(a.reclaim_script(), b.reclaim_script());
    assert_eq!(a.sellback_script(), b.sellback_script());
    let (x, y) = (a.commitment_tree(), b.commitment_tree());
    assert_eq!(x.merkle_root(), y.merkle_root());
    assert_eq!(x.win_proof().serialize(), y.win_proof().serialize());
    assert_eq!(x.reclaim_proof().serialize(), y.reclaim_proof().serialize());
    assert_eq!(x.sellback_proof().serialize(), y.sellback_proof().serialize());
    assert_eq!(
        a.key_agg_ctx_tweaked().aggregated_pubkey::<Point>(),
        b.key_agg_ctx_tweaked().aggregated_pubkey::<Point>()
    );
}

#[test]
fn the_payout_value_does_not_enter_the_locking_script() {
    let a = contract(100_000, 144);
    let b = contract(250_000, 144);
    assert_eq!(a.payout_value(), 100_000);
    assert_eq!(b.payout_value(), 250_000);
    assert_eq!(a.script_pubkey(), b.script_pubkey());
}

#[test]
fn the_winner_is_kept() {
    let info = contract(100_000, 144);
    assert_eq!(info.winner().pubkey.serialize(), key_of(1).serialize());
    assert_eq!(info.winner().ticket_hash, TICKET_HASH.to_vec());
    assert_eq!(info.winner().payout_hash, PAYOUT_HASH.to_vec());
    assert_eq!(HASH_SIZE, 32);
}

#[test]
fn a_winner_with_the_key_of_the_market_maker_is_rejected() {
    let market_maker = MarketMaker { pubkey: key_of(1) };
    let outcome = SplitSpendInfo::new(winner_of(1), &market_maker, 100_000, 144);
    assert_eq!(outcome.err(), Some(Error::Setup));
}

#[test]
fn degenerate_keys_are_reported_before_malformed_hashes() {
    let market_maker = MarketMaker { pubkey: key_of(1) };
    let mut winner = winner_of(1);
    winner.ticket_hash = vec![0x11; 31];
    let outcome = SplitSpendInfo::new(winner, &market_maker, 100_000, 144);
    assert_eq!(outcome.err(), Some(Error::Setup));
}

#[test]
fn swapping_the_roles_changes_the_scripts_but_not_the_joint_key() {
    let a = contract(100_000, 144);
    let market_maker = MarketMaker { pubkey: key_of(1) };
    let b = SplitSpendInfo::new(winner_of(2), &market_maker, 100_000, 144).unwrap();
    assert_eq!(
        a.key_agg_ctx_untweaked().aggregated_pubkey::<Point>(),
        b.key_agg_ctx_untweaked().aggregated_pubkey::<Point>()
    );
    assert_ne!(a.win_script(), b.win_script());
    assert_ne!(a.script_pubkey(), b.script_pubkey());
}

#[test]
fn a_ticket_hash_of_the_wrong_length_is_rejected() {
    let market_maker = MarketMaker { pubkey: key_of(2) };
    for len in [0usize, 20, 31, 33, 64] {
        let mut winner = winner_of(1);
        winner.ticket_hash = vec![0x11; len];
        let outcome = SplitSpendInfo::new(winner, &market_maker, 100_000, 144);
        assert_eq!(outcome.err(), Some(Error::Validation), "length {}", len);
    }
}

#[test]
fn a_payout_hash_of_the_wrong_length_is_rejected() {
    let market_maker = MarketMaker { pubkey: key_of(2) };
    for len in [0usize, 20, 31, 33, 64] {
        let mut winner = winner_of(1);
        winner.payout_hash = vec![0x22; len];
        let outcome = SplitSpendInfo::new(winner, &market_maker, 100_000, 144);
        assert_eq!(outcome.err(), Some(Error::Validation), "length {}", len);
    }
}

#[test]
fn contracts_agree_with_the_outside_crates_for_many_parties() {
    for winner in 1..=6u8 {
        for maker in 7..=12u8 {
            for block_delta in [6u16, 144, 2016] {
                let market_maker = MarketMaker { pubkey: key_of(maker) };
                let info =
                    SplitSpendInfo::new(winner_of(winner), &market_maker, 5_000, block_delta)
                        .unwrap();
                let (untweaked, tweaked, tree, [win, reclaim, sellback]) =
                    reference_for(winner, maker, block_delta);
                assert_eq!(
                    info.key_agg_ctx_untweaked().aggregated_pubkey::<Point>(),
                    untweaked.aggregated_pubkey::<Point>()
                );
                assert_eq!(
                    info.key_agg_ctx_tweaked().aggregated_pubkey::<Point>(),
                    tweaked.aggregated_pubkey::<Point>()
                );
                assert_eq!(info.win_script()[..], win.as_bytes()[..]);
                assert_eq!(info.reclaim_script()[..], reclaim.as_bytes()[..]);
                assert_eq!(info.sellback_script()[..], sellback.as_bytes()[..]);
                let expected = ScriptBuf::new_p2tr_tweaked(tree.output_key());
                assert_eq!(info.script_pubkey(), expected.into_bytes());
                let proofs = info.commitment_tree();
                for (script, proof) in [
                    (&win, proofs.win_proof()),
                    (&reclaim, proofs.reclaim_proof()),
                    (&sellback, proofs.sellback_proof()),
                ] {
                    let leaf = (script.clone(), LeafVersion::TapScript);
                    let block = tree.control_block(&leaf).unwrap();
                    assert_eq!(proof.serialize(), block.serialize());
                }
            }
        }
    }
}

#[test]
fn the_win_prediction_is_that_of_the_four_lengths() {
    for (block_delta, script, weight) in [(144u16, 74usize, 276usize), (16, 72, 274), (128, 74, 276)]
    {
        let info = contract(100_000, block_delta);
        assert_eq!(info.win_witness_lengths(), vec![64, 32, script, 97]);
        let prediction = info.input_weight_for_win_tx();
        assert_eq!(prediction.script_size(), 1);
        assert_eq!(prediction.witness_size(), weight - 4);
        assert_eq!(prediction.weight(), weight);
        let lengths = [64, 32, script, 97];
        assert_eq!(prediction, split_spend::weight::InputWeightPrediction::new(0, &lengths));
    }
}

#[test]
fn the_reclaim_prediction_is_that_of_the_three_lengths() {
    for (block_delta, script, weight) in
        [(144u16, 39usize, 208usize), (8, 37, 206), (63, 38, 207), (64, 39, 208), (40_000, 40, 209)]
    {
        let info = contract(100_000, block_delta);
        assert_eq!(info.reclaim_witness_lengths(), vec![64, script, 97]);
        let prediction = info.input_weight_for_reclaim_tx();
        assert_eq!(prediction.script_size(), 1);
        assert_eq!(prediction.witness_size(), weight - 4);
        assert_eq!(prediction.weight(), weight);
        let lengths = [64, script, 97];
        assert_eq!(prediction, split_spend::weight::InputWeightPrediction::new(0, &lengths));
    }
}

#[test]
fn the_sellback_prediction_is_the_same_in_every_contract() {
    let expected = split_spend::weight::InputWeightPrediction::new(0, &[64, 32, 69, 65]);
    for (winner, maker, block_delta) in [(1u8, 2u8, 144u16), (3, 4, 0), (9, 5, u16::MAX)] {
        let market_maker = MarketMaker { pubkey: key_of(maker) };
        let mut player = winner_of(winner);
        player.payout_hash = vec![winner; 32];
        let info = SplitSpendInfo::new(player, &market_maker, 1, block_delta).unwrap();
        assert_eq!(info.sellback_witness_lengths(), vec![64, 32, 69, 65]);
        assert_eq!(info.input_weight_for_sellback_tx(), expected);
    }
}

#[test]
fn equal_block_deltas_give_equal_predictions() {
    for block_delta in [0u16, 16, 17, 144, 40_000] {
        let a = contract(100_000, block_delta);
        let market_maker = MarketMaker { pubkey: key_of(8) };
        let mut player = winner_of(6);
        player.ticket_hash = vec![0x77; 32];
        let b = SplitSpendInfo::new(player, &market_maker, 3, block_delta).unwrap();
        assert_eq!(a.input_weight_for_win_tx(), b.input_weight_for_win_tx());
        assert_eq!(a.input_weight_for_reclaim_tx(), b.input_weight_for_reclaim_tx());
    }
}

#[test]
fn a_copy_of_a_contract_holds_the_same() {
    let info = contract(100_000, 144);
    let copy = info.clone();
    assert_eq!(copy.script_pubkey(), info.script_pubkey());
    assert_eq!(copy.payout_value(), info.payout_value());
    assert_eq!(copy.win_script(), info.win_script());
    assert_eq!(copy.reclaim_script(), info.reclaim_script());
    assert_eq!(copy.sellback_script(), info.sellback_script());
    assert_eq!(copy.winner().pubkey.serialize(), info.winner().pubkey.serialize());
    assert_eq!(
        copy.commitment_tree().win_proof().serialize(),
        info.commitment_tree().win_proof().serialize()
    );
    assert_eq!(
        copy.key_agg_ctx_untweaked().aggregated_pubkey::<Point>(),
        info.key_agg_ctx_untweaked().aggregated_pubkey::<Point>()
    );
    assert_eq!(
        copy.key_agg_ctx_tweaked().aggregated_pubkey::<Point>(),
        info.key_agg_ctx_tweaked().aggregated_pubkey::<Point>()
    );
    assert_eq!(copy.input_weight_for_win_tx(), info.input_weight_for_win_tx());
}
