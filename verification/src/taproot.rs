//! The commitment tree of a payout contract: three script leaves under the
//! joint key, its root and output key, and one control block per leaf.

use vstd::prelude::*;
use vstd::slice::slice_to_vec;

use crate::errors::Error;
use crate::keys::{xonly, PublicKey};
use bitcoin::taproot::{LeafVersion, TaprootBuilderError, TaprootSpendInfo};
use bitcoin::ScriptBuf;
use secp::Point;
use secp256k1::{Parity, SECP256K1};

verus! {

/// The leaf version of a tapscript leaf.
pub const TAPROOT_LEAF_TAPSCRIPT: u8 = 0xc0;

/// Size of a control block without hashes: the version byte and the
/// internal key.
pub const TAPROOT_CONTROL_BASE_SIZE: usize = 33;

/// Size of one hash of a control block.
pub const TAPROOT_CONTROL_NODE_SIZE: usize = 32;

/// The most hashes that a control block may hold.
pub const TAPROOT_CONTROL_MAX_NODE_COUNT: usize = 128;

/// Weight of the sellback leaf, the one expected to be used most.
pub const SELLBACK_WEIGHT: u32 = 2;

/// Weight of the win leaf.
pub const WIN_WEIGHT: u32 = 1;

/// Weight of the reclaim leaf.
pub const RECLAIM_WEIGHT: u32 = 1;

/// What a control block holds.
pub struct ControlBlockView {
    /// The version of the leaf that is revealed.
    pub leaf_version: u8,
    /// Whether the y coordinate of the output key is odd.
    pub odd_parity: bool,
    /// The x-only internal key.
    pub internal_key: Seq<u8>,
    /// The hashes that lead from the leaf to the root, the leaf's sibling
    /// first.
    pub merkle_branch: Seq<Seq<u8>>,
}

/// The parts of a byte string, one after the other.
pub open spec fn concat(parts: Seq<Seq<u8>>) -> Seq<u8>
    decreases parts.len(),
{
    if parts.len() == 0 {
        Seq::empty()
    } else {
        concat(parts.drop_last()) + parts.last()
    }
}

/// The bit that a control block's first byte holds for the output key's
/// parity.
pub open spec fn parity_bit(odd_parity: bool) -> u8 {
    if odd_parity {
        1u8
    } else {
        0u8
    }
}

/// The serialization of a control block: one byte of leaf version and
/// parity bit, the internal key, then the hashes of the branch.
pub open spec fn control_block_bytes(block: ControlBlockView) -> Seq<u8> {
    seq![block.leaf_version | parity_bit(block.odd_parity)] + block.internal_key + concat(
        block.merkle_branch,
    )
}

/// Whether a control block has the shape that the format asks for: an
/// internal key and hashes of 32 bytes each, at most 128 hashes.
pub open spec fn control_block_wf(block: ControlBlockView) -> bool {
    &&& block.internal_key.len() == TAPROOT_CONTROL_NODE_SIZE
    &&& block.merkle_branch.len() <= TAPROOT_CONTROL_MAX_NODE_COUNT
    &&& forall|i: int|
        0 <= i < block.merkle_branch.len() ==> (#[trigger] block.merkle_branch[i]).len()
            == TAPROOT_CONTROL_NODE_SIZE
}

/// Parts of 32 bytes each take 32 bytes each.
pub proof fn lemma_concat_len(parts: Seq<Seq<u8>>)
    requires
        forall|i: int| 0 <= i < parts.len() ==> (#[trigger] parts[i]).len() == 32,
    ensures
        concat(parts).len() == 32 * parts.len(),
    decreases parts.len(),
{
    if parts.len() > 0 {
        lemma_concat_len(parts.drop_last());
    }
}

/// A well-formed control block serializes to 33 bytes and 32 more for each
/// hash.
pub proof fn lemma_control_block_len(block: ControlBlockView)
    requires
        control_block_wf(block),
    ensures
        control_block_bytes(block).len() == TAPROOT_CONTROL_BASE_SIZE + TAPROOT_CONTROL_NODE_SIZE
            * block.merkle_branch.len(),
{
    lemma_concat_len(block.merkle_branch);
}

/// Among parts of 32 bytes each, the part with the index `i` stands at the
/// offset `32 * i`.
pub proof fn lemma_concat_part(parts: Seq<Seq<u8>>, i: int)
    requires
        forall|k: int| 0 <= k < parts.len() ==> (#[trigger] parts[k]).len() == 32,
        0 <= i < parts.len(),
    ensures
        concat(parts).subrange(32 * i, 32 * i + 32) == parts[i],
    decreases parts.len(),
{
    let front = parts.drop_last();
    lemma_concat_len(parts);
    if i < parts.len() - 1 {
        lemma_concat_part(front, i);
    }
}

/// The layout of a serialized control block: the first byte holds the leaf
/// version and the parity bit, the next 32 bytes the internal key, and each
/// following 32 bytes one hash of the branch, in order.
pub proof fn lemma_control_block_layout(block: ControlBlockView, i: int)
    requires
        control_block_wf(block),
        0 <= i < block.merkle_branch.len(),
    ensures
        control_block_bytes(block)[0] == block.leaf_version | parity_bit(block.odd_parity),
        control_block_bytes(block).subrange(1, 33) == block.internal_key,
        control_block_bytes(block).subrange(33 + 32 * i, 65 + 32 * i) == block.merkle_branch[i],
{
    lemma_concat_len(block.merkle_branch);
    lemma_concat_part(block.merkle_branch, i);
}

/// The proof that a script is a leaf of a commitment tree, as revealed when
/// the output is spent through that script.
#[derive(Debug)]
pub struct ControlBlock {
    pub(crate) leaf_version: u8,
    pub(crate) odd_parity: bool,
    pub(crate) internal_key: Vec<u8>,
    pub(crate) merkle_branch: Vec<Vec<u8>>,
}

impl View for ControlBlock {
    type V = ControlBlockView;

    closed spec fn view(&self) -> ControlBlockView {
        ControlBlockView {
            leaf_version: self.leaf_version,
            odd_parity: self.odd_parity,
            internal_key: self.internal_key@,
            merkle_branch: Seq::new(
                self.merkle_branch@.len(),
                |i: int| self.merkle_branch@[i]@,
            ),
        }
    }
}

impl ControlBlock {
    /// What holds of every control block: it is well formed.
    #[verifier::type_invariant]
    pub open spec fn inv(self) -> bool {
        control_block_wf(self@)
    }

    /// Makes a control block of its parts.
    ///
    /// Fails with [`Error::Validation`] unless the internal key and every
    /// hash are 32 bytes long and there are at most 128 hashes.
    pub fn new(
        leaf_version: u8,
        odd_parity: bool,
        internal_key: Vec<u8>,
        merkle_branch: Vec<Vec<u8>>,
    ) -> (block: Result<ControlBlock, Error>)
        ensures
            block is Ok <==> control_block_wf(
                (ControlBlockView {
                    leaf_version,
                    odd_parity,
                    internal_key: internal_key@,
                    merkle_branch: Seq::new(merkle_branch@.len(), |i: int| merkle_branch@[i]@),
                }),
            ),
            block matches Ok(b) ==> b@ == (ControlBlockView {
                leaf_version,
                odd_parity,
                internal_key: internal_key@,
                merkle_branch: Seq::new(merkle_branch@.len(), |i: int| merkle_branch@[i]@),
            }),
            block matches Err(e) ==> e == Error::Validation,
    {
        let ghost hashes = Seq::new(merkle_branch@.len(), |i: int| merkle_branch@[i]@);
        if internal_key.len() != TAPROOT_CONTROL_NODE_SIZE || merkle_branch.len()
            > TAPROOT_CONTROL_MAX_NODE_COUNT {
            return Err(Error::Validation);
        }
        let mut i: usize = 0;
        while i < merkle_branch.len()
            invariant
                i <= merkle_branch@.len(),
                hashes == Seq::new(merkle_branch@.len(), |i: int| merkle_branch@[i]@),
                forall|j: int|
                    0 <= j < i ==> (#[trigger] hashes[j]).len() == TAPROOT_CONTROL_NODE_SIZE,
            decreases merkle_branch@.len() - i,
        {
            if merkle_branch[i].len() != TAPROOT_CONTROL_NODE_SIZE {
                assert(hashes[i as int].len() != TAPROOT_CONTROL_NODE_SIZE);
                return Err(Error::Validation);
            }
            i = i + 1;
        }
        Ok(ControlBlock { leaf_version, odd_parity, internal_key, merkle_branch })
    }

    /// The version of the leaf.
    pub fn leaf_version(&self) -> (version: u8)
        ensures
            version == self@.leaf_version,
    {
        self.leaf_version
    }

    /// Whether the y coordinate of the output key is odd.
    pub fn output_key_parity(&self) -> (odd: bool)
        ensures
            odd == self@.odd_parity,
    {
        self.odd_parity
    }

    /// The x-only internal key.
    pub fn internal_key(&self) -> (key: Vec<u8>)
        ensures
            key@ == self@.internal_key,
    {
        slice_to_vec(self.internal_key.as_slice())
    }

    /// The number of hashes in the branch: the depth of the leaf.
    pub fn depth(&self) -> (depth: usize)
        ensures
            depth == self@.merkle_branch.len(),
            depth <= TAPROOT_CONTROL_MAX_NODE_COUNT,
    {
        proof {
            use_type_invariant(self);
        }
        self.merkle_branch.len()
    }

    /// The size of the serialized control block.
    pub fn size(&self) -> (size: usize)
        ensures
            size == control_block_bytes(self@).len(),
            size == TAPROOT_CONTROL_BASE_SIZE + TAPROOT_CONTROL_NODE_SIZE
                * self@.merkle_branch.len(),
    {
        proof {
            use_type_invariant(self);
            lemma_control_block_len(self@);
        }
        TAPROOT_CONTROL_BASE_SIZE + TAPROOT_CONTROL_NODE_SIZE * self.merkle_branch.len()
    }

    /// Serializes the control block as it stands in a witness.
    pub fn serialize(&self) -> (bytes: Vec<u8>)
        ensures
            bytes@ == control_block_bytes(self@),
    {
        let mut bytes: Vec<u8> = Vec::new();
        bytes.push(self.leaf_version | (if self.odd_parity { 1u8 } else { 0u8 }));
        bytes.extend_from_slice(self.internal_key.as_slice());
        let ghost head = bytes@;
        let ghost branch = self@.merkle_branch;
        let mut i: usize = 0;
        while i < self.merkle_branch.len()
            invariant
                i <= self.merkle_branch@.len(),
                branch == self@.merkle_branch,
                bytes@ == head + concat(branch.take(i as int)),
            decreases self.merkle_branch@.len() - i,
        {
            bytes.extend_from_slice(self.merkle_branch[i].as_slice());
            proof {
                assert(branch.take(i as int + 1).drop_last() =~= branch.take(i as int));
            }
            i = i + 1;
        }
        proof {
            assert(branch.take(i as int) =~= branch);
        }
        bytes
    }
}

impl Clone for ControlBlock {
    fn clone(&self) -> (copy: Self)
        ensures
            copy@ == self@,
    {
        proof {
            use_type_invariant(self);
        }
        let mut merkle_branch: Vec<Vec<u8>> = Vec::new();
        let mut i: usize = 0;
        while i < self.merkle_branch.len()
            invariant
                i <= self.merkle_branch@.len(),
                merkle_branch@.len() == i,
                forall|j: int|
                    0 <= j < i ==> (#[trigger] merkle_branch@[j])@ == self.merkle_branch@[j]@,
            decreases self.merkle_branch@.len() - i,
        {
            merkle_branch.push(slice_to_vec(self.merkle_branch[i].as_slice()));
            i = i + 1;
        }
        let internal_key: Vec<u8> = slice_to_vec(self.internal_key.as_slice());
        proof {
            let hashes = Seq::new(merkle_branch@.len(), |j: int| merkle_branch@[j]@);
            assert(hashes =~= self@.merkle_branch);
        }
        ControlBlock {
            leaf_version: self.leaf_version,
            odd_parity: self.odd_parity,
            internal_key,
            merkle_branch,
        }
    }
}

/// A taproot spend info of the bitcoin library. What it holds is spoken of
/// through [`spend_info_view`].
#[verifier::external_type_specification]
#[verifier::external_body]
pub struct ExTaprootSpendInfo(bitcoin::taproot::TaprootSpendInfo);

/// The bitcoin library's error for a tree that cannot be built.
#[verifier::external_type_specification]
#[verifier::external_body]
pub struct ExTaprootBuilderError(bitcoin::taproot::TaprootBuilderError);

/// What a taproot spend info holds.
pub struct SpendInfoView {
    /// The x-only internal key.
    pub internal_key: Seq<u8>,
    /// The root of the script tree, if there is a tree.
    pub merkle_root: Option<Seq<u8>>,
    /// Whether the y coordinate of the output key is odd.
    pub odd_parity: bool,
    /// The x-only output key: the internal key tweaked by the root.
    pub output_key: Seq<u8>,
    /// The tapscript leaves of the tree: each script with its shortest
    /// branch to the root.
    pub branches: Map<Seq<u8>, Seq<Seq<u8>>>,
}

/// What the spend info `info` holds.
pub uninterp spec fn spend_info_view(info: TaprootSpendInfo) -> SpendInfoView;

/// What the spend info holds that the bitcoin library builds as a Huffman
/// tree from the x-only key `internal_key` and the weighted scripts
/// `leaves`; `None` where it refuses them.
pub uninterp spec fn huffman_spend_info(
    internal_key: Seq<u8>,
    leaves: Seq<(u32, Seq<u8>)>,
) -> Option<SpendInfoView>;

/// What the Huffman construction gives for three leaves, whatever their
/// scripts: the internal key is the one given, there is a root, and every
/// script is a leaf. Where the first leaf outweighs each of the others, the
/// two lighter leaves are joined first and their parent is joined with the
/// first leaf: the first script is proved by one hash, and either of the
/// others, unless it is the first script again, by two.
pub open spec fn three_leaf_tree(
    internal_key: Seq<u8>,
    leaves: Seq<(u32, Seq<u8>)>,
    tree: SpendInfoView,
) -> bool {
    &&& tree.internal_key == internal_key
    &&& tree.merkle_root is Some
    &&& forall|i: int| 0 <= i < 3 ==> tree.branches.dom().contains(#[trigger] leaves[i].1)
    &&& leaves[0].0 > leaves[1].0 && leaves[0].0 > leaves[2].0 ==> {
        &&& tree.branches[leaves[0].1].len() == 1
        &&& leaves[1].1 != leaves[0].1 ==> tree.branches[leaves[1].1].len() == 2
        &&& leaves[2].1 != leaves[0].1 ==> tree.branches[leaves[2].1].len() == 2
    }
}

/// `bitcoin::taproot::TaprootSpendInfo::with_huffman_tree` on three
/// tapscript leaves, with the x-only form of `internal_key` and the global
/// signing context. The call returns no error: the builder refuses only an
/// empty list of leaves and a branch of more than 128 hashes. What the
/// result holds is a function of the key and the leaves, and
/// [`three_leaf_tree`] holds of it. To compute the output key
/// the call tweaks the internal key, and it aborts where the tweak hash is
/// no scalar of the curve or the tweaked key is the point at infinity; no
/// key and tree with either are known.
#[verifier::external_body]
fn taproot_with_huffman_tree(
    internal_key: &PublicKey,
    weight0: u32,
    script0: &Vec<u8>,
    weight1: u32,
    script1: &Vec<u8>,
    weight2: u32,
    script2: &Vec<u8>,
) -> (info: Result<TaprootSpendInfo, TaprootBuilderError>)
    requires
        internal_key.inv(),
    ensures
        info is Ok,
        info matches Ok(t) ==> huffman_spend_info(
            xonly(internal_key@),
            seq![(weight0, script0@), (weight1, script1@), (weight2, script2@)],
        ) == Some(spend_info_view(t)) && three_leaf_tree(
            xonly(internal_key@),
            seq![(weight0, script0@), (weight1, script1@), (weight2, script2@)],
            spend_info_view(t),
        ),
{
    let key = Point::from_slice(&internal_key.bytes).expect("a public key encodes a point");
    let leaves = [
        (weight0, ScriptBuf::from_bytes(script0.clone())),
        (weight1, ScriptBuf::from_bytes(script1.clone())),
        (weight2, ScriptBuf::from_bytes(script2.clone())),
    ];
    TaprootSpendInfo::with_huffman_tree(SECP256K1, key.into(), leaves)
}

/// `bitcoin::taproot::TaprootSpendInfo::merkle_root`, as bytes: the root
/// that the spend info holds, a hash of 32 bytes.
#[verifier::external_body]
fn spend_info_merkle_root(info: &TaprootSpendInfo) -> (root: Option<Vec<u8>>)
    ensures
        root is Some <==> spend_info_view(*info).merkle_root is Some,
        root matches Some(r) ==> spend_info_view(*info).merkle_root == Some(r@) && r@.len() == 32,
{
    info.merkle_root().map(|hash| bitcoin::hashes::Hash::to_byte_array(hash).to_vec())
}

/// `bitcoin::taproot::TaprootSpendInfo::output_key`, serialized: the x-only
/// output key that the spend info holds, 32 bytes.
#[verifier::external_body]
fn spend_info_output_key(info: &TaprootSpendInfo) -> (key: Vec<u8>)
    ensures
        key@ == spend_info_view(*info).output_key,
        key@.len() == 32,
{
    info.output_key().serialize().to_vec()
}

/// `bitcoin::taproot::TaprootSpendInfo::control_block` for a tapscript
/// leaf, field by field: there is a control block exactly for the scripts
/// that the spend info holds, and it is made of the tapscript leaf version,
/// the spend info's parity and internal key, and the script's shortest
/// branch. Its key and hashes have 32 bytes each, and a branch has at most
/// 128 hashes.
#[verifier::external_body]
fn spend_info_control_block(info: &TaprootSpendInfo, script: &Vec<u8>) -> (block: Option<
    ControlBlock,
>)
    ensures
        block is Some <==> spend_info_view(*info).branches.dom().contains(script@),
        block matches Some(b) ==> b@ == leaf_proof(spend_info_view(*info), script@) && b.inv(),
{
    let leaf = (ScriptBuf::from_bytes(script.clone()), LeafVersion::TapScript);
    let block = info.control_block(&leaf)?;
    let hashes = block.merkle_branch.as_inner().iter();
    Some(ControlBlock {
        leaf_version: block.leaf_version.to_consensus(),
        odd_parity: match block.output_key_parity {
            Parity::Even => false,
            Parity::Odd => true,
        },
        internal_key: block.internal_key.serialize().to_vec(),
        merkle_branch: hashes.map(|h| bitcoin::hashes::Hash::to_byte_array(*h).to_vec()).collect(),
    })
}

/// The control block that a spend info gives for one of its tapscript
/// leaves.
pub open spec fn leaf_proof(tree: SpendInfoView, script: Seq<u8>) -> ControlBlockView {
    ControlBlockView {
        leaf_version: TAPROOT_LEAF_TAPSCRIPT,
        odd_parity: tree.odd_parity,
        internal_key: tree.internal_key,
        merkle_branch: tree.branches[script],
    }
}

/// The weighted leaves of a payout contract, in the order in which they are
/// handed to the tree: the sellback script with twice the weight of the
/// others, so that it gets the shortest proof.
pub open spec fn payout_leaves(
    sellback_script: Seq<u8>,
    win_script: Seq<u8>,
    reclaim_script: Seq<u8>,
) -> Seq<(u32, Seq<u8>)> {
    seq![
        (SELLBACK_WEIGHT, sellback_script),
        (WIN_WEIGHT, win_script),
        (RECLAIM_WEIGHT, reclaim_script),
    ]
}

/// What a commitment tree holds.
pub struct CommitmentTreeView {
    /// The root that commits to the three scripts.
    pub merkle_root: Seq<u8>,
    /// The x-only output key: the joint key tweaked by the root.
    pub output_key: Seq<u8>,
    /// The proof of the sellback script.
    pub sellback_proof: ControlBlockView,
    /// The proof of the win script.
    pub win_proof: ControlBlockView,
    /// The proof of the reclaim script.
    pub reclaim_proof: ControlBlockView,
}

/// The commitment tree read off a spend info that holds the three scripts.
pub open spec fn commitment_tree_of(
    tree: SpendInfoView,
    sellback_script: Seq<u8>,
    win_script: Seq<u8>,
    reclaim_script: Seq<u8>,
) -> CommitmentTreeView
    recommends
        tree.merkle_root is Some,
{
    CommitmentTreeView {
        merkle_root: tree.merkle_root->0,
        output_key: tree.output_key,
        sellback_proof: leaf_proof(tree, sellback_script),
        win_proof: leaf_proof(tree, win_script),
        reclaim_proof: leaf_proof(tree, reclaim_script),
    }
}

/// The commitment tree of the three scripts under the x-only key
/// `internal_key`; `None` where the tree cannot be built.
pub open spec fn commitment_tree_spec(
    internal_key: Seq<u8>,
    sellback_script: Seq<u8>,
    win_script: Seq<u8>,
    reclaim_script: Seq<u8>,
) -> Option<CommitmentTreeView> {
    match huffman_spend_info(
        internal_key,
        payout_leaves(sellback_script, win_script, reclaim_script),
    ) {
        Some(tree) => Some(commitment_tree_of(tree, sellback_script, win_script, reclaim_script)),
        None => None,
    }
}

/// The shape of every commitment tree: root and output key of 32 bytes;
/// three well-formed proofs for tapscript leaves under one internal key and
/// one parity; the sellback script proved by one hash, the others by one or
/// two.
pub open spec fn commitment_tree_wf(tree: CommitmentTreeView) -> bool {
    &&& tree.merkle_root.len() == 32
    &&& tree.output_key.len() == 32
    &&& control_block_wf(tree.sellback_proof)
    &&& control_block_wf(tree.win_proof)
    &&& control_block_wf(tree.reclaim_proof)
    &&& tree.sellback_proof.leaf_version == TAPROOT_LEAF_TAPSCRIPT
    &&& tree.win_proof.leaf_version == TAPROOT_LEAF_TAPSCRIPT
    &&& tree.reclaim_proof.leaf_version == TAPROOT_LEAF_TAPSCRIPT
    &&& tree.win_proof.internal_key == tree.sellback_proof.internal_key
    &&& tree.reclaim_proof.internal_key == tree.sellback_proof.internal_key
    &&& tree.win_proof.odd_parity == tree.sellback_proof.odd_parity
    &&& tree.reclaim_proof.odd_parity == tree.sellback_proof.odd_parity
    &&& tree.sellback_proof.merkle_branch.len() == 1
    &&& 1 <= tree.win_proof.merkle_branch.len() <= 2
    &&& 1 <= tree.reclaim_proof.merkle_branch.len() <= 2
}

/// The commitment tree of a payout contract.
#[derive(Debug)]
pub struct CommitmentTree {
    pub(crate) merkle_root: Vec<u8>,
    pub(crate) output_key: Vec<u8>,
    pub(crate) sellback_proof: ControlBlock,
    pub(crate) win_proof: ControlBlock,
    pub(crate) reclaim_proof: ControlBlock,
}

impl View for CommitmentTree {
    type V = CommitmentTreeView;

    closed spec fn view(&self) -> CommitmentTreeView {
        CommitmentTreeView {
            merkle_root: self.merkle_root@,
            output_key: self.output_key@,
            sellback_proof: self.sellback_proof@,
            win_proof: self.win_proof@,
            reclaim_proof: self.reclaim_proof@,
        }
    }
}

impl CommitmentTree {
    /// What holds of every commitment tree: it has the shape of one.
    #[verifier::type_invariant]
    pub open spec fn inv(self) -> bool {
        commitment_tree_wf(self@)
    }

    /// Assembles the three scripts into a tree under the joint key
    /// `internal_key`, by weight: the sellback script twice as heavy as the
    /// win and the reclaim script. Keeps the root, the output key and the
    /// proof of each script.
    ///
    /// Never fails: the tree builder refuses only trees without leaves and
    /// trees deeper than 128 levels, and would be answered with
    /// [`Error::TreeBuild`]. The builder aborts where the internal key
    /// cannot be tweaked by the root; no key and scripts for which that
    /// happens are known.
    pub fn build(
        internal_key: &PublicKey,
        sellback_script: &Vec<u8>,
        win_script: &Vec<u8>,
        reclaim_script: &Vec<u8>,
    ) -> (tree: Result<CommitmentTree, Error>)
        ensures
            tree is Ok,
            tree matches Ok(t) ==> {
                &&& commitment_tree_spec(
                    xonly(internal_key@),
                    sellback_script@,
                    win_script@,
                    reclaim_script@,
                ) == Some(t@)
                &&& t.inv()
                &&& t@.sellback_proof.internal_key == xonly(internal_key@)
                &&& win_script@ != sellback_script@ ==> t@.win_proof.merkle_branch.len() == 2
                &&& reclaim_script@ != sellback_script@ ==> t@.reclaim_proof.merkle_branch.len()
                    == 2
            },
    {
        proof {
            use_type_invariant(internal_key);
        }
        let ghost leaves = payout_leaves(sellback_script@, win_script@, reclaim_script@);
        let info = match taproot_with_huffman_tree(
            internal_key,
            SELLBACK_WEIGHT,
            sellback_script,
            WIN_WEIGHT,
            win_script,
            RECLAIM_WEIGHT,
            reclaim_script,
        ) {
            Ok(info) => info,
            Err(_) => {
                return Err(Error::TreeBuild);
            },
        };
        proof {
            let held = spend_info_view(info);
            assert(held.branches.dom().contains(leaves[0].1));
            assert(held.branches.dom().contains(leaves[1].1));
            assert(held.branches.dom().contains(leaves[2].1));
        }
        let merkle_root = spend_info_merkle_root(&info).unwrap();
        let output_key = spend_info_output_key(&info);
        let sellback_proof = spend_info_control_block(&info, sellback_script).unwrap();
        let win_proof = spend_info_control_block(&info, win_script).unwrap();
        let reclaim_proof = spend_info_control_block(&info, reclaim_script).unwrap();
        Ok(CommitmentTree { merkle_root, output_key, sellback_proof, win_proof, reclaim_proof })
    }

    /// The root of the tree.
    pub fn merkle_root(&self) -> (root: &Vec<u8>)
        ensures
            root@ == self@.merkle_root,
            root@.len() == 32,
    {
        proof {
            use_type_invariant(self);
        }
        &self.merkle_root
    }

    /// The x-only output key.
    pub fn output_key(&self) -> (key: &Vec<u8>)
        ensures
            key@ == self@.output_key,
            key@.len() == 32,
    {
        proof {
            use_type_invariant(self);
        }
        &self.output_key
    }

    /// The proof of the sellback script.
    pub fn sellback_proof(&self) -> (block: &ControlBlock)
        ensures
            block@ == self@.sellback_proof,
    {
        &self.sellback_proof
    }

    /// The proof of the win script.
    pub fn win_proof(&self) -> (block: &ControlBlock)
        ensures
            block@ == self@.win_proof,
    {
        &self.win_proof
    }

    /// The proof of the reclaim script.
    pub fn reclaim_proof(&self) -> (block: &ControlBlock)
        ensures
            block@ == self@.reclaim_proof,
    {
        &self.reclaim_proof
    }
}

impl Clone for CommitmentTree {
    fn clone(&self) -> (copy: Self)
        ensures
            copy@ == self@,
    {
        proof {
            use_type_invariant(self);
        }
        CommitmentTree {
            merkle_root: slice_to_vec(self.merkle_root.as_slice()),
            output_key: slice_to_vec(self.output_key.as_slice()),
            sellback_proof: self.sellback_proof.clone(),
            win_proof: self.win_proof.clone(),
            reclaim_proof: self.reclaim_proof.clone(),
        }
    }
}

/// In every commitment tree the proof of the sellback script is no longer
/// than the proof of the win script or of the reclaim script.
pub proof fn lemma_sellback_proof_shortest(tree: CommitmentTreeView)
    requires
        commitment_tree_wf(tree),
    ensures
        control_block_bytes(tree.sellback_proof).len() <= control_block_bytes(tree.win_proof).len(),
        control_block_bytes(tree.sellback_proof).len() <= control_block_bytes(
            tree.reclaim_proof,
        ).len(),
{
    lemma_control_block_len(tree.sellback_proof);
    lemma_control_block_len(tree.win_proof);
    lemma_control_block_len(tree.reclaim_proof);
}

} // verus!
