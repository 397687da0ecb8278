//! Prediction of the weight that an input adds to a transaction, from the
//! lengths of its unlocking script and of its witness elements.

use vstd::prelude::*;

verus! {

/// Size of a BIP340 signature.
pub const SCHNORR_SIGNATURE_SIZE: usize = 64;

/// The number of bytes that the compact size encoding of `n` takes.
pub open spec fn compact_size_len(n: nat) -> nat {
    if n <= 0xfc {
        1
    } else if n <= 0xffff {
        3
    } else if n <= 0xffff_ffff {
        5
    } else {
        9
    }
}

/// The bytes that witness elements of the given lengths take, each behind
/// its compact size.
pub open spec fn elements_size(lengths: Seq<usize>) -> nat
    decreases lengths.len(),
{
    if lengths.len() == 0 {
        0
    } else {
        elements_size(lengths.drop_last()) + lengths.last() as nat + compact_size_len(
            lengths.last() as nat,
        )
    }
}

/// The size of a serialized witness with elements of the given lengths:
/// the elements behind the compact size of their count; nothing for an
/// empty witness.
pub open spec fn witness_size_spec(lengths: Seq<usize>) -> nat {
    if lengths.len() == 0 {
        0
    } else {
        elements_size(lengths) + compact_size_len(lengths.len())
    }
}

/// The size of a serialized unlocking script of the given length: the
/// script behind its compact size.
pub open spec fn script_size_spec(input_script_len: nat) -> nat {
    input_script_len + compact_size_len(input_script_len)
}

/// The weight that an input adds for its unlocking script and its witness:
/// script bytes count four times, witness bytes once.
pub open spec fn input_weight_spec(input_script_len: nat, lengths: Seq<usize>) -> nat {
    4 * script_size_spec(input_script_len) + witness_size_spec(lengths)
}

/// The first elements of a witness take no more bytes than all of them.
pub proof fn lemma_elements_size_monotonic(lengths: Seq<usize>, count: int)
    requires
        0 <= count <= lengths.len(),
    ensures
        elements_size(lengths.take(count)) <= elements_size(lengths),
    decreases lengths.len() - count,
{
    if count < lengths.len() {
        lemma_elements_size_monotonic(lengths, count + 1);
        assert(lengths.take(count + 1).drop_last() =~= lengths.take(count));
    } else {
        assert(lengths.take(count) =~= lengths);
    }
}

/// A prediction is made of its two sizes: predictions that agree in both are
/// equal.
pub proof fn lemma_prediction_by_sizes(a: InputWeightPrediction, b: InputWeightPrediction)
    requires
        a.spec_script_size() == b.spec_script_size(),
        a.spec_witness_size() == b.spec_witness_size(),
    ensures
        a == b,
{
}

/// The number of bytes that the compact size encoding of `n` takes.
pub fn compact_size(n: usize) -> (len: usize)
    ensures
        len == compact_size_len(n as nat),
{
    if n <= 0xfc {
        1
    } else if n <= 0xffff {
        3
    } else if n <= 0xffff_ffff {
        5
    } else {
        9
    }
}

/// The predicted size of one input's unlocking script and witness.
#[derive(Debug, Clone, Copy, PartialEq, Eq, Structural)]
pub struct InputWeightPrediction {
    pub(crate) script_size: usize,
    pub(crate) witness_size: usize,
}

impl InputWeightPrediction {
    /// The predicted size of the serialized unlocking script.
    pub closed spec fn spec_script_size(self) -> nat {
        self.script_size as nat
    }

    /// The predicted size of the serialized witness.
    pub closed spec fn spec_witness_size(self) -> nat {
        self.witness_size as nat
    }

    /// The predicted weight: script bytes four times, witness bytes once.
    pub open spec fn spec_weight(self) -> nat {
        4 * self.spec_script_size() + self.spec_witness_size()
    }

    /// What holds of every prediction: its weight fits the machine word.
    #[verifier::type_invariant]
    pub open spec fn inv(self) -> bool {
        self.spec_weight() <= usize::MAX
    }

    /// Predicts the size of an input from the length of its unlocking
    /// script and the lengths of its witness elements, all without their
    /// compact sizes, which are added here.
    pub fn new(input_script_len: usize, witness_element_lengths: &[usize]) -> (prediction: Self)
        requires
            input_weight_spec(input_script_len as nat, witness_element_lengths@) <= usize::MAX,
        ensures
            prediction.spec_script_size() == script_size_spec(input_script_len as nat),
            prediction.spec_witness_size() == witness_size_spec(witness_element_lengths@),
            prediction.spec_weight() == input_weight_spec(
                input_script_len as nat,
                witness_element_lengths@,
            ),
    {
        let ghost lengths = witness_element_lengths@;
        let count: usize = witness_element_lengths.len();
        let mut total_size: usize = 0;
        let mut i: usize = 0;
        while i < count
            invariant
                i <= count,
                count == lengths.len(),
                lengths == witness_element_lengths@,
                total_size == elements_size(lengths.take(i as int)),
                elements_size(lengths) <= usize::MAX,
            decreases count - i,
        {
            let elem_len: usize = witness_element_lengths[i];
            proof {
                lemma_elements_size_monotonic(lengths, i as int + 1);
                assert(lengths.take(i as int + 1).drop_last() =~= lengths.take(i as int));
            }
            total_size = total_size + elem_len + compact_size(elem_len);
            i = i + 1;
        }
        proof {
            assert(lengths.take(count as int) =~= lengths);
        }
        let witness_size: usize = if count > 0 {
            total_size + compact_size(count)
        } else {
            0
        };
        let script_size: usize = input_script_len + compact_size(input_script_len);
        InputWeightPrediction { script_size, witness_size }
    }

    /// The predicted size of the serialized unlocking script.
    pub fn script_size(&self) -> (size: usize)
        ensures
            size == self.spec_script_size(),
    {
        self.script_size
    }

    /// The predicted size of the serialized witness.
    pub fn witness_size(&self) -> (size: usize)
        ensures
            size == self.spec_witness_size(),
    {
        self.witness_size
    }

    /// The predicted weight that the input adds to a transaction for its
    /// unlocking script and its witness.
    pub fn weight(&self) -> (weight: usize)
        ensures
            weight == self.spec_weight(),
    {
        proof {
            use_type_invariant(self);
        }
        4 * self.script_size + self.witness_size
    }
}

} // verus!
