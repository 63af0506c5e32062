use vstd::prelude::*;

use crate::tables::{index_adjust, spec_index_adjust, spec_step_size, step_size};

verus! {

/// Running state of the adaptive decoder: the predicted sample and the index
/// into the quantizer step-size table.
#[derive(Clone, Copy, Debug, PartialEq, Eq, Structural)]
pub struct DecoderState {
    pub predictor: i16,
    pub step_index: u8,
}

/// Error reported when a value outside the 4-bit code range reaches the
/// decoder: the offending value and its position in the input.
#[derive(Clone, Copy, Debug, PartialEq, Eq, Structural)]
pub struct DecodeError {
    pub position: usize,
    pub code: u8,
}

/// A code is a 4-bit value.
pub open spec fn valid_code(c: u8) -> bool {
    c < 16
}

/// Every element of the sequence is a 4-bit code.
pub open spec fn all_valid(codes: Seq<u8>) -> bool {
    forall|i: int| 0 <= i < codes.len() ==> #[trigger] valid_code(codes[i])
}

/// Saturates a predictor value to the 16-bit signed sample range.
pub open spec fn clamp_sample(p: int) -> int {
    if p > 32767 {
        32767
    } else if p < -32768 {
        -32768
    } else {
        p
    }
}

/// Saturates a step index to the bounds of the step-size table.
pub open spec fn clamp_step_index(i: int) -> int {
    if i < 0 {
        0
    } else if i > 88 {
        88
    } else {
        i
    }
}

/// Difference reconstructed from one code at a given step size: an eighth of
/// the step always, plus the step, its half and its quarter for each set
/// magnitude bit.
pub open spec fn spec_diff(step: int, code: u8) -> int {
    step / 8 + (if code & 4 != 0 {
        step
    } else {
        0
    }) + (if code & 2 != 0 {
        step / 2
    } else {
        0
    }) + (if code & 1 != 0 {
        step / 4
    } else {
        0
    })
}

/// One step of the decoder: from a state and one code to the next state and
/// the emitted sample. The sample is the saturated predictor itself.
pub open spec fn spec_step(st: DecoderState, code: u8) -> (DecoderState, i16) {
    let step = spec_step_size(st.step_index as int);
    let diff = spec_diff(step, code);
    let moved = if code & 8 != 0 {
        st.predictor - diff
    } else {
        st.predictor + diff
    };
    let predictor = clamp_sample(moved);
    let step_index = clamp_step_index(st.step_index + spec_index_adjust(code as int));
    (
        DecoderState { predictor: predictor as i16, step_index: step_index as u8 },
        predictor as i16,
    )
}

/// The state every decode operation starts from.
pub open spec fn initial_state() -> DecoderState {
    DecoderState { predictor: 0, step_index: 0 }
}

/// Runs the decoder over a whole sequence of codes, left to right, from a
/// given starting state: yields the final state and the emitted samples.
pub open spec fn spec_decode_from(st: DecoderState, codes: Seq<u8>) -> (DecoderState, Seq<i16>)
    decreases codes.len(),
{
    if codes.len() == 0 {
        (st, Seq::empty())
    } else {
        let prefix = spec_decode_from(st, codes.drop_last());
        let stepped = spec_step(prefix.0, codes.last());
        (stepped.0, prefix.1.push(stepped.1))
    }
}

/// The samples a whole decode operation emits, starting from the initial state.
pub open spec fn spec_decode(codes: Seq<u8>) -> Seq<i16> {
    spec_decode_from(initial_state(), codes).1
}

/// What a successful decode returns: the input was entirely made of 4-bit
/// codes, and the samples are exactly the decoder's run over it.
pub open spec fn decode_ok(codes: Seq<u8>, samples: Seq<i16>) -> bool {
    &&& all_valid(codes)
    &&& samples == spec_decode(codes)
}

/// What a failed decode reports: the first position whose value is not a
/// 4-bit code, together with that value.
pub open spec fn decode_err(codes: Seq<u8>, e: DecodeError) -> bool {
    &&& e.position < codes.len()
    &&& !valid_code(codes[e.position as int])
    &&& e.code == codes[e.position as int]
    &&& all_valid(codes.take(e.position as int))
}

/// The full contract of `decode`, over the mathematical view of its result.
pub open spec fn decode_post(codes: Seq<u8>, r: Result<Seq<i16>, DecodeError>) -> bool {
    match r {
        Ok(samples) => decode_ok(codes, samples),
        Err(e) => decode_err(codes, e),
    }
}

impl DecoderState {
    /// Both fields lie in their saturated ranges; the predictor does so by its
    /// type, the step index must stay within the step-size table.
    pub open spec fn wf(self) -> bool {
        self.step_index <= 88
    }

    /// A fresh state for an independent decode operation.
    pub fn new() -> (st: Self)
        ensures
            st == initial_state(),
            st.wf(),
    {
        DecoderState { predictor: 0, step_index: 0 }
    }

    /// Consumes one code and emits one sample, advancing the state exactly as
    /// the one-step decoder function says.
    pub fn step(&mut self, code: u8) -> (sample: i16)
        requires
            old(self).wf(),
            valid_code(code),
        ensures
            final(self).wf(),
            *final(self) == spec_step(*old(self), code).0,
            sample == spec_step(*old(self), code).1,
            sample == final(self).predictor,
    {
        let step: u32 = step_size(self.step_index) as u32;
        let mut diff: u32 = step / 8;
        if code & 4 != 0 {
            diff = diff + step;
        }
        if code & 2 != 0 {
            diff = diff + step / 2;
        }
        if code & 1 != 0 {
            diff = diff + step / 4;
        }
        let mut predictor: i32 = self.predictor as i32;
        if code & 8 != 0 {
            predictor = predictor - diff as i32;
        } else {
            predictor = predictor + diff as i32;
        }
        if predictor > 32767 {
            predictor = 32767;
        }
        if predictor < -32768 {
            predictor = -32768;
        }
        let mut index: i16 = self.step_index as i16 + index_adjust(code) as i16;
        if index < 0 {
            index = 0;
        }
        if index > 88 {
            index = 88;
        }
        self.predictor = predictor as i16;
        self.step_index = index as u8;
        predictor as i16
    }
}

/// Decodes a whole sequence of 4-bit codes into 16-bit samples, one sample
/// per code, starting from the initial state. An input value outside the
/// 4-bit range aborts the decode: the first such value is reported and no
/// samples are returned.
pub fn decode(codes: &[u8]) -> (r: Result<Vec<i16>, DecodeError>)
    ensures
        (match r {
            Ok(samples) => decode_ok(codes@, samples@),
            Err(e) => decode_err(codes@, e),
        }),
{
    let mut st = DecoderState::new();
    let mut samples: Vec<i16> = Vec::new();
    let mut k: usize = 0;
    while k < codes.len()
        invariant
            k <= codes@.len(),
            st.wf(),
            all_valid(codes@.take(k as int)),
            st == spec_decode_from(initial_state(), codes@.take(k as int)).0,
            samples@ == spec_decode_from(initial_state(), codes@.take(k as int)).1,
        decreases codes@.len() - k,
    {
        let code = codes[k];
        if code >= 16 {
            return Err(DecodeError { position: k, code });
        }
        let sample = st.step(code);
        samples.push(sample);
        proof {
            assert(codes@.take(k + 1).drop_last() =~= codes@.take(k as int));
            assert(codes@.take(k + 1).last() == codes@[k as int]);
            assert forall|i: int| 0 <= i < k + 1 implies #[trigger] valid_code(
                codes@.take(k + 1)[i],
            ) by {
                assert(codes@.take(k + 1)[i] == codes@[i]);
                if i < k {
                    assert(valid_code(codes@.take(k as int)[i]));
                }
            }
        }
        k = k + 1;
    }
    proof {
        assert(codes@.take(codes@.len() as int) =~= codes@);
    }
    Ok(samples)
}

/// One decoding step always lands in a well-formed state, whatever state and
/// code it is given, and its sample equals the new predictor.
pub proof fn lemma_step_preserves_wf(st: DecoderState, code: u8)
    ensures
        spec_step(st, code).0.wf(),
        spec_step(st, code).1 == spec_step(st, code).0.predictor,
{
}

/// Every state the decoder reaches from a well-formed state is well formed,
/// over a code sequence of any length.
pub proof fn lemma_decode_preserves_wf(st: DecoderState, codes: Seq<u8>)
    requires
        st.wf(),
    ensures
        spec_decode_from(st, codes).0.wf(),
    decreases codes.len(),
{
    if codes.len() != 0 {
        lemma_decode_preserves_wf(st, codes.drop_last());
        lemma_step_preserves_wf(spec_decode_from(st, codes.drop_last()).0, codes.last());
    }
}

/// The decoder emits exactly one sample per input code.
pub proof fn lemma_decode_len(st: DecoderState, codes: Seq<u8>)
    ensures
        spec_decode_from(st, codes).1.len() == codes.len(),
    decreases codes.len(),
{
    if codes.len() != 0 {
        lemma_decode_len(st, codes.drop_last());
    }
}

/// Decoding is deterministic: the contract of `decode` admits exactly one
/// result for a given input, so two runs over the same codes agree.
pub proof fn lemma_decode_deterministic(
    codes: Seq<u8>,
    r1: Result<Seq<i16>, DecodeError>,
    r2: Result<Seq<i16>, DecodeError>,
)
    requires
        decode_post(codes, r1),
        decode_post(codes, r2),
    ensures
        r1 == r2,
{
    match (r1, r2) {
        (Ok(_), Ok(_)) => {
        },
        (Ok(_), Err(e2)) => {
            assert(valid_code(codes[e2.position as int]));
        },
        (Err(e1), Ok(_)) => {
            assert(valid_code(codes[e1.position as int]));
        },
        (Err(e1), Err(e2)) => {
            if e1.position < e2.position {
                assert(codes.take(e2.position as int)[e1.position as int] == codes[e1.position
                    as int]);
                assert(valid_code(codes.take(e2.position as int)[e1.position as int]));
            } else if e2.position < e1.position {
                assert(codes.take(e1.position as int)[e2.position as int] == codes[e2.position
                    as int]);
                assert(valid_code(codes.take(e1.position as int)[e2.position as int]));
            }
        },
    }
}

} // verus!
