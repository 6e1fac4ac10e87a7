//! What is written is read back: the outcomes that their own integer stands for.

use vstd::prelude::*;
use crate::attempt_result::multi_blind::lemma_multi_blind_decode_encode;
use crate::attempt_result::{
    decode_attempt_result, decode_multi_blind, encode_attempt_result, map_attempt_result,
    AttemptResult, CentiSecondAttemptResultValue, FMCAttemptResultValue, MultiBlindView,
};

verus! {

/// An outcome that is written and read again is written as before, and but
/// for a success of zero, which is written as a skipped attempt, it is the
/// same outcome.
pub proof fn lemma_attempt_result_round_trip(x: AttemptResult<CentiSecondAttemptResultValue>)
    ensures
        decode_attempt_result(encode_attempt_result(x, |v: u32| v as int)) matches Some(y)
            && encode_attempt_result(y, |v: u32| v as int) == encode_attempt_result(
            x,
            |v: u32| v as int,
        ) && (x != AttemptResult::Success(0u32) ==> y == x),
{
}

/// An outcome of the fewest-moves event that is written and read again is
/// written as before.
pub proof fn lemma_fmc_round_trip(x: AttemptResult<FMCAttemptResultValue>)
    ensures
        decode_attempt_result(encode_attempt_result(x, |v: u16| v as int)) matches Some(y)
            && encode_attempt_result(
            map_attempt_result(y, |v: u32| (v % 0x1_0000) as u16),
            |v: u16| v as int,
        ) == encode_attempt_result(x, |v: u16| v as int),
{
}

/// An outcome of the multiple-blindfolded event that is written and read
/// again is written as before.
pub proof fn lemma_multi_blind_round_trip(x: AttemptResult<MultiBlindView>)
    requires
        x matches AttemptResult::Success(v) ==> v.wf(),
    ensures
        decode_attempt_result(encode_attempt_result(x, |v: MultiBlindView| v.encode()))
            matches Some(y) && encode_attempt_result(
            map_attempt_result(y, |v: u32| decode_multi_blind(v as nat)),
            |v: MultiBlindView| v.encode(),
        ) == encode_attempt_result(x, |v: MultiBlindView| v.encode()),
{
    match x {
        AttemptResult::Success(v) => {
            lemma_multi_blind_decode_encode(v);
            if v.encode() > 0 {
                assert(v.encode() % 0x1_0000_0000 == v.encode());
            } else {
                assert(v.encode() == 0);
                assert(decode_multi_blind(0).encode() == 0);
            }
        },
        _ => {},
    }
}

} // verus!
