use vstd::prelude::*;

use crate::gpu::{
    Action, EventModel, Phase, RoundError, SessionModel, advance_spec, all_zero, fresh, model_wf,
    sentinel, start_spec, KEY_ROOT_LEN, MAX_PREFIX_LEN, RESULT_LEN,
};

verus! {

/// What a device does when the session asks for `a`, in a round whose
/// dispatch leaves `found` in the result buffer.
pub open spec fn device_reply(a: Action, found: Seq<u8>) -> EventModel {
    match a {
        Action::WriteKeyRoot => EventModel::KeyRootWritten,
        Action::Dispatch => EventModel::Dispatched,
        Action::ReadResult => EventModel::ResultRead(found),
        Action::ClearResult | Action::Finish(_) => EventModel::ResultCleared,
    }
}

/// One exchange: unless the session has finished or refused, the device
/// performs what it asked for and the session takes in the outcome.
pub open spec fn answer(s: (SessionModel, Result<Action, RoundError>), found: Seq<u8>) -> (SessionModel, Result<Action, RoundError>) {
    match s.1 {
        Ok(Action::Finish(_)) | Err(_) => s,
        Ok(a) => advance_spec(s.0, device_reply(a, found)),
    }
}

/// A whole round as a driver runs it against a device whose dispatch leaves
/// `found` in the result buffer: open the round with `out` and `root`, then
/// answer the session's requests (a round makes four at most). The read
/// request copies `found` into `out`.
pub open spec fn run_round(m: SessionModel, out: Seq<u8>, root: Seq<u8>, found: Seq<u8>) -> (SessionModel, Result<bool, RoundError>) {
    let s = answer(answer(answer(answer(start_spec(m, out, root), found), found), found), found);
    (s.0, match s.1 {
        Ok(Action::Finish(b)) => Ok(b),
        Ok(_) => Err(RoundError::OutOfOrder),
        Err(e) => Err(e),
    })
}

/// The inputs of a round that a caller owes: an all-zero output buffer and a
/// key root of the right sizes, and a record of the result buffer's size.
pub open spec fn round_inputs_ok(out: Seq<u8>, root: Seq<u8>, found: Seq<u8>) -> bool {
    &&& out.len() == RESULT_LEN
    &&& all_zero(out)
    &&& root.len() == KEY_ROOT_LEN
    &&& found.len() == RESULT_LEN
}

/// A round on an idle session reports a match exactly when the dispatch left
/// a non-zero record, and leaves the session as it found it.
pub proof fn lemma_round_outcome(m: SessionModel, out: Seq<u8>, root: Seq<u8>, found: Seq<u8>)
    requires
        model_wf(m),
        m.phase == Phase::Idle,
        round_inputs_ok(out, root, found),
    ensures
        run_round(m, out, root, found) == (m, Ok::<bool, RoundError>(!all_zero(found))),
{
}

/// A round that reports no match leaves the device's result buffer holding
/// the all-zero sentinel, ready for the next round without a reset.
pub proof fn lemma_no_match_keeps_sentinel(m: SessionModel, out: Seq<u8>, root: Seq<u8>, found: Seq<u8>)
    requires
        model_wf(m),
    ensures
        run_round(m, out, root, found).1 == Ok::<bool, RoundError>(false) ==> run_round(m, out, root, found).0.result
            == Some(sentinel()),
{
}

/// After a round that reports a match, the next round reports one only if
/// its own dispatch leaves a non-zero record: the reset after the match ran.
pub proof fn lemma_match_then_fresh_round(
    m: SessionModel,
    out1: Seq<u8>,
    root1: Seq<u8>,
    found1: Seq<u8>,
    out2: Seq<u8>,
    root2: Seq<u8>,
    found2: Seq<u8>,
)
    requires
        model_wf(m),
        run_round(m, out1, root1, found1).1 == Ok::<bool, RoundError>(true),
        round_inputs_ok(out2, root2, found2),
    ensures
        run_round(run_round(m, out1, root1, found1).0, out2, root2, found2).1 == Ok::<bool, RoundError>(
            !all_zero(found2),
        ),
{
    lemma_round_outcome(run_round(m, out1, root1, found1).0, out2, root2, found2);
}

/// With a kernel whose record for a key root is fixed, a freshly built
/// session gives the same answer for that root on the first round and on the
/// next, and is back in its fresh state after each; sessions built with the
/// same arguments start from the same `fresh` state and so answer alike.
pub proof fn lemma_rounds_deterministic(
    platform_index: nat,
    device_index: nat,
    lanes: nat,
    prefix_len: nat,
    generate_seed: bool,
    out: Seq<u8>,
    root: Seq<u8>,
    found: Seq<u8>,
)
    requires
        prefix_len <= MAX_PREFIX_LEN,
        round_inputs_ok(out, root, found),
    ensures
        ({
            let m = fresh(platform_index, device_index, lanes, prefix_len, generate_seed);
            let first = run_round(m, out, root, found);
            let second = run_round(first.0, out, root, found);
            &&& first.1 == Ok::<bool, RoundError>(!all_zero(found))
            &&& second.1 == first.1
            &&& second.0 == m
        }),
{
    let m = fresh(platform_index, device_index, lanes, prefix_len, generate_seed);
    lemma_round_outcome(m, out, root, found);
}

} // verus!
