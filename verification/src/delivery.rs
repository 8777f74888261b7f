//! What reaches the window of a run: the worker's script, carried by the bus.

use crate::bus::{from_producer, history, lemma_per_producer_fifo, messages_of, BusOp};
use crate::worker::{lemma_progress_sequence, progress_updates, run_script};
use vstd::prelude::*;

verus! {

/// A run reaches the window as it was sent. Let one producer post the messages of a run
/// of `total` steps, in their order, while others post and the window takes as they
/// please. Then what was delivered of the run is a beginning of the run's script; and
/// once nothing of the run waits any more, what was delivered is the whole script, whose
/// progress updates count 1, 2, and so on up to `total`, each of them carrying `total`.
pub proof fn lemma_run_delivered(ops: Seq<BusOp>, producer: usize, total: usize)
    requires
        messages_of(from_producer(history(ops).posted, producer)) == run_script(total),
    ensures
        messages_of(from_producer(history(ops).delivered, producer)).is_prefix_of(
            run_script(total),
        ),
        from_producer(history(ops).pending, producer).len() == 0 ==> {
            &&& messages_of(from_producer(history(ops).delivered, producer)) == run_script(
                total,
            )
            &&& progress_updates(messages_of(from_producer(history(ops).delivered, producer)))
                == Seq::new(total as nat, |k: int| ((k + 1) as usize, total))
        },
{
    lemma_per_producer_fifo(ops, producer);
    lemma_progress_sequence(total);
    let delivered = from_producer(history(ops).delivered, producer);
    let pending = from_producer(history(ops).pending, producer);
    let posted = from_producer(history(ops).posted, producer);
    assert(delivered + pending == posted);
    assert(messages_of(delivered) + messages_of(pending) =~= messages_of(posted));
    if pending.len() == 0 {
        assert(delivered + pending =~= delivered);
        assert(messages_of(delivered) =~= run_script(total));
    }
}

} // verus!
