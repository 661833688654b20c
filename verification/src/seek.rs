//! The queue of seeks.
//!
//! Scrubbing produces seeks faster than the pipeline can follow. A thread of
//! its own takes all that wait at once and does only the last of them.

use crate::action::SeekFlags;
use vstd::prelude::*;

verus! {

/// A request to the seek thread.
#[derive(Clone, Copy, Debug, PartialEq, Eq, Structural)]
pub enum SeekReq {
    Seek { pos: u64, flags: SeekFlags },
    Exit,
}

/// What the seek thread does with the requests of one turn.
#[derive(Clone, Copy, Debug, PartialEq, Eq, Structural)]
pub enum SeekTurn {
    /// End, without a seek.
    Exit,
    /// Seek once.
    Seek { pos: u64, flags: SeekFlags },
    /// Wait on.
    Idle,
}

/// What becomes of the requests `reqs`: any exit ends the thread, else the
/// last seek is the one that is done.
pub open spec fn turn(reqs: Seq<SeekReq>) -> SeekTurn {
    if reqs.contains(SeekReq::Exit) {
        SeekTurn::Exit
    } else if reqs.len() == 0 {
        SeekTurn::Idle
    } else {
        match reqs.last() {
            SeekReq::Seek { pos, flags } => SeekTurn::Seek { pos, flags },
            SeekReq::Exit => SeekTurn::Exit,
        }
    }
}

/// Settles the requests that wait for the seek thread.
pub fn seek_turn(reqs: &Vec<SeekReq>) -> (r: SeekTurn)
    ensures
        r == turn(reqs@),
{
    let mut last = SeekTurn::Idle;
    let mut i: usize = 0;
    assert(reqs@.take(0) =~= Seq::<SeekReq>::empty());
    while i < reqs.len()
        invariant
            i <= reqs.len(),
            forall|j: int| 0 <= j < i ==> reqs@[j] != SeekReq::Exit,
            last == turn(reqs@.take(i as int)),
        decreases reqs.len() - i,
    {
        match reqs[i] {
            SeekReq::Seek { pos, flags } => {
                last = SeekTurn::Seek { pos, flags };
            },
            SeekReq::Exit => {
                assert(reqs@.contains(SeekReq::Exit));
                return SeekTurn::Exit;
            },
        }
        i = i + 1;
        assert(reqs@.take(i as int).last() == reqs@[i - 1]);
    }
    assert(reqs@.take(i as int) =~= reqs@);
    last
}

/// Seeks that wait in front of another seek have no effect.
pub proof fn only_the_last_seek_counts(earlier: Seq<SeekReq>, pos: u64, flags: SeekFlags)
    requires
        !earlier.contains(SeekReq::Exit),
    ensures
        turn(earlier.push(SeekReq::Seek { pos, flags })) == (SeekTurn::Seek { pos, flags }),
{
    let all = earlier.push(SeekReq::Seek { pos, flags });
    if all.contains(SeekReq::Exit) {
        let i = choose|i: int| 0 <= i < all.len() && all[i] == SeekReq::Exit;
        assert(earlier[i] == SeekReq::Exit);
    }
}

/// An exit among the requests ends the thread, whatever waits around it.
pub proof fn exit_beats_every_seek(before: Seq<SeekReq>, after: Seq<SeekReq>)
    ensures
        turn(before.push(SeekReq::Exit) + after) == SeekTurn::Exit,
{
    let all = before.push(SeekReq::Exit) + after;
    assert(all[before.len() as int] == SeekReq::Exit);
}

/// Without a request the thread waits on.
pub proof fn no_request_is_no_seek()
    ensures
        turn(Seq::empty()) == SeekTurn::Idle,
{
}

} // verus!
