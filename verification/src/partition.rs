//! The work partitioner: a claimable row cursor.
//!
//! A cursor hands out row indices in increasing order, one per claim, and
//! signals completion once every row below its height has been issued. A
//! parallel render shares one such counter between its workers — claimed
//! there with an atomic fetch-and-increment, so that two workers can never
//! receive the same row — and each worker stops when its claim fails.

use vstd::prelude::*;

verus! {

/// A monotonically increasing row cursor: `next` is the row the next
/// successful claim returns, `height` the number of rows to hand out.
#[derive(Clone, Copy, PartialEq, Eq, Structural, Debug)]
pub struct RowCursor {
    pub next: u32,
    pub height: u32,
}

/// What one claim does: below `height` it returns `next` and advances;
/// at or above `height` it changes nothing and signals completion.
pub open spec fn claim_spec(c: RowCursor) -> (RowCursor, Option<u32>) {
    if c.next < c.height {
        (RowCursor { next: (c.next + 1) as u32, height: c.height }, Some(c.next))
    } else {
        (c, None)
    }
}

/// The row indices that `attempts` consecutive claims starting from `c`
/// hand out, in order.
pub open spec fn claimed_rows(c: RowCursor, attempts: nat) -> Seq<u32>
    decreases attempts,
{
    if attempts == 0 {
        Seq::empty()
    } else {
        let stepped = claim_spec(c);
        match stepped.1 {
            Some(y) => seq![y] + claimed_rows(stepped.0, (attempts - 1) as nat),
            None => claimed_rows(stepped.0, (attempts - 1) as nat),
        }
    }
}

impl RowCursor {
    /// A fresh cursor: no row handed out yet.
    pub fn new(height: u32) -> (c: RowCursor)
        ensures
            c.next == 0,
            c.height == height,
    {
        RowCursor { next: 0, height }
    }

    /// Claim the next row, or learn that none remain.
    pub fn claim(&mut self) -> (r: Option<u32>)
        ensures
            *final(self) == claim_spec(*old(self)).0,
            r == claim_spec(*old(self)).1,
    {
        if self.next < self.height {
            let y = self.next;
            self.next = self.next + 1;
            Some(y)
        } else {
            None
        }
    }
}

/// What consecutive claims hand out: from a cursor at `next` of `height`,
/// `attempts` claims yield the consecutive rows from `next`, stopping at the
/// height or after `attempts` rows, whichever comes first.
pub proof fn lemma_claimed_rows(c: RowCursor, attempts: nat)
    requires
        c.next <= c.height,
    ensures
        ({
            let remaining = (c.height - c.next) as nat;
            let n = if attempts <= remaining {
                attempts
            } else {
                remaining
            };
            claimed_rows(c, attempts) == Seq::new(n, |i: int| (c.next + i) as u32)
        }),
    decreases attempts,
{
    let remaining = (c.height - c.next) as nat;
    let n = if attempts <= remaining {
        attempts
    } else {
        remaining
    };
    if attempts == 0 {
        assert(claimed_rows(c, attempts) =~= Seq::new(n, |i: int| (c.next + i) as u32));
    } else {
        let stepped = claim_spec(c);
        if c.next < c.height {
            lemma_claimed_rows(stepped.0, (attempts - 1) as nat);
            assert(claimed_rows(c, attempts) =~= Seq::new(n, |i: int| (c.next + i) as u32));
        } else {
            lemma_claimed_rows(stepped.0, (attempts - 1) as nat);
            assert(claimed_rows(c, attempts) =~= Seq::new(n, |i: int| (c.next + i) as u32));
        }
    }
}

/// Row partitioner exhaustion: from a fresh cursor of height `h`, any run of
/// at least `h` claims hands out exactly the rows `0, 1, ..., h - 1`, each
/// once — no row is issued twice — and every claim after the `h`-th signals
/// completion, adding nothing.
pub proof fn lemma_cursor_exhaustion(height: u32, attempts: nat)
    requires
        attempts >= height as nat,
    ensures
        claimed_rows(RowCursor { next: 0, height }, attempts) == Seq::new(
            height as nat,
            |i: int| i as u32,
        ),
{
    lemma_claimed_rows(RowCursor { next: 0, height }, attempts);
    assert(Seq::new(height as nat, |i: int| (0 + i) as u32) =~= Seq::new(
        height as nat,
        |i: int| i as u32,
    ));
}

} // verus!
