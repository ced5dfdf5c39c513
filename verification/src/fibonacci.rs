use vstd::prelude::*;

verus! {

/// Ceiling used by a generator constructed without an explicit bound.
pub const DEFAULT_BOUND: u32 = u32::MAX / 2;

/// Largest ceiling for which `lemma_step_fits` shows that advancing the
/// cursor can never overflow.
pub const SAFE_BOUND: u32 = u32::MAX / 3;

/// A lazily produced, bounded Fibonacci sequence.
///
/// The cursor `{curr, next, max}` starts at `{0, 1, bound}`; producing a
/// value hands out `curr` and advances the pair to `{next, curr + next}`.
/// The sequence ends as a normal (non-error) outcome once the value that
/// would come next exceeds the ceiling, so every value up to the ceiling is
/// produced.
pub struct Fibonacci {
    pub curr: u32,
    pub next: u32,
    pub max: u32,
}

impl Fibonacci {
    /// A cursor is well formed when the value to hand out next does not
    /// exceed the one that follows it, and the pair either is the starting
    /// one or keeps the Fibonacci growth bound.
    pub open spec fn wf(self) -> bool {
        self.curr <= self.next && ((self.curr == 0 && self.next == 1) || self.next <= 2 * self.curr)
    }

    /// The cursor has run past its ceiling: no further value will come.
    pub open spec fn exhausted(self) -> bool {
        self.curr > self.max
    }

    pub fn new(max: u32) -> (r: Self)
        ensures
            r.curr == 0,
            r.next == 1,
            r.max == max,
            r.wf(),
    {
        Fibonacci { curr: 0, next: 1, max }
    }

    /// Construction without an explicit bound falls back to the default
    /// ceiling.
    pub fn new_default() -> (r: Self)
        ensures
            r.curr == 0,
            r.next == 1,
            r.max == DEFAULT_BOUND,
            r.wf(),
    {
        Self::new(DEFAULT_BOUND)
    }

    /// An independent snapshot of the cursor at its current progress: the
    /// copy continues from wherever this generator has already advanced to;
    /// it does not restart at `{0, 1}`.
    pub fn snapshot(&self) -> (r: Self)
        ensures
            r.curr == self.curr,
            r.next == self.next,
            r.max == self.max,
    {
        Fibonacci { curr: self.curr, next: self.next, max: self.max }
    }

    /// Produce the next value, or `None` once the sequence is exhausted.
    pub fn next(&mut self) -> (r: Option<u32>)
        requires
            old(self).wf(),
            !old(self).exhausted() ==> old(self).curr + old(self).next <= u32::MAX,
        ensures
            old(self).exhausted() ==> r is None && *final(self) == *old(self),
            !old(self).exhausted() ==> r == Some(old(self).curr)
                && final(self).curr == old(self).next
                && final(self).next == old(self).curr + old(self).next
                && final(self).max == old(self).max,
            final(self).wf(),
    {
        if self.curr > self.max {
            None
        } else {
            let current = self.curr;
            self.curr = self.next;
            self.next = current + self.next;
            Some(current)
        }
    }

    /// With the ceiling at or below `SAFE_BOUND`, advancing can never
    /// overflow, so `next` may be called without further bookkeeping.
    pub proof fn lemma_step_fits(self)
        requires
            self.wf(),
            self.max <= SAFE_BOUND,
        ensures
            !self.exhausted() ==> self.curr + self.next <= u32::MAX,
    {
    }
}

} // verus!
