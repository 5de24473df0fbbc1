//! The cyclic menu selector advanced from interrupt context.
//!
//! A falling edge on the button input latches a hardware interrupt flag and
//! runs the handler, which must first clear the flag (otherwise the
//! interrupt refires continuously) and then advance the selection by one,
//! modulo the menu count.  The selection is read from the main loop; the
//! mutual exclusion around that read is the caller's.

use vstd::prelude::*;

verus! {

use vstd::arithmetic::div_mod::{
    lemma_add_mod_noop_right, lemma_mod_add_multiples_vanish,
    lemma_mod_division_less_than_divisor, lemma_small_mod,
};

/// One transition of the cyclic selector.
pub open spec fn next_index(i: nat, n: nat) -> nat
    recommends
        n >= 1,
{
    (((i + 1) as int) % (n as int)) as nat
}

/// The selection after `k` transitions starting from `i`.
pub open spec fn index_after(i: nat, k: nat, n: nat) -> nat
    recommends
        n >= 1,
    decreases k,
{
    if k == 0 {
        i
    } else {
        index_after(next_index(i, n), (k - 1) as nat, n)
    }
}

/// The selector state shared between the edge-interrupt handler and the
/// main loop's poll.
pub struct MenuHandle {
    /// The latched hardware interrupt flag, set by a falling edge.
    pub irq_pending: bool,
    /// The current selection; always in `[0, menu_count)`.
    pub menu_index: usize,
    /// The number of menu entries, fixed at construction.
    pub menu_count: usize,
}

impl MenuHandle {
    /// The selection is in range of a nonzero menu count.
    pub open spec fn wf(self) -> bool {
        1 <= self.menu_count && self.menu_index < self.menu_count
    }

    /// The initial state: selection 0, no edge latched.
    pub fn new(menu_count: usize) -> (r: MenuHandle)
        requires
            1 <= menu_count,
        ensures
            r.wf(),
            r.menu_index == 0,
            r.menu_count == menu_count,
            !r.irq_pending,
    {
        MenuHandle { irq_pending: false, menu_index: 0, menu_count }
    }

    /// A falling edge on the input line: the hardware latches the
    /// interrupt flag; nothing else changes until the handler runs.
    pub fn edge_event(&mut self)
        ensures
            final(self).irq_pending,
            final(self).menu_index == old(self).menu_index,
            final(self).menu_count == old(self).menu_count,
    {
        self.irq_pending = true;
    }

    /// The edge-interrupt handler: clears the latched flag, then advances
    /// the selection by one modulo the menu count.  It allocates nothing
    /// and performs no display work.
    pub fn handler(&mut self)
        requires
            old(self).wf(),
        ensures
            final(self).wf(),
            !final(self).irq_pending,
            final(self).menu_count == old(self).menu_count,
            final(self).menu_index == next_index(
                old(self).menu_index as nat,
                old(self).menu_count as nat,
            ),
    {
        self.irq_pending = false;
        self.menu_index = (self.menu_index + 1) % self.menu_count;
    }

    /// The main loop's read of the current selection.
    pub fn menu(&self) -> (r: usize)
        ensures
            r == self.menu_index,
    {
        self.menu_index
    }
}

proof fn lemma_index_after_is_mod(i: nat, k: nat, n: nat)
    requires
        n >= 1,
        i < n,
    ensures
        index_after(i, k, n) as int == ((i + k) as int) % (n as int),
    decreases k,
{
    if k == 0 {
        lemma_small_mod(i, n);
    } else {
        lemma_mod_division_less_than_divisor((i + 1) as int, n as int);
        lemma_index_after_is_mod(next_index(i, n), (k - 1) as nat, n);
        lemma_add_mod_noop_right((k - 1) as int, (i + 1) as int, n as int);
    }
}

/// For every menu count `n >= 1`, `n` consecutive edge events return the
/// selection to its starting value.
pub proof fn lemma_full_cycle(i: nat, n: nat)
    requires
        n >= 1,
        i < n,
    ensures
        index_after(i, n, n) == i,
{
    lemma_index_after_is_mod(i, n, n);
    lemma_mod_add_multiples_vanish(i as int, n as int);
    lemma_small_mod(i, n);
}

} // verus!
