use vstd::prelude::*;

verus! {

/// The index kept for a requested `index` among `count` options: the request
/// itself when it is in range, the last option when it is past the end, and 0
/// when there are no options.
pub open spec fn clamped_index(index: nat, count: nat) -> nat {
    if count == 0 {
        0
    } else if index < count {
        index
    } else {
        (count - 1) as nat
    }
}

/// Clamps a requested option index to the options there are:
/// `index.min(count.saturating_sub(1))`.
pub fn clamp_index(index: usize, count: usize) -> (i: usize)
    ensures
        i == clamped_index(index as nat, count as nat),
{
    let last = if count == 0 { 0 } else { count - 1 };
    if index < last { index } else { last }
}

/// The index reached by moving `steps` options from `index` among `count`
/// options, stopping at the first and the last.
pub open spec fn stepped_index(index: int, steps: int, count: nat) -> int {
    let target = index + steps;
    if target < 0 {
        0
    } else if target > count - 1 {
        count - 1
    } else {
        target
    }
}

/// The selected option among a fixed number of options; the selection is
/// always in range (or 0 when there are no options).
#[derive(Debug, Clone, Copy, PartialEq, Eq, Structural)]
pub struct Selection {
    selected: usize,
    count: usize,
}

impl Selection {
    /// The selected index.
    pub closed spec fn selected_of(self) -> nat {
        self.selected as nat
    }

    /// The number of options.
    pub closed spec fn count_of(self) -> nat {
        self.count as nat
    }

    /// The selection is in range.
    #[verifier::type_invariant]
    pub closed spec fn wf(self) -> bool {
        if self.count == 0 {
            self.selected == 0
        } else {
            self.selected < self.count
        }
    }

    /// A selection among `count` options, the requested `selected` clamped.
    pub fn new(count: usize, selected: usize) -> (s: Selection)
        ensures
            s.count_of() == count,
            s.selected_of() == clamped_index(selected as nat, count as nat),
    {
        Selection { selected: clamp_index(selected, count), count }
    }

    /// Selects `index`, clamped to the options there are.
    pub fn select(&mut self, index: usize)
        ensures
            final(self).count_of() == old(self).count_of(),
            final(self).selected_of() == clamped_index(index as nat, old(self).count_of()),
    {
        self.selected = clamp_index(index, self.count);
    }

    /// The selected index.
    pub fn selected(&self) -> (i: usize)
        ensures
            i == self.selected_of(),
            self.count_of() > 0 ==> i < self.count_of(),
            self.count_of() == 0 ==> i == 0,
    {
        proof {
            use_type_invariant(self);
        }
        self.selected
    }

    /// The number of options.
    pub fn count(&self) -> (n: usize)
        ensures
            n == self.count_of(),
    {
        self.count
    }

    /// Moves the selection by `steps` options (negative steps move back),
    /// stopping at the first and the last option. With fewer than two options
    /// nothing moves. Returns whether the selection changed.
    pub fn step(&mut self, steps: i32) -> (changed: bool)
        ensures
            final(self).count_of() == old(self).count_of(),
            old(self).count_of() <= 1 ==> final(self).selected_of() == old(self).selected_of(),
            old(self).count_of() > 1 ==> final(self).selected_of() == stepped_index(
                old(self).selected_of() as int,
                steps as int,
                old(self).count_of(),
            ),
            changed == (final(self).selected_of() != old(self).selected_of()),
    {
        proof {
            use_type_invariant(&*self);
        }
        if self.count <= 1 {
            return false;
        }
        let last = (self.count - 1) as i128;
        let target = self.selected as i128 + steps as i128;
        let new_index: usize = if target < 0 {
            0
        } else if target > last {
            self.count - 1
        } else {
            target as usize
        };
        let changed = new_index != self.selected;
        self.selected = new_index;
        changed
    }
}

/// Selecting an index that is in range keeps it exactly, and selecting it
/// again changes nothing.
pub proof fn lemma_clamp_in_range(index: nat, count: nat)
    ensures
        index < count ==> clamped_index(index, count) == index,
        count > 0 ==> clamped_index(index, count) < count,
        clamped_index(clamped_index(index, count), count) == clamped_index(index, count),
{
}

/// Moving forward and then back by the same number of steps returns to the
/// start when no stop was reached on the way.
pub proof fn lemma_step_back(index: int, steps: int, count: nat)
    requires
        count > 1,
        0 <= index < count,
        0 <= index + steps < count,
    ensures
        stepped_index(stepped_index(index, steps, count), -steps, count) == index,
{
}

} // verus!
