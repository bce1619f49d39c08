use vstd::prelude::*;

verus! {

/// Orientation of the lever switch track.
#[derive(Debug, Clone, Copy, PartialEq, Eq, Structural)]
pub enum LeverOrientation {
    /// Lever moves left–right.
    Horizontal,
    /// Lever moves up–down.
    Vertical,
}

impl Default for LeverOrientation {
    fn default() -> (o: Self)
        ensures
            o == LeverOrientation::Horizontal,
    {
        LeverOrientation::Horizontal
    }
}

/// Where a position label of a lever switch stands.
#[derive(Debug, Clone, Copy, PartialEq, Eq, Structural)]
pub enum LabelSlot {
    /// Left of the hexagon (first of two horizontal labels).
    Left,
    /// Right of the hexagon (second of two horizontal labels).
    Right,
    /// In a row below the hexagon, at the position's place along the travel.
    Row,
    /// Above the hexagon (positions in the first half of a vertical travel).
    Above,
    /// Below the hexagon (positions in the second half of a vertical travel).
    Below,
    /// Level with the centre (the middle of a vertical travel).
    Middle,
}

/// Whether the travel fraction `index / (positions - 1)` of a position lies
/// before the middle of the travel (a single position sits at the middle).
pub open spec fn before_middle(index: nat, positions: nat) -> bool {
    positions > 1 && 2 * index < positions - 1
}

/// Whether the travel fraction of a position lies after the middle of the travel.
pub open spec fn after_middle(index: nat, positions: nat) -> bool {
    positions > 1 && 2 * index > positions - 1
}

/// The slot of label `index` of a lever switch with `positions` positions and
/// `shown` labels drawn.
pub open spec fn label_slot_of(
    orientation: LeverOrientation,
    positions: nat,
    shown: nat,
    index: nat,
) -> LabelSlot {
    if orientation == LeverOrientation::Horizontal {
        if shown == 2 {
            if index == 0 { LabelSlot::Left } else { LabelSlot::Right }
        } else {
            LabelSlot::Row
        }
    } else if before_middle(index, positions) {
        LabelSlot::Above
    } else if after_middle(index, positions) {
        LabelSlot::Below
    } else {
        LabelSlot::Middle
    }
}

/// The number of labels a lever switch draws: one per position at most.
pub open spec fn shown_labels(positions: nat, label_count: nat) -> nat {
    if label_count < positions { label_count } else { positions }
}

/// The slots of the labels of a lever switch: two horizontal labels stand left
/// and right of the hexagon, more stand in a row below it; vertical labels stand
/// above or below it by their place along the travel.
pub fn lever_label_slots(orientation: LeverOrientation, positions: usize, label_count: usize) -> (v:
    Vec<LabelSlot>)
    ensures
        v.len() == shown_labels(positions as nat, label_count as nat),
        forall|i: int|
            0 <= i < v.len() ==> #[trigger] v[i] == label_slot_of(
                orientation,
                positions as nat,
                v.len() as nat,
                i as nat,
            ),
{
    let shown = if label_count < positions { label_count } else { positions };
    let mut v: Vec<LabelSlot> = Vec::new();
    let mut i: usize = 0;
    while i < shown
        invariant
            shown == shown_labels(positions as nat, label_count as nat),
            shown <= positions,
            i <= shown,
            v.len() == i,
            forall|j: int|
                0 <= j < i ==> #[trigger] v[j] == label_slot_of(
                    orientation,
                    positions as nat,
                    shown as nat,
                    j as nat,
                ),
        decreases shown - i,
    {
        let slot = if orientation == LeverOrientation::Horizontal {
            if shown == 2 {
                if i == 0 { LabelSlot::Left } else { LabelSlot::Right }
            } else {
                LabelSlot::Row
            }
        } else if positions > 1 && i < positions - 1 - i {
            LabelSlot::Above
        } else if positions > 1 && i > positions - 1 - i {
            LabelSlot::Below
        } else {
            LabelSlot::Middle
        };
        v.push(slot);
        i = i + 1;
    }
    v
}

/// Whether the title of a lever switch is raised to make room for a label
/// above the hexagon: a vertical switch of at least two positions with labels.
pub fn lever_title_raised(orientation: LeverOrientation, positions: usize, label_count: usize) -> (r:
    bool)
    ensures
        r == (label_count > 0 && orientation == LeverOrientation::Vertical && positions >= 2),
{
    let is_horizontal = orientation == LeverOrientation::Horizontal;
    let has_label_above = label_count > 0 && ((!is_horizontal && positions >= 2) || is_horizontal);
    has_label_above && !is_horizontal
}

/// A vertical switch puts its first label above the hexagon and its last below.
pub proof fn lemma_vertical_ends(positions: nat)
    requires
        positions >= 2,
    ensures
        label_slot_of(LeverOrientation::Vertical, positions, positions, 0) == LabelSlot::Above,
        label_slot_of(LeverOrientation::Vertical, positions, positions, (positions - 1) as nat)
            == LabelSlot::Below,
{
}

} // verus!
