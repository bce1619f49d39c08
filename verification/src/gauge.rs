use vstd::prelude::*;

verus! {

/// A tick of a dial scale: it stands at `position / divisions` of the sweep and
/// is a major tick (with a numeric label) or a minor one.
#[derive(Debug, Clone, Copy, PartialEq, Eq, Structural)]
pub struct ScaleTick {
    pub position: usize,
    pub divisions: usize,
    pub major: bool,
}

/// The tick `k` of a scale split into `major` intervals with `minor` minor ticks
/// inside each.
pub open spec fn scale_tick_of(k: nat, major: nat, minor: nat) -> ScaleTick {
    ScaleTick {
        position: k as usize,
        divisions: (major * (minor + 1)) as usize,
        major: k % (minor + 1) == 0,
    }
}

/// The number of ticks of a scale split into `major` intervals with `minor`
/// minor ticks inside each: none without intervals, else both ends and every
/// tick between.
pub open spec fn scale_tick_count(major: nat, minor: nat) -> nat {
    if major == 0 { 0 } else { major * (minor + 1) + 1 }
}

/// The ticks of a dial scale from its start to its end, in order: `major + 1`
/// major ticks (the ends included) spaced evenly, with `minor` minor ticks
/// spaced evenly between each pair of neighbouring major ticks. A scale of no
/// major intervals has no ticks.
pub fn scale_ticks(major: usize, minor: usize) -> (ticks: Vec<ScaleTick>)
    requires
        minor < usize::MAX,
        major * (minor + 1) < usize::MAX,
    ensures
        ticks.len() == scale_tick_count(major as nat, minor as nat),
        forall|k: int|
            0 <= k < ticks.len() ==> #[trigger] ticks[k] == scale_tick_of(
                k as nat,
                major as nat,
                minor as nat,
            ),
{
    let mut ticks: Vec<ScaleTick> = Vec::new();
    if major == 0 {
        return ticks;
    }
    let per = minor + 1;
    let divisions = major * per;
    let mut k: usize = 0;
    while k <= divisions
        invariant
            per == minor + 1,
            divisions == major * per,
            divisions < usize::MAX,
            k <= divisions + 1,
            ticks.len() == k,
            forall|j: int|
                0 <= j < k ==> #[trigger] ticks[j] == scale_tick_of(
                    j as nat,
                    major as nat,
                    minor as nat,
                ),
        decreases divisions + 1 - k,
    {
        ticks.push(ScaleTick { position: k, divisions, major: k % per == 0 });
        k = k + 1;
    }
    ticks
}

/// Both ends of a scale are major ticks, and the major ticks are `minor + 1`
/// positions apart.
pub proof fn lemma_scale_ends_major(major: nat, minor: nat, k: nat)
    requires
        major > 0,
    ensures
        scale_tick_of(0, major, minor).major,
        scale_tick_of(major * (minor + 1), major, minor).major,
        scale_tick_of(k, major, minor).major ==> scale_tick_of(k + minor + 1, major, minor).major,
{
    assert((major * (minor + 1)) % (minor + 1) == 0) by (nonlinear_arith)
        requires
            minor + 1 > 0,
    ;
    assert(k % (minor + 1) == 0 ==> (k + minor + 1) % (minor + 1) == 0) by (nonlinear_arith)
        requires
            minor + 1 > 0,
    ;
}

} // verus!
