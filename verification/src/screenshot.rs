use vstd::prelude::*;
use crate::widgets::gauge::{ArmStyle, Origin, Subdivision};
use crate::text::str_eq;

verus! {

/// One gauge configuration of the screenshot set. The range is given in whole
/// units and the gap in hundredths of the circumference.
#[derive(Debug, Clone, Copy)]
pub struct Variant {
    pub name: &'static str,
    pub origin: Origin,
    pub subdivision: Subdivision,
    pub mid_ticks: bool,
    pub arm_style: ArmStyle,
    pub range: (i32, i32),
    pub label_every: u32,
    pub gap_percent: u32,
}

/// A widget configuration that the screenshot tool captures.
#[derive(Debug, Clone, Copy, PartialEq, Eq, Structural)]
pub enum Screenshot {
    GaugeVariant(usize),
    DualGauge,
    HorizontalGauge,
    RotarySelector,
    LeverSwitch3Pos0,
    LeverSwitch3Pos1,
    LeverSwitch3Pos2,
    LeverSwitch2,
    LeverSwitchVertical,
}

/// The gauge configurations of the screenshot set, in order.
pub open spec fn variants_spec() -> Seq<Variant> {
    seq![
            Variant { name: "sub_none", origin: Origin::Bottom, subdivision: Subdivision::NoTicks, mid_ticks: false, arm_style: ArmStyle::Blunt, range: (0, 15), label_every: 3, gap_percent: 30 },
            Variant { name: "sub_integer", origin: Origin::Bottom, subdivision: Subdivision::Integer, mid_ticks: false, arm_style: ArmStyle::Blunt, range: (0, 15), label_every: 3, gap_percent: 30 },
            Variant { name: "sub_mid_only", origin: Origin::Bottom, subdivision: Subdivision::NoTicks, mid_ticks: true, arm_style: ArmStyle::Blunt, range: (0, 15), label_every: 3, gap_percent: 30 },
            Variant { name: "sub_integer_mid", origin: Origin::Bottom, subdivision: Subdivision::Integer, mid_ticks: true, arm_style: ArmStyle::Blunt, range: (0, 15), label_every: 3, gap_percent: 30 },
            Variant { name: "origin_centered", origin: Origin::Centered, subdivision: Subdivision::Integer, mid_ticks: false, arm_style: ArmStyle::Blunt, range: (0, 15), label_every: 3, gap_percent: 30 },
            Variant { name: "origin_left", origin: Origin::Left, subdivision: Subdivision::Integer, mid_ticks: false, arm_style: ArmStyle::Blunt, range: (0, 15), label_every: 3, gap_percent: 30 },
            Variant { name: "origin_right", origin: Origin::Right, subdivision: Subdivision::Integer, mid_ticks: false, arm_style: ArmStyle::Blunt, range: (0, 15), label_every: 3, gap_percent: 30 },
            Variant { name: "centered_100_mid", origin: Origin::Centered, subdivision: Subdivision::Integer, mid_ticks: true, arm_style: ArmStyle::Blunt, range: (0, 100), label_every: 10, gap_percent: 20 },
            Variant { name: "mid_even", origin: Origin::Bottom, subdivision: Subdivision::Integer, mid_ticks: true, arm_style: ArmStyle::Blunt, range: (0, 20), label_every: 4, gap_percent: 30 },
            Variant { name: "integer_mid_even", origin: Origin::Bottom, subdivision: Subdivision::Integer, mid_ticks: true, arm_style: ArmStyle::Blunt, range: (0, 20), label_every: 4, gap_percent: 30 },
            Variant { name: "arm_needle", origin: Origin::Bottom, subdivision: Subdivision::Integer, mid_ticks: false, arm_style: ArmStyle::Needle, range: (0, 15), label_every: 3, gap_percent: 30 },
            Variant { name: "arm_needle_centered", origin: Origin::Centered, subdivision: Subdivision::Integer, mid_ticks: false, arm_style: ArmStyle::Needle, range: (0, 15), label_every: 3, gap_percent: 30 },
            Variant { name: "arm_needle_100", origin: Origin::Centered, subdivision: Subdivision::Integer, mid_ticks: true, arm_style: ArmStyle::Needle, range: (0, 100), label_every: 10, gap_percent: 20 },
            Variant { name: "fraction_4", origin: Origin::Bottom, subdivision: Subdivision::Fraction(4), mid_ticks: false, arm_style: ArmStyle::Blunt, range: (0, 4), label_every: 1, gap_percent: 30 },
            Variant { name: "every_5", origin: Origin::Bottom, subdivision: Subdivision::Every(5), mid_ticks: false, arm_style: ArmStyle::Blunt, range: (0, 100), label_every: 20, gap_percent: 30 }
        ]
}

/// The gauge configurations of the screenshot set.
pub fn variants() -> (v: Vec<Variant>)
    ensures
        v@ == variants_spec(),
{
    let mut v: Vec<Variant> = Vec::new();
    v.push(Variant { name: "sub_none", origin: Origin::Bottom, subdivision: Subdivision::NoTicks, mid_ticks: false, arm_style: ArmStyle::Blunt, range: (0, 15), label_every: 3, gap_percent: 30 });
    v.push(Variant { name: "sub_integer", origin: Origin::Bottom, subdivision: Subdivision::Integer, mid_ticks: false, arm_style: ArmStyle::Blunt, range: (0, 15), label_every: 3, gap_percent: 30 });
    v.push(Variant { name: "sub_mid_only", origin: Origin::Bottom, subdivision: Subdivision::NoTicks, mid_ticks: true, arm_style: ArmStyle::Blunt, range: (0, 15), label_every: 3, gap_percent: 30 });
    v.push(Variant { name: "sub_integer_mid", origin: Origin::Bottom, subdivision: Subdivision::Integer, mid_ticks: true, arm_style: ArmStyle::Blunt, range: (0, 15), label_every: 3, gap_percent: 30 });
    v.push(Variant { name: "origin_centered", origin: Origin::Centered, subdivision: Subdivision::Integer, mid_ticks: false, arm_style: ArmStyle::Blunt, range: (0, 15), label_every: 3, gap_percent: 30 });
    v.push(Variant { name: "origin_left", origin: Origin::Left, subdivision: Subdivision::Integer, mid_ticks: false, arm_style: ArmStyle::Blunt, range: (0, 15), label_every: 3, gap_percent: 30 });
    v.push(Variant { name: "origin_right", origin: Origin::Right, subdivision: Subdivision::Integer, mid_ticks: false, arm_style: ArmStyle::Blunt, range: (0, 15), label_every: 3, gap_percent: 30 });
    v.push(Variant { name: "centered_100_mid", origin: Origin::Centered, subdivision: Subdivision::Integer, mid_ticks: true, arm_style: ArmStyle::Blunt, range: (0, 100), label_every: 10, gap_percent: 20 });
    v.push(Variant { name: "mid_even", origin: Origin::Bottom, subdivision: Subdivision::Integer, mid_ticks: true, arm_style: ArmStyle::Blunt, range: (0, 20), label_every: 4, gap_percent: 30 });
    v.push(Variant { name: "integer_mid_even", origin: Origin::Bottom, subdivision: Subdivision::Integer, mid_ticks: true, arm_style: ArmStyle::Blunt, range: (0, 20), label_every: 4, gap_percent: 30 });
    v.push(Variant { name: "arm_needle", origin: Origin::Bottom, subdivision: Subdivision::Integer, mid_ticks: false, arm_style: ArmStyle::Needle, range: (0, 15), label_every: 3, gap_percent: 30 });
    v.push(Variant { name: "arm_needle_centered", origin: Origin::Centered, subdivision: Subdivision::Integer, mid_ticks: false, arm_style: ArmStyle::Needle, range: (0, 15), label_every: 3, gap_percent: 30 });
    v.push(Variant { name: "arm_needle_100", origin: Origin::Centered, subdivision: Subdivision::Integer, mid_ticks: true, arm_style: ArmStyle::Needle, range: (0, 100), label_every: 10, gap_percent: 20 });
    v.push(Variant { name: "fraction_4", origin: Origin::Bottom, subdivision: Subdivision::Fraction(4), mid_ticks: false, arm_style: ArmStyle::Blunt, range: (0, 4), label_every: 1, gap_percent: 30 });
    v.push(Variant { name: "every_5", origin: Origin::Bottom, subdivision: Subdivision::Every(5), mid_ticks: false, arm_style: ArmStyle::Blunt, range: (0, 100), label_every: 20, gap_percent: 30 });
    proof {
        assert(v@ =~= variants_spec());
    }
    v
}

/// The names of the screenshots that follow the gauge configurations.
pub open spec fn other_names() -> Seq<Seq<char>> {
    seq!["dual_gauge"@, "horizontal_gauge"@, "rotary_selector"@, "lever_switch_3_pos0"@, "lever_switch_3_pos1"@, "lever_switch_3_pos2"@, "lever_switch_2"@, "lever_switch_vertical"@]
}

/// The screenshots that follow the gauge configurations.
pub open spec fn other_screenshots() -> Seq<(Seq<char>, Screenshot)> {
    seq![
        ("dual_gauge"@, Screenshot::DualGauge),
        ("horizontal_gauge"@, Screenshot::HorizontalGauge),
        ("rotary_selector"@, Screenshot::RotarySelector),
        ("lever_switch_3_pos0"@, Screenshot::LeverSwitch3Pos0),
        ("lever_switch_3_pos1"@, Screenshot::LeverSwitch3Pos1),
        ("lever_switch_3_pos2"@, Screenshot::LeverSwitch3Pos2),
        ("lever_switch_2"@, Screenshot::LeverSwitch2),
        ("lever_switch_vertical"@, Screenshot::LeverSwitchVertical)
    ]
}

/// Every screenshot of the set with its name, in capture order: one per gauge
/// configuration, then the other widgets.
pub open spec fn all_screenshots() -> Seq<(Seq<char>, Screenshot)> {
    Seq::new(variants_spec().len(), |i: int| (variants_spec()[i].name@, Screenshot::GaugeVariant(i as usize)))
        + other_screenshots()
}

/// The names of all screenshots, in capture order.
pub open spec fn all_names() -> Seq<Seq<char>> {
    variants_spec().map_values(|v: Variant| v.name@) + other_names()
}

/// Whether a named screenshot has the name `name`.
pub open spec fn name_is(name: Seq<char>) -> spec_fn((Seq<char>, Screenshot)) -> bool {
    |e: (Seq<char>, Screenshot)| e.0 == name
}

/// The screenshots named `name`, in capture order.
pub open spec fn named_screenshots(name: Seq<char>) -> Seq<(Seq<char>, Screenshot)> {
    all_screenshots().filter(name_is(name))
}

/// A list of named screenshots as plain values.
pub open spec fn entries_view(v: Seq<(&'static str, Screenshot)>) -> Seq<(Seq<char>, Screenshot)> {
    v.map_values(|e: (&'static str, Screenshot)| (e.0@, e.1))
}

/// The screenshots to capture: all of them, or only those named `filter` (the
/// tool refuses a name that no screenshot has, so `filter` must be one).
pub fn screenshot_list(filter: Option<&str>) -> (list: Vec<(&'static str, Screenshot)>)
    requires
        filter matches Some(f) ==> all_names().contains(f@),
    ensures
        filter is None ==> entries_view(list@) == all_screenshots(),
        filter matches Some(f) ==> entries_view(list@) == named_screenshots(f@),
        list.len() > 0,
{
    let vars = variants();
    let mut list: Vec<(&'static str, Screenshot)> = Vec::new();
    let mut i: usize = 0;
    while i < vars.len()
        invariant
            vars@ == variants_spec(),
            i <= vars.len(),
            list.len() == i,
            entries_view(list@) == all_screenshots().take(i as int),
        decreases vars.len() - i,
    {
        list.push((vars[i].name, Screenshot::GaugeVariant(i)));
        proof {
            assert(variants_spec().len() == 15);
            assert(all_screenshots()[i as int] == (vars[i as int].name@, Screenshot::GaugeVariant(i)));
            assert(entries_view(list@)[i as int] == (vars[i as int].name@, Screenshot::GaugeVariant(i)));
            assert(entries_view(list@) =~= all_screenshots().take(i + 1));
        }
        i = i + 1;
    }
    let ghost prefix = list@;
    assert(entries_view(prefix) == all_screenshots().take(15));
    list.push(("dual_gauge", Screenshot::DualGauge));
    list.push(("horizontal_gauge", Screenshot::HorizontalGauge));
    list.push(("rotary_selector", Screenshot::RotarySelector));
    list.push(("lever_switch_3_pos0", Screenshot::LeverSwitch3Pos0));
    list.push(("lever_switch_3_pos1", Screenshot::LeverSwitch3Pos1));
    list.push(("lever_switch_3_pos2", Screenshot::LeverSwitch3Pos2));
    list.push(("lever_switch_2", Screenshot::LeverSwitch2));
    list.push(("lever_switch_vertical", Screenshot::LeverSwitchVertical));
    proof {
        let extra = list@.subrange(15, 23);
        assert(list@ =~= prefix + extra);
        assert(entries_view(extra) =~= other_screenshots());
        assert(all_screenshots() =~= all_screenshots().take(15) + other_screenshots());
        assert(entries_view(prefix + extra) =~= entries_view(prefix) + entries_view(extra));
        assert(entries_view(list@) =~= all_screenshots());
    }
    match filter {
        None => list,
        Some(f) => {
            let ghost full = entries_view(list@);
            let mut kept: Vec<(&'static str, Screenshot)> = Vec::new();
            let mut j: usize = 0;
            while j < list.len()
                invariant
                    full == entries_view(list@),
                    full == all_screenshots(),
                    j <= list.len(),
                    entries_view(kept@) == full.take(j as int).filter(name_is(f@)),
                decreases list.len() - j,
            {
                let entry = list[j];
                proof {
                    reveal_with_fuel(Seq::filter, 1);
                    assert(full.take(j + 1).drop_last() =~= full.take(j as int));
                }
                if str_eq(entry.0, f) {
                    kept.push(entry);
                    proof {
                        assert(entries_view(kept@) =~= full.take(j + 1).filter(name_is(f@)));
                    }
                }
                j = j + 1;
            }
            proof {
                assert(full.take(list.len() as int) =~= full);
                lemma_named_nonempty(f@);
            }
            kept
        },
    }
}

/// A name that some screenshot has selects at least one screenshot.
proof fn lemma_named_nonempty(name: Seq<char>)
    requires
        all_names().contains(name),
    ensures
        named_screenshots(name).len() > 0,
{
    broadcast use vstd::seq_lib::group_filter_ensures;

    lemma_names_of_screenshots();
    let k = choose|k: int| 0 <= k < all_names().len() && all_names()[k] == name;
    let all = all_screenshots();
    assert(all.map_values(|e: (Seq<char>, Screenshot)| e.0)[k] == all_names()[k]);
    assert(all[k].0 == name);
    assert(name_is(name)(all[k]));
    assert(all.filter(name_is(name)).contains(all[k]));
}

/// The names of all screenshots are the names of the capture list, in order.
pub proof fn lemma_names_of_screenshots()
    ensures
        all_screenshots().map_values(|e: (Seq<char>, Screenshot)| e.0) == all_names(),
{
    assert(all_screenshots().map_values(|e: (Seq<char>, Screenshot)| e.0) =~= all_names());
}

/// The names of all screenshots, in capture order.
pub fn screenshot_names() -> (names: Vec<String>)
    ensures
        names@.map_values(|s: String| s@) == all_names(),
{
    let vars = variants();
    let mut names: Vec<String> = Vec::new();
    let mut i: usize = 0;
    while i < vars.len()
        invariant
            vars@ == variants_spec(),
            i <= vars.len(),
            names.len() == i,
            names@.map_values(|s: String| s@) == all_names().take(i as int),
        decreases vars.len() - i,
    {
        names.push(String::from_str(vars[i].name));
        proof {
            assert(names@.map_values(|s: String| s@) =~= all_names().take(i + 1));
        }
        i = i + 1;
    }
    let ghost prefix = names@;
    names.push(String::from_str("dual_gauge"));
    names.push(String::from_str("horizontal_gauge"));
    names.push(String::from_str("rotary_selector"));
    names.push(String::from_str("lever_switch_3_pos0"));
    names.push(String::from_str("lever_switch_3_pos1"));
    names.push(String::from_str("lever_switch_3_pos2"));
    names.push(String::from_str("lever_switch_2"));
    names.push(String::from_str("lever_switch_vertical"));
    proof {
        let extra = names@.subrange(15, 23);
        assert(names@ =~= prefix + extra);
        assert(extra.map_values(|s: String| s@) =~= other_names());
        assert(all_names() =~= all_names().take(15) + other_names());
        assert((prefix + extra).map_values(|s: String| s@) =~= prefix.map_values(|s: String| s@)
            + extra.map_values(|s: String| s@));
        assert(names@.map_values(|s: String| s@) =~= all_names());
    }
    names
}

/// Whether `s` begins with the characters of `w`.
pub open spec fn begins_with(s: Seq<char>, w: Seq<char>) -> bool
    decreases w.len(),
{
    if w.len() == 0 {
        true
    } else {
        s.len() > 0 && s[0] == w[0] && begins_with(s.drop_first(), w.drop_first())
    }
}

/// Whether the word `w` occurs in the name `s` as a run of consecutive characters.
pub open spec fn mentions(s: Seq<char>, w: Seq<char>) -> bool
    decreases s.len(),
{
    if begins_with(s, w) {
        true
    } else if s.len() == 0 {
        false
    } else {
        mentions(s.drop_first(), w)
    }
}

/// What the words of a configuration's name promise of it: `left`, `right` and
/// `centered` name the origin, `needle` the arm, `none` and `only` a scale
/// without subdivision ticks, `integer` a tick at every unit, `fraction_4` and
/// `every_5` their subdivision, `mid` the ticks between labels, `none` their
/// absence, and `100` a scale from 0 to 100.
pub open spec fn named_by(name: Seq<char>, v: Variant) -> bool {
    &&& mentions(name, "left"@) <==> v.origin == Origin::Left
    &&& mentions(name, "right"@) <==> v.origin == Origin::Right
    &&& mentions(name, "centered"@) ==> v.origin == Origin::Centered
    &&& mentions(name, "needle"@) <==> v.arm_style == ArmStyle::Needle
    &&& mentions(name, "none"@) ==> v.subdivision == Subdivision::NoTicks && !v.mid_ticks
    &&& mentions(name, "only"@) ==> v.subdivision == Subdivision::NoTicks && v.mid_ticks
    &&& mentions(name, "integer"@) ==> v.subdivision == Subdivision::Integer
    &&& mentions(name, "fraction_4"@) <==> v.subdivision == Subdivision::Fraction(4)
    &&& mentions(name, "every_5"@) <==> v.subdivision == Subdivision::Every(5)
    &&& mentions(name, "mid"@) ==> v.mid_ticks
    &&& mentions(name, "100"@) ==> v.range == (0i32, 100i32)
}

/// Each gauge configuration of the screenshot set is what its name says.
#[verifier::rlimit(60)]
#[verifier::spinoff_prover]
pub proof fn lemma_variant_named(i: int)
    requires
        0 <= i < variants_spec().len(),
    ensures
        named_by(variants_spec()[i].name@, variants_spec()[i]),
{
    reveal_strlit("left");
    reveal_strlit("right");
    reveal_strlit("centered");
    reveal_strlit("needle");
    reveal_strlit("none");
    reveal_strlit("only");
    reveal_strlit("integer");
    reveal_strlit("fraction_4");
    reveal_strlit("every_5");
    reveal_strlit("mid");
    reveal_strlit("100");
    reveal_with_fuel(mentions, 20);
    reveal_with_fuel(begins_with, 11);
    if i == 0 {
        reveal_strlit("sub_none");
    } else if i == 1 {
        reveal_strlit("sub_integer");
    } else if i == 2 {
        reveal_strlit("sub_mid_only");
    } else if i == 3 {
        reveal_strlit("sub_integer_mid");
    } else if i == 4 {
        reveal_strlit("origin_centered");
    } else if i == 5 {
        reveal_strlit("origin_left");
    } else if i == 6 {
        reveal_strlit("origin_right");
    } else if i == 7 {
        reveal_strlit("centered_100_mid");
    } else if i == 8 {
        reveal_strlit("mid_even");
    } else if i == 9 {
        reveal_strlit("integer_mid_even");
    } else if i == 10 {
        reveal_strlit("arm_needle");
    } else if i == 11 {
        reveal_strlit("arm_needle_centered");
    } else if i == 12 {
        reveal_strlit("arm_needle_100");
    } else if i == 13 {
        reveal_strlit("fraction_4");
    } else if i == 14 {
        reveal_strlit("every_5");
    }
}

/// Every gauge configuration of the screenshot set is what its name says.
pub proof fn lemma_variants_named()
    ensures
        forall|i: int|
            0 <= i < variants_spec().len() ==> #[trigger] named_by(
                variants_spec()[i].name@,
                variants_spec()[i],
            ),
{
    assert forall|i: int| 0 <= i < variants_spec().len() implies #[trigger] named_by(
        variants_spec()[i].name@,
        variants_spec()[i],
    ) by {
        lemma_variant_named(i);
    }
}

/// What the words of a screenshot's name promise of the widget it shows:
/// `dual`, `horizontal` and `rotary` name the gauge or dial, `3_pos0` to
/// `3_pos2` the three-position lever in each position, `switch_2` the
/// two-position lever and `vertical` the upright lever.
pub open spec fn shows_named(name: Seq<char>, s: Screenshot) -> bool {
    &&& mentions(name, "dual"@) <==> s == Screenshot::DualGauge
    &&& mentions(name, "horizontal"@) <==> s == Screenshot::HorizontalGauge
    &&& mentions(name, "rotary"@) <==> s == Screenshot::RotarySelector
    &&& mentions(name, "3_pos0"@) <==> s == Screenshot::LeverSwitch3Pos0
    &&& mentions(name, "3_pos1"@) <==> s == Screenshot::LeverSwitch3Pos1
    &&& mentions(name, "3_pos2"@) <==> s == Screenshot::LeverSwitch3Pos2
    &&& mentions(name, "switch_2"@) <==> s == Screenshot::LeverSwitch2
    &&& mentions(name, "vertical"@) <==> s == Screenshot::LeverSwitchVertical
}

/// Every screenshot of the set shows what its name says: the first ones are
/// the gauge configurations in order, each under its own name, and each of the
/// others shows the widget its name names.
#[verifier::rlimit(60)]
#[verifier::spinoff_prover]
pub proof fn lemma_screenshot_named(k: int)
    requires
        0 <= k < all_screenshots().len(),
    ensures
        k < variants_spec().len() ==> all_screenshots()[k] == (
            variants_spec()[k].name@,
            Screenshot::GaugeVariant(k as usize),
        ),
        k >= variants_spec().len() ==> shows_named(all_screenshots()[k].0, all_screenshots()[k].1),
{
    reveal_strlit("dual");
    reveal_strlit("horizontal");
    reveal_strlit("rotary");
    reveal_strlit("3_pos0");
    reveal_strlit("3_pos1");
    reveal_strlit("3_pos2");
    reveal_strlit("switch_2");
    reveal_strlit("vertical");
    reveal_with_fuel(mentions, 22);
    reveal_with_fuel(begins_with, 11);
    if k == 15 {
        reveal_strlit("dual_gauge");
    } else if k == 16 {
        reveal_strlit("horizontal_gauge");
    } else if k == 17 {
        reveal_strlit("rotary_selector");
    } else if k == 18 {
        reveal_strlit("lever_switch_3_pos0");
    } else if k == 19 {
        reveal_strlit("lever_switch_3_pos1");
    } else if k == 20 {
        reveal_strlit("lever_switch_3_pos2");
    } else if k == 21 {
        reveal_strlit("lever_switch_2");
    } else if k == 22 {
        reveal_strlit("lever_switch_vertical");
    }
}

/// Every screenshot of the set shows what its name says.
pub proof fn lemma_screenshots_named()
    ensures
        forall|k: int|
            variants_spec().len() <= k < all_screenshots().len() ==> #[trigger] shows_named(
                all_screenshots()[k].0,
                all_screenshots()[k].1,
            ),
        forall|k: int|
            0 <= k < variants_spec().len() ==> #[trigger] all_screenshots()[k] == (
                variants_spec()[k].name@,
                Screenshot::GaugeVariant(k as usize),
            ),
{
    assert forall|k: int| variants_spec().len() <= k < all_screenshots().len() implies #[trigger] shows_named(
        all_screenshots()[k].0,
        all_screenshots()[k].1,
    ) by {
        lemma_screenshot_named(k);
    }
    assert forall|k: int| 0 <= k < variants_spec().len() implies #[trigger] all_screenshots()[k] == (
        variants_spec()[k].name@,
        Screenshot::GaugeVariant(k as usize),
    ) by {
        lemma_screenshot_named(k);
    }
}

/// The file a screenshot named `name` is saved to: `screenshots/NAME.png`.
pub fn screenshot_path(name: &str) -> (p: String)
    ensures
        p@ == seq!['s', 'c', 'r', 'e', 'e', 'n', 's', 'h', 'o', 't', 's', '/'] + name@ + seq![
            '.',
            'p',
            'n',
            'g',
        ],
{
    proof {
        reveal_strlit("screenshots/");
        reveal_strlit(".png");
    }
    String::from_str("screenshots/").concat(name).concat(".png")
}

/// The screenshot to capture after screenshot `current` was saved, if any is left.
pub fn next_capture(current: usize, total: usize) -> (n: Option<usize>)
    ensures
        current + 1 < total ==> n == Some((current + 1) as usize),
        current + 1 >= total ==> n is None,
{
    if current < total && total - current > 1 {
        Some(current + 1)
    } else {
        None
    }
}

} // verus!
