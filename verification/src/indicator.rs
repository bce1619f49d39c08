use vstd::prelude::*;
use crate::text::{is_capitalized_word, str_eq};

verus! {

/// The status of an indicator light.
#[derive(Debug, Clone, Copy, PartialEq, Eq, Hash, Structural)]
pub enum IndicatorStatus {
    /// Powered off / inactive.
    Off,
    /// System nominal (green).
    Nominal,
    /// Caution / warning (amber).
    Caution,
    /// Alert / critical (red).
    Alert,
}

/// The error of parsing a text that names no indicator status.
#[derive(Debug, Clone, Copy, PartialEq, Eq, Structural)]
pub struct ParseIndicatorStatusError;

impl IndicatorStatus {
    /// The name of the variant, which is the state's textual form.
    pub open spec fn name_of(self) -> Seq<char> {
        match self {
            IndicatorStatus::Off => seq!['O', 'f', 'f'],
            IndicatorStatus::Nominal => seq!['N', 'o', 'm', 'i', 'n', 'a', 'l'],
            IndicatorStatus::Caution => seq!['C', 'a', 'u', 't', 'i', 'o', 'n'],
            IndicatorStatus::Alert => seq!['A', 'l', 'e', 'r', 't'],
        }
    }

    /// The variant whose exact (case-sensitive) name is `s`, if there is one.
    pub open spec fn parsed_from(s: Seq<char>) -> Result<IndicatorStatus, ParseIndicatorStatusError> {
        if s == IndicatorStatus::Off.name_of() {
            Ok(IndicatorStatus::Off)
        } else if s == IndicatorStatus::Nominal.name_of() {
            Ok(IndicatorStatus::Nominal)
        } else if s == IndicatorStatus::Caution.name_of() {
            Ok(IndicatorStatus::Caution)
        } else if s == IndicatorStatus::Alert.name_of() {
            Ok(IndicatorStatus::Alert)
        } else {
            Err(ParseIndicatorStatusError)
        }
    }

    /// The textual form: the variant's name.
    pub fn to_string(&self) -> (r: String)
        ensures
            r@ == self.name_of(),
    {
        let lit = match self {
            IndicatorStatus::Off => "Off",
            IndicatorStatus::Nominal => "Nominal",
            IndicatorStatus::Caution => "Caution",
            IndicatorStatus::Alert => "Alert",
        };
        proof {
            reveal_strlit("Off");
            reveal_strlit("Nominal");
            reveal_strlit("Caution");
            reveal_strlit("Alert");
        }
        String::from_str(lit)
    }

    /// Parses a variant's exact (case-sensitive) name; any other text is refused.
    pub fn parse(s: &str) -> (r: Result<IndicatorStatus, ParseIndicatorStatusError>)
        ensures
            r == IndicatorStatus::parsed_from(s@),
    {
        proof {
            reveal_strlit("Off");
            reveal_strlit("Nominal");
            reveal_strlit("Caution");
            reveal_strlit("Alert");
            assert("Off"@ =~= IndicatorStatus::Off.name_of());
            assert("Nominal"@ =~= IndicatorStatus::Nominal.name_of());
            assert("Caution"@ =~= IndicatorStatus::Caution.name_of());
            assert("Alert"@ =~= IndicatorStatus::Alert.name_of());
        }
        if str_eq(s, "Off") {
            Ok(IndicatorStatus::Off)
        } else if str_eq(s, "Nominal") {
            Ok(IndicatorStatus::Nominal)
        } else if str_eq(s, "Caution") {
            Ok(IndicatorStatus::Caution)
        } else if str_eq(s, "Alert") {
            Ok(IndicatorStatus::Alert)
        } else {
            Err(ParseIndicatorStatusError)
        }
    }
}

impl Default for IndicatorStatus {
    fn default() -> (r: Self)
        ensures
            r == IndicatorStatus::Off,
    {
        IndicatorStatus::Off
    }
}

impl std::str::FromStr for IndicatorStatus {
    type Err = ParseIndicatorStatusError;

    fn from_str(s: &str) -> (r: Result<IndicatorStatus, ParseIndicatorStatusError>)
        ensures
            r == IndicatorStatus::parsed_from(s@),
    {
        IndicatorStatus::parse(s)
    }
}

/// Parsing the textual form of a state gives that state back, and a text
/// parses to a state only when it is that state's textual form.
pub proof fn lemma_indicator_status_roundtrip(v: IndicatorStatus, s: Seq<char>)
    ensures
        IndicatorStatus::parsed_from(v.name_of()) == Ok::<IndicatorStatus, ParseIndicatorStatusError>(v),
        IndicatorStatus::parsed_from(s) == Ok::<IndicatorStatus, ParseIndicatorStatusError>(v) ==> s == v.name_of(),
{
}

/// The textual form of each indicator status is the identifier of its variant,
/// `Off`, `Nominal`, `Caution` or `Alert`: one capitalised word.
pub proof fn lemma_indicator_status_names(v: IndicatorStatus)
    ensures
        is_capitalized_word(v.name_of()),
        v == IndicatorStatus::Off ==> v.name_of() == "Off"@,
        v == IndicatorStatus::Nominal ==> v.name_of() == "Nominal"@,
        v == IndicatorStatus::Caution ==> v.name_of() == "Caution"@,
        v == IndicatorStatus::Alert ==> v.name_of() == "Alert"@,
{
    reveal_strlit("Off");
    reveal_strlit("Nominal");
    reveal_strlit("Caution");
    reveal_strlit("Alert");
    assert("Off"@ =~= IndicatorStatus::Off.name_of());
    assert("Nominal"@ =~= IndicatorStatus::Nominal.name_of());
    assert("Caution"@ =~= IndicatorStatus::Caution.name_of());
    assert("Alert"@ =~= IndicatorStatus::Alert.name_of());
}

impl IndicatorStatus {
    /// Whether a needle standing in a zone of this status is tinted with the
    /// zone's colour: every status but `Nominal` and `Off` tints it.
    pub fn tints_needle(self) -> (t: bool)
        ensures
            t == (self != IndicatorStatus::Nominal && self != IndicatorStatus::Off),
    {
        match self {
            IndicatorStatus::Nominal | IndicatorStatus::Off => false,
            _ => true,
        }
    }
}

/// What to do with an indicator's animated colour on an update.
#[derive(Debug, Clone, Copy, PartialEq, Eq, Structural)]
pub enum ColorPlan {
    /// Jump to the status colour at once (the first frame: no animation).
    Snap,
    /// Start moving toward the colour of the new status.
    Retarget,
    /// Keep moving toward the current target.
    Keep,
}

/// The part of an indicator's animation state that decides its updates: the
/// status last shown and whether the first frame has been drawn.
#[derive(Debug, Clone, Copy, PartialEq, Eq, Structural)]
pub struct IndicatorAnimation {
    pub last_status: IndicatorStatus,
    pub initialized: bool,
}

impl IndicatorAnimation {
    /// The state before the first frame.
    pub open spec fn new_spec() -> IndicatorAnimation {
        IndicatorAnimation { last_status: IndicatorStatus::Off, initialized: false }
    }

    /// The state before the first frame.
    pub fn new() -> (a: IndicatorAnimation)
        ensures
            a == IndicatorAnimation::new_spec(),
    {
        IndicatorAnimation { last_status: IndicatorStatus::Off, initialized: false }
    }

    /// The plan for an update that shows `status`.
    pub open spec fn planned(self, status: IndicatorStatus) -> ColorPlan {
        if !self.initialized {
            ColorPlan::Snap
        } else if status != self.last_status {
            ColorPlan::Retarget
        } else {
            ColorPlan::Keep
        }
    }

    /// The state after an update that shows `status`.
    pub open spec fn after(self, status: IndicatorStatus) -> IndicatorAnimation {
        IndicatorAnimation { last_status: status, initialized: true }
    }

    /// Plans the colour update for an indicator that now shows `status`: snap on
    /// the first frame, retarget when the status changed, keep otherwise. After
    /// the call the state records `status` as shown.
    pub fn plan(&mut self, status: IndicatorStatus) -> (p: ColorPlan)
        ensures
            p == old(self).planned(status),
            *final(self) == old(self).after(status),
    {
        if !self.initialized {
            self.last_status = status;
            self.initialized = true;
            ColorPlan::Snap
        } else if status != self.last_status {
            self.last_status = status;
            ColorPlan::Retarget
        } else {
            ColorPlan::Keep
        }
    }
}

/// The first update of an indicator snaps to its colour; after any update,
/// an update with the same status keeps the colour's target, and one with
/// another status retargets it.
pub proof fn lemma_plan_sequence(a: IndicatorAnimation, s1: IndicatorStatus, s2: IndicatorStatus)
    ensures
        IndicatorAnimation::new_spec().planned(s1) == ColorPlan::Snap,
        a.after(s1).planned(s1) == ColorPlan::Keep,
        s1 != s2 ==> a.after(s1).planned(s2) == ColorPlan::Retarget,
{
}

} // verus!
