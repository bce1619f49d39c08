use vstd::prelude::*;
use crate::text::{is_capitalized_word, str_eq, to_uppercase, uppercase_of};
use crate::color::{MercuryColors, Rgba8};

verus! {

/// The state of a guarded button's safety mechanism.
#[derive(Debug, Clone, Copy, PartialEq, Eq, Structural)]
pub enum GuardState {
    /// Safety is on — button shows guarded appearance.
    Armed,
    /// Safety removed — button shows confirmation prompt.
    Confirming,
}

/// The error of parsing a text that names no guard state.
#[derive(Debug, Clone, Copy, PartialEq, Eq, Structural)]
pub struct ParseGuardStateError;

impl GuardState {
    /// The name of the variant, which is the state's textual form.
    pub open spec fn name_of(self) -> Seq<char> {
        match self {
            GuardState::Armed => seq!['A', 'r', 'm', 'e', 'd'],
            GuardState::Confirming => seq!['C', 'o', 'n', 'f', 'i', 'r', 'm', 'i', 'n', 'g'],
        }
    }

    /// The variant whose exact (case-sensitive) name is `s`, if there is one.
    pub open spec fn parsed_from(s: Seq<char>) -> Result<GuardState, ParseGuardStateError> {
        if s == GuardState::Armed.name_of() {
            Ok(GuardState::Armed)
        } else if s == GuardState::Confirming.name_of() {
            Ok(GuardState::Confirming)
        } else {
            Err(ParseGuardStateError)
        }
    }

    /// The textual form: the variant's name.
    pub fn to_string(&self) -> (r: String)
        ensures
            r@ == self.name_of(),
    {
        let lit = match self {
            GuardState::Armed => "Armed",
            GuardState::Confirming => "Confirming",
        };
        proof {
            reveal_strlit("Armed");
            reveal_strlit("Confirming");
        }
        String::from_str(lit)
    }

    /// Parses a variant's exact (case-sensitive) name; any other text is refused.
    pub fn parse(s: &str) -> (r: Result<GuardState, ParseGuardStateError>)
        ensures
            r == GuardState::parsed_from(s@),
    {
        proof {
            reveal_strlit("Armed");
            reveal_strlit("Confirming");
            assert("Armed"@ =~= GuardState::Armed.name_of());
            assert("Confirming"@ =~= GuardState::Confirming.name_of());
        }
        if str_eq(s, "Armed") {
            Ok(GuardState::Armed)
        } else if str_eq(s, "Confirming") {
            Ok(GuardState::Confirming)
        } else {
            Err(ParseGuardStateError)
        }
    }
}

impl Default for GuardState {
    fn default() -> (r: Self)
        ensures
            r == GuardState::Armed,
    {
        GuardState::Armed
    }
}

impl std::str::FromStr for GuardState {
    type Err = ParseGuardStateError;

    fn from_str(s: &str) -> (r: Result<GuardState, ParseGuardStateError>)
        ensures
            r == GuardState::parsed_from(s@),
    {
        GuardState::parse(s)
    }
}

/// Parsing the textual form of a state gives that state back, and a text
/// parses to a state only when it is that state's textual form.
pub proof fn lemma_guard_state_roundtrip(v: GuardState, s: Seq<char>)
    ensures
        GuardState::parsed_from(v.name_of()) == Ok::<GuardState, ParseGuardStateError>(v),
        GuardState::parsed_from(s) == Ok::<GuardState, ParseGuardStateError>(v) ==> s == v.name_of(),
{
}

/// The textual form of each guard state is the identifier of its variant,
/// `Armed` or `Confirming`: one capitalised word.
pub proof fn lemma_guard_state_names(v: GuardState)
    ensures
        is_capitalized_word(v.name_of()),
        v == GuardState::Armed ==> v.name_of() == "Armed"@,
        v == GuardState::Confirming ==> v.name_of() == "Confirming"@,
{
    reveal_strlit("Armed");
    reveal_strlit("Confirming");
    assert("Armed"@ =~= GuardState::Armed.name_of());
    assert("Confirming"@ =~= GuardState::Confirming.name_of());
}

/// What pressing a button of a guarded button asks for.
#[derive(Debug, Clone, Copy, PartialEq, Eq, Structural)]
pub enum GuardPress {
    /// Remove the safety: go on to the confirmation prompt.
    Confirm,
    /// Execute the guarded command.
    Execute,
    /// Put the safety back on.
    Arm,
}

/// One button of a guarded button: its text, colours and what it asks for.
#[derive(Debug, Clone)]
pub struct GuardFace<C> {
    pub text: String,
    pub text_color: C,
    pub background: C,
    pub border: C,
    pub press: GuardPress,
}

/// The text `SAFE  CAPTION` of an armed button.
pub open spec fn safe_text(caption: Seq<char>) -> Seq<char> {
    seq!['S', 'A', 'F', 'E', ' ', ' '] + caption
}

/// The text `CONFIRM: CAPTION` of a button asking for confirmation.
pub open spec fn confirm_text(caption: Seq<char>) -> Seq<char> {
    seq!['C', 'O', 'N', 'F', 'I', 'R', 'M', ':', ' '] + caption
}

/// The buttons of a guarded button in `guard_state`, as a list of faces.
pub open spec fn guard_faces_ok<C>(
    v: Seq<GuardFace<C>>,
    caption: Seq<char>,
    guard_state: GuardState,
    colors: MercuryColors<C>,
) -> bool {
    &&& guard_state == GuardState::Armed ==> {
        &&& v.len() == 1
        &&& v[0].text@ == safe_text(caption)
        &&& v[0].text_color == colors.tick_mark
        &&& v[0].background == colors.panel_bg
        &&& v[0].border == colors.alert
        &&& v[0].press == GuardPress::Confirm
    }
    &&& guard_state == GuardState::Confirming ==> {
        &&& v.len() == 2
        &&& v[0].text@ == confirm_text(caption)
        &&& v[0].text_color == colors.text
        &&& v[0].background == colors.alert
        &&& v[0].border == colors.alert
        &&& v[0].press == GuardPress::Execute
        &&& v[1].text@ == seq!['S', 'A', 'F', 'E']
        &&& v[1].text_color == colors.tick_mark
        &&& v[1].background == colors.bezel
        &&& v[1].border == colors.bezel
        &&& v[1].press == GuardPress::Arm
    }
}

/// The buttons of a guarded button whose label reads `caption` — a two-phase
/// button requiring confirmation.
///
/// - `Armed`: one dimmed button `SAFE  CAPTION`; pressing it asks to confirm.
/// - `Confirming`: a bright danger-coloured `CONFIRM: CAPTION` that executes, and
///   a `SAFE` button that re-arms.
pub fn guarded_faces_from_caption<C: Copy>(
    caption: &str,
    guard_state: GuardState,
    colors: &MercuryColors<C>,
) -> (v: Vec<GuardFace<C>>)
    ensures
        guard_faces_ok(v@, caption@, guard_state, *colors),
{
    let mut v: Vec<GuardFace<C>> = Vec::new();
    proof {
        reveal_strlit("SAFE  ");
        reveal_strlit("CONFIRM: ");
        reveal_strlit("SAFE");
    }
    match guard_state {
        GuardState::Armed => {
            let text = String::from_str("SAFE  ").concat(caption);
            v.push(
                GuardFace {
                    text,
                    text_color: colors.tick_mark,
                    background: colors.panel_bg,
                    border: colors.alert,
                    press: GuardPress::Confirm,
                },
            );
        },
        GuardState::Confirming => {
            let text = String::from_str("CONFIRM: ").concat(caption);
            v.push(
                GuardFace {
                    text,
                    text_color: colors.text,
                    background: colors.alert,
                    border: colors.alert,
                    press: GuardPress::Execute,
                },
            );
            v.push(
                GuardFace {
                    text: String::from_str("SAFE"),
                    text_color: colors.tick_mark,
                    background: colors.bezel,
                    border: colors.bezel,
                    press: GuardPress::Arm,
                },
            );
        },
    }
    proof {
        if guard_state == GuardState::Armed {
            assert(v@[0].text@ =~= safe_text(caption@));
        } else {
            assert(v@[0].text@ =~= confirm_text(caption@));
            assert(v@[1].text@ =~= seq!['S', 'A', 'F', 'E']);
        }
    }
    v
}

/// A guarded button is dimmed while armed and bright once the safety is off:
/// the armed button shows `SAFE  ` and the caption in the tick-mark colour on
/// the panel background, framed in the alert colour, and asks to confirm; the
/// confirming buttons are a `CONFIRM: ` button in the text colour on the alert
/// colour that executes, and a `SAFE` button, dimmed like the armed one, that
/// re-arms.
pub proof fn lemma_guard_faces_dimmed_until_confirming<C>(
    armed: Seq<GuardFace<C>>,
    confirming: Seq<GuardFace<C>>,
    caption: Seq<char>,
    colors: MercuryColors<C>,
)
    requires
        guard_faces_ok(armed, caption, GuardState::Armed, colors),
        guard_faces_ok(confirming, caption, GuardState::Confirming, colors),
    ensures
        armed.len() == 1,
        armed[0].text@ == "SAFE  "@ + caption,
        armed[0].text_color == colors.tick_mark,
        armed[0].background == colors.panel_bg,
        armed[0].border == colors.alert,
        armed[0].press == GuardPress::Confirm,
        confirming.len() == 2,
        confirming[0].text@ == "CONFIRM: "@ + caption,
        confirming[0].text_color == colors.text,
        confirming[0].background == colors.alert,
        confirming[0].border == armed[0].border,
        confirming[0].press == GuardPress::Execute,
        confirming[1].text@ == "SAFE"@,
        confirming[1].text_color == armed[0].text_color,
        confirming[1].background == colors.bezel,
        confirming[1].press == GuardPress::Arm,
{
    reveal_strlit("SAFE  ");
    reveal_strlit("CONFIRM: ");
    reveal_strlit("SAFE");
    assert("SAFE  "@ + caption =~= safe_text(caption));
    assert("CONFIRM: "@ + caption =~= confirm_text(caption));
    assert("SAFE"@ =~= seq!['S', 'A', 'F', 'E']);
}

/// In the default palette the armed button's text is dimmer than the execute
/// button's: the tick-mark grey `#6E7681` against the off-white `#D4D4C8`.
pub proof fn lemma_armed_text_dimmer_in_default_palette(
    armed: Seq<GuardFace<Rgba8>>,
    confirming: Seq<GuardFace<Rgba8>>,
    caption: Seq<char>,
)
    requires
        guard_faces_ok(armed, caption, GuardState::Armed, MercuryColors::<Rgba8>::default_palette()),
        guard_faces_ok(
            confirming,
            caption,
            GuardState::Confirming,
            MercuryColors::<Rgba8>::default_palette(),
        ),
    ensures
        armed[0].text_color == (Rgba8 { r: 0x6E, g: 0x76, b: 0x81, a: 255 }),
        confirming[0].text_color == (Rgba8 { r: 0xD4, g: 0xD4, b: 0xC8, a: 255 }),
        armed[0].text_color != confirming[0].text_color,
{
    lemma_guard_faces_dimmed_until_confirming(
        armed,
        confirming,
        caption,
        MercuryColors::<Rgba8>::default_palette(),
    );
}

/// The buttons of a guarded button, its label shown upper-cased.
pub fn guarded_faces<C: Copy>(label: &str, guard_state: GuardState, colors: &MercuryColors<C>) -> (v:
    Vec<GuardFace<C>>)
    ensures
        guard_faces_ok(v@, uppercase_of(label@), guard_state, *colors),
{
    let upper = to_uppercase(label);
    guarded_faces_from_caption(upper.as_str(), guard_state, colors)
}

} // verus!
