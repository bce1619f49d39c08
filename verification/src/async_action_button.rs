use vstd::prelude::*;
use crate::text::{is_capitalized_word, str_eq, to_uppercase, uppercase_of};
use crate::color::{is_amber, is_green, is_grey, is_red, MercuryColors, Rgba8};

verus! {

/// The state of an async action button.
#[derive(Debug, Clone, Copy, PartialEq, Eq, Structural)]
pub enum ActionState {
    /// Ready to fire — gray.
    Idle,
    /// Operation in flight — amber.
    Pending,
    /// Operation completed successfully — green.
    Succeeded,
    /// Operation failed — red.
    Failed,
}

/// The error of parsing a text that names no action state.
#[derive(Debug, Clone, Copy, PartialEq, Eq, Structural)]
pub struct ParseActionStateError;

impl ActionState {
    /// The name of the variant, which is the state's textual form.
    pub open spec fn name_of(self) -> Seq<char> {
        match self {
            ActionState::Idle => seq!['I', 'd', 'l', 'e'],
            ActionState::Pending => seq!['P', 'e', 'n', 'd', 'i', 'n', 'g'],
            ActionState::Succeeded => seq!['S', 'u', 'c', 'c', 'e', 'e', 'd', 'e', 'd'],
            ActionState::Failed => seq!['F', 'a', 'i', 'l', 'e', 'd'],
        }
    }

    /// The variant whose exact (case-sensitive) name is `s`, if there is one.
    pub open spec fn parsed_from(s: Seq<char>) -> Result<ActionState, ParseActionStateError> {
        if s == ActionState::Idle.name_of() {
            Ok(ActionState::Idle)
        } else if s == ActionState::Pending.name_of() {
            Ok(ActionState::Pending)
        } else if s == ActionState::Succeeded.name_of() {
            Ok(ActionState::Succeeded)
        } else if s == ActionState::Failed.name_of() {
            Ok(ActionState::Failed)
        } else {
            Err(ParseActionStateError)
        }
    }

    /// The textual form: the variant's name.
    pub fn to_string(&self) -> (r: String)
        ensures
            r@ == self.name_of(),
    {
        let lit = match self {
            ActionState::Idle => "Idle",
            ActionState::Pending => "Pending",
            ActionState::Succeeded => "Succeeded",
            ActionState::Failed => "Failed",
        };
        proof {
            reveal_strlit("Idle");
            reveal_strlit("Pending");
            reveal_strlit("Succeeded");
            reveal_strlit("Failed");
        }
        String::from_str(lit)
    }

    /// Parses a variant's exact (case-sensitive) name; any other text is refused.
    pub fn parse(s: &str) -> (r: Result<ActionState, ParseActionStateError>)
        ensures
            r == ActionState::parsed_from(s@),
    {
        proof {
            reveal_strlit("Idle");
            reveal_strlit("Pending");
            reveal_strlit("Succeeded");
            reveal_strlit("Failed");
            assert("Idle"@ =~= ActionState::Idle.name_of());
            assert("Pending"@ =~= ActionState::Pending.name_of());
            assert("Succeeded"@ =~= ActionState::Succeeded.name_of());
            assert("Failed"@ =~= ActionState::Failed.name_of());
        }
        if str_eq(s, "Idle") {
            Ok(ActionState::Idle)
        } else if str_eq(s, "Pending") {
            Ok(ActionState::Pending)
        } else if str_eq(s, "Succeeded") {
            Ok(ActionState::Succeeded)
        } else if str_eq(s, "Failed") {
            Ok(ActionState::Failed)
        } else {
            Err(ParseActionStateError)
        }
    }
}

impl Default for ActionState {
    fn default() -> (r: Self)
        ensures
            r == ActionState::Idle,
    {
        ActionState::Idle
    }
}

impl std::str::FromStr for ActionState {
    type Err = ParseActionStateError;

    fn from_str(s: &str) -> (r: Result<ActionState, ParseActionStateError>)
        ensures
            r == ActionState::parsed_from(s@),
    {
        ActionState::parse(s)
    }
}

/// Parsing the textual form of a state gives that state back, and a text
/// parses to a state only when it is that state's textual form.
pub proof fn lemma_action_state_roundtrip(v: ActionState, s: Seq<char>)
    ensures
        ActionState::parsed_from(v.name_of()) == Ok::<ActionState, ParseActionStateError>(v),
        ActionState::parsed_from(s) == Ok::<ActionState, ParseActionStateError>(v) ==> s == v.name_of(),
{
}

/// The textual form of each action state is the identifier of its variant,
/// `Idle`, `Pending`, `Succeeded` or `Failed`: one capitalised word.
pub proof fn lemma_action_state_names(v: ActionState)
    ensures
        is_capitalized_word(v.name_of()),
        v == ActionState::Idle ==> v.name_of() == "Idle"@,
        v == ActionState::Pending ==> v.name_of() == "Pending"@,
        v == ActionState::Succeeded ==> v.name_of() == "Succeeded"@,
        v == ActionState::Failed ==> v.name_of() == "Failed"@,
{
    reveal_strlit("Idle");
    reveal_strlit("Pending");
    reveal_strlit("Succeeded");
    reveal_strlit("Failed");
    assert("Idle"@ =~= ActionState::Idle.name_of());
    assert("Pending"@ =~= ActionState::Pending.name_of());
    assert("Succeeded"@ =~= ActionState::Succeeded.name_of());
    assert("Failed"@ =~= ActionState::Failed.name_of());
}

/// What an async action button shows: its upper-cased label, its colours and
/// whether it takes clicks.
#[derive(Debug, Clone)]
pub struct ActionFace<C> {
    pub label: String,
    pub background: C,
    pub text_color: C,
    pub clickable: bool,
}

/// The background and text colours of a button in `state`: gray when idle,
/// amber when pending, green when succeeded, red when failed.
pub open spec fn action_colors<C>(state: ActionState, colors: MercuryColors<C>) -> (C, C) {
    match state {
        ActionState::Idle => (colors.off, colors.text),
        ActionState::Pending => (colors.caution, colors.background),
        ActionState::Succeeded => (colors.nominal, colors.background),
        ActionState::Failed => (colors.alert, colors.text),
    }
}

/// In the default palette a button is grey when idle, amber when pending,
/// green when succeeded and red when failed.
pub proof fn lemma_default_action_hues(state: ActionState)
    ensures
        ({
            let background = action_colors(state, MercuryColors::<Rgba8>::default_palette()).0;
            &&& state == ActionState::Idle <==> is_grey(background)
            &&& state == ActionState::Pending <==> is_amber(background)
            &&& state == ActionState::Succeeded <==> is_green(background)
            &&& state == ActionState::Failed <==> is_red(background)
        }),
{
}

/// A button's label is written in the dark background colour on the amber and
/// green fills of a pending or succeeded action, and in the text colour on the
/// grey and red fills of an idle or failed one.
pub proof fn lemma_action_label_colors<C>(state: ActionState, colors: MercuryColors<C>)
    ensures
        (state == ActionState::Pending || state == ActionState::Succeeded) ==> action_colors(
            state,
            colors,
        ).1 == colors.background,
        (state == ActionState::Idle || state == ActionState::Failed) ==> action_colors(
            state,
            colors,
        ).1 == colors.text,
{
}

/// The face of a tri-state button whose label reads `caption`. It is only
/// clickable when `Idle`.
pub fn action_face_from_caption<C: Copy>(
    caption: String,
    state: ActionState,
    colors: &MercuryColors<C>,
) -> (f: ActionFace<C>)
    ensures
        f.label@ == caption@,
        (f.background, f.text_color) == action_colors(state, *colors),
        f.clickable == (state == ActionState::Idle),
{
    let (background, text_color, clickable) = match state {
        ActionState::Idle => (colors.off, colors.text, true),
        ActionState::Pending => (colors.caution, colors.background, false),
        ActionState::Succeeded => (colors.nominal, colors.background, false),
        ActionState::Failed => (colors.alert, colors.text, false),
    };
    ActionFace { label: caption, background, text_color, clickable }
}

/// The face of a tri-state button representing a fallible async operation:
/// its label is shown upper-cased. It is only clickable when `Idle`.
pub fn action_face<C: Copy>(label: &str, state: ActionState, colors: &MercuryColors<C>) -> (f:
    ActionFace<C>)
    ensures
        f.label@ == uppercase_of(label@),
        (f.background, f.text_color) == action_colors(state, *colors),
        f.clickable == (state == ActionState::Idle),
{
    action_face_from_caption(to_uppercase(label), state, colors)
}

} // verus!
