use vstd::prelude::*;
use crate::text::{is_upper_camel_case, str_eq, push_two_digits, two_digits, push_decimal, decimal, numeral_value, is_digit, lemma_two_digits_reads_back, lemma_decimal_reads_back};
use crate::anim::{FrameAction, next_frame};

verus! {

/// Timer display mode.
#[derive(Debug, Clone, Copy, PartialEq, Eq, Structural)]
pub enum TimerMode {
    /// Counts upward from zero (mission elapsed time).
    CountUp,
    /// Counts downward toward zero (countdown).
    CountDown,
}

/// The error of parsing a text that names no timer mode.
#[derive(Debug, Clone, Copy, PartialEq, Eq, Structural)]
pub struct ParseTimerModeError;

impl TimerMode {
    /// The name of the variant, which is the state's textual form.
    pub open spec fn name_of(self) -> Seq<char> {
        match self {
            TimerMode::CountUp => seq!['C', 'o', 'u', 'n', 't', 'U', 'p'],
            TimerMode::CountDown => seq!['C', 'o', 'u', 'n', 't', 'D', 'o', 'w', 'n'],
        }
    }

    /// The variant whose exact (case-sensitive) name is `s`, if there is one.
    pub open spec fn parsed_from(s: Seq<char>) -> Result<TimerMode, ParseTimerModeError> {
        if s == TimerMode::CountUp.name_of() {
            Ok(TimerMode::CountUp)
        } else if s == TimerMode::CountDown.name_of() {
            Ok(TimerMode::CountDown)
        } else {
            Err(ParseTimerModeError)
        }
    }

    /// The textual form: the variant's name.
    pub fn to_string(&self) -> (r: String)
        ensures
            r@ == self.name_of(),
    {
        let lit = match self {
            TimerMode::CountUp => "CountUp",
            TimerMode::CountDown => "CountDown",
        };
        proof {
            reveal_strlit("CountUp");
            reveal_strlit("CountDown");
        }
        String::from_str(lit)
    }

    /// Parses a variant's exact (case-sensitive) name; any other text is refused.
    pub fn parse(s: &str) -> (r: Result<TimerMode, ParseTimerModeError>)
        ensures
            r == TimerMode::parsed_from(s@),
    {
        proof {
            reveal_strlit("CountUp");
            reveal_strlit("CountDown");
            assert("CountUp"@ =~= TimerMode::CountUp.name_of());
            assert("CountDown"@ =~= TimerMode::CountDown.name_of());
        }
        if str_eq(s, "CountUp") {
            Ok(TimerMode::CountUp)
        } else if str_eq(s, "CountDown") {
            Ok(TimerMode::CountDown)
        } else {
            Err(ParseTimerModeError)
        }
    }
}

impl Default for TimerMode {
    fn default() -> (r: Self)
        ensures
            r == TimerMode::CountUp,
    {
        TimerMode::CountUp
    }
}

impl std::str::FromStr for TimerMode {
    type Err = ParseTimerModeError;

    fn from_str(s: &str) -> (r: Result<TimerMode, ParseTimerModeError>)
        ensures
            r == TimerMode::parsed_from(s@),
    {
        TimerMode::parse(s)
    }
}

/// Parsing the textual form of a state gives that state back, and a text
/// parses to a state only when it is that state's textual form.
pub proof fn lemma_timer_mode_roundtrip(v: TimerMode, s: Seq<char>)
    ensures
        TimerMode::parsed_from(v.name_of()) == Ok::<TimerMode, ParseTimerModeError>(v),
        TimerMode::parsed_from(s) == Ok::<TimerMode, ParseTimerModeError>(v) ==> s == v.name_of(),
{
}

/// The textual form of each timer mode is the identifier of its variant,
/// `CountUp` or `CountDown`: written in upper camel case.
pub proof fn lemma_timer_mode_names(v: TimerMode)
    ensures
        is_upper_camel_case(v.name_of()),
        v == TimerMode::CountUp ==> v.name_of() == "CountUp"@,
        v == TimerMode::CountDown ==> v.name_of() == "CountDown"@,
{
    reveal_strlit("CountUp");
    reveal_strlit("CountDown");
    assert("CountUp"@ =~= TimerMode::CountUp.name_of());
    assert("CountDown"@ =~= TimerMode::CountDown.name_of());
}

/// A span of elapsed time: whole seconds and the nanoseconds past them.
#[derive(Debug, Clone, Copy, PartialEq, Eq, Structural)]
pub struct Elapsed {
    secs: u64,
    nanos: u32,
}

impl Elapsed {
    /// The nanoseconds past the whole seconds make less than a second.
    #[verifier::type_invariant]
    closed spec fn subsecond(self) -> bool {
        self.nanos < 1_000_000_000
    }

    /// The whole seconds of the span.
    pub closed spec fn secs_of(self) -> nat {
        self.secs as nat
    }

    /// The nanoseconds of the span past its whole seconds.
    pub closed spec fn nanos_of(self) -> nat {
        self.nanos as nat
    }

    /// The empty span.
    pub fn zero() -> (e: Elapsed)
        ensures
            e.secs_of() == 0,
            e.nanos_of() == 0,
    {
        Elapsed { secs: 0, nanos: 0 }
    }

    /// A span of whole seconds.
    pub fn from_secs(secs: u64) -> (e: Elapsed)
        ensures
            e.secs_of() == secs,
            e.nanos_of() == 0,
    {
        Elapsed { secs, nanos: 0 }
    }

    /// A span of milliseconds.
    pub fn from_millis(millis: u64) -> (e: Elapsed)
        ensures
            e.secs_of() == millis / 1000,
            e.nanos_of() == (millis % 1000) * 1_000_000,
            e.nanos_of() < 1_000_000_000,
    {
        let sub = (millis % 1000) as u32;
        Elapsed { secs: millis / 1000, nanos: sub * 1_000_000 }
    }

    /// A span of whole seconds and nanoseconds past them.
    pub fn from_parts(secs: u64, nanos: u32) -> (e: Elapsed)
        requires
            nanos < 1_000_000_000,
        ensures
            e.secs_of() == secs,
            e.nanos_of() == nanos,
    {
        Elapsed { secs, nanos }
    }

    /// The whole seconds of the span.
    pub fn as_secs(&self) -> (s: u64)
        ensures
            s == self.secs_of(),
    {
        self.secs
    }

    /// The whole milliseconds past the whole seconds.
    pub fn subsec_millis(&self) -> (m: u32)
        ensures
            m == self.nanos_of() / 1_000_000,
            m < 1000,
    {
        proof {
            use_type_invariant(self);
        }
        self.nanos / 1_000_000
    }
}

/// The hours of a count of seconds.
pub open spec fn hours_of(secs: nat) -> nat {
    secs / 3600
}

/// The minutes past the hour of a count of seconds.
pub open spec fn minutes_of(secs: nat) -> nat {
    (secs % 3600) / 60
}

/// The seconds past the minute of a count of seconds.
pub open spec fn seconds_of(secs: nat) -> nat {
    secs % 60
}

/// The digital read-out `HH:MM:SS` of a count of seconds, each field padded to
/// at least two digits (hours may take more).
pub open spec fn readout_of(secs: nat) -> Seq<char> {
    two_digits(hours_of(secs)) + seq![':'] + two_digits(minutes_of(secs)) + seq![':']
        + two_digits(seconds_of(secs))
}

/// Hours, minutes and seconds recompose the count they were taken from, and
/// minutes and seconds stay below sixty.
pub proof fn lemma_hms_decomposition(secs: nat)
    ensures
        hours_of(secs) * 3600 + minutes_of(secs) * 60 + seconds_of(secs) == secs,
        minutes_of(secs) < 60,
        seconds_of(secs) < 60,
{
    assert(secs == (secs / 3600) * 3600 + secs % 3600) by (nonlinear_arith);
    let r = secs % 3600;
    assert(r == (r / 60) * 60 + r % 60) by (nonlinear_arith);
    assert(r % 60 == secs % 60) by (nonlinear_arith)
        requires
            r == secs % 3600,
    ;
    assert(r < 3600) by (nonlinear_arith)
        requires
            r == secs % 3600,
    ;
    assert(r / 60 < 60) by (nonlinear_arith)
        requires
            r < 3600,
    ;
}

/// An analog clock-face elapsed time / countdown display: its time, mode,
/// label and whether it runs.
#[derive(Debug, Clone)]
pub struct EventTimer {
    elapsed: Elapsed,
    mode: TimerMode,
    label: String,
    running: bool,
}

impl EventTimer {
    /// The elapsed time shown.
    pub closed spec fn elapsed_of(self) -> Elapsed {
        self.elapsed
    }

    /// The timer mode.
    pub closed spec fn mode_of(self) -> TimerMode {
        self.mode
    }

    /// The label.
    pub closed spec fn label_of(self) -> Seq<char> {
        self.label@
    }

    /// Whether the timer runs.
    pub closed spec fn running_of(self) -> bool {
        self.running
    }

    /// Creates a new event timer, counting up and not running.
    pub fn new(label: &str, elapsed: Elapsed) -> (t: EventTimer)
        ensures
            t.label_of() == label@,
            t.elapsed_of() == elapsed,
            t.mode_of() == TimerMode::CountUp,
            !t.running_of(),
    {
        EventTimer { elapsed, mode: TimerMode::CountUp, label: String::from_str(label), running: false }
    }

    /// Sets the timer mode (count up or count down).
    pub fn mode(self, mode: TimerMode) -> (t: EventTimer)
        ensures
            t.mode_of() == mode,
            t.label_of() == self.label_of(),
            t.elapsed_of() == self.elapsed_of(),
            t.running_of() == self.running_of(),
    {
        EventTimer { mode, ..self }
    }

    /// Sets whether the timer is currently running (affects sweep hand animation).
    pub fn running(self, running: bool) -> (t: EventTimer)
        ensures
            t.running_of() == running,
            t.label_of() == self.label_of(),
            t.elapsed_of() == self.elapsed_of(),
            t.mode_of() == self.mode_of(),
    {
        EventTimer { running, ..self }
    }

    /// The elapsed time shown.
    pub fn elapsed(&self) -> (e: Elapsed)
        ensures
            e == self.elapsed_of(),
    {
        self.elapsed
    }

    /// The timer mode.
    pub fn timer_mode(&self) -> (m: TimerMode)
        ensures
            m == self.mode_of(),
    {
        self.mode
    }

    /// The label.
    pub fn label(&self) -> (l: &str)
        ensures
            l@ == self.label_of(),
    {
        self.label.as_str()
    }

    /// Whether the timer runs.
    pub fn is_running(&self) -> (r: bool)
        ensures
            r == self.running_of(),
    {
        self.running
    }

    /// Whole hours elapsed.
    pub fn hours(&self) -> (h: u64)
        ensures
            h == hours_of(self.elapsed_of().secs_of()),
    {
        self.elapsed.as_secs() / 3600
    }

    /// Minutes past the hour.
    pub fn minutes(&self) -> (m: u64)
        ensures
            m == minutes_of(self.elapsed_of().secs_of()),
    {
        (self.elapsed.as_secs() % 3600) / 60
    }

    /// Seconds past the minute.
    pub fn seconds(&self) -> (s: u64)
        ensures
            s == seconds_of(self.elapsed_of().secs_of()),
    {
        self.elapsed.as_secs() % 60
    }

    /// The digital time read-out `HH:MM:SS`.
    pub fn readout(&self) -> (r: String)
        ensures
            r@ == readout_of(self.elapsed_of().secs_of()),
    {
        let mut out = String::new();
        push_two_digits(&mut out, self.hours());
        out.append(":");
        push_two_digits(&mut out, self.minutes());
        out.append(":");
        push_two_digits(&mut out, self.seconds());
        proof {
            reveal_strlit(":");
        }
        out
    }

    /// The frame action once the sweep hand has its target: advance while the
    /// hand moves, keep redrawing while the timer runs, rest otherwise.
    pub fn frame_action(&self, settled: bool) -> (a: FrameAction)
        ensures
            !settled ==> a == FrameAction::Advance,
            settled && self.running_of() ==> a == FrameAction::Redraw,
            settled && !self.running_of() ==> a == FrameAction::Rest,
    {
        next_frame(settled, self.running)
    }
}

/// The mark of second `i` on the timer's 60-second dial: every fifth second
/// is a major tick labelled with its number, the others are minor ticks.
pub open spec fn second_mark_of(i: nat) -> Option<Seq<char>> {
    if i % 5 == 0 {
        Some(decimal(i))
    } else {
        None
    }
}

/// The marks of the 60-second dial, from second 0 at 12 o'clock onward:
/// `Some(label)` for a labelled major tick, `None` for a minor tick.
pub fn second_marks() -> (marks: Vec<Option<String>>)
    ensures
        marks.len() == 60,
        forall|i: int|
            0 <= i < 60 ==> (match #[trigger] marks[i] {
                Some(s) => second_mark_of(i as nat) == Some(s@),
                None => second_mark_of(i as nat) is None,
            }),
{
    let mut marks: Vec<Option<String>> = Vec::new();
    let mut i: u64 = 0;
    while i < 60
        invariant
            i <= 60,
            marks.len() == i,
            forall|j: int|
                0 <= j < i ==> (match #[trigger] marks[j] {
                    Some(s) => second_mark_of(j as nat) == Some(s@),
                    None => second_mark_of(j as nat) is None,
                }),
        decreases 60 - i,
    {
        if i % 5 == 0 {
            let mut label = String::new();
            push_decimal(&mut label, i);
            proof {
                assert(label@ =~= decimal(i as nat));
            }
            marks.push(Some(label));
        } else {
            marks.push(None);
        }
        i = i + 1;
    }
    marks
}

/// Of the sixty seconds of the dial, exactly those on a five-second step carry
/// a label, and each label is written in decimal digits, without a leading
/// zero, and reads back as the second it marks.
pub proof fn lemma_second_marks_labelled(i: nat)
    ensures
        (second_mark_of(i) is Some) <==> i % 5 == 0,
        second_mark_of(i) matches Some(label) ==> {
            &&& numeral_value(label) == i
            &&& label.len() >= 1
            &&& (i > 0 ==> label[0] != '0')
            &&& forall|k: int| 0 <= k < label.len() ==> is_digit(#[trigger] label[k])
        },
{
    lemma_decimal_reads_back(i);
}

/// The digital read-out reads back as the time it shows: its last two
/// characters are the seconds past the minute, the two before the second colon
/// the minutes past the hour, and everything before the first colon the hours,
/// each written in decimal digits.
pub proof fn lemma_readout_reads_back(secs: nat)
    ensures
        ({
            let r = readout_of(secs);
            let n = r.len() as int;
            &&& n >= 8
            &&& r[n - 3] == ':'
            &&& r[n - 6] == ':'
            &&& numeral_value(r.subrange(n - 2, n)) == seconds_of(secs)
            &&& numeral_value(r.subrange(n - 5, n - 3)) == minutes_of(secs)
            &&& numeral_value(r.subrange(0, n - 6)) == hours_of(secs)
            &&& forall|i: int|
                0 <= i < n && i != n - 3 && i != n - 6 ==> is_digit(#[trigger] r[i])
        }),
{
    lemma_hms_decomposition(secs);
    let h = two_digits(hours_of(secs));
    let m = two_digits(minutes_of(secs));
    let s = two_digits(seconds_of(secs));
    lemma_two_digits_reads_back(hours_of(secs));
    lemma_two_digits_reads_back(minutes_of(secs));
    lemma_two_digits_reads_back(seconds_of(secs));
    let r = readout_of(secs);
    let n = r.len() as int;
    assert(r =~= h + seq![':'] + m + seq![':'] + s);
    assert(r.subrange(n - 2, n) =~= s);
    assert(r.subrange(n - 5, n - 3) =~= m);
    assert(r.subrange(0, n - 6) =~= h);
    assert forall|i: int| 0 <= i < n && i != n - 3 && i != n - 6 implies is_digit(#[trigger] r[i]) by {
        if i < h.len() {
            assert(r[i] == h[i]);
        } else if i < n - 3 {
            assert(r[i] == m[i - h.len() - 1]);
        } else {
            assert(r[i] == s[i - h.len() - m.len() - 2]);
        }
    }
}

} // verus!
