//! What an operation tells the user: a text and how serious it is, and the
//! color that each degree of seriousness is shown in.

use crate::text::same_text;
use vstd::prelude::*;

verus! {

/// How serious a notice is.
#[derive(Clone, Copy, Debug, PartialEq, Eq, Structural)]
pub enum Severity {
    /// A step went well.
    Success,
    /// A step is about to be taken.
    Progress,
    /// A step went wrong.
    Failure,
}

/// A foreground color of the terminal.
#[derive(Clone, Copy, Debug, PartialEq, Eq, Structural)]
pub enum Tint {
    Green,
    Yellow,
    Red,
    White,
}

/// How text is to be shown on the terminal.
#[derive(Clone, Copy, Debug, PartialEq, Eq, Structural)]
pub struct Paint {
    pub bold: bool,
    pub foreground: Tint,
}

/// The color that `name` spells; white for any name that spells none.
pub open spec fn tint_named(name: Seq<char>) -> Tint {
    if name == "green"@ {
        Tint::Green
    } else if name == "yellow"@ {
        Tint::Yellow
    } else if name == "red"@ {
        Tint::Red
    } else {
        Tint::White
    }
}

/// The name of the color that notices of this severity are shown in.
pub open spec fn color_name(severity: Severity) -> Seq<char> {
    match severity {
        Severity::Success => "green"@,
        Severity::Progress => "yellow"@,
        Severity::Failure => "red"@,
    }
}

/// The color that notices of this severity are shown in.
pub open spec fn tint_of(severity: Severity) -> Tint {
    match severity {
        Severity::Success => Tint::Green,
        Severity::Progress => Tint::Yellow,
        Severity::Failure => Tint::Red,
    }
}

/// Success is shown in green, progress in yellow and failure in red: the
/// name of each severity's color spells that color.
pub proof fn lemma_severity_colors(severity: Severity)
    ensures
        tint_named(color_name(severity)) == tint_of(severity),
{
    reveal_strlit("green");
    reveal_strlit("yellow");
    reveal_strlit("red");
    assert("green"@.len() == 5);
    assert("yellow"@.len() == 6);
    assert("red"@.len() == 3);
}

/// Bold text in the color that `color` spells; white where it spells none.
pub fn coloring(color: &str) -> (paint: Paint)
    ensures
        paint == (Paint { bold: true, foreground: tint_named(color@) }),
{
    let foreground = if same_text(color, "green") {
        Tint::Green
    } else if same_text(color, "yellow") {
        Tint::Yellow
    } else if same_text(color, "red") {
        Tint::Red
    } else {
        Tint::White
    };
    Paint { bold: true, foreground }
}

impl Severity {
    /// The name of the color that notices of this severity are shown in.
    pub fn color(&self) -> (name: &'static str)
        ensures
            name@ == color_name(*self),
    {
        match self {
            Severity::Success => "green",
            Severity::Progress => "yellow",
            Severity::Failure => "red",
        }
    }
}

/// A text for the user and how serious it is.
#[derive(Clone, Debug, PartialEq, Eq)]
pub struct Notice {
    pub severity: Severity,
    pub text: String,
}

/// A notice as contracts see it.
pub struct NoticeView {
    pub severity: Severity,
    pub text: Seq<char>,
}

impl View for Notice {
    type V = NoticeView;

    open spec fn view(&self) -> NoticeView {
        NoticeView { severity: self.severity, text: self.text@ }
    }
}

impl DeepView for Notice {
    type V = NoticeView;

    open spec fn deep_view(&self) -> NoticeView {
        self@
    }
}

/// A notice that a step went well.
pub open spec fn success(text: Seq<char>) -> NoticeView {
    NoticeView { severity: Severity::Success, text }
}

/// A notice that a step is about to be taken.
pub open spec fn progress(text: Seq<char>) -> NoticeView {
    NoticeView { severity: Severity::Progress, text }
}

/// A notice that a step went wrong.
pub open spec fn failure(text: Seq<char>) -> NoticeView {
    NoticeView { severity: Severity::Failure, text }
}

impl Notice {
    /// A notice that a step went well.
    pub fn success(text: String) -> (notice: Notice)
        ensures
            notice@ == success(text@),
    {
        Notice { severity: Severity::Success, text }
    }

    /// A notice that a step is about to be taken.
    pub fn progress(text: String) -> (notice: Notice)
        ensures
            notice@ == progress(text@),
    {
        Notice { severity: Severity::Progress, text }
    }

    /// A notice that a step went wrong.
    pub fn failure(text: String) -> (notice: Notice)
        ensures
            notice@ == failure(text@),
    {
        Notice { severity: Severity::Failure, text }
    }
}

} // verus!
