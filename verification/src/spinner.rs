//! The colours of the loading spinner and the style classes that draw it.

use vstd::prelude::*;
use vstd::string::StringExecFns;

verus! {

/// The colour of a spinner.
#[derive(Clone, Copy, Debug, PartialEq, Eq, Structural)]
pub enum SpinnerColor {
    Primary,
    Secondary,
    Success,
    Danger,
    Warning,
    Info,
    Light,
    Dark,
}

impl SpinnerColor {
    /// The style class that gives a spinner this colour.
    pub open spec fn class(self) -> Seq<char> {
        match self {
            SpinnerColor::Primary => "text-primary"@,
            SpinnerColor::Secondary => "text-secondary"@,
            SpinnerColor::Success => "text-success"@,
            SpinnerColor::Danger => "text-danger"@,
            SpinnerColor::Warning => "text-warning"@,
            SpinnerColor::Info => "text-info"@,
            SpinnerColor::Light => "text-light"@,
            SpinnerColor::Dark => "text-dark"@,
        }
    }
}

impl ToString for SpinnerColor {
    /// The style class of this colour as an owned string.
    fn to_string(&self) -> (class: String)
        ensures
            class@ == self.class(),
    {
        match self {
            SpinnerColor::Primary => "text-primary".to_string(),
            SpinnerColor::Secondary => "text-secondary".to_string(),
            SpinnerColor::Success => "text-success".to_string(),
            SpinnerColor::Danger => "text-danger".to_string(),
            SpinnerColor::Warning => "text-warning".to_string(),
            SpinnerColor::Info => "text-info".to_string(),
            SpinnerColor::Light => "text-light".to_string(),
            SpinnerColor::Dark => "text-dark".to_string(),
        }
    }
}

/// The classes of a spinner of the given colour: the one that draws the
/// spinner, a space, and the one that colours it.
pub open spec fn spinner_classes(color: SpinnerColor) -> Seq<char> {
    "spinner-border "@ + color.class()
}

/// The value of the `class` attribute of a spinner of the given colour.
pub fn spinner_class(color: SpinnerColor) -> (class: String)
    ensures
        class@ == spinner_classes(color),
{
    let tint = color.to_string();
    "spinner-border ".to_string().concat(tint.as_str())
}

} // verus!
