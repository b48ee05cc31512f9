//! Selection of the optimisation mode from a form field.

use vstd::prelude::*;
use crate::form::FormEntry;
use crate::form::FormEntryView;
use crate::text::str_equal;

verus! {

/// One of the six effort levels of the optimisation engine, from the
/// cheapest (`Level1`) to the most thorough (`Level6`).
#[derive(Clone, Copy, Debug, PartialEq, Eq, Structural)]
pub enum OptimizationMode {
    Level1,
    Level2,
    Level3,
    Level4,
    Level5,
    Level6,
}

impl OptimizationMode {
    /// The number of the level, from 1 to 6.
    pub open spec fn level_spec(self) -> u8 {
        match self {
            OptimizationMode::Level1 => 1,
            OptimizationMode::Level2 => 2,
            OptimizationMode::Level3 => 3,
            OptimizationMode::Level4 => 4,
            OptimizationMode::Level5 => 5,
            OptimizationMode::Level6 => 6,
        }
    }

    /// The number of the level, as the engine's preset takes it.
    #[verifier::when_used_as_spec(level_spec)]
    pub fn level(self) -> (level: u8)
        ensures
            level == self.level_spec(),
            1 <= level <= 6,
    {
        match self {
            OptimizationMode::Level1 => 1,
            OptimizationMode::Level2 => 2,
            OptimizationMode::Level3 => 3,
            OptimizationMode::Level4 => 4,
            OptimizationMode::Level5 => 5,
            OptimizationMode::Level6 => 6,
        }
    }

    /// The mode used when a request names none: the most thorough one.
    pub open spec fn fallback_spec() -> OptimizationMode {
        OptimizationMode::Level6
    }

    /// The mode used when a request names none.
    #[verifier::when_used_as_spec(fallback_spec)]
    pub fn fallback() -> (mode: OptimizationMode)
        ensures
            mode == OptimizationMode::fallback_spec(),
    {
        OptimizationMode::Level6
    }
}

/// The mode that a text names: `"1"` to `"6"` name the six levels, and no
/// other text names a mode.
pub open spec fn mode_of_text(text: Seq<char>) -> Option<OptimizationMode> {
    if text == "1"@ {
        Some(OptimizationMode::Level1)
    } else if text == "2"@ {
        Some(OptimizationMode::Level2)
    } else if text == "3"@ {
        Some(OptimizationMode::Level3)
    } else if text == "4"@ {
        Some(OptimizationMode::Level4)
    } else if text == "5"@ {
        Some(OptimizationMode::Level5)
    } else if text == "6"@ {
        Some(OptimizationMode::Level6)
    } else {
        None
    }
}

/// Whether a text is one of the six that name a level.
pub open spec fn names_level(text: Seq<char>) -> bool {
    text == "1"@ || text == "2"@ || text == "3"@ || text == "4"@ || text == "5"@ || text == "6"@
}

/// The mode in effect for a request whose form holds `entry` under the mode
/// key: the mode that a text field names, and the fallback for anything else.
pub open spec fn selected_mode(entry: Option<FormEntryView>) -> OptimizationMode {
    match entry {
        Some(FormEntryView::Field(text)) => match mode_of_text(text) {
            Some(mode) => mode,
            None => OptimizationMode::fallback_spec(),
        },
        _ => OptimizationMode::fallback_spec(),
    }
}

/// Reads a mode from its text.
pub fn parse_mode(text: &str) -> (mode: Option<OptimizationMode>)
    ensures
        mode == mode_of_text(text@),
        mode is Some <==> names_level(text@),
{
    if str_equal(text, "1") {
        Some(OptimizationMode::Level1)
    } else if str_equal(text, "2") {
        Some(OptimizationMode::Level2)
    } else if str_equal(text, "3") {
        Some(OptimizationMode::Level3)
    } else if str_equal(text, "4") {
        Some(OptimizationMode::Level4)
    } else if str_equal(text, "5") {
        Some(OptimizationMode::Level5)
    } else if str_equal(text, "6") {
        Some(OptimizationMode::Level6)
    } else {
        None
    }
}

/// Resolves the mode of a request from what its form holds under the mode
/// key. The request never fails on account of its mode: whatever does not
/// name one of the six levels selects the fallback.
pub fn select_mode(entry: Option<&FormEntry>) -> (mode: OptimizationMode)
    ensures
        mode == selected_mode(
            match entry {
                Some(e) => Some(e@),
                None => None,
            },
        ),
        !(entry matches Some(FormEntry::Field(text)) && names_level(text@)) ==> mode
            == OptimizationMode::Level6,
        1 <= mode.level_spec() <= 6,
{
    match entry {
        Some(FormEntry::Field(text)) => match parse_mode(text.as_str()) {
            Some(mode) => mode,
            None => OptimizationMode::fallback(),
        },
        _ => OptimizationMode::fallback(),
    }
}

} // verus!
