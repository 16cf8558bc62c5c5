//! Configuration of the template engine, and the theme validation
//! gate that guards construction of the syntax-highlight block.
//!
//! Before the highlight block is built, the theme registry is queried
//! for the requested theme name.  Three outcomes are distinguished:
//! confirmed present proceeds; confirmed absent is a hard error naming
//! the theme, aborting engine construction; a lookup that could not
//! confirm either way downgrades to a warning and proceeds.  The query
//! itself is the host's; this module owns the decision.

use vstd::prelude::*;

use crate::errors::ResourceError;

verus! {

/// What querying the theme registry established.
#[derive(Debug, Clone, PartialEq, Eq)]
pub enum ThemeLookup {
    /// The registry confirms the theme exists.
    Present,
    /// The registry confirms the theme does not exist.
    Absent,
    /// The registry could not be consulted; nothing is confirmed.
    Unavailable,
}

/// How engine construction is to continue.
#[derive(Debug, Clone, PartialEq, Eq)]
pub enum ThemeDecision {
    Proceed,
    /// Proceed, but the host should log that the theme was ignored.
    ProceedWithWarning,
}

/// What the template engine is built from: the includes directory and
/// the syntax-highlight theme name.
#[derive(Debug, Clone, PartialEq, Eq)]
pub struct LiquidBuilder {
    pub includes_path: String,
    pub theme: String,
}

impl LiquidBuilder {
    /// The theme gate: fail exactly when the theme is confirmed
    /// absent, naming it; an unconfirmable lookup is only a warning.
    pub fn highlight(theme: &String, lookup: &ThemeLookup) -> (r: Result<
        ThemeDecision,
        ResourceError,
    >)
        ensures
            lookup is Present ==> r == Result::<ThemeDecision, ResourceError>::Ok(
                ThemeDecision::Proceed,
            ),
            lookup is Absent ==> (r matches Err(e) && e matches ResourceError::UnsupportedTheme {
                theme: t,
            } && t@ == theme@),
            lookup is Unavailable ==> r == Result::<ThemeDecision, ResourceError>::Ok(
                ThemeDecision::ProceedWithWarning,
            ),
    {
        match lookup {
            ThemeLookup::Present => Ok(ThemeDecision::Proceed),
            ThemeLookup::Absent => Err(
                ResourceError::UnsupportedTheme { theme: theme.clone() },
            ),
            ThemeLookup::Unavailable => Ok(ThemeDecision::ProceedWithWarning),
        }
    }
}

} // verus!
