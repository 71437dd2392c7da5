//! Static configuration handed to the dispatcher at construction.
//!
//! The fixed constants of the device's policies — the tap/hold delay, the
//! pause inside the assistant combo, the layout identifiers with their
//! fallback spellings, and the application names — live here as plain values,
//! so the shell supplies the real ones and tests can supply short delays and
//! fake identifiers.

use vstd::prelude::*;

use crate::dispatch::AppTarget;
use crate::dispatch::LayoutChoice;

verus! {

pub struct Config {
    /// Milliseconds a press must last before the hold action fires.
    pub hold_delay_ms: u64,
    /// Milliseconds of pause before the last key of the assistant combo.
    pub assistant_pause_ms: u64,
    /// Primary identifier of the layout selected while holding.
    pub alternate_layout_primary: String,
    /// Fallback spelling of the alternate layout's identifier.
    pub alternate_layout_secondary: String,
    /// Primary identifier of the layout restored on release.
    pub default_layout_primary: String,
    /// Fallback spelling of the default layout's identifier.
    pub default_layout_secondary: String,
    /// Application opened by a left-pedal tap.
    pub browser_app: String,
    /// Application opened by a right-pedal tap.
    pub editor_app: String,
}

impl Config {
    /// The identifier tried first when selecting `choice`.
    pub fn layout_primary_id(&self, choice: LayoutChoice) -> (r: &str)
        ensures
            r@ == (match choice {
                LayoutChoice::Alternate => self.alternate_layout_primary@,
                LayoutChoice::Default => self.default_layout_primary@,
            }),
    {
        match choice {
            LayoutChoice::Alternate => self.alternate_layout_primary.as_str(),
            LayoutChoice::Default => self.default_layout_primary.as_str(),
        }
    }

    /// The identifier tried when the primary one found no source.
    pub fn layout_secondary_id(&self, choice: LayoutChoice) -> (r: &str)
        ensures
            r@ == (match choice {
                LayoutChoice::Alternate => self.alternate_layout_secondary@,
                LayoutChoice::Default => self.default_layout_secondary@,
            }),
    {
        match choice {
            LayoutChoice::Alternate => self.alternate_layout_secondary.as_str(),
            LayoutChoice::Default => self.default_layout_secondary.as_str(),
        }
    }

    /// The application an app-launch action targets.
    pub fn app_name(&self, target: AppTarget) -> (r: &str)
        ensures
            r@ == (match target {
                AppTarget::Browser => self.browser_app@,
                AppTarget::Editor => self.editor_app@,
            }),
    {
        match target {
            AppTarget::Browser => self.browser_app.as_str(),
            AppTarget::Editor => self.editor_app.as_str(),
        }
    }
}

} // verus!
