//! Experimental feature switches.
//!
//! These features are not guaranteed to be stable or production-ready; the
//! switches live in one record that the surrounding program owns.

use vstd::prelude::*;

verus! {

/// The switches for the experimental feature groups.
#[derive(Debug, Clone, Copy, PartialEq, Eq, Structural)]
pub struct ExperimentalFeatures {
    /// Experimental widgets.
    pub widgets: bool,
    /// Experimental assistant features.
    pub ai: bool,
    /// Experimental visual effects.
    pub effects: bool,
    /// Experimental performance tooling.
    pub performance: bool,
    /// Experimental wallpaper kinds.
    pub wallpapers: bool,
    /// Experimental services.
    pub services: bool,
}

impl Default for ExperimentalFeatures {
    /// All experimental features start disabled.
    fn default() -> (r: Self)
        ensures
            r == (ExperimentalFeatures {
                widgets: false,
                ai: false,
                effects: false,
                performance: false,
                wallpapers: false,
                services: false,
            }),
    {
        ExperimentalFeatures {
            widgets: false,
            ai: false,
            effects: false,
            performance: false,
            wallpapers: false,
            services: false,
        }
    }
}

/// Enable all experimental features.
pub fn enable_all_experimental_features(features: &mut ExperimentalFeatures)
    ensures
        final(features).widgets,
        final(features).ai,
        final(features).effects,
        final(features).performance,
        final(features).wallpapers,
        final(features).services,
{
    features.widgets = true;
    features.ai = true;
    features.effects = true;
    features.performance = true;
    features.wallpapers = true;
    features.services = true;
}

/// Disable all experimental features.
pub fn disable_all_experimental_features(features: &mut ExperimentalFeatures)
    ensures
        !final(features).widgets,
        !final(features).ai,
        !final(features).effects,
        !final(features).performance,
        !final(features).wallpapers,
        !final(features).services,
{
    features.widgets = false;
    features.ai = false;
    features.effects = false;
    features.performance = false;
    features.wallpapers = false;
    features.services = false;
}

} // verus!
