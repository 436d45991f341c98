//! Moon-phase icon names.
use vstd::prelude::*;
use crate::text::{has_prefix, has_suffix};

verus! {

/// Moon-phase icons, from new moon through waning crescent.
#[derive(Debug, Clone, Copy, PartialEq, Eq, Structural)]
pub enum MoonPhaseIconName {
    New,
    WaxingCrescent,
    FirstQuarter,
    WaxingGibbous,
    Full,
    WaningGibbous,
    LastQuarter,
    WaningCrescent,
}

impl MoonPhaseIconName {
    /// The icon file name of this phase.
    pub open spec fn name(self) -> Seq<char> {
        match self {
            MoonPhaseIconName::New => "moon-new.svg"@,
            MoonPhaseIconName::WaxingCrescent => "moon-waxing-crescent.svg"@,
            MoonPhaseIconName::FirstQuarter => "moon-first-quarter.svg"@,
            MoonPhaseIconName::WaxingGibbous => "moon-waxing-gibbous.svg"@,
            MoonPhaseIconName::Full => "moon-full.svg"@,
            MoonPhaseIconName::WaningGibbous => "moon-waning-gibbous.svg"@,
            MoonPhaseIconName::LastQuarter => "moon-last-quarter.svg"@,
            MoonPhaseIconName::WaningCrescent => "moon-waning-crescent.svg"@,
        }
    }

    /// The icon file name of this phase.
    pub fn as_str(&self) -> (r: &'static str)
        ensures
            r@ == self.name(),
    {
        match self {
            MoonPhaseIconName::New => "moon-new.svg",
            MoonPhaseIconName::WaxingCrescent => "moon-waxing-crescent.svg",
            MoonPhaseIconName::FirstQuarter => "moon-first-quarter.svg",
            MoonPhaseIconName::WaxingGibbous => "moon-waxing-gibbous.svg",
            MoonPhaseIconName::Full => "moon-full.svg",
            MoonPhaseIconName::WaningGibbous => "moon-waning-gibbous.svg",
            MoonPhaseIconName::LastQuarter => "moon-last-quarter.svg",
            MoonPhaseIconName::WaningCrescent => "moon-waning-crescent.svg",
        }
    }
}

/// Every moon-phase icon name begins with `moon-` and is an SVG file.
pub proof fn lemma_moon_icon_names(phase: MoonPhaseIconName)
    ensures
        has_prefix(phase.name(), "moon-"@),
        has_suffix(phase.name(), ".svg"@),
{
    reveal_strlit("moon-");
    reveal_strlit(".svg");
    reveal_strlit("moon-new.svg");
    reveal_strlit("moon-waxing-crescent.svg");
    reveal_strlit("moon-first-quarter.svg");
    reveal_strlit("moon-waxing-gibbous.svg");
    reveal_strlit("moon-full.svg");
    reveal_strlit("moon-waning-gibbous.svg");
    reveal_strlit("moon-last-quarter.svg");
    reveal_strlit("moon-waning-crescent.svg");
    assert(phase.name().subrange(0, 5) =~= "moon-"@);
    assert(phase.name().subrange(phase.name().len() - 4, phase.name().len() as int) =~= ".svg"@);
}

} // verus!
