//! The data model of the aggregate requirements report.

use vstd::prelude::*;

verus! {

/// Outcome of one host-compatibility check: either the requirement is met,
/// or it is not, in which case a human-readable remediation message names the
/// unmet condition and what the user can do about it.
#[derive(Debug)]
pub enum RequirementState {
    Met,
    NotMet { message: String },
}

impl RequirementState {
    /// True exactly on the `Met` variant.
    pub open spec fn spec_is_met(&self) -> bool {
        self is Met
    }

    /// Executable test for the `Met` variant.
    pub fn is_met(&self) -> (r: bool)
        ensures
            r == self.spec_is_met(),
    {
        matches!(self, RequirementState::Met)
    }
}

impl PartialEq for RequirementState {
    /// Structural equality: two `Met` values are equal; two `NotMet` values
    /// are equal only if their messages match.
    fn eq(&self, other: &Self) -> (r: bool) {
        match (self, other) {
            (RequirementState::Met, RequirementState::Met) => true,
            (
                RequirementState::NotMet { message: a },
                RequirementState::NotMet { message: b },
            ) => *a == *b,
            _ => false,
        }
    }
}

impl vstd::std_specs::cmp::PartialEqSpecImpl for RequirementState {
    open spec fn obeys_eq_spec() -> bool {
        true
    }

    open spec fn eq_spec(&self, other: &Self) -> bool {
        match (self, other) {
            (RequirementState::Met, RequirementState::Met) => true,
            (
                RequirementState::NotMet { message: a },
                RequirementState::NotMet { message: b },
            ) => a@ == b@,
            _ => false,
        }
    }
}

/// The aggregate result of one requirements evaluation: one state per gating
/// check, the overall flag, and one optional install path per tracked title.
/// Paths are informational only; they never influence `all_met`.
#[derive(Debug)]
pub struct Requirements {
    pub all_met: bool,
    pub operating_system: RequirementState,
    pub architecture: RequirementState,
    pub steam: RequirementState,
    pub mw3_path: Option<String>,
    pub bo2_path: Option<String>,
    pub bo2_mp_path: Option<String>,
    pub bo1_path: Option<String>,
    pub bo1_mp_path: Option<String>,
    pub waw_path: Option<String>,
}

impl Requirements {
    /// The aggregate flag summarizes exactly the three gating checks;
    /// the per-title paths never affect it.
    pub open spec fn wf(&self) -> bool {
        self.all_met == (self.operating_system is Met && self.architecture is Met
            && self.steam is Met)
    }

    /// Assembles a report, computing `all_met` from the three gating checks.
    pub fn new(
        operating_system: RequirementState,
        architecture: RequirementState,
        steam_installed: RequirementState,
        mw3_path: Option<String>,
        bo2_path: Option<String>,
        bo2_mp_path: Option<String>,
        bo1_path: Option<String>,
        bo1_mp_path: Option<String>,
        waw_path: Option<String>,
    ) -> (r: Self)
        ensures
            r.wf(),
            r.all_met == (operating_system is Met && architecture is Met
                && steam_installed is Met),
            r.operating_system == operating_system,
            r.architecture == architecture,
            r.steam == steam_installed,
            r.mw3_path == mw3_path,
            r.bo2_path == bo2_path,
            r.bo2_mp_path == bo2_mp_path,
            r.bo1_path == bo1_path,
            r.bo1_mp_path == bo1_mp_path,
            r.waw_path == waw_path,
    {
        let all_met = operating_system.is_met() && architecture.is_met()
            && steam_installed.is_met();

        Requirements {
            all_met,
            operating_system,
            architecture,
            steam: steam_installed,
            mw3_path,
            bo2_path,
            bo2_mp_path,
            bo1_path,
            bo1_mp_path,
            waw_path,
        }
    }
}

} // verus!
