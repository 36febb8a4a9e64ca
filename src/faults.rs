//! Fault vocabulary: which faults a report's follow-up flagged, as labels in
//! their fixed declared order.
use vstd::prelude::*;

verus! {

/// One label when the flag is set, none otherwise.
pub open spec fn label_if(flag: Option<bool>, label: Seq<char>) -> Seq<Seq<char>> {
    if flag == Some(true) {
        seq![label]
    } else {
        Seq::empty()
    }
}

fn push_if(faults: &mut Vec<String>, flag: Option<bool>, label: &str)
    ensures
        final(faults).deep_view() == old(faults).deep_view() + label_if(flag, label@),
{
    let ghost before = faults.deep_view();
    if matches!(flag, Some(true)) {
        faults.push(String::from_str(label));
    }
    assert(faults.deep_view() =~= before + label_if(flag, label@));
}

/// Save-game problems.
#[derive(Clone, Copy, Debug)]
pub struct SaveGameFaults {
    pub error_loading: Option<bool>,
    pub other: Option<bool>,
}

impl SaveGameFaults {
    pub open spec fn spec_keys(&self) -> Seq<Seq<char>> {
        label_if(self.error_loading, "Loading"@) + label_if(self.other, "Other"@)
    }

    pub fn keys(&self) -> (r: Vec<String>)
        ensures
            r.deep_view() == self.spec_keys(),
    {
        let mut faults: Vec<String> = Vec::new();
        assert(faults.deep_view() =~= Seq::<Seq<char>>::empty());
        push_if(&mut faults, self.error_loading, "Loading");
        push_if(&mut faults, self.other, "Other");
        faults
    }
}

/// How often the software crashed.
#[derive(Clone, Copy, Debug, PartialEq, Eq)]
pub enum StabilityFaults {
    Occasionally,
    NotListed,
    FrequentCrashes,
}

impl StabilityFaults {
    pub open spec fn spec_keys(&self) -> Seq<Seq<char>> {
        match self {
            StabilityFaults::Occasionally => seq!["Occasionally"@],
            StabilityFaults::NotListed => seq!["Not Listed"@],
            StabilityFaults::FrequentCrashes => seq!["Frequent Crashes"@],
        }
    }

    pub fn keys(&self) -> (r: Vec<String>)
        ensures
            r.deep_view() == self.spec_keys(),
    {
        let label = match self {
            StabilityFaults::Occasionally => String::from_str("Occasionally"),
            StabilityFaults::NotListed => String::from_str("Not Listed"),
            StabilityFaults::FrequentCrashes => String::from_str("Frequent Crashes"),
        };
        let faults = vec![label];
        assert(faults.deep_view() =~= self.spec_keys());
        faults
    }
}

/// Window-management problems.
#[derive(Clone, Copy, Debug)]
pub struct WindowingFaults {
    pub full_not_full: Option<bool>,
    pub other: Option<bool>,
    pub switching: Option<bool>,
}

impl WindowingFaults {
    pub open spec fn spec_keys(&self) -> Seq<Seq<char>> {
        label_if(self.full_not_full, "Size"@) + label_if(self.other, "Other"@) + label_if(
            self.switching,
            "Switching"@,
        )
    }

    pub fn keys(&self) -> (r: Vec<String>)
        ensures
            r.deep_view() == self.spec_keys(),
    {
        let mut faults: Vec<String> = Vec::new();
        assert(faults.deep_view() =~= Seq::<Seq<char>>::empty());
        push_if(&mut faults, self.full_not_full, "Size");
        push_if(&mut faults, self.other, "Other");
        push_if(&mut faults, self.switching, "Switching");
        faults
    }
}

/// How much the software slowed down.
#[derive(Clone, Copy, Debug, PartialEq, Eq)]
pub enum PerformanceFaults {
    SlightSlowdown,
    SignificantSlowdown,
}

impl PerformanceFaults {
    pub open spec fn spec_keys(&self) -> Seq<Seq<char>> {
        match self {
            PerformanceFaults::SlightSlowdown => seq!["Slight Slowdown"@],
            PerformanceFaults::SignificantSlowdown => seq!["Significant Performance Problems"@],
        }
    }

    pub fn keys(&self) -> (r: Vec<String>)
        ensures
            r.deep_view() == self.spec_keys(),
    {
        let label = match self {
            PerformanceFaults::SlightSlowdown => String::from_str("Slight Slowdown"),
            PerformanceFaults::SignificantSlowdown => String::from_str(
                "Significant Performance Problems",
            ),
        };
        let faults = vec![label];
        assert(faults.deep_view() =~= self.spec_keys());
        faults
    }
}

/// Input-device problems.
#[derive(Clone, Copy, Debug)]
pub struct InputFaults {
    pub controller_not_detected: Option<bool>,
    pub bounding: Option<bool>,
    pub other: Option<bool>,
    pub lag: Option<bool>,
}

impl InputFaults {
    pub open spec fn spec_keys(&self) -> Seq<Seq<char>> {
        label_if(self.controller_not_detected, "Controller Not Detected"@) + label_if(
            self.bounding,
            "Bounding"@,
        ) + label_if(self.other, "Other"@) + label_if(self.lag, "Lag"@)
    }

    pub fn keys(&self) -> (r: Vec<String>)
        ensures
            r.deep_view() == self.spec_keys(),
    {
        let mut faults: Vec<String> = Vec::new();
        assert(faults.deep_view() =~= Seq::<Seq<char>>::empty());
        push_if(&mut faults, self.controller_not_detected, "Controller Not Detected");
        push_if(&mut faults, self.bounding, "Bounding");
        push_if(&mut faults, self.other, "Other");
        push_if(&mut faults, self.lag, "Lag");
        faults
    }
}

/// Rendering problems.
#[derive(Clone, Copy, Debug)]
pub struct GraphicalFaults {
    pub minor_artifacts: Option<bool>,
    pub other: Option<bool>,
    pub heavy_artifacts: Option<bool>,
}

impl GraphicalFaults {
    pub open spec fn spec_keys(&self) -> Seq<Seq<char>> {
        label_if(self.minor_artifacts, "Minor Artifacts"@) + label_if(self.other, "Other"@)
            + label_if(self.heavy_artifacts, "Heavy Artifacts"@)
    }

    pub fn keys(&self) -> (r: Vec<String>)
        ensures
            r.deep_view() == self.spec_keys(),
    {
        let mut faults: Vec<String> = Vec::new();
        assert(faults.deep_view() =~= Seq::<Seq<char>>::empty());
        push_if(&mut faults, self.minor_artifacts, "Minor Artifacts");
        push_if(&mut faults, self.other, "Other");
        push_if(&mut faults, self.heavy_artifacts, "Heavy Artifacts");
        faults
    }
}

/// Sound problems.
#[derive(Clone, Copy, Debug)]
pub struct AudioFaults {
    pub low_quality: Option<bool>,
    pub other: Option<bool>,
}

impl AudioFaults {
    pub open spec fn spec_keys(&self) -> Seq<Seq<char>> {
        label_if(self.low_quality, "Low Quality"@) + label_if(self.other, "Other"@)
    }

    pub fn keys(&self) -> (r: Vec<String>)
        ensures
            r.deep_view() == self.spec_keys(),
    {
        let mut faults: Vec<String> = Vec::new();
        assert(faults.deep_view() =~= Seq::<Seq<char>>::empty());
        push_if(&mut faults, self.low_quality, "Low Quality");
        push_if(&mut faults, self.other, "Other");
        faults
    }
}

} // verus!
