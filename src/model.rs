//! The report model: one contributor's compatibility survey and the context
//! it was filed in.
use vstd::prelude::*;
use crate::faults::{
    AudioFaults, GraphicalFaults, InputFaults, PerformanceFaults, SaveGameFaults,
    StabilityFaults, WindowingFaults,
};

verus! {

#[derive(Clone, Debug)]
pub struct ChromeOs {
    pub board: String,
    pub channel: String,
    pub chrome_version: String,
    pub platform: String,
}

#[derive(Clone, Debug)]
pub struct Specs {
    pub cpu: String,
    pub gpu: String,
    pub gpu_driver: String,
    pub kernel: String,
    pub os: String,
    pub ram: String,
    pub steam_runtime_version: Option<String>,
    pub x_window_manager: Option<String>,
}

#[derive(Clone, Debug)]
pub struct Inferred {
    pub steam: Specs,
    pub chrome_os: Option<ChromeOs>,
}

#[derive(Clone, Debug)]
pub struct Device {
    pub hardware_type: String,
    pub inferred: Inferred,
}

/// Free-text notes, one per survey section.
#[derive(Clone, Debug)]
pub struct Notes {
    pub audio_faults: Option<String>,
    pub graphical_faults: Option<String>,
    pub input_faults: Option<String>,
    pub performance_faults: Option<String>,
    pub verdict: Option<String>,
    pub stability_faults: Option<String>,
    pub significant_bugs: Option<String>,
    pub tinker_override: Option<String>,
    pub launcher: Option<String>,
    pub windowing_faults: Option<String>,
    pub save_game_faults: Option<String>,
}

/// Structured detail for each fault category that was flagged.
#[derive(Clone, Debug)]
pub struct FollowUp {
    pub audio_faults: Option<AudioFaults>,
    pub graphical_faults: Option<GraphicalFaults>,
    pub input_faults: Option<InputFaults>,
    pub performance_faults: Option<PerformanceFaults>,
    pub windowing_faults: Option<WindowingFaults>,
    pub stability_faults: Option<StabilityFaults>,
    pub save_game_faults: Option<SaveGameFaults>,
}

#[derive(Clone, Copy, Debug)]
pub struct CustomizationsUsed {
    pub config_change: Option<bool>,
    pub winetricks: Option<bool>,
    pub lutris: Option<bool>,
    pub media_foundation: Option<bool>,
    pub protontricks: Option<bool>,
}

/// The survey answers.
#[derive(Clone, Debug)]
pub struct Responses {
    pub answer_to_what_game: String,
    pub audio_faults: Option<String>,
    pub concluding_notes: Option<String>,
    pub customizations_used: Option<CustomizationsUsed>,
    pub follow_up: Option<FollowUp>,
    pub graphical_faults: Option<String>,
    pub input_faults: Option<String>,
    pub installs: String,
    pub launcher: Option<String>,
    pub notes: Notes,
    pub opens: String,
    pub performance_faults: Option<String>,
    pub save_game_faults: Option<String>,
    pub significant_bugs: Option<String>,
    pub stability_faults: Option<String>,
    pub starts_play: Option<String>,
    pub tinker_override: Option<String>,
    pub tried_oob: Option<String>,
    pub variant: Option<String>,
    pub verdict: String,
    pub verdict_oob: Option<String>,
    pub windowing_faults: Option<String>,
    pub proton_version: String,
    pub custom_proton_version: Option<String>,
    pub launch_options: Option<String>,
    pub battery_performance: Option<String>,
    pub did_change_control_layout: Option<String>,
    pub readability: Option<String>,
    pub secondary_launcher: Option<String>,
    pub app_selection_method: Option<String>,
}

#[derive(Clone, Debug)]
pub struct Steam {
    pub owned: bool,
    pub playtime: u16,
    pub avatar: String,
    pub nickname: String,
    pub playtime_linux: Option<u16>,
}

#[derive(Clone, Debug)]
pub struct Contributor {
    pub id: String,
    pub report_tally: u16,
    pub steam: Steam,
}

/// One user-submitted compatibility report.
#[derive(Clone, Debug)]
pub struct Report {
    pub contributor: Contributor,
    pub id: String,
    pub responses: Responses,
    pub timestamp: u32,
    pub device: Device,
}

/// One page of reports for a title.
#[derive(Clone, Debug)]
pub struct Reports {
    pub page: u8,
    pub per_page: u8,
    pub reports: Vec<Report>,
    pub total: u16,
}

/// The seven fault categories, in the order a report lists them.
#[derive(Clone, Copy, Debug, PartialEq, Eq)]
pub enum FaultCategory {
    Audio,
    Graphical,
    Windowing,
    Input,
    SaveGame,
    Performance,
    Stability,
}

/// The text is present and is exactly `"yes"`.
pub open spec fn is_yes(s: Option<String>) -> bool {
    s is Some && s->Some_0@ == "yes"@
}

impl FaultCategory {
    /// The heading under which the category is listed.
    pub open spec fn spec_label(self) -> Seq<char> {
        match self {
            FaultCategory::Audio => "Audio"@,
            FaultCategory::Graphical => "Graphics"@,
            FaultCategory::Windowing => "Windowing"@,
            FaultCategory::Input => "Input"@,
            FaultCategory::SaveGame => "Save Game"@,
            FaultCategory::Performance => "Performance"@,
            FaultCategory::Stability => "Stability"@,
        }
    }

    pub fn label(self) -> (r: &'static str)
        ensures
            r@ == self.spec_label(),
    {
        match self {
            FaultCategory::Audio => "Audio",
            FaultCategory::Graphical => "Graphics",
            FaultCategory::Windowing => "Windowing",
            FaultCategory::Input => "Input",
            FaultCategory::SaveGame => "Save Game",
            FaultCategory::Performance => "Performance",
            FaultCategory::Stability => "Stability",
        }
    }
}

impl Report {
    /// The top-level flag of a fault category.
    pub open spec fn fault_flag(&self, c: FaultCategory) -> Option<String> {
        match c {
            FaultCategory::Audio => self.responses.audio_faults,
            FaultCategory::Graphical => self.responses.graphical_faults,
            FaultCategory::Windowing => self.responses.windowing_faults,
            FaultCategory::Input => self.responses.input_faults,
            FaultCategory::SaveGame => self.responses.save_game_faults,
            FaultCategory::Performance => self.responses.performance_faults,
            FaultCategory::Stability => self.responses.stability_faults,
        }
    }

    /// The free-text note of a fault category.
    pub open spec fn fault_note(&self, c: FaultCategory) -> Option<String> {
        match c {
            FaultCategory::Audio => self.responses.notes.audio_faults,
            FaultCategory::Graphical => self.responses.notes.graphical_faults,
            FaultCategory::Windowing => self.responses.notes.windowing_faults,
            FaultCategory::Input => self.responses.notes.input_faults,
            FaultCategory::SaveGame => self.responses.notes.save_game_faults,
            FaultCategory::Performance => self.responses.notes.performance_faults,
            FaultCategory::Stability => self.responses.notes.stability_faults,
        }
    }

    /// Whether the follow-up detail of a fault category is present.
    pub open spec fn has_follow_up(&self, c: FaultCategory) -> bool {
        self.responses.follow_up is Some && {
            let f = self.responses.follow_up->Some_0;
            match c {
                FaultCategory::Audio => f.audio_faults is Some,
                FaultCategory::Graphical => f.graphical_faults is Some,
                FaultCategory::Windowing => f.windowing_faults is Some,
                FaultCategory::Input => f.input_faults is Some,
                FaultCategory::SaveGame => f.save_game_faults is Some,
                FaultCategory::Performance => f.performance_faults is Some,
                FaultCategory::Stability => f.stability_faults is Some,
            }
        }
    }

    /// The labels of the faults flagged in a category's follow-up detail.
    pub open spec fn fault_keys(&self, c: FaultCategory) -> Seq<Seq<char>> {
        let f = self.responses.follow_up->Some_0;
        match c {
            FaultCategory::Audio => f.audio_faults->Some_0.spec_keys(),
            FaultCategory::Graphical => f.graphical_faults->Some_0.spec_keys(),
            FaultCategory::Windowing => f.windowing_faults->Some_0.spec_keys(),
            FaultCategory::Input => f.input_faults->Some_0.spec_keys(),
            FaultCategory::SaveGame => f.save_game_faults->Some_0.spec_keys(),
            FaultCategory::Performance => f.performance_faults->Some_0.spec_keys(),
            FaultCategory::Stability => f.stability_faults->Some_0.spec_keys(),
        }
    }

    /// A flagged category carries its follow-up detail, and flagged
    /// significant bugs carry their note.
    pub open spec fn wf(&self) -> bool {
        &&& forall|c: FaultCategory| is_yes(#[trigger] self.fault_flag(c)) ==> self.has_follow_up(c)
        &&& is_yes(self.responses.significant_bugs) ==> self.responses.notes.significant_bugs is Some
    }
}

} // verus!
