use protondb_reports::faults::{
    AudioFaults, GraphicalFaults, InputFaults, PerformanceFaults, SaveGameFaults,
    StabilityFaults, WindowingFaults,
};
use protondb_reports::layout::{
    is_well_formed, layout_report, padding_lines, playtime_text, report_block, rule_line,
    shown_count, RenderLine, Style,
};
use protondb_reports::model::{
    Contributor, Device, FollowUp, Inferred, Notes, Report, Responses, Specs, Steam,
};
use protondb_reports::tinker::get_tinker_steps;

fn s(v: &str) -> String {
    v.to_string()
}

fn empty_notes() -> Notes {
    Notes {
        audio_faults: None,
        graphical_faults: None,
        input_faults: None,
        performance_faults: None,
        verdict: None,
        stability_faults: None,
        significant_bugs: None,
        tinker_override: None,
        launcher: None,
        windowing_faults: None,
        save_game_faults: None,
    }
}

fn base_report() -> Report {
    Report {
        contributor: Contributor {
            id: s("c1"),
            report_tally: 3,
            steam: Steam {
                owned: true,
                playtime: 125,
                avatar: s("https://example.invalid/a.png"),
                nickname: s("gamer"),
                playtime_linux: None,
            },
        },
        id: s("r1"),
        responses: Responses {
            answer_to_what_game: s("440"),
            audio_faults: None,
            concluding_notes: None,
            customizations_used: None,
            follow_up: None,
            graphical_faults: None,
            input_faults: None,
            installs: s("yes"),
            launcher: None,
            notes: empty_notes(),
            opens: s("yes"),
            performance_faults: None,
            save_game_faults: None,
            significant_bugs: None,
            stability_faults: None,
            starts_play: None,
            tinker_override: None,
            tried_oob: None,
            variant: None,
            verdict: s("yes"),
            verdict_oob: None,
            windowing_faults: None,
            proton_version: s("8.0-4"),
            custom_proton_version: None,
            launch_options: None,
            battery_performance: None,
            did_change_control_layout: None,
            readability: None,
            secondary_launcher: None,
            app_selection_method: None,
        },
        timestamp: 1_700_000_000,
        device: Device {
            hardware_type: s("pc"),
            inferred: Inferred {
                steam: Specs {
                    cpu: s("cpu"),
                    gpu: s("gpu"),
                    gpu_driver: s("driver"),
                    kernel: s("6.1"),
                    os: s("Arch"),
                    ram: s("16 GB"),
                    steam_runtime_version: None,
                    x_window_manager: None,
                },
                chrome_os: None,
            },
        },
    }
}

fn no_follow_up() -> FollowUp {
    FollowUp {
        audio_faults: None,
        graphical_faults: None,
        input_faults: None,
        performance_faults: None,
        windowing_faults: None,
        stability_faults: None,
        save_game_faults: None,
    }
}

fn text(t: &str, style: Style) -> RenderLine {
    RenderLine::Text { text: s(t), style }
}

fn field(label: &str, value: &str, style: Style) -> RenderLine {
    RenderLine::Field { label: s(label), value: s(value), style }
}

#[test]
fn tinker_steps_fixed_order() {
    let mut r = base_report();
    r.responses.notes.launcher = Some(s("Lutris"));
    r.responses.variant = Some(s("ge"));
    r.responses.launch_options = Some(s("-vulkan"));
    r.responses.tinker_override = Some(s("yes"));
    assert_eq!(
        get_tinker_steps(&r),
        vec![s("Launcher: Lutris"), s("Custom Proton: GE"), s("Set launch options"), s("Other")]
    );
}

#[test]
fn tinker_steps_variants() {
    let mut r = base_report();
    assert!(get_tinker_steps(&r).is_empty());
    r.responses.variant = Some(s("experimental"));
    assert_eq!(get_tinker_steps(&r), vec![s("Switch to experimental")]);
    r.responses.variant = Some(s("notListed"));
    assert_eq!(get_tinker_steps(&r), vec![s("Custom Proton")]);
    r.responses.variant = Some(s("official"));
    assert!(get_tinker_steps(&r).is_empty());
    r.responses.tinker_override = Some(s("no"));
    assert!(get_tinker_steps(&r).is_empty());
    r.responses.launch_options = Some(s(""));
    assert_eq!(get_tinker_steps(&r), vec![s("Set launch options")]);
}

#[test]
fn tinker_steps_skip_empty_launcher() {
    let mut r = base_report();
    r.responses.notes.launcher = Some(s(""));
    assert!(get_tinker_steps(&r).is_empty());
}

#[test]
fn playtime_hours() {
    assert_eq!(playtime_text(45), "< 1 hour overall");
    assert_eq!(playtime_text(60), "1 hour overall");
    assert_eq!(playtime_text(125), "2 hours overall");
    assert_eq!(playtime_text(0), "< 1 hour overall");
    assert_eq!(playtime_text(65535), "1092 hours overall");
}

#[test]
fn plain_recommended_report() {
    let r = base_report();
    let lines = layout_report(&r, "3 months ago");
    assert_eq!(
        lines,
        vec![
            text("3 months ago", Style::Muted),
            RenderLine::Byline {
                nickname: s("gamer"),
                tally: s("(3 reports)"),
                playtime: s("2 hours overall"),
            },
            text("Recommended", Style::Positive),
        ]
    );
}

#[test]
fn borked_report_keeps_tinker_steps() {
    let mut r = base_report();
    r.responses.opens = s("no");
    r.responses.installs = s("yes");
    r.responses.variant = Some(s("ge"));
    let lines = layout_report(&r, "now");
    assert_eq!(lines[2], text("Borked", Style::Alert));
    assert_eq!(lines[3], field("Installs", "Yes", Style::Caution));
    assert_eq!(lines[4], field("Opens", "No", Style::Caution));
    assert_eq!(lines[5], field("Tinker Steps", "Custom Proton: GE", Style::Plain));
    assert_eq!(lines.len(), 6);
}

#[test]
fn tinkered_report_shows_out_of_box_verdict() {
    let mut r = base_report();
    r.responses.verdict = s("no");
    r.responses.verdict_oob = Some(s("no"));
    r.responses.launch_options = Some(s("PROTON_USE_WINED3D=1 %command%"));
    r.responses.notes.verdict = Some(s("Works\nafter tweaks"));
    r.responses.notes.tinker_override = Some(s("edited a config file"));
    r.responses.concluding_notes = Some(s("Fine\noverall"));
    let lines = layout_report(&r, "now");
    assert_eq!(
        lines[2..].to_vec(),
        vec![
            text("Not recommended", Style::Caution),
            text("Not Recommended (Tinker)", Style::Caution),
            text("Works after tweaks", Style::Bold),
            field("Tinker Steps", "Set launch options", Style::Plain),
            text("PROTON_USE_WINED3D=1 %command%", Style::Code),
            RenderLine::Blank,
            text("edited a config file", Style::Plain),
            RenderLine::Blank,
            text("Fine overall", Style::Plain),
        ]
    );
}

#[test]
fn override_note_without_lines_above_has_no_blank() {
    let mut r = base_report();
    r.responses.notes.tinker_override = Some(s("note"));
    let lines = layout_report(&r, "now");
    assert_eq!(lines[3], text("note", Style::Plain));
    assert_eq!(lines.len(), 4);
}

#[test]
fn unflagged_fault_detail_hidden() {
    let mut r = base_report();
    r.responses.audio_faults = Some(s("no"));
    let mut f = no_follow_up();
    f.audio_faults = Some(AudioFaults { low_quality: Some(true), other: None });
    r.responses.follow_up = Some(f);
    r.responses.notes.audio_faults = Some(s("crackling"));
    assert!(is_well_formed(&r));
    let lines = layout_report(&r, "now");
    assert_eq!(lines.len(), 3);
    assert!(!lines.contains(&text("crackling", Style::Plain)));
}

#[test]
fn flagged_faults_listed_in_order() {
    let mut r = base_report();
    r.responses.audio_faults = Some(s("yes"));
    r.responses.stability_faults = Some(s("yes"));
    r.responses.input_faults = Some(s("yes"));
    let mut f = no_follow_up();
    f.audio_faults = Some(AudioFaults { low_quality: Some(true), other: Some(true) });
    f.stability_faults = Some(StabilityFaults::FrequentCrashes);
    f.input_faults = Some(InputFaults {
        controller_not_detected: Some(false),
        bounding: None,
        other: Some(true),
        lag: Some(true),
    });
    r.responses.follow_up = Some(f);
    r.responses.notes.input_faults = Some(s("stick drift"));
    r.responses.significant_bugs = Some(s("yes"));
    r.responses.notes.significant_bugs = Some(s("saves vanish"));
    assert!(is_well_formed(&r));
    let lines = layout_report(&r, "now");
    assert_eq!(
        lines[3..].to_vec(),
        vec![
            RenderLine::Blank,
            field("Audio", "Low Quality, Other", Style::Caution),
            RenderLine::Blank,
            field("Input", "Other, Lag", Style::Caution),
            text("stick drift", Style::Plain),
            RenderLine::Blank,
            field("Stability", "Frequent Crashes", Style::Caution),
            RenderLine::Blank,
            field("Significant Bugs", "Yes", Style::Caution),
            text("saves vanish", Style::Plain),
        ]
    );
}

#[test]
fn flagged_fault_with_empty_follow_up() {
    let mut r = base_report();
    r.responses.graphical_faults = Some(s("yes"));
    let mut f = no_follow_up();
    f.graphical_faults =
        Some(GraphicalFaults { minor_artifacts: Some(false), other: None, heavy_artifacts: None });
    r.responses.follow_up = Some(f);
    let lines = layout_report(&r, "now");
    assert_eq!(lines[4], field("Graphics", "", Style::Caution));
}

#[test]
fn flagged_fault_without_follow_up_is_not_well_formed() {
    let mut r = base_report();
    r.responses.windowing_faults = Some(s("yes"));
    assert!(!is_well_formed(&r));
    r.responses.follow_up = Some(no_follow_up());
    assert!(!is_well_formed(&r));
    let mut f = no_follow_up();
    f.windowing_faults = Some(WindowingFaults { full_not_full: None, other: None, switching: None });
    r.responses.follow_up = Some(f);
    assert!(is_well_formed(&r));
    r.responses.significant_bugs = Some(s("yes"));
    assert!(!is_well_formed(&r));
}

#[test]
fn fault_keys_in_declared_order() {
    let w = WindowingFaults { full_not_full: Some(true), other: Some(true), switching: Some(true) };
    assert_eq!(w.keys(), vec![s("Size"), s("Other"), s("Switching")]);
    let g = GraphicalFaults {
        minor_artifacts: Some(true),
        other: Some(false),
        heavy_artifacts: Some(true),
    };
    assert_eq!(g.keys(), vec![s("Minor Artifacts"), s("Heavy Artifacts")]);
    let i = InputFaults {
        controller_not_detected: Some(true),
        bounding: Some(true),
        other: None,
        lag: None,
    };
    assert_eq!(i.keys(), vec![s("Controller Not Detected"), s("Bounding")]);
    let sg = SaveGameFaults { error_loading: Some(true), other: Some(true) };
    assert_eq!(sg.keys(), vec![s("Loading"), s("Other")]);
    let a = AudioFaults { low_quality: None, other: None };
    assert!(a.keys().is_empty());
}

#[test]
fn single_choice_fault_labels() {
    assert_eq!(StabilityFaults::Occasionally.keys(), vec![s("Occasionally")]);
    assert_eq!(StabilityFaults::NotListed.keys(), vec![s("Not Listed")]);
    assert_eq!(StabilityFaults::FrequentCrashes.keys(), vec![s("Frequent Crashes")]);
    assert_eq!(PerformanceFaults::SlightSlowdown.keys(), vec![s("Slight Slowdown")]);
    assert_eq!(
        PerformanceFaults::SignificantSlowdown.keys(),
        vec![s("Significant Performance Problems")]
    );
}

#[test]
fn block_time_is_humanised() {
    let r = base_report();
    let lines = report_block(&r, 1_700_000_000 + 90 * 24 * 3600);
    assert_eq!(lines[0], text("3 months ago", Style::Muted));
    let lines = report_block(&r, 1_700_000_000);
    assert_eq!(lines[0], text("now", Style::Muted));
}

#[test]
fn rule_and_padding() {
    assert_eq!(rule_line(3), "\u{2014}\u{2014}\u{2014}");
    assert_eq!(rule_line(0), "");
    assert_eq!(padding_lines(1, 3), 2);
    assert_eq!(padding_lines(5, 3), 0);
    assert_eq!(shown_count(2, 5), 2);
    assert_eq!(shown_count(9, 5), 5);
}
