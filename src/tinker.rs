//! The remediation steps a contributor applied, in their fixed order.
use vstd::prelude::*;
use crate::model::Report;
use crate::text::str_eq;

verus! {

/// The step for the launcher note, when it is present and not empty.
pub open spec fn launcher_step(launcher: Option<String>) -> Seq<Seq<char>> {
    match launcher {
        Some(l) => if l@.len() > 0 {
            seq!["Launcher: "@ + l@]
        } else {
            Seq::empty()
        },
        None => Seq::empty(),
    }
}

/// The step for the compatibility-layer variant, when it is a known one.
pub open spec fn variant_step(variant: Option<String>) -> Seq<Seq<char>> {
    match variant {
        Some(v) => if v@ == "experimental"@ {
            seq!["Switch to experimental"@]
        } else if v@ == "ge"@ {
            seq!["Custom Proton: GE"@]
        } else if v@ == "notListed"@ {
            seq!["Custom Proton"@]
        } else {
            Seq::empty()
        },
        None => Seq::empty(),
    }
}

/// The remediation steps of a report, in order: launcher, variant, launch
/// options, manual override.
pub open spec fn spec_tinker_steps(r: &Report) -> Seq<Seq<char>> {
    launcher_step(r.responses.notes.launcher) + variant_step(r.responses.variant) + (if r.responses.launch_options is Some {
        seq!["Set launch options"@]
    } else {
        Seq::empty()
    }) + (if r.responses.tinker_override is Some && r.responses.tinker_override->Some_0@ == "yes"@ {
        seq!["Other"@]
    } else {
        Seq::empty()
    })
}

/// The remediation steps that the contributor of `report` applied.
pub fn get_tinker_steps(report: &Report) -> (r: Vec<String>)
    ensures
        r.deep_view() == spec_tinker_steps(report),
{
    let mut steps: Vec<String> = Vec::new();
    let ghost s0 = steps.deep_view();
    assert(s0 =~= Seq::<Seq<char>>::empty());
    if let Some(launcher) = &report.responses.notes.launcher {
        if launcher.as_str().unicode_len() > 0 {
            steps.push(String::from_str("Launcher: ").concat(launcher.as_str()));
        }
    }
    let ghost s1 = steps.deep_view();
    assert(s1 =~= launcher_step(report.responses.notes.launcher));
    if let Some(variant) = &report.responses.variant {
        if str_eq(variant.as_str(), "experimental") {
            steps.push(String::from_str("Switch to experimental"));
        } else if str_eq(variant.as_str(), "ge") {
            steps.push(String::from_str("Custom Proton: GE"));
        } else if str_eq(variant.as_str(), "notListed") {
            steps.push(String::from_str("Custom Proton"));
        }
    }
    let ghost s2 = steps.deep_view();
    assert(s2 =~= s1 + variant_step(report.responses.variant));
    if report.responses.launch_options.is_some() {
        steps.push(String::from_str("Set launch options"));
    }
    let ghost s3 = steps.deep_view();
    if let Some(tinker_override) = &report.responses.tinker_override {
        if str_eq(tinker_override.as_str(), "yes") {
            steps.push(String::from_str("Other"));
        }
    }
    assert(steps.deep_view() =~= spec_tinker_steps(report));
    steps
}

} // verus!
