//! Reading the report model out of a parsed JSON document. Absent and `null`
//! optional fields read as absent; a missing or mistyped required field is
//! an error, as is a mistyped optional one.
use vstd::prelude::*;
use crate::faults::{
    AudioFaults, GraphicalFaults, InputFaults, PerformanceFaults, SaveGameFaults,
    StabilityFaults, WindowingFaults,
};
use crate::json::{
    bool_of, decode_input_faults_other, fields_of, get, is_missing, lookup, opt_bool,
    opt_bool_is, opt_bool_ok, opt_str, opt_str_is, opt_str_ok, opt_uint, opt_uint_ok, req_bool,
    req_str, req_uint, spec_input_other, str_is, text_of, uint_of, Json, ReportError,
};
use crate::model::{
    ChromeOs, Contributor, CustomizationsUsed, Device, FollowUp, Inferred, Notes, Report,
    Reports, Responses, Specs, Steam,
};
use crate::text::str_eq;

verus! {

/// The upstream name of a stability answer.
pub open spec fn stability_name(x: StabilityFaults) -> Seq<char> {
    match x {
        StabilityFaults::Occasionally => "occasionally"@,
        StabilityFaults::NotListed => "notListed"@,
        StabilityFaults::FrequentCrashes => "frequentCrashes"@,
    }
}

pub open spec fn stability_faults_ok(j: Json) -> bool {
    exists|x: StabilityFaults| text_of(Some(j)) == Some(#[trigger] stability_name(x))
}

pub open spec fn stability_faults_is(j: Json, x: StabilityFaults) -> bool {
    text_of(Some(j)) == Some(stability_name(x))
}

/// Reads `j` as a stability answer.
pub fn decode_stability_faults(j: &Json) -> (r: Result<StabilityFaults, ReportError>)
    ensures
        match r {
            Ok(x) => stability_faults_is(*j, x),
            Err(_) => !stability_faults_ok(*j),
        },
{
    if let Json::Str(s) = j {
        if str_eq(s.as_str(), "occasionally") {
            return Ok(StabilityFaults::Occasionally);
        } else if str_eq(s.as_str(), "notListed") {
            return Ok(StabilityFaults::NotListed);
        } else if str_eq(s.as_str(), "frequentCrashes") {
            return Ok(StabilityFaults::FrequentCrashes);
        }
        assert forall|x: StabilityFaults| text_of(Some(*j)) != Some(#[trigger] stability_name(x)) by {
            match x {
                StabilityFaults::Occasionally => {},
                StabilityFaults::NotListed => {},
                StabilityFaults::FrequentCrashes => {},
            }
        }
    }
    Err(ReportError::MalformedUpstreamData)
}

/// The upstream name of a performance answer.
pub open spec fn performance_name(x: PerformanceFaults) -> Seq<char> {
    match x {
        PerformanceFaults::SlightSlowdown => "slightSlowdown"@,
        PerformanceFaults::SignificantSlowdown => "significantSlowdown"@,
    }
}

pub open spec fn performance_faults_ok(j: Json) -> bool {
    exists|x: PerformanceFaults| text_of(Some(j)) == Some(#[trigger] performance_name(x))
}

pub open spec fn performance_faults_is(j: Json, x: PerformanceFaults) -> bool {
    text_of(Some(j)) == Some(performance_name(x))
}

/// Reads `j` as a performance answer.
pub fn decode_performance_faults(j: &Json) -> (r: Result<PerformanceFaults, ReportError>)
    ensures
        match r {
            Ok(x) => performance_faults_is(*j, x),
            Err(_) => !performance_faults_ok(*j),
        },
{
    if let Json::Str(s) = j {
        if str_eq(s.as_str(), "slightSlowdown") {
            return Ok(PerformanceFaults::SlightSlowdown);
        } else if str_eq(s.as_str(), "significantSlowdown") {
            return Ok(PerformanceFaults::SignificantSlowdown);
        }
        assert forall|x: PerformanceFaults| text_of(Some(*j)) != Some(#[trigger] performance_name(x)) by {
            match x {
                PerformanceFaults::SlightSlowdown => {},
                PerformanceFaults::SignificantSlowdown => {},
            }
        }
    }
    Err(ReportError::MalformedUpstreamData)
}

/// Reads every element of `a` as a report.
pub fn decode_report_list(a: &Vec<Json>) -> (r: Result<Vec<Report>, ReportError>)
    ensures
        match r {
            Ok(v) => v@.len() == a@.len() && forall|i: int|
                0 <= i < a@.len() ==> #[trigger] report_is(a@[i], v@[i]),
            Err(_) => !(forall|i: int| 0 <= i < a@.len() ==> #[trigger] report_ok(a@[i])),
        },
{
    let mut out: Vec<Report> = Vec::new();
    let mut i: usize = 0;
    while i < a.len()
        invariant
            i <= a@.len(),
            out@.len() == i,
            forall|k: int| 0 <= k < i ==> #[trigger] report_is(a@[k], out@[k]),
        decreases a@.len() - i,
    {
        match decode_report(&a[i]) {
            Ok(x) => out.push(x),
            Err(e) => {
                assert(!report_ok(a@[i as int]));
                return Err(e);
            },
        }
        i = i + 1;
    }
    Ok(out)
}

/// An optional nested value can be read with `ok`.
pub open spec fn opt_value_ok(v: Option<Json>, ok: spec_fn(Json) -> bool) -> bool {
    is_missing(v) || ok(v->Some_0)
}

/// An optional nested value reads as `o` by `is`.
pub open spec fn opt_value_is<T>(v: Option<Json>, o: Option<T>, is: spec_fn(Json, T) -> bool) -> bool {
    match o {
        Some(y) => !is_missing(v) && is(v->Some_0, y),
        None => is_missing(v),
    }
}

/// An optional non-negative integer field reads as `o`.
pub open spec fn opt_uint_is(v: Option<Json>, max: nat, o: Option<u16>) -> bool {
    match o {
        Some(n) => uint_of(v, max) == Some(n as nat),
        None => is_missing(v),
    }
}

/// The input follow-up's `other` entry, absent when left out.
pub open spec fn input_other_of(v: Option<Json>) -> Option<bool> {
    match v {
        Some(w) => spec_input_other(w),
        None => None,
    }
}

/// An array whose every element can be read as a report.
pub open spec fn all_reports_ok(v: Option<Json>) -> bool {
    match v {
        Some(Json::Array(a)) => forall|i: int| 0 <= i < a@.len() ==> #[trigger] report_ok(a@[i]),
        _ => false,
    }
}

/// An array whose elements read as the reports `xs`, in order.
pub open spec fn all_reports_are(v: Option<Json>, xs: Seq<Report>) -> bool {
    match v {
        Some(Json::Array(a)) => a@.len() == xs.len() && forall|i: int|
            0 <= i < a@.len() ==> #[trigger] report_is(a@[i], xs[i]),
        _ => false,
    }
}

/// `j` can be read as `ChromeOs`.
pub open spec fn chrome_os_ok(j: Json) -> bool {
    fields_of(j) is Some && {
        let f = fields_of(j)->Some_0;
        &&& text_of(lookup(f, "board"@)) is Some
        &&& text_of(lookup(f, "channel"@)) is Some
        &&& text_of(lookup(f, "chromeVersion"@)) is Some
        &&& text_of(lookup(f, "platform"@)) is Some
    }
}

/// `j` reads as `x`.
pub open spec fn chrome_os_is(j: Json, x: ChromeOs) -> bool {
    fields_of(j) is Some && {
        let f = fields_of(j)->Some_0;
        &&& str_is(lookup(f, "board"@), x.board)
        &&& str_is(lookup(f, "channel"@), x.channel)
        &&& str_is(lookup(f, "chromeVersion"@), x.chrome_version)
        &&& str_is(lookup(f, "platform"@), x.platform)
    }
}

/// Reads `j` as `ChromeOs`.
pub fn decode_chrome_os(j: &Json) -> (r: Result<ChromeOs, ReportError>)
    ensures
        match r {
            Ok(x) => chrome_os_is(*j, x),
            Err(_) => !chrome_os_ok(*j),
        },
{
    let f = match j {
        Json::Object(f) => f,
        _ => return Err(ReportError::MalformedUpstreamData),
    };
    let board = match req_str(f, "board") {
        Ok(v) => v,
        Err(e) => return Err(e),
    };
    let channel = match req_str(f, "channel") {
        Ok(v) => v,
        Err(e) => return Err(e),
    };
    let chrome_version = match req_str(f, "chromeVersion") {
        Ok(v) => v,
        Err(e) => return Err(e),
    };
    let platform = match req_str(f, "platform") {
        Ok(v) => v,
        Err(e) => return Err(e),
    };
    Ok(ChromeOs { board, channel, chrome_version, platform })
}

/// `j` can be read as `Specs`.
pub open spec fn specs_ok(j: Json) -> bool {
    fields_of(j) is Some && {
        let f = fields_of(j)->Some_0;
        &&& text_of(lookup(f, "cpu"@)) is Some
        &&& text_of(lookup(f, "gpu"@)) is Some
        &&& text_of(lookup(f, "gpuDriver"@)) is Some
        &&& text_of(lookup(f, "kernel"@)) is Some
        &&& text_of(lookup(f, "os"@)) is Some
        &&& text_of(lookup(f, "ram"@)) is Some
        &&& opt_str_ok(lookup(f, "steamRuntimeVersion"@))
        &&& opt_str_ok(lookup(f, "xWindowManager"@))
    }
}

/// `j` reads as `x`.
pub open spec fn specs_is(j: Json, x: Specs) -> bool {
    fields_of(j) is Some && {
        let f = fields_of(j)->Some_0;
        &&& str_is(lookup(f, "cpu"@), x.cpu)
        &&& str_is(lookup(f, "gpu"@), x.gpu)
        &&& str_is(lookup(f, "gpuDriver"@), x.gpu_driver)
        &&& str_is(lookup(f, "kernel"@), x.kernel)
        &&& str_is(lookup(f, "os"@), x.os)
        &&& str_is(lookup(f, "ram"@), x.ram)
        &&& opt_str_is(lookup(f, "steamRuntimeVersion"@), x.steam_runtime_version)
        &&& opt_str_is(lookup(f, "xWindowManager"@), x.x_window_manager)
    }
}

/// Reads `j` as `Specs`.
pub fn decode_specs(j: &Json) -> (r: Result<Specs, ReportError>)
    ensures
        match r {
            Ok(x) => specs_is(*j, x),
            Err(_) => !specs_ok(*j),
        },
{
    let f = match j {
        Json::Object(f) => f,
        _ => return Err(ReportError::MalformedUpstreamData),
    };
    let cpu = match req_str(f, "cpu") {
        Ok(v) => v,
        Err(e) => return Err(e),
    };
    let gpu = match req_str(f, "gpu") {
        Ok(v) => v,
        Err(e) => return Err(e),
    };
    let gpu_driver = match req_str(f, "gpuDriver") {
        Ok(v) => v,
        Err(e) => return Err(e),
    };
    let kernel = match req_str(f, "kernel") {
        Ok(v) => v,
        Err(e) => return Err(e),
    };
    let os = match req_str(f, "os") {
        Ok(v) => v,
        Err(e) => return Err(e),
    };
    let ram = match req_str(f, "ram") {
        Ok(v) => v,
        Err(e) => return Err(e),
    };
    let steam_runtime_version = match opt_str(f, "steamRuntimeVersion") {
        Ok(v) => v,
        Err(e) => return Err(e),
    };
    let x_window_manager = match opt_str(f, "xWindowManager") {
        Ok(v) => v,
        Err(e) => return Err(e),
    };
    Ok(Specs { cpu, gpu, gpu_driver, kernel, os, ram, steam_runtime_version, x_window_manager })
}

/// `j` can be read as `Inferred`.
pub open spec fn inferred_ok(j: Json) -> bool {
    fields_of(j) is Some && {
        let f = fields_of(j)->Some_0;
        &&& lookup(f, "steam"@) is Some && specs_ok(lookup(f, "steam"@)->Some_0)
        &&& opt_value_ok(lookup(f, "chromeOs"@), |j: Json| chrome_os_ok(j))
    }
}

/// `j` reads as `x`.
pub open spec fn inferred_is(j: Json, x: Inferred) -> bool {
    fields_of(j) is Some && {
        let f = fields_of(j)->Some_0;
        &&& lookup(f, "steam"@) is Some && specs_is(lookup(f, "steam"@)->Some_0, x.steam)
        &&& opt_value_is(
            lookup(f, "chromeOs"@),
            x.chrome_os,
            |j: Json, y: ChromeOs| chrome_os_is(j, y),
        )
    }
}

/// Reads `j` as `Inferred`.
pub fn decode_inferred(j: &Json) -> (r: Result<Inferred, ReportError>)
    ensures
        match r {
            Ok(x) => inferred_is(*j, x),
            Err(_) => !inferred_ok(*j),
        },
{
    let f = match j {
        Json::Object(f) => f,
        _ => return Err(ReportError::MalformedUpstreamData),
    };
    let steam = match get(f, "steam") {
        Some(v) => match decode_specs(v) {
            Ok(x) => x,
            Err(e) => return Err(e),
        },
        None => return Err(ReportError::MalformedUpstreamData),
    };
    let chrome_os = match get(f, "chromeOs") {
        None => None,
        Some(Json::Null) => None,
        Some(v) => match decode_chrome_os(v) {
            Ok(x) => Some(x),
            Err(e) => return Err(e),
        },
    };
    Ok(Inferred { steam, chrome_os })
}

/// `j` can be read as `Device`.
pub open spec fn device_ok(j: Json) -> bool {
    fields_of(j) is Some && {
        let f = fields_of(j)->Some_0;
        &&& text_of(lookup(f, "hardwareType"@)) is Some
        &&& lookup(f, "inferred"@) is Some && inferred_ok(lookup(f, "inferred"@)->Some_0)
    }
}

/// `j` reads as `x`.
pub open spec fn device_is(j: Json, x: Device) -> bool {
    fields_of(j) is Some && {
        let f = fields_of(j)->Some_0;
        &&& str_is(lookup(f, "hardwareType"@), x.hardware_type)
        &&& lookup(f, "inferred"@) is Some
        &&& inferred_is(lookup(f, "inferred"@)->Some_0, x.inferred)
    }
}

/// Reads `j` as `Device`.
pub fn decode_device(j: &Json) -> (r: Result<Device, ReportError>)
    ensures
        match r {
            Ok(x) => device_is(*j, x),
            Err(_) => !device_ok(*j),
        },
{
    let f = match j {
        Json::Object(f) => f,
        _ => return Err(ReportError::MalformedUpstreamData),
    };
    let hardware_type = match req_str(f, "hardwareType") {
        Ok(v) => v,
        Err(e) => return Err(e),
    };
    let inferred = match get(f, "inferred") {
        Some(v) => match decode_inferred(v) {
            Ok(x) => x,
            Err(e) => return Err(e),
        },
        None => return Err(ReportError::MalformedUpstreamData),
    };
    Ok(Device { hardware_type, inferred })
}

/// `j` can be read as `Notes`.
pub open spec fn notes_ok(j: Json) -> bool {
    fields_of(j) is Some && {
        let f = fields_of(j)->Some_0;
        &&& opt_str_ok(lookup(f, "audioFaults"@))
        &&& opt_str_ok(lookup(f, "graphicalFaults"@))
        &&& opt_str_ok(lookup(f, "inputFaults"@))
        &&& opt_str_ok(lookup(f, "performanceFaults"@))
        &&& opt_str_ok(lookup(f, "verdict"@))
        &&& opt_str_ok(lookup(f, "stabilityFaults"@))
        &&& opt_str_ok(lookup(f, "significantBugs"@))
        &&& opt_str_ok(lookup(f, "tinkerOverride"@))
        &&& opt_str_ok(lookup(f, "launcher"@))
        &&& opt_str_ok(lookup(f, "windowingFaults"@))
        &&& opt_str_ok(lookup(f, "saveGameFaults"@))
    }
}

/// `j` reads as `x`.
pub open spec fn notes_is(j: Json, x: Notes) -> bool {
    fields_of(j) is Some && {
        let f = fields_of(j)->Some_0;
        &&& opt_str_is(lookup(f, "audioFaults"@), x.audio_faults)
        &&& opt_str_is(lookup(f, "graphicalFaults"@), x.graphical_faults)
        &&& opt_str_is(lookup(f, "inputFaults"@), x.input_faults)
        &&& opt_str_is(lookup(f, "performanceFaults"@), x.performance_faults)
        &&& opt_str_is(lookup(f, "verdict"@), x.verdict)
        &&& opt_str_is(lookup(f, "stabilityFaults"@), x.stability_faults)
        &&& opt_str_is(lookup(f, "significantBugs"@), x.significant_bugs)
        &&& opt_str_is(lookup(f, "tinkerOverride"@), x.tinker_override)
        &&& opt_str_is(lookup(f, "launcher"@), x.launcher)
        &&& opt_str_is(lookup(f, "windowingFaults"@), x.windowing_faults)
        &&& opt_str_is(lookup(f, "saveGameFaults"@), x.save_game_faults)
    }
}

/// Reads `j` as `Notes`.
pub fn decode_notes(j: &Json) -> (r: Result<Notes, ReportError>)
    ensures
        match r {
            Ok(x) => notes_is(*j, x),
            Err(_) => !notes_ok(*j),
        },
{
    let f = match j {
        Json::Object(f) => f,
        _ => return Err(ReportError::MalformedUpstreamData),
    };
    let audio_faults = match opt_str(f, "audioFaults") {
        Ok(v) => v,
        Err(e) => return Err(e),
    };
    let graphical_faults = match opt_str(f, "graphicalFaults") {
        Ok(v) => v,
        Err(e) => return Err(e),
    };
    let input_faults = match opt_str(f, "inputFaults") {
        Ok(v) => v,
        Err(e) => return Err(e),
    };
    let performance_faults = match opt_str(f, "performanceFaults") {
        Ok(v) => v,
        Err(e) => return Err(e),
    };
    let verdict = match opt_str(f, "verdict") {
        Ok(v) => v,
        Err(e) => return Err(e),
    };
    let stability_faults = match opt_str(f, "stabilityFaults") {
        Ok(v) => v,
        Err(e) => return Err(e),
    };
    let significant_bugs = match opt_str(f, "significantBugs") {
        Ok(v) => v,
        Err(e) => return Err(e),
    };
    let tinker_override = match opt_str(f, "tinkerOverride") {
        Ok(v) => v,
        Err(e) => return Err(e),
    };
    let launcher = match opt_str(f, "launcher") {
        Ok(v) => v,
        Err(e) => return Err(e),
    };
    let windowing_faults = match opt_str(f, "windowingFaults") {
        Ok(v) => v,
        Err(e) => return Err(e),
    };
    let save_game_faults = match opt_str(f, "saveGameFaults") {
        Ok(v) => v,
        Err(e) => return Err(e),
    };
    Ok(Notes {
        audio_faults,
        graphical_faults,
        input_faults,
        performance_faults,
        verdict,
        stability_faults,
        significant_bugs,
        tinker_override,
        launcher,
        windowing_faults,
        save_game_faults,
    })
}

/// `j` can be read as `SaveGameFaults`.
pub open spec fn save_game_faults_ok(j: Json) -> bool {
    fields_of(j) is Some && {
        let f = fields_of(j)->Some_0;
        &&& opt_bool_ok(lookup(f, "errorLoading"@))
        &&& opt_bool_ok(lookup(f, "saveNotLoading"@))
    }
}

/// `j` reads as `x`.
pub open spec fn save_game_faults_is(j: Json, x: SaveGameFaults) -> bool {
    fields_of(j) is Some && {
        let f = fields_of(j)->Some_0;
        &&& opt_bool_is(lookup(f, "errorLoading"@), x.error_loading)
        &&& opt_bool_is(lookup(f, "saveNotLoading"@), x.other)
    }
}

/// Reads `j` as `SaveGameFaults`.
pub fn decode_save_game_faults(j: &Json) -> (r: Result<SaveGameFaults, ReportError>)
    ensures
        match r {
            Ok(x) => save_game_faults_is(*j, x),
            Err(_) => !save_game_faults_ok(*j),
        },
{
    let f = match j {
        Json::Object(f) => f,
        _ => return Err(ReportError::MalformedUpstreamData),
    };
    let error_loading = match opt_bool(f, "errorLoading") {
        Ok(v) => v,
        Err(e) => return Err(e),
    };
    let other = match opt_bool(f, "saveNotLoading") {
        Ok(v) => v,
        Err(e) => return Err(e),
    };
    Ok(SaveGameFaults { error_loading, other })
}

/// `j` can be read as `WindowingFaults`.
pub open spec fn windowing_faults_ok(j: Json) -> bool {
    fields_of(j) is Some && {
        let f = fields_of(j)->Some_0;
        &&& opt_bool_ok(lookup(f, "fullNotFull"@))
        &&& opt_bool_ok(lookup(f, "other"@))
        &&& opt_bool_ok(lookup(f, "switching"@))
    }
}

/// `j` reads as `x`.
pub open spec fn windowing_faults_is(j: Json, x: WindowingFaults) -> bool {
    fields_of(j) is Some && {
        let f = fields_of(j)->Some_0;
        &&& opt_bool_is(lookup(f, "fullNotFull"@), x.full_not_full)
        &&& opt_bool_is(lookup(f, "other"@), x.other)
        &&& opt_bool_is(lookup(f, "switching"@), x.switching)
    }
}

/// Reads `j` as `WindowingFaults`.
pub fn decode_windowing_faults(j: &Json) -> (r: Result<WindowingFaults, ReportError>)
    ensures
        match r {
            Ok(x) => windowing_faults_is(*j, x),
            Err(_) => !windowing_faults_ok(*j),
        },
{
    let f = match j {
        Json::Object(f) => f,
        _ => return Err(ReportError::MalformedUpstreamData),
    };
    let full_not_full = match opt_bool(f, "fullNotFull") {
        Ok(v) => v,
        Err(e) => return Err(e),
    };
    let other = match opt_bool(f, "other") {
        Ok(v) => v,
        Err(e) => return Err(e),
    };
    let switching = match opt_bool(f, "switching") {
        Ok(v) => v,
        Err(e) => return Err(e),
    };
    Ok(WindowingFaults { full_not_full, other, switching })
}

/// `j` can be read as `InputFaults`.
pub open spec fn input_faults_ok(j: Json) -> bool {
    fields_of(j) is Some && {
        let f = fields_of(j)->Some_0;
        &&& opt_bool_ok(lookup(f, "controllerNotDetected"@))
        &&& opt_bool_ok(lookup(f, "bounding"@))
        &&& opt_bool_ok(lookup(f, "lag"@))
    }
}

/// `j` reads as `x`.
pub open spec fn input_faults_is(j: Json, x: InputFaults) -> bool {
    fields_of(j) is Some && {
        let f = fields_of(j)->Some_0;
        &&& opt_bool_is(lookup(f, "controllerNotDetected"@), x.controller_not_detected)
        &&& opt_bool_is(lookup(f, "bounding"@), x.bounding)
        &&& x.other == input_other_of(lookup(f, "other"@))
        &&& opt_bool_is(lookup(f, "lag"@), x.lag)
    }
}

/// Reads `j` as `InputFaults`.
pub fn decode_input_faults(j: &Json) -> (r: Result<InputFaults, ReportError>)
    ensures
        match r {
            Ok(x) => input_faults_is(*j, x),
            Err(_) => !input_faults_ok(*j),
        },
{
    let f = match j {
        Json::Object(f) => f,
        _ => return Err(ReportError::MalformedUpstreamData),
    };
    let controller_not_detected = match opt_bool(f, "controllerNotDetected") {
        Ok(v) => v,
        Err(e) => return Err(e),
    };
    let bounding = match opt_bool(f, "bounding") {
        Ok(v) => v,
        Err(e) => return Err(e),
    };
    let other = match get(f, "other") {
        Some(v) => decode_input_faults_other(v),
        None => None,
    };
    let lag = match opt_bool(f, "lag") {
        Ok(v) => v,
        Err(e) => return Err(e),
    };
    Ok(InputFaults { controller_not_detected, bounding, other, lag })
}

/// `j` can be read as `GraphicalFaults`.
pub open spec fn graphical_faults_ok(j: Json) -> bool {
    fields_of(j) is Some && {
        let f = fields_of(j)->Some_0;
        &&& opt_bool_ok(lookup(f, "minorArtifacts"@))
        &&& opt_bool_ok(lookup(f, "other"@))
        &&& opt_bool_ok(lookup(f, "heavyArtifacts"@))
    }
}

/// `j` reads as `x`.
pub open spec fn graphical_faults_is(j: Json, x: GraphicalFaults) -> bool {
    fields_of(j) is Some && {
        let f = fields_of(j)->Some_0;
        &&& opt_bool_is(lookup(f, "minorArtifacts"@), x.minor_artifacts)
        &&& opt_bool_is(lookup(f, "other"@), x.other)
        &&& opt_bool_is(lookup(f, "heavyArtifacts"@), x.heavy_artifacts)
    }
}

/// Reads `j` as `GraphicalFaults`.
pub fn decode_graphical_faults(j: &Json) -> (r: Result<GraphicalFaults, ReportError>)
    ensures
        match r {
            Ok(x) => graphical_faults_is(*j, x),
            Err(_) => !graphical_faults_ok(*j),
        },
{
    let f = match j {
        Json::Object(f) => f,
        _ => return Err(ReportError::MalformedUpstreamData),
    };
    let minor_artifacts = match opt_bool(f, "minorArtifacts") {
        Ok(v) => v,
        Err(e) => return Err(e),
    };
    let other = match opt_bool(f, "other") {
        Ok(v) => v,
        Err(e) => return Err(e),
    };
    let heavy_artifacts = match opt_bool(f, "heavyArtifacts") {
        Ok(v) => v,
        Err(e) => return Err(e),
    };
    Ok(GraphicalFaults { minor_artifacts, other, heavy_artifacts })
}

/// `j` can be read as `AudioFaults`.
pub open spec fn audio_faults_ok(j: Json) -> bool {
    fields_of(j) is Some && {
        let f = fields_of(j)->Some_0;
        &&& opt_bool_ok(lookup(f, "lowQuality"@))
        &&& opt_bool_ok(lookup(f, "other"@))
    }
}

/// `j` reads as `x`.
pub open spec fn audio_faults_is(j: Json, x: AudioFaults) -> bool {
    fields_of(j) is Some && {
        let f = fields_of(j)->Some_0;
        &&& opt_bool_is(lookup(f, "lowQuality"@), x.low_quality)
        &&& opt_bool_is(lookup(f, "other"@), x.other)
    }
}

/// Reads `j` as `AudioFaults`.
pub fn decode_audio_faults(j: &Json) -> (r: Result<AudioFaults, ReportError>)
    ensures
        match r {
            Ok(x) => audio_faults_is(*j, x),
            Err(_) => !audio_faults_ok(*j),
        },
{
    let f = match j {
        Json::Object(f) => f,
        _ => return Err(ReportError::MalformedUpstreamData),
    };
    let low_quality = match opt_bool(f, "lowQuality") {
        Ok(v) => v,
        Err(e) => return Err(e),
    };
    let other = match opt_bool(f, "other") {
        Ok(v) => v,
        Err(e) => return Err(e),
    };
    Ok(AudioFaults { low_quality, other })
}

/// `j` can be read as `FollowUp`.
pub open spec fn follow_up_ok(j: Json) -> bool {
    fields_of(j) is Some && {
        let f = fields_of(j)->Some_0;
        &&& opt_value_ok(lookup(f, "audioFaults"@), |j: Json| audio_faults_ok(j))
        &&& opt_value_ok(lookup(f, "graphicalFaults"@), |j: Json| graphical_faults_ok(j))
        &&& opt_value_ok(lookup(f, "inputFaults"@), |j: Json| input_faults_ok(j))
        &&& opt_value_ok(lookup(f, "performanceFaults"@), |j: Json| performance_faults_ok(j))
        &&& opt_value_ok(lookup(f, "windowingFaults"@), |j: Json| windowing_faults_ok(j))
        &&& opt_value_ok(lookup(f, "stabilityFaults"@), |j: Json| stability_faults_ok(j))
        &&& opt_value_ok(lookup(f, "saveGameFaults"@), |j: Json| save_game_faults_ok(j))
    }
}

/// `j` reads as `x`.
pub open spec fn follow_up_is(j: Json, x: FollowUp) -> bool {
    fields_of(j) is Some && {
        let f = fields_of(j)->Some_0;
        &&& opt_value_is(
            lookup(f, "audioFaults"@),
            x.audio_faults,
            |j: Json, y: AudioFaults| audio_faults_is(j, y),
        )
        &&& opt_value_is(
            lookup(f, "graphicalFaults"@),
            x.graphical_faults,
            |j: Json, y: GraphicalFaults| graphical_faults_is(j, y),
        )
        &&& opt_value_is(
            lookup(f, "inputFaults"@),
            x.input_faults,
            |j: Json, y: InputFaults| input_faults_is(j, y),
        )
        &&& opt_value_is(
            lookup(f, "performanceFaults"@),
            x.performance_faults,
            |j: Json, y: PerformanceFaults| performance_faults_is(j, y),
        )
        &&& opt_value_is(
            lookup(f, "windowingFaults"@),
            x.windowing_faults,
            |j: Json, y: WindowingFaults| windowing_faults_is(j, y),
        )
        &&& opt_value_is(
            lookup(f, "stabilityFaults"@),
            x.stability_faults,
            |j: Json, y: StabilityFaults| stability_faults_is(j, y),
        )
        &&& opt_value_is(
            lookup(f, "saveGameFaults"@),
            x.save_game_faults,
            |j: Json, y: SaveGameFaults| save_game_faults_is(j, y),
        )
    }
}

/// Reads `j` as `FollowUp`.
pub fn decode_follow_up(j: &Json) -> (r: Result<FollowUp, ReportError>)
    ensures
        match r {
            Ok(x) => follow_up_is(*j, x),
            Err(_) => !follow_up_ok(*j),
        },
{
    let f = match j {
        Json::Object(f) => f,
        _ => return Err(ReportError::MalformedUpstreamData),
    };
    let audio_faults = match get(f, "audioFaults") {
        None => None,
        Some(Json::Null) => None,
        Some(v) => match decode_audio_faults(v) {
            Ok(x) => Some(x),
            Err(e) => return Err(e),
        },
    };
    let graphical_faults = match get(f, "graphicalFaults") {
        None => None,
        Some(Json::Null) => None,
        Some(v) => match decode_graphical_faults(v) {
            Ok(x) => Some(x),
            Err(e) => return Err(e),
        },
    };
    let input_faults = match get(f, "inputFaults") {
        None => None,
        Some(Json::Null) => None,
        Some(v) => match decode_input_faults(v) {
            Ok(x) => Some(x),
            Err(e) => return Err(e),
        },
    };
    let performance_faults = match get(f, "performanceFaults") {
        None => None,
        Some(Json::Null) => None,
        Some(v) => match decode_performance_faults(v) {
            Ok(x) => Some(x),
            Err(e) => return Err(e),
        },
    };
    let windowing_faults = match get(f, "windowingFaults") {
        None => None,
        Some(Json::Null) => None,
        Some(v) => match decode_windowing_faults(v) {
            Ok(x) => Some(x),
            Err(e) => return Err(e),
        },
    };
    let stability_faults = match get(f, "stabilityFaults") {
        None => None,
        Some(Json::Null) => None,
        Some(v) => match decode_stability_faults(v) {
            Ok(x) => Some(x),
            Err(e) => return Err(e),
        },
    };
    let save_game_faults = match get(f, "saveGameFaults") {
        None => None,
        Some(Json::Null) => None,
        Some(v) => match decode_save_game_faults(v) {
            Ok(x) => Some(x),
            Err(e) => return Err(e),
        },
    };
    Ok(FollowUp {
        audio_faults,
        graphical_faults,
        input_faults,
        performance_faults,
        windowing_faults,
        stability_faults,
        save_game_faults,
    })
}

/// `j` can be read as `CustomizationsUsed`.
pub open spec fn customizations_used_ok(j: Json) -> bool {
    fields_of(j) is Some && {
        let f = fields_of(j)->Some_0;
        &&& opt_bool_ok(lookup(f, "configChange"@))
        &&& opt_bool_ok(lookup(f, "winetricks"@))
        &&& opt_bool_ok(lookup(f, "lutris"@))
        &&& opt_bool_ok(lookup(f, "mediaFoundation"@))
        &&& opt_bool_ok(lookup(f, "protontricks"@))
    }
}

/// `j` reads as `x`.
pub open spec fn customizations_used_is(j: Json, x: CustomizationsUsed) -> bool {
    fields_of(j) is Some && {
        let f = fields_of(j)->Some_0;
        &&& opt_bool_is(lookup(f, "configChange"@), x.config_change)
        &&& opt_bool_is(lookup(f, "winetricks"@), x.winetricks)
        &&& opt_bool_is(lookup(f, "lutris"@), x.lutris)
        &&& opt_bool_is(lookup(f, "mediaFoundation"@), x.media_foundation)
        &&& opt_bool_is(lookup(f, "protontricks"@), x.protontricks)
    }
}

/// Reads `j` as `CustomizationsUsed`.
pub fn decode_customizations_used(j: &Json) -> (r: Result<CustomizationsUsed, ReportError>)
    ensures
        match r {
            Ok(x) => customizations_used_is(*j, x),
            Err(_) => !customizations_used_ok(*j),
        },
{
    let f = match j {
        Json::Object(f) => f,
        _ => return Err(ReportError::MalformedUpstreamData),
    };
    let config_change = match opt_bool(f, "configChange") {
        Ok(v) => v,
        Err(e) => return Err(e),
    };
    let winetricks = match opt_bool(f, "winetricks") {
        Ok(v) => v,
        Err(e) => return Err(e),
    };
    let lutris = match opt_bool(f, "lutris") {
        Ok(v) => v,
        Err(e) => return Err(e),
    };
    let media_foundation = match opt_bool(f, "mediaFoundation") {
        Ok(v) => v,
        Err(e) => return Err(e),
    };
    let protontricks = match opt_bool(f, "protontricks") {
        Ok(v) => v,
        Err(e) => return Err(e),
    };
    Ok(CustomizationsUsed { config_change, winetricks, lutris, media_foundation, protontricks })
}

/// `j` can be read as `Responses`.
pub open spec fn responses_ok(j: Json) -> bool {
    fields_of(j) is Some && {
        let f = fields_of(j)->Some_0;
        &&& text_of(lookup(f, "answerToWhatGame"@)) is Some
        &&& opt_str_ok(lookup(f, "audioFaults"@))
        &&& opt_str_ok(lookup(f, "concludingNotes"@))
        &&& opt_value_ok(lookup(f, "customizationsUsed"@), |j: Json| customizations_used_ok(j))
        &&& opt_value_ok(lookup(f, "followUp"@), |j: Json| follow_up_ok(j))
        &&& opt_str_ok(lookup(f, "graphicalFaults"@))
        &&& opt_str_ok(lookup(f, "inputFaults"@))
        &&& text_of(lookup(f, "installs"@)) is Some
        &&& opt_str_ok(lookup(f, "launcher"@))
        &&& lookup(f, "notes"@) is Some && notes_ok(lookup(f, "notes"@)->Some_0)
        &&& text_of(lookup(f, "opens"@)) is Some
        &&& opt_str_ok(lookup(f, "performanceFaults"@))
        &&& opt_str_ok(lookup(f, "saveGameFaults"@))
        &&& opt_str_ok(lookup(f, "significantBugs"@))
        &&& opt_str_ok(lookup(f, "stabilityFaults"@))
        &&& opt_str_ok(lookup(f, "startsPlay"@))
        &&& opt_str_ok(lookup(f, "tinkerOverride"@))
        &&& opt_str_ok(lookup(f, "triedOob"@))
        &&& opt_str_ok(lookup(f, "variant"@))
        &&& text_of(lookup(f, "verdict"@)) is Some
        &&& opt_str_ok(lookup(f, "verdictOob"@))
        &&& opt_str_ok(lookup(f, "windowingFaults"@))
        &&& text_of(lookup(f, "protonVersion"@)) is Some
        &&& opt_str_ok(lookup(f, "customProtonVersion"@))
        &&& opt_str_ok(lookup(f, "launchOptions"@))
        &&& opt_str_ok(lookup(f, "batteryPerformance"@))
        &&& opt_str_ok(lookup(f, "didChangeControlLayout"@))
        &&& opt_str_ok(lookup(f, "readability"@))
        &&& opt_str_ok(lookup(f, "secondaryLauncher"@))
        &&& opt_str_ok(lookup(f, "appSelectionMethod"@))
    }
}

/// `j` reads as `x`.
pub open spec fn responses_is(j: Json, x: Responses) -> bool {
    fields_of(j) is Some && {
        let f = fields_of(j)->Some_0;
        &&& str_is(lookup(f, "answerToWhatGame"@), x.answer_to_what_game)
        &&& opt_str_is(lookup(f, "audioFaults"@), x.audio_faults)
        &&& opt_str_is(lookup(f, "concludingNotes"@), x.concluding_notes)
        &&& opt_value_is(
            lookup(f, "customizationsUsed"@),
            x.customizations_used,
            |j: Json, y: CustomizationsUsed| customizations_used_is(j, y),
        )
        &&& opt_value_is(
            lookup(f, "followUp"@),
            x.follow_up,
            |j: Json, y: FollowUp| follow_up_is(j, y),
        )
        &&& opt_str_is(lookup(f, "graphicalFaults"@), x.graphical_faults)
        &&& opt_str_is(lookup(f, "inputFaults"@), x.input_faults)
        &&& str_is(lookup(f, "installs"@), x.installs)
        &&& opt_str_is(lookup(f, "launcher"@), x.launcher)
        &&& lookup(f, "notes"@) is Some && notes_is(lookup(f, "notes"@)->Some_0, x.notes)
        &&& str_is(lookup(f, "opens"@), x.opens)
        &&& opt_str_is(lookup(f, "performanceFaults"@), x.performance_faults)
        &&& opt_str_is(lookup(f, "saveGameFaults"@), x.save_game_faults)
        &&& opt_str_is(lookup(f, "significantBugs"@), x.significant_bugs)
        &&& opt_str_is(lookup(f, "stabilityFaults"@), x.stability_faults)
        &&& opt_str_is(lookup(f, "startsPlay"@), x.starts_play)
        &&& opt_str_is(lookup(f, "tinkerOverride"@), x.tinker_override)
        &&& opt_str_is(lookup(f, "triedOob"@), x.tried_oob)
        &&& opt_str_is(lookup(f, "variant"@), x.variant)
        &&& str_is(lookup(f, "verdict"@), x.verdict)
        &&& opt_str_is(lookup(f, "verdictOob"@), x.verdict_oob)
        &&& opt_str_is(lookup(f, "windowingFaults"@), x.windowing_faults)
        &&& str_is(lookup(f, "protonVersion"@), x.proton_version)
        &&& opt_str_is(lookup(f, "customProtonVersion"@), x.custom_proton_version)
        &&& opt_str_is(lookup(f, "launchOptions"@), x.launch_options)
        &&& opt_str_is(lookup(f, "batteryPerformance"@), x.battery_performance)
        &&& opt_str_is(lookup(f, "didChangeControlLayout"@), x.did_change_control_layout)
        &&& opt_str_is(lookup(f, "readability"@), x.readability)
        &&& opt_str_is(lookup(f, "secondaryLauncher"@), x.secondary_launcher)
        &&& opt_str_is(lookup(f, "appSelectionMethod"@), x.app_selection_method)
    }
}

/// Reads `j` as `Responses`.
pub fn decode_responses(j: &Json) -> (r: Result<Responses, ReportError>)
    ensures
        match r {
            Ok(x) => responses_is(*j, x),
            Err(_) => !responses_ok(*j),
        },
{
    let f = match j {
        Json::Object(f) => f,
        _ => return Err(ReportError::MalformedUpstreamData),
    };
    let answer_to_what_game = match req_str(f, "answerToWhatGame") {
        Ok(v) => v,
        Err(e) => return Err(e),
    };
    let audio_faults = match opt_str(f, "audioFaults") {
        Ok(v) => v,
        Err(e) => return Err(e),
    };
    let concluding_notes = match opt_str(f, "concludingNotes") {
        Ok(v) => v,
        Err(e) => return Err(e),
    };
    let customizations_used = match get(f, "customizationsUsed") {
        None => None,
        Some(Json::Null) => None,
        Some(v) => match decode_customizations_used(v) {
            Ok(x) => Some(x),
            Err(e) => return Err(e),
        },
    };
    let follow_up = match get(f, "followUp") {
        None => None,
        Some(Json::Null) => None,
        Some(v) => match decode_follow_up(v) {
            Ok(x) => Some(x),
            Err(e) => return Err(e),
        },
    };
    let graphical_faults = match opt_str(f, "graphicalFaults") {
        Ok(v) => v,
        Err(e) => return Err(e),
    };
    let input_faults = match opt_str(f, "inputFaults") {
        Ok(v) => v,
        Err(e) => return Err(e),
    };
    let installs = match req_str(f, "installs") {
        Ok(v) => v,
        Err(e) => return Err(e),
    };
    let launcher = match opt_str(f, "launcher") {
        Ok(v) => v,
        Err(e) => return Err(e),
    };
    let notes = match get(f, "notes") {
        Some(v) => match decode_notes(v) {
            Ok(x) => x,
            Err(e) => return Err(e),
        },
        None => return Err(ReportError::MalformedUpstreamData),
    };
    let opens = match req_str(f, "opens") {
        Ok(v) => v,
        Err(e) => return Err(e),
    };
    let performance_faults = match opt_str(f, "performanceFaults") {
        Ok(v) => v,
        Err(e) => return Err(e),
    };
    let save_game_faults = match opt_str(f, "saveGameFaults") {
        Ok(v) => v,
        Err(e) => return Err(e),
    };
    let significant_bugs = match opt_str(f, "significantBugs") {
        Ok(v) => v,
        Err(e) => return Err(e),
    };
    let stability_faults = match opt_str(f, "stabilityFaults") {
        Ok(v) => v,
        Err(e) => return Err(e),
    };
    let starts_play = match opt_str(f, "startsPlay") {
        Ok(v) => v,
        Err(e) => return Err(e),
    };
    let tinker_override = match opt_str(f, "tinkerOverride") {
        Ok(v) => v,
        Err(e) => return Err(e),
    };
    let tried_oob = match opt_str(f, "triedOob") {
        Ok(v) => v,
        Err(e) => return Err(e),
    };
    let variant = match opt_str(f, "variant") {
        Ok(v) => v,
        Err(e) => return Err(e),
    };
    let verdict = match req_str(f, "verdict") {
        Ok(v) => v,
        Err(e) => return Err(e),
    };
    let verdict_oob = match opt_str(f, "verdictOob") {
        Ok(v) => v,
        Err(e) => return Err(e),
    };
    let windowing_faults = match opt_str(f, "windowingFaults") {
        Ok(v) => v,
        Err(e) => return Err(e),
    };
    let proton_version = match req_str(f, "protonVersion") {
        Ok(v) => v,
        Err(e) => return Err(e),
    };
    let custom_proton_version = match opt_str(f, "customProtonVersion") {
        Ok(v) => v,
        Err(e) => return Err(e),
    };
    let launch_options = match opt_str(f, "launchOptions") {
        Ok(v) => v,
        Err(e) => return Err(e),
    };
    let battery_performance = match opt_str(f, "batteryPerformance") {
        Ok(v) => v,
        Err(e) => return Err(e),
    };
    let did_change_control_layout = match opt_str(f, "didChangeControlLayout") {
        Ok(v) => v,
        Err(e) => return Err(e),
    };
    let readability = match opt_str(f, "readability") {
        Ok(v) => v,
        Err(e) => return Err(e),
    };
    let secondary_launcher = match opt_str(f, "secondaryLauncher") {
        Ok(v) => v,
        Err(e) => return Err(e),
    };
    let app_selection_method = match opt_str(f, "appSelectionMethod") {
        Ok(v) => v,
        Err(e) => return Err(e),
    };
    Ok(Responses {
        answer_to_what_game,
        audio_faults,
        concluding_notes,
        customizations_used,
        follow_up,
        graphical_faults,
        input_faults,
        installs,
        launcher,
        notes,
        opens,
        performance_faults,
        save_game_faults,
        significant_bugs,
        stability_faults,
        starts_play,
        tinker_override,
        tried_oob,
        variant,
        verdict,
        verdict_oob,
        windowing_faults,
        proton_version,
        custom_proton_version,
        launch_options,
        battery_performance,
        did_change_control_layout,
        readability,
        secondary_launcher,
        app_selection_method,
    })
}

/// `j` can be read as `Steam`.
pub open spec fn steam_ok(j: Json) -> bool {
    fields_of(j) is Some && {
        let f = fields_of(j)->Some_0;
        &&& bool_of(lookup(f, "owned"@)) is Some
        &&& uint_of(lookup(f, "playtime"@), 65535) is Some
        &&& text_of(lookup(f, "avatar"@)) is Some
        &&& text_of(lookup(f, "nickname"@)) is Some
        &&& opt_uint_ok(lookup(f, "playtimeLinux"@), 65535)
    }
}

/// `j` reads as `x`.
pub open spec fn steam_is(j: Json, x: Steam) -> bool {
    fields_of(j) is Some && {
        let f = fields_of(j)->Some_0;
        &&& bool_of(lookup(f, "owned"@)) == Some(x.owned)
        &&& uint_of(lookup(f, "playtime"@), 65535) == Some(x.playtime as nat)
        &&& str_is(lookup(f, "avatar"@), x.avatar)
        &&& str_is(lookup(f, "nickname"@), x.nickname)
        &&& opt_uint_is(lookup(f, "playtimeLinux"@), 65535, x.playtime_linux)
    }
}

/// Reads `j` as `Steam`.
pub fn decode_steam(j: &Json) -> (r: Result<Steam, ReportError>)
    ensures
        match r {
            Ok(x) => steam_is(*j, x),
            Err(_) => !steam_ok(*j),
        },
{
    let f = match j {
        Json::Object(f) => f,
        _ => return Err(ReportError::MalformedUpstreamData),
    };
    let owned = match req_bool(f, "owned") {
        Ok(v) => v,
        Err(e) => return Err(e),
    };
    let playtime = match req_uint(f, "playtime", 65535) {
        Ok(v) => v as u16,
        Err(e) => return Err(e),
    };
    let avatar = match req_str(f, "avatar") {
        Ok(v) => v,
        Err(e) => return Err(e),
    };
    let nickname = match req_str(f, "nickname") {
        Ok(v) => v,
        Err(e) => return Err(e),
    };
    let playtime_linux = match opt_uint(f, "playtimeLinux", 65535) {
        Ok(Some(v)) => Some(v as u16),
        Ok(None) => None,
        Err(e) => return Err(e),
    };
    Ok(Steam { owned, playtime, avatar, nickname, playtime_linux })
}

/// `j` can be read as `Contributor`.
pub open spec fn contributor_ok(j: Json) -> bool {
    fields_of(j) is Some && {
        let f = fields_of(j)->Some_0;
        &&& text_of(lookup(f, "id"@)) is Some
        &&& uint_of(lookup(f, "reportTally"@), 65535) is Some
        &&& lookup(f, "steam"@) is Some && steam_ok(lookup(f, "steam"@)->Some_0)
    }
}

/// `j` reads as `x`.
pub open spec fn contributor_is(j: Json, x: Contributor) -> bool {
    fields_of(j) is Some && {
        let f = fields_of(j)->Some_0;
        &&& str_is(lookup(f, "id"@), x.id)
        &&& uint_of(lookup(f, "reportTally"@), 65535) == Some(x.report_tally as nat)
        &&& lookup(f, "steam"@) is Some && steam_is(lookup(f, "steam"@)->Some_0, x.steam)
    }
}

/// Reads `j` as `Contributor`.
pub fn decode_contributor(j: &Json) -> (r: Result<Contributor, ReportError>)
    ensures
        match r {
            Ok(x) => contributor_is(*j, x),
            Err(_) => !contributor_ok(*j),
        },
{
    let f = match j {
        Json::Object(f) => f,
        _ => return Err(ReportError::MalformedUpstreamData),
    };
    let id = match req_str(f, "id") {
        Ok(v) => v,
        Err(e) => return Err(e),
    };
    let report_tally = match req_uint(f, "reportTally", 65535) {
        Ok(v) => v as u16,
        Err(e) => return Err(e),
    };
    let steam = match get(f, "steam") {
        Some(v) => match decode_steam(v) {
            Ok(x) => x,
            Err(e) => return Err(e),
        },
        None => return Err(ReportError::MalformedUpstreamData),
    };
    Ok(Contributor { id, report_tally, steam })
}

/// `j` can be read as `Report`.
pub open spec fn report_ok(j: Json) -> bool {
    fields_of(j) is Some && {
        let f = fields_of(j)->Some_0;
        &&& lookup(f, "contributor"@) is Some && contributor_ok(lookup(f, "contributor"@)->Some_0)
        &&& text_of(lookup(f, "id"@)) is Some
        &&& lookup(f, "responses"@) is Some && responses_ok(lookup(f, "responses"@)->Some_0)
        &&& uint_of(lookup(f, "timestamp"@), 4294967295) is Some
        &&& lookup(f, "device"@) is Some && device_ok(lookup(f, "device"@)->Some_0)
    }
}

/// `j` reads as `x`.
pub open spec fn report_is(j: Json, x: Report) -> bool {
    fields_of(j) is Some && {
        let f = fields_of(j)->Some_0;
        &&& lookup(f, "contributor"@) is Some
        &&& contributor_is(lookup(f, "contributor"@)->Some_0, x.contributor)
        &&& str_is(lookup(f, "id"@), x.id)
        &&& lookup(f, "responses"@) is Some
        &&& responses_is(lookup(f, "responses"@)->Some_0, x.responses)
        &&& uint_of(lookup(f, "timestamp"@), 4294967295) == Some(x.timestamp as nat)
        &&& lookup(f, "device"@) is Some && device_is(lookup(f, "device"@)->Some_0, x.device)
    }
}

/// Reads `j` as `Report`.
pub fn decode_report(j: &Json) -> (r: Result<Report, ReportError>)
    ensures
        match r {
            Ok(x) => report_is(*j, x),
            Err(_) => !report_ok(*j),
        },
{
    let f = match j {
        Json::Object(f) => f,
        _ => return Err(ReportError::MalformedUpstreamData),
    };
    let contributor = match get(f, "contributor") {
        Some(v) => match decode_contributor(v) {
            Ok(x) => x,
            Err(e) => return Err(e),
        },
        None => return Err(ReportError::MalformedUpstreamData),
    };
    let id = match req_str(f, "id") {
        Ok(v) => v,
        Err(e) => return Err(e),
    };
    let responses = match get(f, "responses") {
        Some(v) => match decode_responses(v) {
            Ok(x) => x,
            Err(e) => return Err(e),
        },
        None => return Err(ReportError::MalformedUpstreamData),
    };
    let timestamp = match req_uint(f, "timestamp", 4294967295) {
        Ok(v) => v as u32,
        Err(e) => return Err(e),
    };
    let device = match get(f, "device") {
        Some(v) => match decode_device(v) {
            Ok(x) => x,
            Err(e) => return Err(e),
        },
        None => return Err(ReportError::MalformedUpstreamData),
    };
    Ok(Report { contributor, id, responses, timestamp, device })
}

/// `j` can be read as `Reports`.
pub open spec fn reports_ok(j: Json) -> bool {
    fields_of(j) is Some && {
        let f = fields_of(j)->Some_0;
        &&& uint_of(lookup(f, "page"@), 255) is Some
        &&& uint_of(lookup(f, "perPage"@), 255) is Some
        &&& all_reports_ok(lookup(f, "reports"@))
        &&& uint_of(lookup(f, "total"@), 65535) is Some
    }
}

/// `j` reads as `x`.
pub open spec fn reports_is(j: Json, x: Reports) -> bool {
    fields_of(j) is Some && {
        let f = fields_of(j)->Some_0;
        &&& uint_of(lookup(f, "page"@), 255) == Some(x.page as nat)
        &&& uint_of(lookup(f, "perPage"@), 255) == Some(x.per_page as nat)
        &&& all_reports_are(lookup(f, "reports"@), x.reports@)
        &&& uint_of(lookup(f, "total"@), 65535) == Some(x.total as nat)
    }
}

/// Reads `j` as `Reports`.
pub fn decode_reports(j: &Json) -> (r: Result<Reports, ReportError>)
    ensures
        match r {
            Ok(x) => reports_is(*j, x),
            Err(_) => !reports_ok(*j),
        },
{
    let f = match j {
        Json::Object(f) => f,
        _ => return Err(ReportError::MalformedUpstreamData),
    };
    let page = match req_uint(f, "page", 255) {
        Ok(v) => v as u8,
        Err(e) => return Err(e),
    };
    let per_page = match req_uint(f, "perPage", 255) {
        Ok(v) => v as u8,
        Err(e) => return Err(e),
    };
    let reports = match get(f, "reports") {
        Some(Json::Array(a)) => match decode_report_list(a) {
            Ok(v) => v,
            Err(e) => return Err(e),
        },
        _ => return Err(ReportError::MalformedUpstreamData),
    };
    let total = match req_uint(f, "total", 65535) {
        Ok(v) => v as u16,
        Err(e) => return Err(e),
    };
    Ok(Reports { page, per_page, reports, total })
}

/// The document of a report holds none of the optional fields of the
/// survey answers, their notes, the contributor's Steam profile or the
/// device.
pub open spec fn leaves_out_optional(j: Json) -> bool {
    let top = fields_of(j)->Some_0;
    let resp = fields_of(lookup(top, "responses"@)->Some_0)->Some_0;
    let notes = fields_of(lookup(resp, "notes"@)->Some_0)->Some_0;
    let contributor = fields_of(lookup(top, "contributor"@)->Some_0)->Some_0;
    let steam = fields_of(lookup(contributor, "steam"@)->Some_0)->Some_0;
    let device = fields_of(lookup(top, "device"@)->Some_0)->Some_0;
    let inferred = fields_of(lookup(device, "inferred"@)->Some_0)->Some_0;
    let specs = fields_of(lookup(inferred, "steam"@)->Some_0)->Some_0;
    &&& lookup(resp, "audioFaults"@) is None
    &&& lookup(resp, "concludingNotes"@) is None
    &&& lookup(resp, "customizationsUsed"@) is None
    &&& lookup(resp, "followUp"@) is None
    &&& lookup(resp, "graphicalFaults"@) is None
    &&& lookup(resp, "inputFaults"@) is None
    &&& lookup(resp, "launcher"@) is None
    &&& lookup(resp, "performanceFaults"@) is None
    &&& lookup(resp, "saveGameFaults"@) is None
    &&& lookup(resp, "significantBugs"@) is None
    &&& lookup(resp, "stabilityFaults"@) is None
    &&& lookup(resp, "startsPlay"@) is None
    &&& lookup(resp, "tinkerOverride"@) is None
    &&& lookup(resp, "triedOob"@) is None
    &&& lookup(resp, "variant"@) is None
    &&& lookup(resp, "verdictOob"@) is None
    &&& lookup(resp, "windowingFaults"@) is None
    &&& lookup(resp, "customProtonVersion"@) is None
    &&& lookup(resp, "launchOptions"@) is None
    &&& lookup(resp, "batteryPerformance"@) is None
    &&& lookup(resp, "didChangeControlLayout"@) is None
    &&& lookup(resp, "readability"@) is None
    &&& lookup(resp, "secondaryLauncher"@) is None
    &&& lookup(resp, "appSelectionMethod"@) is None
    &&& lookup(notes, "audioFaults"@) is None
    &&& lookup(notes, "graphicalFaults"@) is None
    &&& lookup(notes, "inputFaults"@) is None
    &&& lookup(notes, "performanceFaults"@) is None
    &&& lookup(notes, "verdict"@) is None
    &&& lookup(notes, "stabilityFaults"@) is None
    &&& lookup(notes, "significantBugs"@) is None
    &&& lookup(notes, "tinkerOverride"@) is None
    &&& lookup(notes, "launcher"@) is None
    &&& lookup(notes, "windowingFaults"@) is None
    &&& lookup(notes, "saveGameFaults"@) is None
    &&& lookup(steam, "playtimeLinux"@) is None
    &&& lookup(inferred, "chromeOs"@) is None
    &&& lookup(specs, "steamRuntimeVersion"@) is None
    &&& lookup(specs, "xWindowManager"@) is None
}

/// Every optional field of a report is absent.
pub open spec fn all_optional_absent(x: Report) -> bool {
    &&& x.responses.audio_faults is None
    &&& x.responses.concluding_notes is None
    &&& x.responses.customizations_used is None
    &&& x.responses.follow_up is None
    &&& x.responses.graphical_faults is None
    &&& x.responses.input_faults is None
    &&& x.responses.launcher is None
    &&& x.responses.performance_faults is None
    &&& x.responses.save_game_faults is None
    &&& x.responses.significant_bugs is None
    &&& x.responses.stability_faults is None
    &&& x.responses.starts_play is None
    &&& x.responses.tinker_override is None
    &&& x.responses.tried_oob is None
    &&& x.responses.variant is None
    &&& x.responses.verdict_oob is None
    &&& x.responses.windowing_faults is None
    &&& x.responses.custom_proton_version is None
    &&& x.responses.launch_options is None
    &&& x.responses.battery_performance is None
    &&& x.responses.did_change_control_layout is None
    &&& x.responses.readability is None
    &&& x.responses.secondary_launcher is None
    &&& x.responses.app_selection_method is None
    &&& x.responses.notes.audio_faults is None
    &&& x.responses.notes.graphical_faults is None
    &&& x.responses.notes.input_faults is None
    &&& x.responses.notes.performance_faults is None
    &&& x.responses.notes.verdict is None
    &&& x.responses.notes.stability_faults is None
    &&& x.responses.notes.significant_bugs is None
    &&& x.responses.notes.tinker_override is None
    &&& x.responses.notes.launcher is None
    &&& x.responses.notes.windowing_faults is None
    &&& x.responses.notes.save_game_faults is None
    &&& x.contributor.steam.playtime_linux is None
    &&& x.device.inferred.chrome_os is None
    &&& x.device.inferred.steam.steam_runtime_version is None
    &&& x.device.inferred.steam.x_window_manager is None
}

/// The document of a report holds every required field with its type: the
/// report's id and timestamp, the contributor's id, tally and Steam profile,
/// the survey's game, install, open and verdict answers, compatibility-layer
/// version and notes object, and the device's hardware type and specs.
pub open spec fn holds_required(j: Json) -> bool {
    let top = fields_of(j)->Some_0;
    let contributor = fields_of(lookup(top, "contributor"@)->Some_0)->Some_0;
    let steam = fields_of(lookup(contributor, "steam"@)->Some_0)->Some_0;
    let resp = fields_of(lookup(top, "responses"@)->Some_0)->Some_0;
    let device = fields_of(lookup(top, "device"@)->Some_0)->Some_0;
    let inferred = fields_of(lookup(device, "inferred"@)->Some_0)->Some_0;
    let specs = fields_of(lookup(inferred, "steam"@)->Some_0)->Some_0;
    &&& fields_of(j) is Some
    &&& text_of(lookup(top, "id"@)) is Some
    &&& uint_of(lookup(top, "timestamp"@), 4294967295) is Some
    &&& lookup(top, "contributor"@) is Some
    &&& fields_of(lookup(top, "contributor"@)->Some_0) is Some
    &&& text_of(lookup(contributor, "id"@)) is Some
    &&& uint_of(lookup(contributor, "reportTally"@), 65535) is Some
    &&& lookup(contributor, "steam"@) is Some
    &&& fields_of(lookup(contributor, "steam"@)->Some_0) is Some
    &&& bool_of(lookup(steam, "owned"@)) is Some
    &&& uint_of(lookup(steam, "playtime"@), 65535) is Some
    &&& text_of(lookup(steam, "avatar"@)) is Some
    &&& text_of(lookup(steam, "nickname"@)) is Some
    &&& lookup(top, "responses"@) is Some
    &&& fields_of(lookup(top, "responses"@)->Some_0) is Some
    &&& text_of(lookup(resp, "answerToWhatGame"@)) is Some
    &&& text_of(lookup(resp, "installs"@)) is Some
    &&& text_of(lookup(resp, "opens"@)) is Some
    &&& text_of(lookup(resp, "verdict"@)) is Some
    &&& text_of(lookup(resp, "protonVersion"@)) is Some
    &&& lookup(resp, "notes"@) is Some
    &&& fields_of(lookup(resp, "notes"@)->Some_0) is Some
    &&& lookup(top, "device"@) is Some
    &&& fields_of(lookup(top, "device"@)->Some_0) is Some
    &&& text_of(lookup(device, "hardwareType"@)) is Some
    &&& lookup(device, "inferred"@) is Some
    &&& fields_of(lookup(device, "inferred"@)->Some_0) is Some
    &&& lookup(inferred, "steam"@) is Some
    &&& fields_of(lookup(inferred, "steam"@)->Some_0) is Some
    &&& text_of(lookup(specs, "cpu"@)) is Some
    &&& text_of(lookup(specs, "gpu"@)) is Some
    &&& text_of(lookup(specs, "gpuDriver"@)) is Some
    &&& text_of(lookup(specs, "kernel"@)) is Some
    &&& text_of(lookup(specs, "os"@)) is Some
    &&& text_of(lookup(specs, "ram"@)) is Some
}

/// A report document that holds its required fields and none of the
/// optional ones can be read, and reads as a report whose optional fields
/// are all absent.
pub proof fn lemma_minimal_report_absent(j: Json, x: Report)
    requires
        holds_required(j),
        leaves_out_optional(j),
    ensures
        report_ok(j),
        report_is(j, x) ==> all_optional_absent(x),
{
}

/// A report collection whose reports hold only their required fields can be
/// read, and every report in it reads with all optional fields absent.
pub proof fn lemma_minimal_reports_absent(j: Json, x: Reports)
    requires
        fields_of(j) is Some,
        uint_of(lookup(fields_of(j)->Some_0, "page"@), 255) is Some,
        uint_of(lookup(fields_of(j)->Some_0, "perPage"@), 255) is Some,
        uint_of(lookup(fields_of(j)->Some_0, "total"@), 65535) is Some,
        lookup(fields_of(j)->Some_0, "reports"@) matches Some(Json::Array(a)) && forall|i: int|
            0 <= i < a@.len() ==> holds_required(#[trigger] a@[i]) && leaves_out_optional(a@[i]),
    ensures
        reports_ok(j),
        reports_is(j, x) ==> forall|i: int|
            0 <= i < x.reports@.len() ==> all_optional_absent(#[trigger] x.reports@[i]),
{
    let a = lookup(fields_of(j)->Some_0, "reports"@)->Some_0->Array_0;
    assert forall|i: int| 0 <= i < a@.len() implies #[trigger] report_ok(a@[i]) by {
        lemma_minimal_report_absent(a@[i], arbitrary());
    }
    if reports_is(j, x) {
        assert forall|i: int| 0 <= i < x.reports@.len() implies all_optional_absent(
            #[trigger] x.reports@[i],
        ) by {
            lemma_minimal_report_absent(a@[i], x.reports@[i]);
        }
    }
}

} // verus!
