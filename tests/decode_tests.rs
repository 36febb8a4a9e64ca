use protondb_reports::decode::{decode_report, decode_reports};
use protondb_reports::json::{decode_input_faults_other, Json, ReportError};
use protondb_reports::protondb_id::{calculate_protondb_id, get_hash, get_protondb_id};
use protondb_reports::query::{is_query_id, search_text};
use protondb_reports::summary::{
    deck_word_tag, get_colored_steam_deck_status, get_colored_tier, steam_deck_entry, Hue, Tag,
};

fn st(v: &str) -> Json {
    Json::Str(v.to_string())
}

fn obj(entries: Vec<(&str, Json)>) -> Json {
    Json::Object(entries.into_iter().map(|(k, v)| (k.to_string(), v)).collect())
}

fn minimal_report(opens: Json) -> Json {
    obj(vec![
        (
            "contributor",
            obj(vec![
                ("id", st("c1")),
                ("reportTally", Json::UInt(1)),
                (
                    "steam",
                    obj(vec![
                        ("owned", Json::Bool(true)),
                        ("playtime", Json::UInt(45)),
                        ("avatar", st("a.png")),
                        ("nickname", st("nick")),
                    ]),
                ),
            ]),
        ),
        ("id", st("r1")),
        (
            "responses",
            obj(vec![
                ("answerToWhatGame", st("440")),
                ("installs", st("yes")),
                ("notes", obj(vec![])),
                ("opens", opens),
                ("verdict", st("yes")),
                ("protonVersion", st("8.0")),
            ]),
        ),
        ("timestamp", Json::UInt(1_700_000_000)),
        (
            "device",
            obj(vec![
                ("hardwareType", st("pc")),
                (
                    "inferred",
                    obj(vec![(
                        "steam",
                        obj(vec![
                            ("cpu", st("c")),
                            ("gpu", st("g")),
                            ("gpuDriver", st("d")),
                            ("kernel", st("k")),
                            ("os", st("o")),
                            ("ram", st("r")),
                        ]),
                    )]),
                ),
            ]),
        ),
    ])
}

#[test]
fn input_other_decoding() {
    assert_eq!(decode_input_faults_other(&obj(vec![("0", st("on"))])), Some(false));
    assert_eq!(decode_input_faults_other(&st("other")), Some(true));
    assert_eq!(decode_input_faults_other(&Json::UInt(42)), None);
    assert_eq!(decode_input_faults_other(&Json::Null), None);
    assert_eq!(decode_input_faults_other(&obj(vec![("0", st("off"))])), None);
    assert_eq!(decode_input_faults_other(&st("on")), None);
    assert_eq!(decode_input_faults_other(&obj(vec![("0", st("on")), ("1", Json::UInt(1))])), None);
    assert_eq!(decode_input_faults_other(&obj(vec![("1", Json::UInt(1)), ("0", st("on"))])), None);
    assert_eq!(decode_input_faults_other(&obj(vec![])), None);
}

#[test]
fn minimal_report_has_no_optional_fields() {
    let r = decode_report(&minimal_report(st("yes"))).unwrap();
    assert_eq!(r.id, "r1");
    assert_eq!(r.timestamp, 1_700_000_000);
    assert_eq!(r.contributor.steam.playtime, 45);
    assert_eq!(r.contributor.steam.playtime_linux, None);
    let resp = &r.responses;
    assert_eq!(resp.opens, "yes");
    assert!(resp.audio_faults.is_none());
    assert!(resp.follow_up.is_none());
    assert!(resp.customizations_used.is_none());
    assert!(resp.concluding_notes.is_none());
    assert!(resp.variant.is_none());
    assert!(resp.verdict_oob.is_none());
    assert!(resp.launch_options.is_none());
    assert!(resp.tinker_override.is_none());
    assert!(resp.notes.verdict.is_none());
    assert!(resp.notes.launcher.is_none());
    assert!(r.device.inferred.chrome_os.is_none());
    assert!(r.device.inferred.steam.steam_runtime_version.is_none());
}

#[test]
fn missing_or_mistyped_required_field_fails() {
    assert_eq!(
        decode_report(&minimal_report(Json::Null)).unwrap_err(),
        ReportError::MalformedUpstreamData
    );
    assert_eq!(
        decode_report(&minimal_report(Json::UInt(1))).unwrap_err(),
        ReportError::MalformedUpstreamData
    );
    assert_eq!(decode_report(&obj(vec![])).unwrap_err(), ReportError::MalformedUpstreamData);
    assert_eq!(decode_report(&st("x")).unwrap_err(), ReportError::MalformedUpstreamData);
}

#[test]
fn follow_up_and_enums_decode() {
    let mut doc = minimal_report(st("yes"));
    if let Json::Object(fields) = &mut doc {
        if let Json::Object(resp) = &mut fields[2].1 {
            resp.push(("audioFaults".to_string(), st("yes")));
            resp.push((
                "followUp".to_string(),
                obj(vec![
                    ("audioFaults", obj(vec![("lowQuality", Json::Bool(true))])),
                    ("stabilityFaults", st("notListed")),
                    ("performanceFaults", st("significantSlowdown")),
                    ("inputFaults", obj(vec![("other", st("other")), ("lag", Json::Null)])),
                    ("saveGameFaults", obj(vec![("saveNotLoading", Json::Bool(true))])),
                ]),
            ));
        }
    }
    let r = decode_report(&doc).unwrap();
    let f = r.responses.follow_up.unwrap();
    assert_eq!(f.audio_faults.unwrap().keys(), vec!["Low Quality".to_string()]);
    assert_eq!(f.stability_faults.unwrap().keys(), vec!["Not Listed".to_string()]);
    assert_eq!(
        f.performance_faults.unwrap().keys(),
        vec!["Significant Performance Problems".to_string()]
    );
    let input = f.input_faults.unwrap();
    assert_eq!(input.other, Some(true));
    assert_eq!(input.lag, None);
    assert_eq!(f.save_game_faults.unwrap().keys(), vec!["Other".to_string()]);
}

#[test]
fn unknown_enum_value_fails() {
    let mut doc = minimal_report(st("yes"));
    if let Json::Object(fields) = &mut doc {
        if let Json::Object(resp) = &mut fields[2].1 {
            resp.push(("followUp".to_string(), obj(vec![("stabilityFaults", st("always"))])));
        }
    }
    assert_eq!(decode_report(&doc).unwrap_err(), ReportError::MalformedUpstreamData);
}

#[test]
fn report_collection_decodes() {
    let doc = obj(vec![
        ("page", Json::UInt(1)),
        ("perPage", Json::UInt(30)),
        ("reports", Json::Array(vec![minimal_report(st("yes")), minimal_report(st("no"))])),
        ("total", Json::UInt(2)),
    ]);
    let rs = decode_reports(&doc).unwrap();
    assert_eq!(rs.page, 1);
    assert_eq!(rs.per_page, 30);
    assert_eq!(rs.total, 2);
    assert_eq!(rs.reports.len(), 2);
    assert_eq!(rs.reports[1].responses.opens, "no");
    let too_big = obj(vec![
        ("page", Json::UInt(256)),
        ("perPage", Json::UInt(30)),
        ("reports", Json::Array(vec![])),
        ("total", Json::UInt(0)),
    ]);
    assert_eq!(decode_reports(&too_big).unwrap_err(), ReportError::MalformedUpstreamData);
}

#[test]
fn hash_template_parts() {
    assert_eq!(get_hash(440, 12345, 1000), "12345W151800");
    assert_eq!(get_hash(1, 440, 1_700_000_000), "440W440");
}

#[test]
fn string_hash_values() {
    assert_eq!(get_protondb_id(""), 109);
    assert_eq!(get_protondb_id("a"), 3116);
}

#[test]
fn protondb_id_is_stable() {
    assert_eq!(calculate_protondb_id(440, 250000, 1_700_000_000), 1620349676);
    assert_eq!(calculate_protondb_id(440, 250000, 1_700_000_000), 1620349676);
    assert_eq!(calculate_protondb_id(1091500, 400000, 1_698_000_000), 769920726);
}

#[test]
fn query_id_detection() {
    assert!(is_query_id("440"));
    assert!(!is_query_id("half life"));
    assert!(!is_query_id("440a"));
    assert!(is_query_id(""));
}

#[test]
fn tier_labels() {
    let none: Vec<String> = vec![];
    assert_eq!(
        get_colored_tier("gold", &none),
        Tag { text: "Gold".to_string(), hue: Hue::Rgb(207, 181, 59) }
    );
    assert_eq!(get_colored_tier("pending", &none).text, "Pending (unrated)");
    assert_eq!(get_colored_tier("weird", &none).text, "unknown");
    let linux = vec!["Windows".to_string(), "Linux".to_string()];
    assert_eq!(
        get_colored_tier("borked", &linux),
        Tag { text: "Native".to_string(), hue: Hue::Rgb(0, 255, 0) }
    );
}

#[test]
fn steam_deck_labels() {
    let oslist = vec!["Windows".to_string(), "Steam Deck Playable".to_string()];
    assert_eq!(steam_deck_entry(&oslist), Some(1));
    assert_eq!(steam_deck_entry(&vec!["Linux".to_string()]), None);
    assert_eq!(
        get_colored_steam_deck_status("Steam Deck Verified"),
        Tag { text: "Verified".to_string(), hue: Hue::Green }
    );
    assert_eq!(get_colored_steam_deck_status("Steam Deck Unsupported").hue, Hue::Red);
    assert_eq!(get_colored_steam_deck_status("Steam Deck ???").text, "unknown");
    assert_eq!(deck_word_tag("Playable").hue, Hue::Yellow);
}

#[test]
fn search_text_from_arguments() {
    let args = vec!["half".to_string(), "life  2 ".to_string()];
    assert_eq!(search_text(&args), "half life 2");
    assert_eq!(search_text(&vec!["a\tb".to_string(), "c".to_string()]), "a\tb c");
    assert_eq!(search_text(&vec![]), "");
}
