//! Layout of one report as an ordered sequence of line records. Styling is
//! named, not rendered: the output stage decides how each style looks.
use vstd::prelude::*;
use crate::model::{is_yes, FaultCategory, Report};
use crate::text::{
    collapse_newlines, decimal, join, join_strings, push_decimal, replace_newlines, str_eq,
    to_decimal,
};
use crate::tinker::{get_tinker_steps, spec_tinker_steps};

verus! {

/// How a piece of text is to be emphasised.
#[derive(Clone, Copy, Debug, PartialEq, Eq)]
pub enum Style {
    Plain,
    Muted,
    Bold,
    Positive,
    Caution,
    Alert,
    Code,
}

/// One line of a report block.
#[derive(Clone, Debug, PartialEq, Eq)]
pub enum RenderLine {
    Blank,
    Text { text: String, style: Style },
    Field { label: String, value: String, style: Style },
    Byline { nickname: String, tally: String, playtime: String },
}

/// What a line shows.
pub enum LineView {
    Blank,
    Text(Seq<char>, Style),
    Field(Seq<char>, Seq<char>, Style),
    Byline(Seq<char>, Seq<char>, Seq<char>),
}

impl View for RenderLine {
    type V = LineView;

    open spec fn view(&self) -> LineView {
        match self {
            RenderLine::Blank => LineView::Blank,
            RenderLine::Text { text, style } => LineView::Text(text@, *style),
            RenderLine::Field { label, value, style } => LineView::Field(label@, value@, *style),
            RenderLine::Byline { nickname, tally, playtime } => LineView::Byline(
                nickname@,
                tally@,
                playtime@,
            ),
        }
    }
}

pub open spec fn views(lines: Seq<RenderLine>) -> Seq<LineView> {
    lines.map_values(|l: RenderLine| l@)
}

/// Whole hours of play, `< 1` below one hour, with the noun agreeing.
pub open spec fn spec_playtime_text(minutes: nat) -> Seq<char> {
    let hours = minutes / 60;
    (if hours == 0 {
        "< "@
    } else {
        Seq::empty()
    }) + decimal(if hours == 0 {
        1
    } else {
        hours
    }) + " hour"@ + (if hours <= 1 {
        Seq::empty()
    } else {
        "s"@
    }) + " overall"@
}

/// The parenthesised lifetime report count.
pub open spec fn spec_tally_text(tally: nat) -> Seq<char> {
    "("@ + decimal(tally) + " reports)"@
}

pub open spec fn recommendation(verdict: Seq<char>, yes: Seq<char>, no: Seq<char>) -> LineView {
    if verdict == "yes"@ {
        LineView::Text(yes, Style::Positive)
    } else {
        LineView::Text(no, Style::Caution)
    }
}

/// The verdict lines: borked, plain, or out-of-box then tinkered.
#[verifier::opaque]
pub open spec fn spec_verdict_lines(r: &Report) -> Seq<LineView> {
    let resp = r.responses;
    if resp.opens@ == "no"@ {
        seq![LineView::Text("Borked"@, Style::Alert)]
    } else if spec_tinker_steps(r).len() == 0 {
        seq![recommendation(resp.verdict@, "Recommended"@, "Not Recommended"@)]
    } else {
        (match resp.verdict_oob {
            Some(v) => seq![recommendation(v@, "Recommended"@, "Not recommended"@)],
            None => Seq::empty(),
        }) + seq![
            recommendation(resp.verdict@, "Recommended (Tinker)"@, "Not Recommended (Tinker)"@),
        ]
    }
}

/// The note on the verdict, with line feeds collapsed.
#[verifier::opaque]
pub open spec fn spec_verdict_note_lines(r: &Report) -> Seq<LineView> {
    match r.responses.notes.verdict {
        Some(v) => seq![LineView::Text(collapse_newlines(v@), Style::Bold)],
        None => Seq::empty(),
    }
}

/// For a report that does not open, whether it installs and opens.
#[verifier::opaque]
pub open spec fn spec_borked_lines(r: &Report) -> Seq<LineView> {
    let resp = r.responses;
    if resp.opens@ == "no"@ {
        seq![
            LineView::Field(
                "Installs"@,
                if resp.installs@ == "yes"@ {
                    "Yes"@
                } else {
                    "No"@
                },
                Style::Caution,
            ),
            LineView::Field(
                "Opens"@,
                if resp.opens@ == "yes"@ {
                    "Yes"@
                } else {
                    "No"@
                },
                Style::Caution,
            ),
        ]
    } else {
        Seq::empty()
    }
}

#[verifier::opaque]
pub open spec fn spec_tinker_lines(r: &Report) -> Seq<LineView> {
    let steps = spec_tinker_steps(r);
    if steps.len() > 0 {
        seq![LineView::Field("Tinker Steps"@, join(steps, ", "@), Style::Plain)]
    } else {
        Seq::empty()
    }
}

#[verifier::opaque]
pub open spec fn spec_launch_lines(r: &Report) -> Seq<LineView> {
    match r.responses.launch_options {
        Some(l) => seq![LineView::Text(l@, Style::Code)],
        None => Seq::empty(),
    }
}

/// The manual-override note, set apart by a blank line when a verdict note,
/// tinker steps or launch options stand above it.
#[verifier::opaque]
pub open spec fn spec_override_lines(r: &Report) -> Seq<LineView> {
    match r.responses.notes.tinker_override {
        Some(t) => if t@.len() > 0 {
            let above = r.responses.notes.verdict is Some || spec_tinker_steps(r).len() > 0
                || r.responses.launch_options is Some;
            (if above {
                seq![LineView::Blank]
            } else {
                Seq::empty()
            }) + seq![LineView::Text(t@, Style::Plain)]
        } else {
            Seq::empty()
        },
        None => Seq::empty(),
    }
}

/// The lines of one fault category: nothing unless it is flagged `"yes"`.
#[verifier::opaque]
pub open spec fn spec_fault_lines(r: &Report, c: FaultCategory) -> Seq<LineView> {
    if is_yes(r.fault_flag(c)) {
        seq![
            LineView::Blank,
            LineView::Field(c.spec_label(), join(r.fault_keys(c), ", "@), Style::Caution),
        ] + match r.fault_note(c) {
            Some(n) => seq![LineView::Text(n@, Style::Plain)],
            None => Seq::empty(),
        }
    } else {
        Seq::empty()
    }
}

pub open spec fn spec_all_fault_lines(r: &Report) -> Seq<LineView> {
    spec_fault_lines(r, FaultCategory::Audio) + spec_fault_lines(r, FaultCategory::Graphical)
        + spec_fault_lines(r, FaultCategory::Windowing) + spec_fault_lines(r, FaultCategory::Input)
        + spec_fault_lines(r, FaultCategory::SaveGame) + spec_fault_lines(
        r,
        FaultCategory::Performance,
    ) + spec_fault_lines(r, FaultCategory::Stability)
}

#[verifier::opaque]
pub open spec fn spec_bug_lines(r: &Report) -> Seq<LineView> {
    if is_yes(r.responses.significant_bugs) {
        seq![
            LineView::Blank,
            LineView::Field("Significant Bugs"@, "Yes"@, Style::Caution),
            LineView::Text(r.responses.notes.significant_bugs->Some_0@, Style::Plain),
        ]
    } else {
        Seq::empty()
    }
}

#[verifier::opaque]
pub open spec fn spec_closing_lines(r: &Report) -> Seq<LineView> {
    match r.responses.concluding_notes {
        Some(n) => if n@.len() > 0 {
            seq![LineView::Blank, LineView::Text(collapse_newlines(n@), Style::Plain)]
        } else {
            Seq::empty()
        },
        None => Seq::empty(),
    }
}

/// The lines of a report block after the when-line and the byline.
pub open spec fn spec_body(r: &Report) -> Seq<LineView> {
    spec_verdict_lines(r) + spec_verdict_note_lines(r) + spec_borked_lines(r) + spec_tinker_lines(
        r,
    ) + spec_launch_lines(r) + spec_override_lines(r) + spec_all_fault_lines(r) + spec_bug_lines(r)
        + spec_closing_lines(r)
}

/// The whole block of a report, given the humanised time of its filing.
pub open spec fn spec_layout(r: &Report, when: Seq<char>) -> Seq<LineView> {
    seq![
        LineView::Text(when, Style::Muted),
        LineView::Byline(
            r.contributor.steam.nickname@,
            spec_tally_text(r.contributor.report_tally as nat),
            spec_playtime_text(r.contributor.steam.playtime as nat),
        ),
    ] + spec_body(r)
}

/// How much play time a contributor has, in whole hours.
pub fn playtime_text(minutes: u16) -> (r: String)
    ensures
        r@ == spec_playtime_text(minutes as nat),
{
    let hours: u16 = minutes / 60;
    let mut s = String::new();
    if hours == 0 {
        s.append("< ");
    }
    push_decimal(&mut s, if hours == 0 { 1 } else { hours as u64 });
    s.append(" hour");
    if hours > 1 {
        s.append("s");
    }
    s.append(" overall");
    assert(s@ =~= spec_playtime_text(minutes as nat));
    s
}

fn tally_text(tally: u16) -> (r: String)
    ensures
        r@ == spec_tally_text(tally as nat),
{
    let mut s = String::from_str("(");
    push_decimal(&mut s, tally as u64);
    s.append(" reports)");
    assert(s@ =~= spec_tally_text(tally as nat));
    s
}

fn push_line(out: &mut Vec<RenderLine>, line: RenderLine)
    ensures
        views(final(out)@) == views(old(out)@).push(line@),
{
    out.push(line);
    assert(views(final(out)@) =~= views(old(out)@).push(line@));
}

fn text_line(s: &str, style: Style) -> (r: RenderLine)
    ensures
        r@ == LineView::Text(s@, style),
{
    RenderLine::Text { text: String::from_str(s), style }
}

fn field_line(label: &str, value: &str, style: Style) -> (r: RenderLine)
    ensures
        r@ == LineView::Field(label@, value@, style),
{
    RenderLine::Field { label: String::from_str(label), value: String::from_str(value), style }
}

fn recommendation_line(verdict: &str, yes: &str, no: &str) -> (r: RenderLine)
    ensures
        r@ == recommendation(verdict@, yes@, no@),
{
    if str_eq(verdict, "yes") {
        text_line(yes, Style::Positive)
    } else {
        text_line(no, Style::Caution)
    }
}

fn fault_flag(report: &Report, c: FaultCategory) -> (r: &Option<String>)
    ensures
        *r == report.fault_flag(c),
{
    let resp = &report.responses;
    match c {
        FaultCategory::Audio => &resp.audio_faults,
        FaultCategory::Graphical => &resp.graphical_faults,
        FaultCategory::Windowing => &resp.windowing_faults,
        FaultCategory::Input => &resp.input_faults,
        FaultCategory::SaveGame => &resp.save_game_faults,
        FaultCategory::Performance => &resp.performance_faults,
        FaultCategory::Stability => &resp.stability_faults,
    }
}

fn fault_note(report: &Report, c: FaultCategory) -> (r: &Option<String>)
    ensures
        *r == report.fault_note(c),
{
    let notes = &report.responses.notes;
    match c {
        FaultCategory::Audio => &notes.audio_faults,
        FaultCategory::Graphical => &notes.graphical_faults,
        FaultCategory::Windowing => &notes.windowing_faults,
        FaultCategory::Input => &notes.input_faults,
        FaultCategory::SaveGame => &notes.save_game_faults,
        FaultCategory::Performance => &notes.performance_faults,
        FaultCategory::Stability => &notes.stability_faults,
    }
}

/// Whether the follow-up detail of category `c` is present.
pub fn has_follow_up(report: &Report, c: FaultCategory) -> (r: bool)
    ensures
        r == report.has_follow_up(c),
{
    match &report.responses.follow_up {
        Some(f) => match c {
            FaultCategory::Audio => f.audio_faults.is_some(),
            FaultCategory::Graphical => f.graphical_faults.is_some(),
            FaultCategory::Windowing => f.windowing_faults.is_some(),
            FaultCategory::Input => f.input_faults.is_some(),
            FaultCategory::SaveGame => f.save_game_faults.is_some(),
            FaultCategory::Performance => f.performance_faults.is_some(),
            FaultCategory::Stability => f.stability_faults.is_some(),
        },
        None => false,
    }
}

/// The labels of the faults flagged in the follow-up detail of category `c`.
pub fn fault_keys(report: &Report, c: FaultCategory) -> (r: Vec<String>)
    requires
        report.has_follow_up(c),
    ensures
        r.deep_view() == report.fault_keys(c),
{
    match &report.responses.follow_up {
        Some(f) => match c {
            FaultCategory::Audio => match &f.audio_faults {
                Some(x) => x.keys(),
                None => Vec::new(),
            },
            FaultCategory::Graphical => match &f.graphical_faults {
                Some(x) => x.keys(),
                None => Vec::new(),
            },
            FaultCategory::Windowing => match &f.windowing_faults {
                Some(x) => x.keys(),
                None => Vec::new(),
            },
            FaultCategory::Input => match &f.input_faults {
                Some(x) => x.keys(),
                None => Vec::new(),
            },
            FaultCategory::SaveGame => match &f.save_game_faults {
                Some(x) => x.keys(),
                None => Vec::new(),
            },
            FaultCategory::Performance => match &f.performance_faults {
                Some(x) => x.keys(),
                None => Vec::new(),
            },
            FaultCategory::Stability => match &f.stability_faults {
                Some(x) => x.keys(),
                None => Vec::new(),
            },
        },
        None => Vec::new(),
    }
}

/// Whether every flagged category carries its follow-up detail and flagged
/// significant bugs carry their note.
pub fn is_well_formed(report: &Report) -> (r: bool)
    ensures
        r == report.wf(),
{
    let cats = [
        FaultCategory::Audio,
        FaultCategory::Graphical,
        FaultCategory::Windowing,
        FaultCategory::Input,
        FaultCategory::SaveGame,
        FaultCategory::Performance,
        FaultCategory::Stability,
    ];
    let mut i: usize = 0;
    while i < 7
        invariant
            i <= 7,
            cats@ == seq![
                FaultCategory::Audio,
                FaultCategory::Graphical,
                FaultCategory::Windowing,
                FaultCategory::Input,
                FaultCategory::SaveGame,
                FaultCategory::Performance,
                FaultCategory::Stability,
            ],
            forall|k: int|
                0 <= k < i ==> (is_yes(#[trigger] report.fault_flag(cats@[k]))
                    ==> report.has_follow_up(cats@[k])),
        decreases 7 - i,
    {
        let c = cats[i];
        if crate::text::opt_eq(fault_flag(report, c), "yes") && !has_follow_up(report, c) {
            return false;
        }
        i = i + 1;
    }
    assert forall|c: FaultCategory| is_yes(#[trigger] report.fault_flag(c)) implies report.has_follow_up(
        c,
    ) by {
        match c {
            FaultCategory::Audio => assert(cats@[0] == c),
            FaultCategory::Graphical => assert(cats@[1] == c),
            FaultCategory::Windowing => assert(cats@[2] == c),
            FaultCategory::Input => assert(cats@[3] == c),
            FaultCategory::SaveGame => assert(cats@[4] == c),
            FaultCategory::Performance => assert(cats@[5] == c),
            FaultCategory::Stability => assert(cats@[6] == c),
        }
    }
    !crate::text::opt_eq(&report.responses.significant_bugs, "yes")
        || report.responses.notes.significant_bugs.is_some()
}

fn push_fault_lines(out: &mut Vec<RenderLine>, report: &Report, c: FaultCategory)
    requires
        report.wf(),
    ensures
        views(final(out)@) == views(old(out)@) + spec_fault_lines(report, c),
{
    reveal(spec_fault_lines);
    let ghost start = views(out@);
    if crate::text::opt_eq(fault_flag(report, c), "yes") {
        assert(is_yes(report.fault_flag(c)));
        let keys = fault_keys(report, c);
        let value = join_strings(&keys, ", ");
        push_line(out, RenderLine::Blank);
        push_line(out, RenderLine::Field { label: String::from_str(c.label()), value, style: Style::Caution });
        if let Some(n) = fault_note(report, c) {
            push_line(out, RenderLine::Text { text: n.clone(), style: Style::Plain });
        }
    }
    assert(views(out@) =~= start + spec_fault_lines(report, c));
}

fn push_verdict_lines(out: &mut Vec<RenderLine>, report: &Report, steps: &Vec<String>)
    requires
        steps.deep_view() == spec_tinker_steps(report),
    ensures
        views(final(out)@) == views(old(out)@) + spec_verdict_lines(report),
{
    reveal(spec_verdict_lines);
    let ghost start = views(out@);
    let resp = &report.responses;
    if str_eq(resp.opens.as_str(), "no") {
        push_line(out, text_line("Borked", Style::Alert));
    } else if steps.len() == 0 {
        push_line(out, recommendation_line(resp.verdict.as_str(), "Recommended", "Not Recommended"));
    } else {
        if let Some(v) = &resp.verdict_oob {
            push_line(out, recommendation_line(v.as_str(), "Recommended", "Not recommended"));
        }
        push_line(
            out,
            recommendation_line(
                resp.verdict.as_str(),
                "Recommended (Tinker)",
                "Not Recommended (Tinker)",
            ),
        );
    }
    assert(views(out@) =~= start + spec_verdict_lines(report));
}

fn push_note_lines(out: &mut Vec<RenderLine>, report: &Report, steps: &Vec<String>)
    requires
        steps.deep_view() == spec_tinker_steps(report),
    ensures
        views(final(out)@) == views(old(out)@) + spec_verdict_note_lines(report)
            + spec_borked_lines(report) + spec_tinker_lines(report),
{
    reveal(spec_verdict_note_lines);
    reveal(spec_borked_lines);
    reveal(spec_tinker_lines);
    let ghost p1 = views(out@);
    let resp = &report.responses;
    if let Some(v) = &resp.notes.verdict {
        push_line(out, RenderLine::Text { text: replace_newlines(v.as_str()), style: Style::Bold });
    }
    let ghost p2 = views(out@);
    assert(p2 =~= p1 + spec_verdict_note_lines(report));
    if str_eq(resp.opens.as_str(), "no") {
        let installs = if str_eq(resp.installs.as_str(), "yes") {
            "Yes"
        } else {
            "No"
        };
        push_line(out, field_line("Installs", installs, Style::Caution));
        let opens = if str_eq(resp.opens.as_str(), "yes") {
            "Yes"
        } else {
            "No"
        };
        push_line(out, field_line("Opens", opens, Style::Caution));
    }
    let ghost p3 = views(out@);
    assert(p3 =~= p2 + spec_borked_lines(report));
    if steps.len() > 0 {
        let joined = join_strings(steps, ", ");
        push_line(
            out,
            RenderLine::Field {
                label: String::from_str("Tinker Steps"),
                value: joined,
                style: Style::Plain,
            },
        );
    }
    assert(views(out@) =~= p3 + spec_tinker_lines(report));
}

fn push_launch_lines(out: &mut Vec<RenderLine>, report: &Report, steps: &Vec<String>)
    requires
        steps.deep_view() == spec_tinker_steps(report),
    ensures
        views(final(out)@) == views(old(out)@) + spec_launch_lines(report) + spec_override_lines(
            report,
        ),
{
    reveal(spec_launch_lines);
    reveal(spec_override_lines);
    let ghost p4 = views(out@);
    let resp = &report.responses;
    if let Some(l) = &resp.launch_options {
        push_line(out, RenderLine::Text { text: l.clone(), style: Style::Code });
    }
    let ghost p5 = views(out@);
    assert(p5 =~= p4 + spec_launch_lines(report));
    if let Some(t) = &resp.notes.tinker_override {
        if t.as_str().unicode_len() > 0 {
            if resp.notes.verdict.is_some() || steps.len() > 0 || resp.launch_options.is_some() {
                push_line(out, RenderLine::Blank);
            }
            push_line(out, RenderLine::Text { text: t.clone(), style: Style::Plain });
        }
    }
    assert(views(out@) =~= p5 + spec_override_lines(report));
}

fn push_closing_lines(out: &mut Vec<RenderLine>, report: &Report)
    requires
        report.wf(),
    ensures
        views(final(out)@) == views(old(out)@) + spec_bug_lines(report) + spec_closing_lines(
            report,
        ),
{
    reveal(spec_bug_lines);
    reveal(spec_closing_lines);
    let ghost p7 = views(out@);
    let resp = &report.responses;
    if crate::text::opt_eq(&resp.significant_bugs, "yes") {
        push_line(out, RenderLine::Blank);
        push_line(out, field_line("Significant Bugs", "Yes", Style::Caution));
        if let Some(n) = &resp.notes.significant_bugs {
            push_line(out, RenderLine::Text { text: n.clone(), style: Style::Plain });
        }
    }
    let ghost p8 = views(out@);
    assert(p8 =~= p7 + spec_bug_lines(report));
    if let Some(n) = &resp.concluding_notes {
        if n.as_str().unicode_len() > 0 {
            push_line(out, RenderLine::Blank);
            push_line(
                out,
                RenderLine::Text { text: replace_newlines(n.as_str()), style: Style::Plain },
            );
        }
    }
    assert(views(out@) =~= p8 + spec_closing_lines(report));
}

fn push_all_fault_lines(out: &mut Vec<RenderLine>, report: &Report)
    requires
        report.wf(),
    ensures
        views(final(out)@) == views(old(out)@) + spec_all_fault_lines(report),
{
    let ghost p6 = views(out@);
    push_fault_lines(out, report, FaultCategory::Audio);
    push_fault_lines(out, report, FaultCategory::Graphical);
    push_fault_lines(out, report, FaultCategory::Windowing);
    push_fault_lines(out, report, FaultCategory::Input);
    push_fault_lines(out, report, FaultCategory::SaveGame);
    push_fault_lines(out, report, FaultCategory::Performance);
    push_fault_lines(out, report, FaultCategory::Stability);
    assert(views(out@) =~= p6 + spec_all_fault_lines(report));
}

/// The block of `report`, after the rule line, as line records; `when` is the
/// humanised time of its filing.
pub fn layout_report(report: &Report, when: &str) -> (r: Vec<RenderLine>)
    requires
        report.wf(),
    ensures
        views(r@) == spec_layout(report, when@),
{
    let mut out: Vec<RenderLine> = Vec::new();
    assert(views(out@) =~= Seq::<LineView>::empty());
    push_line(&mut out, text_line(when, Style::Muted));
    let steam = &report.contributor.steam;
    push_line(
        &mut out,
        RenderLine::Byline {
            nickname: steam.nickname.clone(),
            tally: tally_text(report.contributor.report_tally),
            playtime: playtime_text(steam.playtime),
        },
    );
    let ghost head = views(out@);
    let steps = get_tinker_steps(report);
    push_verdict_lines(&mut out, report, &steps);
    push_note_lines(&mut out, report, &steps);
    push_launch_lines(&mut out, report, &steps);
    push_all_fault_lines(&mut out, report);
    push_closing_lines(&mut out, report);
    assert(views(out@) =~= spec_layout(report, when@));
    out
}

/// Rough English wording of an offset of `offset` seconds from now, in the
/// past when negative ("3 months ago").
pub uninterp spec fn humanized(offset: int) -> Seq<char>;

/// Relies on chrono-humanize's `HumanTime` built from a chrono `Duration`
/// and shown by `Display`: the wording depends on the offset alone.
/// `Duration::seconds` panics beyond `i64::MAX / 1000` seconds either way.
#[verifier::external_body]
fn humanize_offset(seconds: i64) -> (r: String)
    requires
        -(i64::MAX / 1000) <= seconds <= i64::MAX / 1000,
    ensures
        r@ == humanized(seconds as int),
{
    chrono_humanize::HumanTime::from(chrono::Duration::seconds(seconds)).to_string()
}

/// The largest distance from the epoch, in seconds, accepted for the
/// current time.
pub const NOW_LIMIT: i64 = 0x10_0000_0000_0000;

/// The block of `report` as seen at Unix time `now`.
pub fn report_block(report: &Report, now: i64) -> (r: Vec<RenderLine>)
    requires
        report.wf(),
        -NOW_LIMIT <= now <= NOW_LIMIT,
    ensures
        views(r@) == spec_layout(report, humanized(report.timestamp - now)),
{
    let offset: i64 = report.timestamp as i64 - now;
    let when = humanize_offset(offset);
    layout_report(report, when.as_str())
}

/// The rule that opens each block: `width` em dashes.
pub fn rule_line(width: u16) -> (r: String)
    ensures
        r@ == Seq::new(width as nat, |i: int| '\u{2014}'),
{
    let mut s = String::new();
    let mut i: u16 = 0;
    while i < width
        invariant
            i <= width,
            s@ == Seq::new(i as nat, |k: int| '\u{2014}'),
        decreases width - i,
    {
        crate::text::push_char(&mut s, '\u{2014}');
        i = i + 1;
        assert(s@ =~= Seq::new(i as nat, |k: int| '\u{2014}'));
    }
    s
}

/// The blank lines that bring a block of `printed` lines up to the height
/// of an image of `image_rows` rows.
pub fn padding_lines(printed: usize, image_rows: usize) -> (r: usize)
    ensures
        r == if printed < image_rows {
            image_rows - printed
        } else {
            0
        },
{
    if printed < image_rows {
        image_rows - printed
    } else {
        0
    }
}

/// How many of `available` reports are shown when `requested` are asked for.
pub fn shown_count(available: usize, requested: u8) -> (r: usize)
    ensures
        r == if available < requested as usize {
            available
        } else {
            requested as usize
        },
{
    if available < requested as usize {
        available
    } else {
        requested as usize
    }
}

} // verus!
