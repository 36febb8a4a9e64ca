//! Properties of the report layout that hold for every well-formed report.
use vstd::prelude::*;
use crate::layout::{
    spec_all_fault_lines, spec_body, spec_borked_lines, spec_bug_lines, spec_closing_lines,
    spec_fault_lines, spec_launch_lines, spec_layout, spec_override_lines, spec_playtime_text,
    spec_tally_text, spec_tinker_lines, spec_verdict_lines, spec_verdict_note_lines, LineView,
    Style,
};
use crate::model::{is_yes, FaultCategory, Notes, FollowUp, Report, Responses};
use crate::text::join;
use crate::tinker::spec_tinker_steps;

verus! {

proof fn lemma_contains_left(a: Seq<LineView>, b: Seq<LineView>, x: LineView)
    requires
        a.contains(x),
    ensures
        (a + b).contains(x),
{
    let i = choose|i: int| 0 <= i < a.len() && a[i] == x;
    assert((a + b)[i] == x);
}

proof fn lemma_contains_right(a: Seq<LineView>, b: Seq<LineView>, x: LineView)
    requires
        b.contains(x),
    ensures
        (a + b).contains(x),
{
    let i = choose|i: int| 0 <= i < b.len() && b[i] == x;
    assert((a + b)[a.len() + i] == x);
}

/// The tinker-steps line is derived from the other fields alone: whatever
/// the answer to "does it open", the same line stands.
pub proof fn lemma_tinker_line_ignores_opens(r: Report, opens: String)
    ensures
        spec_tinker_lines(&r) == spec_tinker_lines(
            &Report { responses: Responses { opens, ..r.responses }, ..r },
        ),
{
    reveal(spec_tinker_lines);
}

/// `r` with the follow-up detail and the note of category `c` taken away.
pub open spec fn without_fault_detail(r: Report, c: FaultCategory) -> Report {
    let resp = r.responses;
    let n = resp.notes;
    let notes = match c {
        FaultCategory::Audio => Notes { audio_faults: None, ..n },
        FaultCategory::Graphical => Notes { graphical_faults: None, ..n },
        FaultCategory::Windowing => Notes { windowing_faults: None, ..n },
        FaultCategory::Input => Notes { input_faults: None, ..n },
        FaultCategory::SaveGame => Notes { save_game_faults: None, ..n },
        FaultCategory::Performance => Notes { performance_faults: None, ..n },
        FaultCategory::Stability => Notes { stability_faults: None, ..n },
    };
    let follow_up = match resp.follow_up {
        Some(f) => Some(
            match c {
                FaultCategory::Audio => FollowUp { audio_faults: None, ..f },
                FaultCategory::Graphical => FollowUp { graphical_faults: None, ..f },
                FaultCategory::Windowing => FollowUp { windowing_faults: None, ..f },
                FaultCategory::Input => FollowUp { input_faults: None, ..f },
                FaultCategory::SaveGame => FollowUp { save_game_faults: None, ..f },
                FaultCategory::Performance => FollowUp { performance_faults: None, ..f },
                FaultCategory::Stability => FollowUp { stability_faults: None, ..f },
            },
        ),
        None => None,
    };
    Report { responses: Responses { notes, follow_up, ..resp }, ..r }
}

/// A fault category that is not flagged `"yes"` (absent, `"no"` or anything
/// else) contributes nothing: its follow-up detail and note can be taken
/// away without changing a single line of the block.
#[verifier::rlimit(60)]
pub proof fn lemma_unflagged_fault_hidden(r: Report, c: FaultCategory, when: Seq<char>)
    requires
        r.wf(),
        !is_yes(r.fault_flag(c)),
    ensures
        without_fault_detail(r, c).wf(),
        spec_layout(&r, when) == spec_layout(&without_fault_detail(r, c), when),
{
    let s = without_fault_detail(r, c);
    reveal(spec_verdict_lines);
    reveal(spec_verdict_note_lines);
    reveal(spec_borked_lines);
    reveal(spec_tinker_lines);
    reveal(spec_launch_lines);
    reveal(spec_override_lines);
    reveal(spec_bug_lines);
    reveal(spec_closing_lines);
    assert(spec_tinker_steps(&r) == spec_tinker_steps(&s));
    assert forall|d: FaultCategory| is_yes(#[trigger] s.fault_flag(d)) implies s.has_follow_up(
        d,
    ) by {
        assert(r.fault_flag(d) == s.fault_flag(d));
        assert(is_yes(r.fault_flag(d)));
        assert(d != c);
    }
    assert forall|d: FaultCategory| #[trigger] spec_fault_lines(&r, d) == spec_fault_lines(&s, d) by {
        reveal(spec_fault_lines);
        if d != c {
            assert(r.fault_flag(d) == s.fault_flag(d));
            assert(r.fault_note(d) == s.fault_note(d));
            if is_yes(r.fault_flag(d)) {
                assert(r.fault_keys(d) == s.fault_keys(d));
            }
        }
    }
    assert(spec_all_fault_lines(&r) == spec_all_fault_lines(&s));
    assert(spec_body(&r) == spec_body(&s));
}

/// A fault category flagged `"yes"` is always listed under its heading, with
/// the labels of its follow-up detail; when that detail flags nothing, the
/// list is empty and the heading still stands.
pub proof fn lemma_flagged_fault_listed(r: &Report, c: FaultCategory, when: Seq<char>)
    requires
        r.wf(),
        is_yes(r.fault_flag(c)),
    ensures
        spec_layout(r, when).contains(
            LineView::Field(c.spec_label(), join(r.fault_keys(c), ", "@), Style::Caution),
        ),
        r.fault_keys(c).len() == 0 ==> join(r.fault_keys(c), ", "@).len() == 0,
{
    reveal(spec_fault_lines);
    let x = LineView::Field(c.spec_label(), join(r.fault_keys(c), ", "@), Style::Caution);
    let own = spec_fault_lines(r, c);
    assert(own[1] == x);
    assert(own.contains(x));
    let fa = spec_fault_lines(r, FaultCategory::Audio);
    let fg = spec_fault_lines(r, FaultCategory::Graphical);
    let fw = spec_fault_lines(r, FaultCategory::Windowing);
    let fi = spec_fault_lines(r, FaultCategory::Input);
    let fs = spec_fault_lines(r, FaultCategory::SaveGame);
    let fp = spec_fault_lines(r, FaultCategory::Performance);
    let ft = spec_fault_lines(r, FaultCategory::Stability);
    match c {
        FaultCategory::Audio => {
            lemma_contains_left(fa, fg, x);
            lemma_contains_left(fa + fg, fw, x);
            lemma_contains_left(fa + fg + fw, fi, x);
            lemma_contains_left(fa + fg + fw + fi, fs, x);
            lemma_contains_left(fa + fg + fw + fi + fs, fp, x);
            lemma_contains_left(fa + fg + fw + fi + fs + fp, ft, x);
        },
        FaultCategory::Graphical => {
            lemma_contains_right(fa, fg, x);
            lemma_contains_left(fa + fg, fw, x);
            lemma_contains_left(fa + fg + fw, fi, x);
            lemma_contains_left(fa + fg + fw + fi, fs, x);
            lemma_contains_left(fa + fg + fw + fi + fs, fp, x);
            lemma_contains_left(fa + fg + fw + fi + fs + fp, ft, x);
        },
        FaultCategory::Windowing => {
            lemma_contains_right(fa + fg, fw, x);
            lemma_contains_left(fa + fg + fw, fi, x);
            lemma_contains_left(fa + fg + fw + fi, fs, x);
            lemma_contains_left(fa + fg + fw + fi + fs, fp, x);
            lemma_contains_left(fa + fg + fw + fi + fs + fp, ft, x);
        },
        FaultCategory::Input => {
            lemma_contains_right(fa + fg + fw, fi, x);
            lemma_contains_left(fa + fg + fw + fi, fs, x);
            lemma_contains_left(fa + fg + fw + fi + fs, fp, x);
            lemma_contains_left(fa + fg + fw + fi + fs + fp, ft, x);
        },
        FaultCategory::SaveGame => {
            lemma_contains_right(fa + fg + fw + fi, fs, x);
            lemma_contains_left(fa + fg + fw + fi + fs, fp, x);
            lemma_contains_left(fa + fg + fw + fi + fs + fp, ft, x);
        },
        FaultCategory::Performance => {
            lemma_contains_right(fa + fg + fw + fi + fs, fp, x);
            lemma_contains_left(fa + fg + fw + fi + fs + fp, ft, x);
        },
        FaultCategory::Stability => {
            lemma_contains_right(fa + fg + fw + fi + fs + fp, ft, x);
        },
    }
    let all = spec_all_fault_lines(r);
    assert(all.contains(x));
    let pre = spec_verdict_lines(r) + spec_verdict_note_lines(r) + spec_borked_lines(r)
        + spec_tinker_lines(r) + spec_launch_lines(r) + spec_override_lines(r);
    let post = spec_bug_lines(r) + spec_closing_lines(r);
    assert(spec_body(r) =~= pre + all + post);
    lemma_contains_right(pre, all, x);
    lemma_contains_left(pre + all, post, x);
    let head = seq![
        LineView::Text(when, Style::Muted),
        LineView::Byline(
            r.contributor.steam.nickname@,
            spec_tally_text(r.contributor.report_tally as nat),
            spec_playtime_text(r.contributor.steam.playtime as nat),
        ),
    ];
    assert(spec_layout(r, when) =~= head + (pre + all + post));
    lemma_contains_right(head, pre + all + post, x);
}

/// No line of `s` is a field labelled "Tinker Steps".
pub open spec fn no_tinker_field(s: Seq<LineView>) -> bool {
    forall|i: int| 0 <= i < s.len() ==> !(#[trigger] s[i] is Field && s[i]->Field_0 == "Tinker Steps"@)
}

proof fn lemma_no_tinker_field_concat(a: Seq<LineView>, b: Seq<LineView>)
    requires
        no_tinker_field(a),
        no_tinker_field(b),
    ensures
        no_tinker_field(a + b),
{
    assert forall|i: int| 0 <= i < (a + b).len() implies !(#[trigger] (a + b)[i] is Field && (a
        + b)[i]->Field_0 == "Tinker Steps"@) by {
        if i < a.len() {
            assert((a + b)[i] == a[i]);
        } else {
            assert((a + b)[i] == b[i - a.len()]);
        }
    }
}

proof fn lemma_fault_lines_no_tinker_field(r: &Report, c: FaultCategory)
    ensures
        no_tinker_field(spec_fault_lines(r, c)),
{
    reveal(spec_fault_lines);
    reveal_strlit("Tinker Steps");
    reveal_strlit("Audio");
    reveal_strlit("Graphics");
    reveal_strlit("Windowing");
    reveal_strlit("Input");
    reveal_strlit("Save Game");
    reveal_strlit("Performance");
    reveal_strlit("Stability");
    assert(c.spec_label().len() != 12);
}

proof fn lemma_borked_lines_no_tinker_field(r: &Report)
    ensures
        no_tinker_field(spec_borked_lines(r)),
{
    reveal(spec_borked_lines);
    reveal_strlit("Tinker Steps");
    reveal_strlit("Installs");
    reveal_strlit("Opens");
    let b = spec_borked_lines(r);
    if b.len() > 0 {
        assert(b[0]->Field_0 == "Installs"@);
        assert(b[1]->Field_0 == "Opens"@);
    }
}

proof fn lemma_override_lines_no_tinker_field(r: &Report)
    ensures
        no_tinker_field(spec_override_lines(r)),
{
    reveal(spec_override_lines);
    let o = spec_override_lines(r);
    assert forall|i: int| 0 <= i < o.len() implies !(#[trigger] o[i] is Field) by {
        match r.responses.notes.tinker_override {
            Some(t) => {
                if t@.len() > 0 {
                    let above = r.responses.notes.verdict is Some || spec_tinker_steps(r).len() > 0
                        || r.responses.launch_options is Some;
                    if above {
                        assert(o =~= seq![LineView::Blank, LineView::Text(t@, Style::Plain)]);
                    } else {
                        assert(o =~= seq![LineView::Text(t@, Style::Plain)]);
                    }
                }
            },
            None => {},
        }
    }
}

proof fn lemma_bug_lines_no_tinker_field(r: &Report)
    ensures
        no_tinker_field(spec_bug_lines(r)),
{
    reveal(spec_bug_lines);
    reveal_strlit("Tinker Steps");
    reveal_strlit("Significant Bugs");
    let g = spec_bug_lines(r);
    if g.len() > 0 {
        assert(g[1]->Field_0 == "Significant Bugs"@);
    }
}

/// The "Tinker Steps" line stands exactly when the report has tinker steps,
/// whatever its answer to "does it open": no other line carries that label.
pub proof fn lemma_tinker_line_iff_steps(r: &Report, when: Seq<char>, value: Seq<char>, style: Style)
    ensures
        spec_layout(r, when).contains(LineView::Field("Tinker Steps"@, value, style))
            ==> spec_tinker_steps(r).len() > 0,
        spec_tinker_steps(r).len() > 0 ==> spec_layout(r, when).contains(
            LineView::Field("Tinker Steps"@, join(spec_tinker_steps(r), ", "@), Style::Plain),
        ),
{
    if spec_tinker_steps(r).len() == 0 {
        reveal(spec_verdict_lines);
        reveal(spec_verdict_note_lines);
        reveal(spec_tinker_lines);
        reveal(spec_launch_lines);
        reveal(spec_closing_lines);
        let head = seq![
            LineView::Text(when, Style::Muted),
            LineView::Byline(
                r.contributor.steam.nickname@,
                spec_tally_text(r.contributor.report_tally as nat),
                spec_playtime_text(r.contributor.steam.playtime as nat),
            ),
        ];
        assert(no_tinker_field(head));
        assert(no_tinker_field(spec_verdict_lines(r)));
        assert(no_tinker_field(spec_verdict_note_lines(r)));
        lemma_borked_lines_no_tinker_field(r);
        assert(no_tinker_field(spec_tinker_lines(r)));
        assert(no_tinker_field(spec_launch_lines(r)));
        lemma_override_lines_no_tinker_field(r);
        lemma_bug_lines_no_tinker_field(r);
        assert(no_tinker_field(spec_closing_lines(r)));
        let fa = spec_fault_lines(r, FaultCategory::Audio);
        let fg = spec_fault_lines(r, FaultCategory::Graphical);
        let fw = spec_fault_lines(r, FaultCategory::Windowing);
        let fi = spec_fault_lines(r, FaultCategory::Input);
        let fs = spec_fault_lines(r, FaultCategory::SaveGame);
        let fp = spec_fault_lines(r, FaultCategory::Performance);
        let ft = spec_fault_lines(r, FaultCategory::Stability);
        lemma_fault_lines_no_tinker_field(r, FaultCategory::Audio);
        lemma_fault_lines_no_tinker_field(r, FaultCategory::Graphical);
        lemma_fault_lines_no_tinker_field(r, FaultCategory::Windowing);
        lemma_fault_lines_no_tinker_field(r, FaultCategory::Input);
        lemma_fault_lines_no_tinker_field(r, FaultCategory::SaveGame);
        lemma_fault_lines_no_tinker_field(r, FaultCategory::Performance);
        lemma_fault_lines_no_tinker_field(r, FaultCategory::Stability);
        lemma_no_tinker_field_concat(fa, fg);
        lemma_no_tinker_field_concat(fa + fg, fw);
        lemma_no_tinker_field_concat(fa + fg + fw, fi);
        lemma_no_tinker_field_concat(fa + fg + fw + fi, fs);
        lemma_no_tinker_field_concat(fa + fg + fw + fi + fs, fp);
        lemma_no_tinker_field_concat(fa + fg + fw + fi + fs + fp, ft);
        let v = spec_verdict_lines(r);
        let n = spec_verdict_note_lines(r);
        let b = spec_borked_lines(r);
        let t = spec_tinker_lines(r);
        let l = spec_launch_lines(r);
        let o = spec_override_lines(r);
        let f = spec_all_fault_lines(r);
        let g = spec_bug_lines(r);
        let e = spec_closing_lines(r);
        lemma_no_tinker_field_concat(v, n);
        lemma_no_tinker_field_concat(v + n, b);
        lemma_no_tinker_field_concat(v + n + b, t);
        lemma_no_tinker_field_concat(v + n + b + t, l);
        lemma_no_tinker_field_concat(v + n + b + t + l, o);
        lemma_no_tinker_field_concat(v + n + b + t + l + o, f);
        lemma_no_tinker_field_concat(v + n + b + t + l + o + f, g);
        lemma_no_tinker_field_concat(v + n + b + t + l + o + f + g, e);
        lemma_no_tinker_field_concat(head, spec_body(r));
        let all = spec_layout(r, when);
        assert(no_tinker_field(all));
        let x = LineView::Field("Tinker Steps"@, value, style);
        if all.contains(x) {
            let i = choose|i: int| 0 <= i < all.len() && all[i] == x;
            assert(all[i] is Field && all[i]->Field_0 == "Tinker Steps"@);
        }
    } else {
        reveal(spec_tinker_lines);
        let a = spec_verdict_lines(r) + spec_verdict_note_lines(r) + spec_borked_lines(r);
        let t = spec_tinker_lines(r);
        let rest = spec_launch_lines(r) + spec_override_lines(r) + spec_all_fault_lines(r)
            + spec_bug_lines(r) + spec_closing_lines(r);
        let head = seq![
            LineView::Text(when, Style::Muted),
            LineView::Byline(
                r.contributor.steam.nickname@,
                spec_tally_text(r.contributor.report_tally as nat),
                spec_playtime_text(r.contributor.steam.playtime as nat),
            ),
        ];
        let x = LineView::Field("Tinker Steps"@, join(spec_tinker_steps(r), ", "@), Style::Plain);
        assert(spec_body(r) =~= a + t + rest);
        assert(spec_layout(r, when) =~= head + (a + t + rest));
        assert(t[0] == x);
        lemma_contains_right(a, t, x);
        lemma_contains_left(a + t, rest, x);
        lemma_contains_right(head, a + t + rest, x);
    }
}

/// A report that does not open is shown as "Borked" right below the byline,
/// while its tinker steps are still derived from the other fields and listed
/// exactly when there are any.
pub proof fn lemma_borked_keeps_tinker_steps(r: &Report, when: Seq<char>)
    requires
        r.responses.opens@ == "no"@,
    ensures
        spec_layout(r, when)[2] == LineView::Text("Borked"@, Style::Alert),
        spec_tinker_steps(r).len() > 0 <==> spec_layout(r, when).contains(
            LineView::Field("Tinker Steps"@, join(spec_tinker_steps(r), ", "@), Style::Plain),
        ),
{
    reveal(spec_verdict_lines);
    let v = spec_verdict_lines(r);
    assert(v.len() == 1);
    let head = seq![
        LineView::Text(when, Style::Muted),
        LineView::Byline(
            r.contributor.steam.nickname@,
            spec_tally_text(r.contributor.report_tally as nat),
            spec_playtime_text(r.contributor.steam.playtime as nat),
        ),
    ];
    let a = v + spec_verdict_note_lines(r) + spec_borked_lines(r);
    let rest = spec_tinker_lines(r) + spec_launch_lines(r) + spec_override_lines(r)
        + spec_all_fault_lines(r) + spec_bug_lines(r) + spec_closing_lines(r);
    assert(spec_body(r) =~= a + rest);
    assert(spec_layout(r, when) =~= head + (a + rest));
    assert(a[0] == v[0]);
    assert((head + (a + rest))[2] == a[0]);
    lemma_tinker_line_iff_steps(
        r,
        when,
        join(spec_tinker_steps(r), ", "@),
        Style::Plain,
    );
}

} // verus!
