use move_model::diag::{Diagnostic, Label, LabelStyle, Severity};
use move_model::env::GlobalEnv;
use move_model::loc::{FileId, Loc, Span};

fn empty_env() -> GlobalEnv {
    GlobalEnv::new()
}

fn loc(file: u32, start: u32, end: u32) -> Loc {
    Loc::new(FileId::new(file), Span::new(start, end))
}

#[test]
fn severity_order() {
    assert!(Severity::Bug.at_least(Severity::Error));
    assert!(Severity::Error.at_least(Severity::Warning));
    assert!(Severity::Warning.at_least(Severity::Note));
    assert!(Severity::Note.at_least(Severity::Help));
    assert!(Severity::Warning.at_least(Severity::Warning));
    assert!(!Severity::Warning.at_least(Severity::Error));
    assert!(!Severity::Help.at_least(Severity::Note));
}

#[test]
fn diagnostic_builders() {
    let d = Diagnostic::new(Severity::Warning)
        .with_message("unused".to_string())
        .with_code("W01".to_string())
        .with_labels(vec![Label::primary(FileId::new(2), Span::new(3, 9))])
        .with_labels(vec![Label::secondary(FileId::new(2), Span::new(10, 12))
            .with_message("here".to_string())])
        .with_notes(vec!["a".to_string()])
        .with_notes(vec!["b".to_string()]);
    assert_eq!(d.severity, Severity::Warning);
    assert_eq!(d.code, Some("W01".to_string()));
    assert_eq!(d.message, "unused");
    assert_eq!(d.labels.len(), 2);
    assert_eq!(d.labels[0].style, LabelStyle::Primary);
    assert_eq!((d.labels[0].start, d.labels[0].end), (3, 9));
    assert_eq!(d.labels[0].message, "");
    assert_eq!(d.labels[1].style, LabelStyle::Secondary);
    assert_eq!(d.labels[1].message, "here");
    assert_eq!(d.notes, vec!["a".to_string(), "b".to_string()]);
    assert!(d.same(&d.duplicate()));
    assert!(!d.same(&Diagnostic::new(Severity::Warning)));
}

#[test]
fn add_diag_skips_duplicates() {
    let mut env = empty_env();
    env.error(&loc(0, 1, 5), "bad");
    env.error(&loc(0, 1, 5), "bad");
    assert_eq!(env.diags.len(), 1);
    env.error(&loc(0, 1, 6), "bad");
    assert_eq!(env.diags.len(), 2);
    let d = Diagnostic::new(Severity::Error)
        .with_message("bad".to_string())
        .with_labels(vec![Label::primary(FileId::new(0), Span::new(1, 5))]);
    assert!(env.has_diag(&d));
    env.add_diag(d);
    assert_eq!(env.diags.len(), 2);
    assert!(!env.has_diag(&Diagnostic::new(Severity::Error)));
}

#[test]
fn counts_by_severity() {
    let mut env = empty_env();
    assert_eq!(env.diag_count(Severity::Help), 0);
    assert!(!env.has_errors());
    assert!(!env.has_warnings());
    env.diag(Severity::Warning, &loc(0, 0, 1), "w");
    assert!(env.has_warnings());
    assert!(!env.has_errors());
    env.diag(Severity::Note, &loc(0, 0, 1), "n");
    env.diag(Severity::Help, &loc(0, 0, 1), "h");
    env.diag(Severity::Bug, &loc(0, 0, 1), "b");
    env.error(&loc(0, 0, 1), "e");
    assert_eq!(env.error_count(), 2);
    assert_eq!(env.diag_count(Severity::Warning), 3);
    assert_eq!(env.diag_count(Severity::Note), 4);
    assert_eq!(env.diag_count(Severity::Help), 5);
    assert!(env.has_errors());
    env.clear_diag();
    assert_eq!(env.diag_count(Severity::Help), 0);
    assert!(!env.has_warnings());
}

#[test]
fn notes_and_labels() {
    let mut env = empty_env();
    env.error_with_notes(&loc(1, 2, 3), "msg", vec!["note one".to_string()]);
    env.diag_with_labels(
        Severity::Warning,
        &loc(1, 4, 8),
        "two places",
        vec![(loc(2, 0, 4), "first here".to_string())],
    );
    let (e, reported) = &env.diags[0];
    assert!(!reported);
    assert_eq!(e.severity, Severity::Error);
    assert_eq!(e.notes, vec!["note one".to_string()]);
    assert_eq!(e.labels.len(), 1);
    let (w, _) = &env.diags[1];
    assert_eq!(w.labels.len(), 2);
    assert_eq!(w.labels[0].style, LabelStyle::Primary);
    assert_eq!((w.labels[0].start, w.labels[0].end), (4, 8));
    assert_eq!(w.labels[1].style, LabelStyle::Secondary);
    assert_eq!(w.labels[1].file_id, FileId::new(2));
    assert_eq!(w.labels[1].message, "first here");
}

#[test]
fn report_marks_and_filters_notes() {
    let mut env = empty_env();
    env.diag(Severity::Note, &loc(0, 0, 1), "note");
    env.error_with_notes(
        &loc(0, 0, 1),
        "failed",
        vec!["in /home/alice/.move/cache_x/packages/Sui/sources/a.move".to_string()],
    );
    env.diag(Severity::Warning, &loc(0, 0, 1), "warn");
    let out = env.report_diag(Severity::Warning);
    assert_eq!(out.len(), 2);
    assert_eq!(out[0].message, "failed");
    assert_eq!(out[0].notes, vec!["in Sui/sources/a.move".to_string()]);
    assert_eq!(out[1].message, "warn");
    assert!(!env.has_warnings());
    assert_eq!(env.diag_count(Severity::Help), 1);
    // the stored diagnostic keeps its note as it was
    assert_eq!(
        env.diags[1].0.notes,
        vec!["in /home/alice/.move/cache_x/packages/Sui/sources/a.move".to_string()]
    );
    assert!(env.report_diag(Severity::Warning).is_empty());
    let out = env.report_diag(Severity::Help);
    assert_eq!(out.len(), 1);
    assert_eq!(out[0].message, "note");
    assert_eq!(env.diag_count(Severity::Help), 0);
}

#[test]
fn report_with_filter() {
    let mut env = empty_env();
    env.error(&loc(0, 0, 1), "keep");
    env.error(&loc(0, 0, 1), "show");
    let out = env.report_diag_with_filter(|d: &Diagnostic| d.message == "show");
    assert_eq!(out.len(), 1);
    assert_eq!(out[0].message, "show");
    assert!(!env.diags[0].1);
    assert!(env.diags[1].1);
    assert_eq!(env.error_count(), 1);
}
