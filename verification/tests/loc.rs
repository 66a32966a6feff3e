use move_model::loc::{enclosing_span, filter_out_sensetives, FileId, Loc, Span};

fn loc(file: u32, start: u32, end: u32) -> Loc {
    Loc::new(FileId::new(file), Span::new(start, end))
}

fn bounds(l: &Loc) -> (u32, u32, u32) {
    (l.file_id().index(), l.span().start(), l.span().end())
}

#[test]
fn at_end_points_to_last_byte() {
    assert_eq!(bounds(&loc(1, 10, 20).at_end()), (1, 19, 20));
}

#[test]
fn at_end_of_location_ending_at_zero_is_itself() {
    assert_eq!(bounds(&loc(1, 0, 0).at_end()), (1, 0, 0));
}

#[test]
fn at_start_points_to_first_byte() {
    assert_eq!(bounds(&loc(2, 10, 20).at_start()), (2, 10, 11));
    assert_eq!(bounds(&loc(2, 7, 7).at_start()), (2, 7, 8));
}

#[test]
fn enclosing_spans_all_locations_of_first_file() {
    let a = loc(1, 10, 20);
    let b = loc(1, 5, 12);
    let c = loc(2, 0, 100);
    let d = loc(1, 15, 30);
    let r = Loc::enclosing(&[&a, &b, &c, &d]);
    assert_eq!(bounds(&r), (1, 5, 30));
    assert!(r.is_enclosing(&a));
    assert!(r.is_enclosing(&b));
    assert!(r.is_enclosing(&d));
    assert!(!r.is_enclosing(&c));
}

#[test]
fn enclosing_of_one_location_is_itself() {
    let a = loc(3, 4, 9);
    assert_eq!(bounds(&Loc::enclosing(&[&a])), (3, 4, 9));
}

#[test]
fn is_enclosing_needs_same_file_and_span() {
    assert!(loc(1, 0, 10).is_enclosing(&loc(1, 0, 10)));
    assert!(loc(1, 0, 10).is_enclosing(&loc(1, 3, 4)));
    assert!(!loc(1, 0, 10).is_enclosing(&loc(1, 3, 11)));
    assert!(!loc(1, 0, 10).is_enclosing(&loc(2, 3, 4)));
}

#[test]
fn enclosing_span_compares_bounds() {
    assert!(enclosing_span(Span::new(0, 10), Span::new(2, 10)));
    assert!(!enclosing_span(Span::new(3, 10), Span::new(2, 10)));
    assert!(Span::initial() == Span::new(0, 0));
}

#[test]
fn sensitive_paths_are_shortened() {
    assert_eq!(
        filter_out_sensetives("/home/alice/.move/https___github/packages/sui-framework/sources/a.move"),
        "sui-framework/sources/a.move"
    );
    assert_eq!(
        filter_out_sensetives("at /Users/bob/.move/x/crates/std/b.move:3"),
        "at std/b.move:3"
    );
}

#[test]
fn other_paths_are_unchanged() {
    assert_eq!(filter_out_sensetives(""), "");
    assert_eq!(filter_out_sensetives("sources/a.move"), "sources/a.move");
}
