//! Diagnostics: their severity, message, labels and notes, and the collection of them that
//! the environment accumulates, each with whether it has been reported.

use vstd::prelude::*;

use crate::env::GlobalEnv;
use crate::loc::{FileId, Loc, LocView, Span, filter_out_sensetives, filtered_paths};

verus! {

/// The severity of a diagnostic, from the most to the least severe.
#[derive(Debug, Clone, Copy, PartialEq, Eq, Structural, Hash)]
pub enum Severity {
    Bug,
    Error,
    Warning,
    Note,
    Help,
}

impl Severity {
    /// The place of the severity in the order `Help < Note < Warning < Error < Bug`.
    pub open spec fn rank(self) -> nat {
        match self {
            Severity::Bug => 5,
            Severity::Error => 4,
            Severity::Warning => 3,
            Severity::Note => 2,
            Severity::Help => 1,
        }
    }

    fn to_cmp_int(self) -> (r: u8)
        ensures
            r == self.rank(),
    {
        match self {
            Severity::Bug => 5,
            Severity::Error => 4,
            Severity::Warning => 3,
            Severity::Note => 2,
            Severity::Help => 1,
        }
    }

    /// Whether this severity is `min` or more severe than it.
    pub fn at_least(self, min: Severity) -> (r: bool)
        ensures
            r == (self.rank() >= min.rank()),
    {
        self.to_cmp_int() >= min.to_cmp_int()
    }
}

/// Whether a label marks the primary cause of a diagnostic or gives context.
#[derive(Debug, Clone, Copy, PartialEq, Eq, Structural, Hash)]
pub enum LabelStyle {
    Primary,
    Secondary,
}

/// A region of a file that a diagnostic points at, with a message.
pub struct Label {
    pub style: LabelStyle,
    pub file_id: FileId,
    /// The first byte of the region.
    pub start: usize,
    /// The byte after the region.
    pub end: usize,
    pub message: String,
}

/// The mathematical value of a label.
pub struct LabelView {
    pub style: LabelStyle,
    pub file: nat,
    pub start: nat,
    pub end: nat,
    pub message: Seq<char>,
}

impl View for Label {
    type V = LabelView;

    open spec fn view(&self) -> LabelView {
        LabelView {
            style: self.style,
            file: self.file_id@,
            start: self.start as nat,
            end: self.end as nat,
            message: self.message@,
        }
    }
}

/// The views of a sequence of strings.
pub open spec fn string_views(s: Seq<String>) -> Seq<Seq<char>> {
    s.map_values(|x: String| x@)
}

/// The views of a sequence of labels.
pub open spec fn label_views(s: Seq<Label>) -> Seq<LabelView> {
    s.map_values(|x: Label| x@)
}

impl Label {
    /// A label of the given style on `span` in `file_id`, without a message.
    pub fn new(style: LabelStyle, file_id: FileId, span: Span) -> (r: Label)
        ensures
            r@ == (LabelView {
                style,
                file: file_id@,
                start: span@.0,
                end: span@.1,
                message: Seq::empty(),
            }),
    {
        Label {
            style,
            file_id,
            start: span.start() as usize,
            end: span.end() as usize,
            message: String::new(),
        }
    }

    /// A primary label on `span` in `file_id`.
    pub fn primary(file_id: FileId, span: Span) -> (r: Label)
        ensures
            r@ == (LabelView {
                style: LabelStyle::Primary,
                file: file_id@,
                start: span@.0,
                end: span@.1,
                message: Seq::empty(),
            }),
    {
        Label::new(LabelStyle::Primary, file_id, span)
    }

    /// A secondary label on `span` in `file_id`.
    pub fn secondary(file_id: FileId, span: Span) -> (r: Label)
        ensures
            r@ == (LabelView {
                style: LabelStyle::Secondary,
                file: file_id@,
                start: span@.0,
                end: span@.1,
                message: Seq::empty(),
            }),
    {
        Label::new(LabelStyle::Secondary, file_id, span)
    }

    /// This label with the given message.
    pub fn with_message(self, message: String) -> (r: Label)
        ensures
            r@ == (LabelView { message: message@, ..self@ }),
    {
        Label { message, ..self }
    }

    /// A copy of this label.
    pub fn duplicate(&self) -> (r: Label)
        ensures
            r@ == self@,
    {
        Label {
            style: self.style,
            file_id: self.file_id,
            start: self.start,
            end: self.end,
            message: self.message.clone(),
        }
    }

    /// Whether two labels are equal.
    pub fn same(&self, other: &Label) -> (r: bool)
        ensures
            r == (self@ == other@),
    {
        proof {
            FileId::lemma_view_injective(self.file_id, other.file_id);
        }
        self.style == other.style && self.file_id == other.file_id && self.start == other.start
            && self.end == other.end && self.message == other.message
    }
}

/// A diagnostic: a severity, an optional code, a message, labels and notes.
pub struct Diagnostic {
    pub severity: Severity,
    pub code: Option<String>,
    pub message: String,
    pub labels: Vec<Label>,
    pub notes: Vec<String>,
}

/// The mathematical value of a diagnostic.
pub struct DiagnosticView {
    pub severity: Severity,
    pub code: Option<Seq<char>>,
    pub message: Seq<char>,
    pub labels: Seq<LabelView>,
    pub notes: Seq<Seq<char>>,
}

impl View for Diagnostic {
    type V = DiagnosticView;

    open spec fn view(&self) -> DiagnosticView {
        DiagnosticView {
            severity: self.severity,
            code: match self.code {
                Some(c) => Some(c@),
                None => None,
            },
            message: self.message@,
            labels: label_views(self.labels@),
            notes: string_views(self.notes@),
        }
    }
}

/// A copy of a sequence of strings.
fn duplicate_strings(v: &Vec<String>) -> (r: Vec<String>)
    ensures
        string_views(r@) == string_views(v@),
{
    let mut r: Vec<String> = Vec::new();
    let mut i: usize = 0;
    while i < v.len()
        invariant
            i <= v.len(),
            r@.len() == i,
            forall|j: int| 0 <= j < i ==> r@[j]@ == v@[j]@,
        decreases v.len() - i,
    {
        r.push(v[i].clone());
        i = i + 1;
    }
    assert(string_views(r@) =~= string_views(v@));
    r
}

/// Whether two sequences of strings are equal.
fn same_strings(a: &Vec<String>, b: &Vec<String>) -> (r: bool)
    ensures
        r == (string_views(a@) == string_views(b@)),
{
    if a.len() != b.len() {
        assert(string_views(a@).len() != string_views(b@).len());
        return false;
    }
    let mut i: usize = 0;
    while i < a.len()
        invariant
            a@.len() == b@.len(),
            i <= a.len(),
            forall|j: int| 0 <= j < i ==> a@[j]@ == b@[j]@,
        decreases a.len() - i,
    {
        if !(a[i] == b[i]) {
            assert(string_views(a@)[i as int] != string_views(b@)[i as int]);
            return false;
        }
        i = i + 1;
    }
    assert(string_views(a@) =~= string_views(b@));
    true
}

/// A copy of a sequence of labels.
fn duplicate_labels(v: &Vec<Label>) -> (r: Vec<Label>)
    ensures
        label_views(r@) == label_views(v@),
{
    let mut r: Vec<Label> = Vec::new();
    let mut i: usize = 0;
    while i < v.len()
        invariant
            i <= v.len(),
            r@.len() == i,
            forall|j: int| 0 <= j < i ==> r@[j]@ == v@[j]@,
        decreases v.len() - i,
    {
        r.push(v[i].duplicate());
        i = i + 1;
    }
    assert(label_views(r@) =~= label_views(v@));
    r
}

/// Whether two sequences of labels are equal.
fn same_labels(a: &Vec<Label>, b: &Vec<Label>) -> (r: bool)
    ensures
        r == (label_views(a@) == label_views(b@)),
{
    if a.len() != b.len() {
        assert(label_views(a@).len() != label_views(b@).len());
        return false;
    }
    let mut i: usize = 0;
    while i < a.len()
        invariant
            a@.len() == b@.len(),
            i <= a.len(),
            forall|j: int| 0 <= j < i ==> a@[j]@ == b@[j]@,
        decreases a.len() - i,
    {
        if !a[i].same(&b[i]) {
            assert(label_views(a@)[i as int] != label_views(b@)[i as int]);
            return false;
        }
        i = i + 1;
    }
    assert(label_views(a@) =~= label_views(b@));
    true
}

impl Diagnostic {
    /// A diagnostic of the given severity, without code, message, labels or notes.
    pub fn new(severity: Severity) -> (r: Diagnostic)
        ensures
            r@ == (DiagnosticView {
                severity,
                code: None,
                message: Seq::empty(),
                labels: Seq::empty(),
                notes: Seq::empty(),
            }),
    {
        let r = Diagnostic {
            severity,
            code: None,
            message: String::new(),
            labels: Vec::new(),
            notes: Vec::new(),
        };
        assert(label_views(r.labels@) =~= Seq::empty());
        assert(string_views(r.notes@) =~= Seq::empty());
        r
    }

    /// This diagnostic with the given code.
    pub fn with_code(self, code: String) -> (r: Diagnostic)
        ensures
            r@ == (DiagnosticView { code: Some(code@), ..self@ }),
    {
        Diagnostic { code: Some(code), ..self }
    }

    /// This diagnostic with the given message.
    pub fn with_message(self, message: String) -> (r: Diagnostic)
        ensures
            r@ == (DiagnosticView { message: message@, ..self@ }),
    {
        Diagnostic { message, ..self }
    }

    /// This diagnostic with `labels` added after its labels.
    pub fn with_labels(self, labels: Vec<Label>) -> (r: Diagnostic)
        ensures
            r@ == (DiagnosticView { labels: self@.labels + label_views(labels@), ..self@ }),
    {
        let mut d = self;
        let mut labels = labels;
        let ghost before = d.labels@;
        let ghost added = labels@;
        d.labels.append(&mut labels);
        assert(label_views(d.labels@) =~= label_views(before) + label_views(added));
        d
    }

    /// This diagnostic with `notes` added after its notes.
    pub fn with_notes(self, notes: Vec<String>) -> (r: Diagnostic)
        ensures
            r@ == (DiagnosticView { notes: self@.notes + string_views(notes@), ..self@ }),
    {
        let mut d = self;
        let mut notes = notes;
        let ghost before = d.notes@;
        let ghost added = notes@;
        d.notes.append(&mut notes);
        assert(string_views(d.notes@) =~= string_views(before) + string_views(added));
        d
    }

    /// A copy of this diagnostic.
    pub fn duplicate(&self) -> (r: Diagnostic)
        ensures
            r@ == self@,
    {
        let code = match &self.code {
            Some(c) => Some(c.clone()),
            None => None,
        };
        Diagnostic {
            severity: self.severity,
            code,
            message: self.message.clone(),
            labels: duplicate_labels(&self.labels),
            notes: duplicate_strings(&self.notes),
        }
    }

    /// Whether two diagnostics are equal.
    pub fn same(&self, other: &Diagnostic) -> (r: bool)
        ensures
            r == (self@ == other@),
    {
        let same_code = match (&self.code, &other.code) {
            (Some(a), Some(b)) => *a == *b,
            (None, None) => true,
            _ => false,
        };
        self.severity == other.severity && same_code && self.message == other.message
            && same_labels(&self.labels, &other.labels) && same_strings(&self.notes, &other.notes)
    }
}

/// The views of the diagnostics of an environment, each with whether it was reported.
pub open spec fn diag_views(ds: Seq<(Diagnostic, bool)>) -> Seq<(DiagnosticView, bool)> {
    ds.map_values(|p: (Diagnostic, bool)| (p.0@, p.1))
}

/// Whether `d` is among the diagnostics of `ds`.
pub open spec fn holds_diag(ds: Seq<(DiagnosticView, bool)>, d: DiagnosticView) -> bool {
    exists|i: int| 0 <= i < ds.len() && (#[trigger] ds[i]).0 == d
}

/// `ds` after adding `d`: unchanged where `d` is already there, else with `d` added at the
/// end, not reported.
pub open spec fn with_diag(ds: Seq<(DiagnosticView, bool)>, d: DiagnosticView) -> Seq<
    (DiagnosticView, bool),
> {
    if holds_diag(ds, d) {
        ds
    } else {
        ds.push((d, false))
    }
}

/// The number of diagnostics of `ds` that are not reported and whose severity is `min` or
/// more severe.
pub open spec fn pending_count(ds: Seq<(DiagnosticView, bool)>, min: Severity) -> nat
    decreases ds.len(),
{
    if ds.len() == 0 {
        0
    } else {
        pending_count(ds.drop_last(), min) + if !ds.last().1 && ds.last().0.severity.rank()
            >= min.rank() {
            1nat
        } else {
            0nat
        }
    }
}

/// A diagnostic with the paths in its notes freed of user names and package caches.
pub open spec fn sensitive_free(d: DiagnosticView) -> DiagnosticView {
    DiagnosticView { notes: d.notes.map_values(|n: Seq<char>| filtered_paths(n)), ..d }
}

/// The diagnostics, freed of sensitive paths, that are reported in `after` and were not in
/// `before`, in their order.
pub open spec fn newly_reported(
    before: Seq<(DiagnosticView, bool)>,
    after: Seq<(DiagnosticView, bool)>,
) -> Seq<DiagnosticView>
    decreases before.len(),
{
    if before.len() == 0 || after.len() != before.len() {
        Seq::empty()
    } else {
        let rest = newly_reported(before.drop_last(), after.drop_last());
        if !before.last().1 && after.last().1 {
            rest.push(sensitive_free(before.last().0))
        } else {
            rest
        }
    }
}

/// The views of a sequence of diagnostics.
pub open spec fn diagnostic_views(s: Seq<Diagnostic>) -> Seq<DiagnosticView> {
    s.map_values(|d: Diagnostic| d@)
}

/// The notes with their paths freed of user names and package caches.
fn sensitive_free_notes(notes: &Vec<String>) -> (r: Vec<String>)
    ensures
        string_views(r@) == string_views(notes@).map_values(|n: Seq<char>| filtered_paths(n)),
{
    let mut r: Vec<String> = Vec::new();
    let mut i: usize = 0;
    while i < notes.len()
        invariant
            i <= notes.len(),
            r@.len() == i,
            forall|j: int| 0 <= j < i ==> r@[j]@ == filtered_paths(notes@[j]@),
        decreases notes.len() - i,
    {
        r.push(filter_out_sensetives(notes[i].as_str()));
        i = i + 1;
    }
    assert(string_views(r@) =~= string_views(notes@).map_values(
        |n: Seq<char>| filtered_paths(n),
    ));
    r
}

/// `ds` with every diagnostic whose severity is `min` or more severe marked reported.
pub open spec fn reported_at_least(ds: Seq<(DiagnosticView, bool)>, min: Severity) -> Seq<
    (DiagnosticView, bool),
> {
    ds.map_values(
        |p: (DiagnosticView, bool)| (p.0, p.1 || p.0.severity.rank() >= min.rank()),
    )
}

/// The number of pending diagnostics never exceeds the number of diagnostics.
proof fn lemma_pending_count_bound(ds: Seq<(DiagnosticView, bool)>, min: Severity)
    ensures
        pending_count(ds, min) <= ds.len(),
    decreases ds.len(),
{
    if ds.len() > 0 {
        lemma_pending_count_bound(ds.drop_last(), min);
    }
}

/// The primary label at a location, without a message.
pub open spec fn primary_label(loc: LocView) -> LabelView {
    LabelView {
        style: LabelStyle::Primary,
        file: loc.file,
        start: loc.start,
        end: loc.end,
        message: Seq::empty(),
    }
}

/// The secondary label at a location, with a message.
pub open spec fn secondary_label(loc: LocView, msg: Seq<char>) -> LabelView {
    LabelView {
        style: LabelStyle::Secondary,
        file: loc.file,
        start: loc.start,
        end: loc.end,
        message: msg,
    }
}

/// The secondary labels of locations with their messages.
pub open spec fn secondary_labels(labels: Seq<(Loc, String)>) -> Seq<LabelView> {
    labels.map_values(|p: (Loc, String)| secondary_label(p.0@, p.1@))
}

/// The diagnostic of a severity with a message, the primary label at `loc`, then
/// `extra_labels`, and notes.
pub open spec fn located_diag(
    severity: Severity,
    loc: LocView,
    msg: Seq<char>,
    extra_labels: Seq<LabelView>,
    notes: Seq<Seq<char>>,
) -> DiagnosticView {
    DiagnosticView {
        severity,
        code: None,
        message: msg,
        labels: seq![primary_label(loc)] + extra_labels,
        notes,
    }
}

/// Adding a diagnostic twice is adding it once, and after adding it the environment holds it.
pub proof fn lemma_add_diag_idempotent(ds: Seq<(DiagnosticView, bool)>, d: DiagnosticView)
    ensures
        with_diag(with_diag(ds, d), d) == with_diag(ds, d),
        holds_diag(with_diag(ds, d), d),
{
    if !holds_diag(ds, d) {
        let e = ds.push((d, false));
        assert(e[ds.len() as int].0 == d);
    }
}

/// Adding a diagnostic that is not yet there adds one to the pending count of each
/// severity that it reaches, and adding one that is there changes no count.
pub proof fn lemma_add_diag_counts(ds: Seq<(DiagnosticView, bool)>, d: DiagnosticView, min: Severity)
    ensures
        holds_diag(ds, d) ==> pending_count(with_diag(ds, d), min) == pending_count(ds, min),
        !holds_diag(ds, d) ==> pending_count(with_diag(ds, d), min) == pending_count(ds, min)
            + if d.severity.rank() >= min.rank() {
            1nat
        } else {
            0nat
        },
{
    if !holds_diag(ds, d) {
        assert(ds.push((d, false)).drop_last() =~= ds);
    }
}

/// A diagnostic that counts for a severity counts for every lower one: the number of pending
/// diagnostics of at least `a` is at most that of at least `b` when `b` is not above `a`.
pub proof fn lemma_pending_count_monotone(ds: Seq<(DiagnosticView, bool)>, a: Severity, b: Severity)
    requires
        a.rank() >= b.rank(),
    ensures
        pending_count(ds, a) <= pending_count(ds, b),
    decreases ds.len(),
{
    if ds.len() > 0 {
        lemma_pending_count_monotone(ds.drop_last(), a, b);
    }
}

/// Severities are ordered `Help < Note < Warning < Error < Bug`, and a diagnostic counts as
/// pending at a severity exactly when it is not reported and is that severe or more.
pub proof fn lemma_severity_order(ds: Seq<(DiagnosticView, bool)>, d: DiagnosticView, reported: bool, min: Severity)
    ensures
        Severity::Help.rank() < Severity::Note.rank(),
        Severity::Note.rank() < Severity::Warning.rank(),
        Severity::Warning.rank() < Severity::Error.rank(),
        Severity::Error.rank() < Severity::Bug.rank(),
        pending_count(ds.push((d, reported)), min) == pending_count(ds, min) + if !reported
            && d.severity.rank() >= min.rank() {
            1nat
        } else {
            0nat
        },
{
    assert(ds.push((d, reported)).drop_last() =~= ds);
}

/// Where there are errors, there are warnings: an environment with pending errors has
/// pending warnings.
pub proof fn lemma_errors_are_warnings(ds: Seq<(DiagnosticView, bool)>)
    ensures
        pending_count(ds, Severity::Error) > 0 ==> pending_count(ds, Severity::Warning) > 0,
{
    lemma_pending_count_monotone(ds, Severity::Error, Severity::Warning);
}

/// Reporting at a severity reports exactly the diagnostics that were pending at that
/// severity: as many as `diag_count` counted, after which none is pending at that severity or
/// above, and reporting again reports nothing.
pub proof fn lemma_report_diag(ds: Seq<(DiagnosticView, bool)>, severity: Severity, min: Severity)
    requires
        min.rank() >= severity.rank(),
    ensures
        newly_reported(ds, reported_at_least(ds, severity)).len() == pending_count(ds, severity),
        pending_count(reported_at_least(ds, severity), min) == 0,
        reported_at_least(reported_at_least(ds, severity), severity) == reported_at_least(
            ds,
            severity,
        ),
        newly_reported(
            reported_at_least(ds, severity),
            reported_at_least(reported_at_least(ds, severity), severity),
        ).len() == 0,
    decreases ds.len(),
{
    let r = reported_at_least(ds, severity);
    assert(reported_at_least(r, severity) =~= r);
    if ds.len() > 0 {
        lemma_report_diag(ds.drop_last(), severity, min);
        assert(r.drop_last() =~= reported_at_least(ds.drop_last(), severity));
    }
    lemma_nothing_new(r);
}

/// Comparing a sequence of diagnostics with itself finds nothing newly reported.
proof fn lemma_nothing_new(ds: Seq<(DiagnosticView, bool)>)
    ensures
        newly_reported(ds, ds).len() == 0,
    decreases ds.len(),
{
    if ds.len() > 0 {
        lemma_nothing_new(ds.drop_last());
    }
}

/// After clearing, nothing is pending at any severity.
pub proof fn lemma_clear_diag(min: Severity)
    ensures
        pending_count(Seq::<(DiagnosticView, bool)>::empty(), min) == 0,
{
}

impl GlobalEnv {
    /// The diagnostics of the environment, each with whether it was reported.
    pub open spec fn diags_view(&self) -> Seq<(DiagnosticView, bool)> {
        diag_views(self.diags@)
    }

    /// `self` and `other` agree on everything but their diagnostics.
    pub open spec fn same_but_diags(&self, other: &GlobalEnv) -> bool {
        &&& self.symbol_pool == other.symbol_pool
        &&& self.next_free_node_id == other.next_free_node_id
        &&& self.global_id_counter == other.global_id_counter
        &&& self.exp_info == other.exp_info
        &&& self.same_declarations(other)
    }

    /// Checks whether the diagnostic is among those of the environment.
    pub fn has_diag(&self, diag: &Diagnostic) -> (r: bool)
        ensures
            r == holds_diag(self.diags_view(), diag@),
    {
        let n = self.diags.len();
        let mut i: usize = 0;
        while i < n
            invariant
                n == self.diags@.len(),
                i <= n,
                forall|j: int| 0 <= j < i ==> (#[trigger] self.diags_view()[j]).0 != diag@,
            decreases n - i,
        {
            assert(self.diags_view()[i as int].0 == self.diags@[i as int].0@);
            if self.diags[i].0.same(diag) {
                return true;
            }
            i = i + 1;
        }
        false
    }

    /// Adds a diagnostic to the environment, unless it is already there.
    pub fn add_diag(&mut self, diag: Diagnostic)
        ensures
            final(self).diags_view() == with_diag(old(self).diags_view(), diag@),
            final(self).same_but_diags(&*old(self)),
    {
        if self.has_diag(&diag) {
            return;
        }
        let ghost d = diag@;
        self.diags.push((diag, false));
        assert(diag_views(self.diags@) =~= diag_views(old(self).diags@).push((d, false)));
    }

    /// Removes all diagnostics.
    pub fn clear_diag(&mut self)
        ensures
            final(self).diags_view() == Seq::<(DiagnosticView, bool)>::empty(),
            final(self).same_but_diags(&*old(self)),
    {
        self.diags.clear();
        assert(diag_views(self.diags@) =~= Seq::<(DiagnosticView, bool)>::empty());
    }

    /// Adds a diagnostic of the given severity with a message and a primary label at `loc`.
    pub fn diag(&mut self, severity: Severity, loc: &Loc, msg: &str)
        ensures
            final(self).diags_view() == with_diag(
                old(self).diags_view(),
                located_diag(severity, loc@, msg@, Seq::empty(), Seq::empty()),
            ),
            final(self).same_but_diags(&*old(self)),
    {
        let d = Diagnostic::new(severity).with_message(String::from_str(msg)).with_labels(
            vec![Label::primary(loc.file_id(), loc.span())],
        );
        assert(d@.labels =~= seq![primary_label(loc@)]);
        self.add_diag(d);
    }

    /// Adds an error with a message and a primary label at `loc`.
    pub fn error(&mut self, loc: &Loc, msg: &str)
        ensures
            final(self).diags_view() == with_diag(
                old(self).diags_view(),
                located_diag(Severity::Error, loc@, msg@, Seq::empty(), Seq::empty()),
            ),
            final(self).same_but_diags(&*old(self)),
    {
        self.diag(Severity::Error, loc, msg)
    }

    /// Adds a diagnostic of the given severity with a message, a primary label at `loc` and
    /// notes.
    pub fn diag_with_notes(&mut self, severity: Severity, loc: &Loc, msg: &str, notes: Vec<String>)
        ensures
            final(self).diags_view() == with_diag(
                old(self).diags_view(),
                located_diag(severity, loc@, msg@, Seq::empty(), string_views(notes@)),
            ),
            final(self).same_but_diags(&*old(self)),
    {
        let d = Diagnostic::new(severity).with_message(String::from_str(msg)).with_labels(
            vec![Label::primary(loc.file_id(), loc.span())],
        );
        assert(d@.labels =~= seq![primary_label(loc@)]);
        let d = d.with_notes(notes);
        assert(d@.notes =~= string_views(notes@));
        self.add_diag(d);
    }

    /// Adds an error with a message, a primary label at `loc` and notes.
    pub fn error_with_notes(&mut self, loc: &Loc, msg: &str, notes: Vec<String>)
        ensures
            final(self).diags_view() == with_diag(
                old(self).diags_view(),
                located_diag(Severity::Error, loc@, msg@, Seq::empty(), string_views(notes@)),
            ),
            final(self).same_but_diags(&*old(self)),
    {
        self.diag_with_notes(Severity::Error, loc, msg, notes)
    }

    /// Adds a diagnostic of the given severity with a message, a primary label at `loc` and
    /// a secondary label with its message at each location of `labels`.
    pub fn diag_with_labels(
        &mut self,
        severity: Severity,
        loc: &Loc,
        msg: &str,
        labels: Vec<(Loc, String)>,
    )
        ensures
            final(self).diags_view() == with_diag(
                old(self).diags_view(),
                located_diag(severity, loc@, msg@, secondary_labels(labels@), Seq::empty()),
            ),
            final(self).same_but_diags(&*old(self)),
    {
        let d = Diagnostic::new(severity).with_message(String::from_str(msg)).with_labels(
            vec![Label::primary(loc.file_id(), loc.span())],
        );
        assert(d@.labels =~= seq![primary_label(loc@)]);
        let mut extra: Vec<Label> = Vec::new();
        let mut i: usize = 0;
        while i < labels.len()
            invariant
                i <= labels.len(),
                extra@.len() == i,
                forall|j: int|
                    0 <= j < i ==> (#[trigger] extra@[j])@ == secondary_label(
                        labels@[j].0@,
                        labels@[j].1@,
                    ),
            decreases labels.len() - i,
        {
            let (l, m) = &labels[i];
            extra.push(Label::secondary(l.file_id(), l.span()).with_message(m.clone()));
            i = i + 1;
        }
        assert(label_views(extra@) =~= secondary_labels(labels@));
        let d = d.with_labels(extra);
        self.add_diag(d);
    }

    /// The number of diagnostics not yet reported whose severity is `min_severity` or more
    /// severe.
    pub fn diag_count(&self, min_severity: Severity) -> (r: usize)
        ensures
            r == pending_count(self.diags_view(), min_severity),
    {
        let n = self.diags.len();
        let mut count: usize = 0;
        let mut i: usize = 0;
        while i < n
            invariant
                n == self.diags@.len(),
                i <= n,
                count == pending_count(self.diags_view().take(i as int), min_severity),
            decreases n - i,
        {
            let ghost ds = self.diags_view();
            assert(ds.take(i + 1).drop_last() =~= ds.take(i as int));
            assert(ds.take(i + 1).last() == ds[i as int]);
            proof {
                lemma_pending_count_bound(ds.take(i as int), min_severity);
            }
            let (d, reported) = &self.diags[i];
            if !*reported && d.severity.at_least(min_severity) {
                count = count + 1;
            }
            i = i + 1;
        }
        assert(self.diags_view().take(n as int) =~= self.diags_view());
        count
    }

    /// The number of errors (or worse) not yet reported.
    pub fn error_count(&self) -> (r: usize)
        ensures
            r == pending_count(self.diags_view(), Severity::Error),
    {
        self.diag_count(Severity::Error)
    }

    /// Whether there are errors (or worse) not yet reported.
    pub fn has_errors(&self) -> (r: bool)
        ensures
            r == (pending_count(self.diags_view(), Severity::Error) > 0),
    {
        self.error_count() > 0
    }

    /// Reports the diagnostics not yet reported that pass `filter`: marks them reported and
    /// returns them, in their order, with the paths in their notes freed of user names and
    /// package caches, for the caller to write out.
    pub fn report_diag_with_filter<F: Fn(&Diagnostic) -> bool>(&mut self, filter: F) -> (emitted:
        Vec<Diagnostic>)
        requires
            forall|d: &Diagnostic| #[trigger] filter.requires((d,)),
        ensures
            final(self).same_but_diags(&*old(self)),
            final(self).diags_view().len() == old(self).diags_view().len(),
            forall|i: int|
                0 <= i < old(self).diags_view().len() ==> (#[trigger] final(self).diags_view()[i]).0
                    == old(self).diags_view()[i].0,
            forall|i: int|
                0 <= i < old(self).diags_view().len() && old(self).diags_view()[i].1
                    ==> (#[trigger] final(self).diags_view()[i]).1,
            forall|i: int|
                0 <= i < old(self).diags_view().len() && !old(self).diags_view()[i].1 && (
                #[trigger] final(self).diags_view()[i]).1 ==> filter.ensures(
                    (&old(self).diags@[i].0,),
                    true,
                ),
            forall|i: int|
                0 <= i < old(self).diags_view().len() && !old(self).diags_view()[i].1 && !(
                #[trigger] final(self).diags_view()[i]).1 ==> filter.ensures(
                    (&old(self).diags@[i].0,),
                    false,
                ),
            diagnostic_views(emitted@) == newly_reported(
                old(self).diags_view(),
                final(self).diags_view(),
            ),
    {
        let n = self.diags.len();
        let mut kept: Vec<(Diagnostic, bool)> = Vec::new();
        let mut emitted: Vec<Diagnostic> = Vec::new();
        let mut i: usize = 0;
        while i < n
            invariant
                n == self.diags@.len(),
                self.diags == old(self).diags,
                forall|d: &Diagnostic| #[trigger] filter.requires((d,)),
                i <= n,
                kept@.len() == i,
                forall|j: int|
                    0 <= j < i ==> (#[trigger] diag_views(kept@)[j]).0 == self.diags_view()[j].0,
                forall|j: int|
                    0 <= j < i && self.diags_view()[j].1 ==> (#[trigger] diag_views(
                        kept@,
                    )[j]).1,
                forall|j: int|
                    0 <= j < i && !self.diags_view()[j].1 && (#[trigger] diag_views(
                        kept@,
                    )[j]).1 ==> filter.ensures((&self.diags@[j].0,), true),
                forall|j: int|
                    0 <= j < i && !self.diags_view()[j].1 && !(#[trigger] diag_views(
                        kept@,
                    )[j]).1 ==> filter.ensures((&self.diags@[j].0,), false),
                diagnostic_views(emitted@) == newly_reported(
                    self.diags_view().take(i as int),
                    diag_views(kept@),
                ),
            decreases n - i,
        {
            let ghost before = self.diags_view().take(i as int);
            let ghost kept_before = diag_views(kept@);
            let ghost emitted_before = emitted@;
            let (d, reported) = &self.diags[i];
            let pass = if *reported {
                false
            } else {
                filter(d)
            };
            if pass {
                let mut e = d.duplicate();
                e.notes = sensitive_free_notes(&d.notes);
                emitted.push(e);
                kept.push((d.duplicate(), true));
            } else {
                kept.push((d.duplicate(), *reported));
            }
            proof {
                let ds = self.diags_view();
                assert(ds.take(i + 1).drop_last() =~= before);
                assert(diag_views(kept@).drop_last() =~= kept_before);
                assert(diag_views(kept@)[i as int] == (ds[i as int].0, pass || ds[i as int].1));
                assert forall|j: int| 0 <= j < i implies diag_views(kept@)[j] == kept_before[j] by {
                    assert(diag_views(kept@).drop_last()[j] == kept_before[j]);
                }
                assert forall|j: int| 0 <= j < i implies {
                    &&& (#[trigger] diag_views(kept@)[j]).0 == ds[j].0
                    &&& ds[j].1 ==> diag_views(kept@)[j].1
                    &&& !ds[j].1 && diag_views(kept@)[j].1 ==> filter.ensures(
                        (&self.diags@[j].0,),
                        true,
                    )
                    &&& !ds[j].1 && !diag_views(kept@)[j].1 ==> filter.ensures(
                        (&self.diags@[j].0,),
                        false,
                    )
                } by {
                    assert(diag_views(kept@)[j] == kept_before[j]);
                }
                assert(ds.take(i + 1).last() == ds[i as int]);
                if pass {
                    assert(diagnostic_views(emitted@) =~= diagnostic_views(emitted_before).push(
                        sensitive_free(ds[i as int].0),
                    ));
                } else {
                    assert(diagnostic_views(emitted@) =~= diagnostic_views(emitted_before));
                }
            }
            i = i + 1;
        }
        proof {
            assert(self.diags_view().take(n as int) =~= self.diags_view());
        }
        self.diags = kept;
        emitted
    }

    /// Reports the diagnostics not yet reported whose severity is `severity` or more severe:
    /// marks them reported and returns them, in their order, with the paths in their notes
    /// freed of user names and package caches, for the caller to write out.
    pub fn report_diag(&mut self, severity: Severity) -> (emitted: Vec<Diagnostic>)
        ensures
            final(self).same_but_diags(&*old(self)),
            final(self).diags_view() == reported_at_least(old(self).diags_view(), severity),
            diagnostic_views(emitted@) == newly_reported(
                old(self).diags_view(),
                final(self).diags_view(),
            ),
    {
        let f = |d: &Diagnostic| -> (r: bool)
            ensures
                r == (d.severity.rank() >= severity.rank()),
            { d.severity.at_least(severity) };
        let emitted = self.report_diag_with_filter(f);
        proof {
            let before = old(self).diags_view();
            let after = self.diags_view();
            assert forall|i: int| 0 <= i < before.len() implies #[trigger] after[i] == (
            before[i].0,
            before[i].1 || before[i].0.severity.rank() >= severity.rank(),
            ) by {
                assert(after[i].0 == before[i].0);
                assert(before[i].0 == old(self).diags@[i].0@);
            }
            assert(after =~= reported_at_least(before, severity));
        }
        emitted
    }

    /// Whether there are warnings (or worse) not yet reported.
    pub fn has_warnings(&self) -> (r: bool)
        ensures
            r == (pending_count(self.diags_view(), Severity::Warning) > 0),
    {
        self.diag_count(Severity::Warning) > 0
    }
}

} // verus!
