//! Source locations: a file and a span of bytes in it.

use vstd::prelude::*;

verus! {

/// Identifier of a source file, by its index in the file database.
#[derive(Debug, Clone, Copy, PartialEq, Eq, Structural, PartialOrd, Ord, Hash)]
pub struct FileId(u32);

impl View for FileId {
    type V = nat;

    closed spec fn view(&self) -> nat {
        self.0 as nat
    }
}

impl FileId {
    /// The file with the given index.
    pub fn new(idx: u32) -> (r: FileId)
        ensures
            r@ == idx,
    {
        FileId(idx)
    }

    /// The index of this file.
    pub fn index(self) -> (r: u32)
        ensures
            r == self@,
    {
        self.0
    }

    /// Two file ids with the same index are the same file.
    pub proof fn lemma_view_injective(a: FileId, b: FileId)
        ensures
            a@ == b@ <==> a == b,
    {
    }
}

/// A span of bytes `[start, end)` in a file; `start <= end` always.
#[derive(Debug, Clone, Copy, PartialEq, Eq, Structural, PartialOrd, Ord, Hash)]
pub struct Span {
    start: u32,
    end: u32,
}

impl View for Span {
    type V = (nat, nat);

    closed spec fn view(&self) -> (nat, nat) {
        (self.start as nat, self.end as nat)
    }
}

impl Span {
    #[verifier::type_invariant]
    spec fn ordered(self) -> bool {
        self.start <= self.end
    }

    /// The span from `start` to `end`, which must not lie before `start`.
    pub fn new(start: u32, end: u32) -> (r: Span)
        requires
            start <= end,
        ensures
            r@ == (start as nat, end as nat),
    {
        Span { start, end }
    }

    /// The empty span at offset 0.
    pub fn initial() -> (r: Span)
        ensures
            r@ == (0nat, 0nat),
    {
        Span { start: 0, end: 0 }
    }

    /// The first byte of the span.
    pub fn start(&self) -> (r: u32)
        ensures
            r == self@.0,
            r <= self@.1,
    {
        proof {
            use_type_invariant(self);
        }
        self.start
    }

    /// The byte after the last byte of the span.
    pub fn end(&self) -> (r: u32)
        ensures
            r == self@.1,
            self@.0 <= r,
    {
        proof {
            use_type_invariant(self);
        }
        self.end
    }

    /// Two spans with the same bounds are the same span.
    pub proof fn lemma_view_injective(a: Span, b: Span)
        ensures
            a@ == b@ <==> a == b,
    {
    }
}

/// Whether the span `inner` lies within the span `outer`.
pub open spec fn span_encloses(outer: (nat, nat), inner: (nat, nat)) -> bool {
    outer.0 <= inner.0 && inner.1 <= outer.1
}

/// Whether the span `inner` lies within the span `outer`.
pub fn enclosing_span(outer: Span, inner: Span) -> (r: bool)
    ensures
        r == span_encloses(outer@, inner@),
{
    inner.start() >= outer.start() && inner.end() <= outer.end()
}

/// A location, consisting of a file and a span in this file.
#[derive(Debug, PartialEq, Eq, Structural, PartialOrd, Ord, Clone)]
pub struct Loc {
    file_id: FileId,
    span: Span,
}

/// The mathematical value of a location: its file index and the bounds of its span.
pub struct LocView {
    pub file: nat,
    pub start: nat,
    pub end: nat,
}

impl View for Loc {
    type V = LocView;

    closed spec fn view(&self) -> LocView {
        LocView { file: self.file_id@, start: self.span@.0, end: self.span@.1 }
    }
}

/// Whether `inner` lies within `outer`: the same file and an enclosed span.
pub open spec fn loc_encloses(outer: LocView, inner: LocView) -> bool {
    outer.file == inner.file && outer.start <= inner.start && inner.end <= outer.end
}

/// The location with the smallest start and the largest end among the locations of
/// `locs` in the file of `locs[0]`.
pub open spec fn is_enclosure_of(r: LocView, locs: Seq<LocView>) -> bool {
    &&& r.file == locs[0].file
    &&& forall|i: int|
        0 <= i < locs.len() && #[trigger] locs[i].file == r.file ==> loc_encloses(r, locs[i])
    &&& exists|i: int| 0 <= i < locs.len() && locs[i].file == r.file && locs[i].start == r.start
    &&& exists|i: int| 0 <= i < locs.len() && locs[i].file == r.file && locs[i].end == r.end
}

/// The views of the locations that `locs` refers to.
pub open spec fn loc_views(locs: Seq<&Loc>) -> Seq<LocView> {
    locs.map_values(|l: &Loc| l@)
}

/// The view of the default location: the empty span at the start of the first file.
pub open spec fn default_loc_view() -> LocView {
    LocView { file: 0, start: 0, end: 0 }
}

impl Default for Loc {
    /// The empty span at the start of the first file.
    fn default() -> (r: Loc)
        ensures
            r@ == default_loc_view(),
    {
        Loc::new(FileId::new(0), Span::initial())
    }
}

impl Loc {
    pub fn new(file_id: FileId, span: Span) -> (r: Loc)
        ensures
            r@ == (LocView { file: file_id@, start: span@.0, end: span@.1 }),
    {
        Loc { file_id, span }
    }

    pub fn span(&self) -> (r: Span)
        ensures
            r@ == (self@.start, self@.end),
    {
        self.span
    }

    pub fn file_id(&self) -> (r: FileId)
        ensures
            r@ == self@.file,
    {
        self.file_id
    }

    /// A copy of this location.
    pub fn duplicate(&self) -> (r: Loc)
        ensures
            r@ == self@,
    {
        Loc { file_id: self.file_id, span: self.span }
    }

    /// Delivers a location pointing to the end of this one: its last byte, or the location
    /// itself where it ends at offset 0.
    pub fn at_end(&self) -> (r: Loc)
        ensures
            self@.end > 0 ==> r@ == (LocView {
                file: self@.file,
                start: (self@.end - 1) as nat,
                end: self@.end,
            }),
            self@.end == 0 ==> r@ == self@,
    {
        let end = self.span.end();
        if end > 0 {
            Loc::new(self.file_id, Span::new(end - 1, end))
        } else {
            self.duplicate()
        }
    }

    /// Delivers a location pointing to the start of this one: the byte at its start.
    pub fn at_start(&self) -> (r: Loc)
        requires
            self@.start < u32::MAX,
        ensures
            r@ == (LocView { file: self@.file, start: self@.start, end: self@.start + 1 }),
    {
        let start = self.span.start();
        Loc::new(self.file_id, Span::new(start, start + 1))
    }

    /// Creates a location which encloses all the locations in the provided slice,
    /// which must not be empty. Locations in other files than the first are ignored.
    pub fn enclosing(locs: &[&Loc]) -> (r: Loc)
        requires
            locs@.len() > 0,
        ensures
            is_enclosure_of(r@, loc_views(locs@)),
    {
        let loc = locs[0];
        let mut start = loc.span.start();
        let mut end = loc.span.end();
        let ghost views = loc_views(locs@);
        let ghost file = loc@.file;
        let ghost mut start_idx: int = 0;
        let ghost mut end_idx: int = 0;
        let mut i: usize = 1;
        while i < locs.len()
            invariant
                1 <= i <= locs@.len(),
                views == loc_views(locs@),
                views.len() == locs@.len(),
                file == views[0].file,
                loc@ == views[0],
                start <= end,
                forall|j: int|
                    0 <= j < i && #[trigger] views[j].file == file ==> start <= views[j].start
                        && views[j].end <= end,
                0 <= start_idx < i,
                views[start_idx].file == file,
                views[start_idx].start == start,
                0 <= end_idx < i,
                views[end_idx].file == file,
                views[end_idx].end == end,
            decreases locs@.len() - i,
        {
            let l = locs[i];
            proof {
                assert(views[i as int] == l@);
            }
            if l.file_id() == loc.file_id() {
                let ls = l.span().start();
                let le = l.span().end();
                if ls < start {
                    start = ls;
                    proof {
                        start_idx = i as int;
                    }
                }
                if le > end {
                    end = le;
                    proof {
                        end_idx = i as int;
                    }
                }
            }
            i = i + 1;
        }
        proof {
            assert(views[0] == loc@);
        }
        Loc::new(loc.file_id(), Span::new(start, end))
    }

    /// Returns true if the other location is enclosed by this location.
    pub fn is_enclosing(&self, other: &Loc) -> (r: bool)
        ensures
            r == loc_encloses(self@, other@),
    {
        self.file_id == other.file_id && enclosing_span(self.span, other.span)
    }
}

/// What `regex::Regex::new(pattern)` and then `replace_all(input, replacement)` on the
/// compiled expression give: the input with every non-overlapping match of the expression
/// replaced, where `$n` in the replacement stands for the `n`-th group of the match; or
/// nothing where the pattern does not compile.
pub uninterp spec fn regex_replace_all(
    pattern: Seq<char>,
    input: Seq<char>,
    replacement: Seq<char>,
) -> Option<Seq<char>>;

/// Compiles `pattern` with `regex::Regex::new` and replaces all its matches in `input` with
/// `replacement` by `regex::Regex::replace_all`. Trusted: the result is `regex_replace_all` of
/// the three arguments, `None` where the compilation fails. What the replacement computes is
/// left unsaid.
#[verifier::external_body]
fn replace_all_matches(pattern: &str, input: &str, replacement: &str) -> (r: Option<String>)
    ensures
        r matches Some(s) ==> regex_replace_all(pattern@, input@, replacement@) == Some(s@),
        r is None ==> regex_replace_all(pattern@, input@, replacement@) is None,
{
    match regex::Regex::new(pattern) {
        Ok(re) => Some(re.replace_all(input, replacement).to_string()),
        Err(_) => None,
    }
}

/// The expression of paths into a user's package cache; its group is the package.
pub open spec fn sensitive_path_pattern() -> Seq<char> {
    "/(?:Users|home)/[^/]+/\\.move/[^/]+/(?:crates|packages)/([^/]+)/"@
}

/// `input` with each path into a user's package cache shortened to the package name.
pub open spec fn filtered_paths(input: Seq<char>) -> Seq<char> {
    if input.len() == 0 {
        input
    } else {
        match regex_replace_all(sensitive_path_pattern(), input, "$1/"@) {
            Some(s) => s,
            None => input,
        }
    }
}

/// Removes user names and package caches from the paths in `input`.
pub fn filter_out_sensetives(input: &str) -> (r: String)
    ensures
        r@ == filtered_paths(input@),
{
    if input.is_empty() {
        return input.to_owned();
    }
    match replace_all_matches(
        "/(?:Users|home)/[^/]+/\\.move/[^/]+/(?:crates|packages)/([^/]+)/",
        input,
        "$1/",
    ) {
        Some(s) => s,
        None => String::from_str(input),
    }
}

/// The location that `Loc::enclosing` returns encloses each location of its argument that
/// lies in the same file as the first one.
pub proof fn lemma_enclosing_encloses(r: LocView, locs: Seq<LocView>, i: int)
    requires
        locs.len() > 0,
        is_enclosure_of(r, locs),
        0 <= i < locs.len(),
        locs[i].file == locs[0].file,
    ensures
        loc_encloses(r, locs[i]),
{
}

/// Every location encloses itself.
pub proof fn lemma_encloses_reflexive(l: LocView)
    ensures
        loc_encloses(l, l),
{
}

/// Enclosure of locations is transitive.
pub proof fn lemma_encloses_transitive(a: LocView, b: LocView, c: LocView)
    requires
        loc_encloses(a, b),
        loc_encloses(b, c),
    ensures
        loc_encloses(a, c),
{
}

/// A location that does not end at offset 0 encloses the location at its end, and one
/// that is not empty encloses the location at its start.
pub proof fn lemma_ends_enclosed(l: LocView)
    requires
        l.start < l.end,
    ensures
        loc_encloses(l, LocView { file: l.file, start: (l.end - 1) as nat, end: l.end }),
        loc_encloses(l, LocView { file: l.file, start: l.start, end: l.start + 1 }),
{
}

} // verus!
