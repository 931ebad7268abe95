//! Print support: page ranges, print job tracking and printer lookup.
use vstd::prelude::*;
use crate::seqs::{first_match, lemma_first_match, lemma_first_match_at, lemma_first_match_none};
use crate::text::{
    chars_of, decimal, decimal_string, eq_ignore_ascii_case, eq_ignore_ascii_case_spec, find_char, first_index, parse_u32,
    parse_u32_spec, slice_chars, split_chars, split_on, string_from_chars, trim, trim_chars,
};

verus! {

/// Page orientation.
#[derive(Debug, Clone, Copy, PartialEq, Eq, Structural)]
pub enum Orientation {
    /// Taller than wide.
    Portrait,
    /// Wider than tall.
    Landscape,
}

impl Orientation {
    /// The display name of this orientation.
    pub fn display_name(&self) -> (s: &'static str)
        ensures
            s@ == match self {
                Orientation::Portrait => "Portrait"@,
                Orientation::Landscape => "Landscape"@,
            },
    {
        match self {
            Orientation::Portrait => "Portrait",
            Orientation::Landscape => "Landscape",
        }
    }
}

/// Print quality levels.
#[derive(Debug, Clone, Copy, PartialEq, Eq, Structural)]
pub enum PrintQuality {
    Draft,
    Normal,
    High,
    Best,
}

impl PrintQuality {
    /// Dots per inch of each quality level.
    pub open spec fn dpi_spec(self) -> u32 {
        match self {
            PrintQuality::Draft => 150,
            PrintQuality::Normal => 300,
            PrintQuality::High => 600,
            PrintQuality::Best => 1200,
        }
    }

    /// The dots per inch of this quality level.
    pub fn dpi(&self) -> (d: u32)
        ensures
            d == self.dpi_spec(),
    {
        match self {
            PrintQuality::Draft => 150,
            PrintQuality::Normal => 300,
            PrintQuality::High => 600,
            PrintQuality::Best => 1200,
        }
    }

    /// The display name of this quality level.
    pub fn display_name(&self) -> (s: &'static str)
        ensures
            s@ == match self {
                PrintQuality::Draft => "Draft (150 DPI)"@,
                PrintQuality::Normal => "Normal (300 DPI)"@,
                PrintQuality::High => "High (600 DPI)"@,
                PrintQuality::Best => "Best (1200 DPI)"@,
            },
    {
        match self {
            PrintQuality::Draft => "Draft (150 DPI)",
            PrintQuality::Normal => "Normal (300 DPI)",
            PrintQuality::High => "High (600 DPI)",
            PrintQuality::Best => "Best (1200 DPI)",
        }
    }
}

/// Page range selection for printing.
#[derive(Debug, Clone, PartialEq)]
pub enum PageRange {
    /// Print all pages.
    All,
    /// Print the current page only.
    Current,
    /// Print pages `start..=end` (1-indexed).
    Range { start: u32, end: u32 },
    /// Print these pages (1-indexed).
    Pages(Vec<u32>),
}

/// The abstract value of a page range.
pub enum PageRangeView {
    All,
    Current,
    Range { start: u32, end: u32 },
    Pages(Seq<u32>),
}

impl View for PageRange {
    type V = PageRangeView;

    open spec fn view(&self) -> PageRangeView {
        match self {
            PageRange::All => PageRangeView::All,
            PageRange::Current => PageRangeView::Current,
            PageRange::Range { start, end } => PageRangeView::Range { start: *start, end: *end },
            PageRange::Pages(v) => PageRangeView::Pages(v@),
        }
    }
}

/// The elements of `s` increase strictly, so none occurs twice.
pub open spec fn strictly_increasing(s: Seq<u32>) -> bool {
    forall|i: int, j: int| 0 <= i < j < s.len() ==> s[i] < s[j]
}

/// `v` lists, in increasing order and once each, the positive pages of `s`.
pub open spec fn normalized_pages(s: Seq<u32>, v: Seq<u32>) -> bool {
    &&& strictly_increasing(v)
    &&& forall|p: u32| v.contains(p) <==> (s.contains(p) && p > 0)
}

/// The number of elements of `s` that are at most `t`.
pub open spec fn count_at_most(s: Seq<u32>, t: u32) -> nat
    decreases s.len(),
{
    if s.len() == 0 {
        0
    } else {
        count_at_most(s.drop_last(), t) + if s.last() <= t {
            1nat
        } else {
            0nat
        }
    }
}

/// Whether the page range holds page `page` of a document of `total` pages.
pub open spec fn includes_spec(r: PageRangeView, page: u32, total: u32) -> bool {
    match r {
        PageRangeView::All => 1 <= page <= total,
        PageRangeView::Current => page == 1,
        PageRangeView::Range { start, end } => start <= page <= end,
        PageRangeView::Pages(ps) => ps.contains(page),
    }
}

/// The smaller of two page numbers.
pub open spec fn min_u32(a: u32, b: u32) -> u32 {
    if a <= b {
        a
    } else {
        b
    }
}

/// How many pages of a document of `total` pages the range prints; for a
/// range, the pages from `start` to its end cut at `total`, none when the
/// start lies past that.
pub open spec fn page_count_spec(r: PageRangeView, total: u32) -> int {
    match r {
        PageRangeView::All => total as int,
        PageRangeView::Current => 1,
        PageRangeView::Range { start, end } => {
            let e = min_u32(end, total);
            if start > e {
                0
            } else {
                e - start + 1
            }
        },
        PageRangeView::Pages(ps) => (count_at_most(ps, total) as u32) as int,
    }
}

/// The pages `start..=end`, none when `start > end`.
pub open spec fn page_span(start: u32, end: u32) -> Seq<u32> {
    Seq::new(
        if start <= end {
            (end - start + 1) as nat
        } else {
            0
        },
        |i: int| (start + i) as u32,
    )
}

/// The position of the first `-` in `p`, which holds one.
pub open spec fn first_dash(p: Seq<char>) -> int {
    choose|k: int| first_index(p, '-', k)
}

/// `prefix`, then `p`, then a closing quote.
pub open spec fn quoted(prefix: Seq<char>, p: Seq<char>) -> Seq<char> {
    prefix + p + seq!['\'']
}

/// The pages one comma-separated part names, or the message for a part
/// that is not a page number or a range `a-b` of page numbers.
pub open spec fn part_outcome(part: Seq<char>) -> Result<Seq<u32>, Seq<char>> {
    let p = trim(part);
    if p.contains('-') {
        let k = first_dash(p);
        match parse_u32_spec(trim(p.take(k))) {
            Some(a) => match parse_u32_spec(trim(p.skip(k + 1))) {
                Some(b) => Ok(page_span(a, b)),
                None => Err(quoted("Invalid page number in '"@, p)),
            },
            None => Err(quoted("Invalid page number in '"@, p)),
        }
    } else {
        match parse_u32_spec(p) {
            Some(x) => Ok(seq![x]),
            None => Err(quoted("Invalid page number: '"@, p)),
        }
    }
}

/// The pages of all parts in order, or the message of the first part in
/// error.
pub open spec fn parts_outcome(parts: Seq<Seq<char>>) -> Result<Seq<u32>, Seq<char>>
    decreases parts.len(),
{
    if parts.len() == 0 {
        Ok(Seq::empty())
    } else {
        match parts_outcome(parts.drop_last()) {
            Ok(ps) => match part_outcome(parts.last()) {
                Ok(q) => Ok(ps + q),
                Err(m) => Err(m),
            },
            Err(m) => Err(m),
        }
    }
}

/// What a page-range text denotes.
pub enum ParsedRange {
    /// Every page: the text is blank or `all` in any case.
    All,
    /// These pages, before sorting and removing duplicates.
    Pages(Seq<u32>),
    /// The text is invalid, with this message.
    Invalid(Seq<char>),
}

/// Read a page-range text such as `1-5` or `1,3,5-7`.
pub open spec fn parse_spec(input: Seq<char>) -> ParsedRange {
    let t = trim(input);
    if t.len() == 0 || eq_ignore_ascii_case_spec(t, "all"@) {
        ParsedRange::All
    } else {
        match parts_outcome(split_on(t, ',')) {
            Ok(ps) => ParsedRange::Pages(ps),
            Err(m) => ParsedRange::Invalid(m),
        }
    }
}

/// `r` is what `PageRange::parse` returns for the reading `o`.
pub open spec fn parse_result_matches(r: Result<PageRange, String>, o: ParsedRange) -> bool {
    match r {
        Ok(x) => match o {
            ParsedRange::All => x@ == PageRangeView::All,
            ParsedRange::Pages(ps) => match x@ {
                PageRangeView::Pages(v) => normalized_pages(ps, v),
                _ => false,
            },
            ParsedRange::Invalid(_) => false,
        },
        Err(e) => match o {
            ParsedRange::Invalid(m) => e@ == m,
            _ => false,
        },
    }
}

/// Once a prefix of the parts is in error, so are all the parts, with the
/// same message.
proof fn lemma_parts_error_stays(s: Seq<Seq<char>>, i: int)
    requires
        0 <= i <= s.len(),
        parts_outcome(s.take(i)) is Err,
    ensures
        parts_outcome(s) == parts_outcome(s.take(i)),
    decreases s.len() - i,
{
    if s.len() == i {
        assert(s.take(i) =~= s);
    } else {
        let d = s.drop_last();
        assert(d.take(i) =~= s.take(i));
        lemma_parts_error_stays(d, i);
    }
}

/// The pages `start..=end`.
fn span_pages(start: u32, end: u32) -> (v: Vec<u32>)
    ensures
        v@ == page_span(start, end),
{
    let mut v: Vec<u32> = Vec::new();
    let mut p: u64 = start as u64;
    while p <= end as u64
        invariant
            start <= p <= end as u64 + 1 || (p == start && start > end),
            v@ =~= Seq::new((p - start) as nat, |i: int| (start + i) as u32),
        decreases end as u64 + 1 - p,
    {
        v.push(p as u32);
        p += 1;
    }
    v
}

/// `prefix`, then the characters of `p`, then a closing quote.
fn quoted_message(prefix: &str, p: &Vec<char>) -> (s: String)
    ensures
        s@ == quoted(prefix@, p@),
{
    let mut v = chars_of(prefix);
    let mut i: usize = 0;
    let ghost start = v@;
    while i < p.len()
        invariant
            i <= p@.len(),
            v@ == start + p@.take(i as int),
        decreases p@.len() - i,
    {
        v.push(p[i]);
        i += 1;
        assert(v@ =~= start + p@.take(i as int));
    }
    v.push('\'');
    assert(p@.take(p@.len() as int) =~= p@);
    assert(v@ =~= quoted(prefix@, p@));
    string_from_chars(v.as_slice())
}

/// The pages one comma-separated part names.
fn read_part(part: &Vec<char>) -> (r: Result<Vec<u32>, String>)
    ensures
        match part_outcome(part@) {
            Ok(q) => r is Ok && r->Ok_0@ == q,
            Err(m) => r is Err && r->Err_0@ == m,
        },
{
    let p = trim_chars(part);
    match find_char(&p, '-') {
        Some(k) => {
            proof {
                assert(p@[k as int] == '-');
                assert(p@.contains('-'));
                assert(first_index(p@, '-', first_dash(p@)));
                assert(first_dash(p@) == k);
            }
            let a_raw = slice_chars(&p, 0, k);
            let a = trim_chars(&a_raw);
            let b_raw = slice_chars(&p, k + 1, p.len());
            let b = trim_chars(&b_raw);
            proof {
                assert(a_raw@ =~= p@.take(k as int));
                assert(b_raw@ =~= p@.skip(k + 1));
            }
            match parse_u32(&a) {
                Some(s) => match parse_u32(&b) {
                    Some(e) => Ok(span_pages(s, e)),
                    None => Err(quoted_message("Invalid page number in '", &p)),
                },
                None => Err(quoted_message("Invalid page number in '", &p)),
            }
        },
        None => match parse_u32(&p) {
            Some(x) => {
                let mut v: Vec<u32> = Vec::new();
                v.push(x);
                assert(v@ =~= seq![x]);
                Ok(v)
            },
            None => Err(quoted_message("Invalid page number: '", &p)),
        },
    }
}

/// Insert `p` into the strictly increasing `v`, unless it is there.
#[verifier::spinoff_prover]
fn insert_sorted(v: &mut Vec<u32>, p: u32)
    requires
        strictly_increasing(old(v)@),
    ensures
        strictly_increasing(final(v)@),
        forall|q: u32| final(v)@.contains(q) <==> (old(v)@.contains(q) || q == p),
{
    let n = v.len();
    let mut i: usize = 0;
    while i < n && v[i] < p
        invariant
            n == v@.len(),
            i <= n,
            forall|j: int| 0 <= j < i ==> v@[j] < p,
        decreases n - i,
    {
        i += 1;
    }
    if i < n && v[i] == p {
        assert(v@[i as int] == p);
        return ;
    }
    let ghost o = v@;
    assert(o == old(v)@);
    v.insert(i, p);
    proof {
        assert(v@ =~= o.subrange(0, i as int).push(p) + o.subrange(i as int, n as int));
        assert forall|a: int, b: int| 0 <= a < b < v@.len() implies v@[a] < v@[b] by {
            if b < i {
                assert(v@[a] == o[a] && v@[b] == o[b]);
            } else if b == i {
                assert(v@[a] == o[a]);
            } else if a == i {
                assert(v@[b] == o[b - 1]);
            } else if a < i {
                assert(v@[a] == o[a] && v@[b] == o[b - 1]);
            } else {
                assert(v@[a] == o[a - 1] && v@[b] == o[b - 1]);
            }
        }
        assert forall|q: u32| v@.contains(q) <==> (o.contains(q) || q == p) by {
            if v@.contains(q) {
                let k = choose|k: int| 0 <= k < v@.len() && v@[k] == q;
                if k < i {
                    assert(o[k] == q);
                } else if k > i {
                    assert(o[k - 1] == q);
                }
            }
            if o.contains(q) {
                let k = choose|k: int| 0 <= k < o.len() && o[k] == q;
                if k < i {
                    assert(v@[k] == q);
                } else {
                    assert(v@[k + 1] == q);
                }
            }
            if q == p {
                assert(v@[i as int] == q);
            }
        }
        assert(forall|q: u32| v@.contains(q) <==> (old(v)@.contains(q) || q == p));
    }
}

/// Whether `page` occurs in `pages`.
fn contains_page(pages: &Vec<u32>, page: u32) -> (b: bool)
    ensures
        b == pages@.contains(page),
{
    let n = pages.len();
    let mut i: usize = 0;
    while i < n
        invariant
            n == pages@.len(),
            i <= n,
            forall|j: int| 0 <= j < i ==> pages@[j] != page,
        decreases n - i,
    {
        if pages[i] == page {
            assert(pages@[i as int] == page);
            return true;
        }
        i += 1;
    }
    false
}

impl PageRange {
    /// The range `start..=end`, with `start` raised to at least 1 and `end`
    /// to at least the new start.
    pub fn range(start: u32, end: u32) -> (r: PageRange)
        ensures
            r@ == (PageRangeView::Range {
                start: if start >= 1 { start } else { 1 },
                end: if end >= (if start >= 1 { start } else { 1 }) {
                    end
                } else {
                    if start >= 1 { start } else { 1 }
                },
            }),
    {
        let s = if start >= 1 {
            start
        } else {
            1
        };
        let e = if end >= s {
            end
        } else {
            s
        };
        PageRange::Range { start: s, end: e }
    }

    /// The selection of the positive pages among `pages`, in increasing order
    /// and once each.
    pub fn pages(pages: Vec<u32>) -> (r: PageRange)
        ensures
            r@ matches PageRangeView::Pages(v) && normalized_pages(pages@, v),
    {
        let mut v: Vec<u32> = Vec::new();
        let n = pages.len();
        let mut i: usize = 0;
        while i < n
            invariant
                n == pages@.len(),
                i <= n,
                strictly_increasing(v@),
                forall|q: u32| v@.contains(q) <==> (pages@.take(i as int).contains(q) && q > 0),
            decreases n - i,
        {
            let p = pages[i];
            let ghost before = v@;
            if p > 0 {
                insert_sorted(&mut v, p);
            }
            proof {
                let t1 = pages@.take(i + 1);
                let t0 = pages@.take(i as int);
                assert(t1 =~= t0.push(p));
                assert forall|q: u32| t1.contains(q) <==> (t0.contains(q) || q == p) by {
                    if t1.contains(q) {
                        let k = choose|k: int| 0 <= k < t1.len() && t1[k] == q;
                        if k < i {
                            assert(t0[k] == q);
                        }
                    }
                    if t0.contains(q) {
                        let k = choose|k: int| 0 <= k < t0.len() && t0[k] == q;
                        assert(t1[k] == q);
                    }
                    if q == p {
                        assert(t1[i as int] == q);
                    }
                }
            }
            i += 1;
        }
        proof {
            assert(pages@.take(n as int) =~= pages@);
        }
        PageRange::Pages(v)
    }

    /// Read a page-range text such as `1-5` or `1,3,5-7`: blank or `all`
    /// selects every page, otherwise the pages named, sorted and without
    /// duplicates or zero; an invalid part gives its message.
    pub fn parse(input: &str) -> (r: Result<PageRange, String>)
        ensures
            parse_result_matches(r, parse_spec(input@)),
    {
        let raw = chars_of(input);
        let t = trim_chars(&raw);
        let all = chars_of("all");
        if t.len() == 0 || eq_ignore_ascii_case(&t, &all) {
            return Ok(PageRange::All);
        }
        let parts = split_chars(&t, ',');
        let ghost ss = split_on(t@, ',');
        let mut pages: Vec<u32> = Vec::new();
        let n = parts.len();
        let mut i: usize = 0;
        proof {
            assert(ss.take(0) =~= Seq::<Seq<char>>::empty());
        }
        while i < n
            invariant
                t@ == trim(input@),
                !(t@.len() == 0 || eq_ignore_ascii_case_spec(t@, "all"@)),
                ss == split_on(t@, ','),
                n == parts@.len(),
                n == ss.len(),
                forall|j: int| 0 <= j < n ==> #[trigger] parts@[j]@ == ss[j],
                i <= n,
                parts_outcome(ss.take(i as int)) == Ok::<Seq<u32>, Seq<char>>(pages@),
            decreases n - i,
        {
            proof {
                assert(ss.take(i + 1).drop_last() =~= ss.take(i as int));
                assert(ss.take(i + 1).last() == parts@[i as int]@);
            }
            match read_part(&parts[i]) {
                Ok(q) => {
                    let mut j: usize = 0;
                    let ghost before = pages@;
                    while j < q.len()
                        invariant
                            j <= q@.len(),
                            pages@ == before + q@.take(j as int),
                        decreases q@.len() - j,
                    {
                        pages.push(q[j]);
                        j += 1;
                        assert(pages@ =~= before + q@.take(j as int));
                    }
                    assert(q@.take(q@.len() as int) =~= q@);
                },
                Err(m) => {
                    proof {
                        assert(part_outcome(ss.take(i + 1).last()) == Err::<Seq<u32>, Seq<char>>(m@));
                        assert(parts_outcome(ss.take(i + 1)) == Err::<Seq<u32>, Seq<char>>(m@));
                        lemma_parts_error_stays(ss, i + 1);
                        assert(parts_outcome(ss) == Err::<Seq<u32>, Seq<char>>(m@));
                        assert(parse_spec(input@) == ParsedRange::Invalid(m@));
                    }
                    return Err(m);
                },
            }
            i += 1;
        }
        proof {
            assert(ss.take(n as int) =~= ss);
        }
        Ok(PageRange::pages(pages))
    }

    /// Whether page `page` (1-indexed) of a document of `total_pages` pages is
    /// in the range.
    pub fn includes(&self, page: u32, total_pages: u32) -> (b: bool)
        ensures
            b == includes_spec(self@, page, total_pages),
    {
        match self {
            PageRange::All => page >= 1 && page <= total_pages,
            PageRange::Current => page == 1,
            PageRange::Range { start, end } => page >= *start && page <= *end,
            PageRange::Pages(pages) => contains_page(pages, page),
        }
    }

    /// The number of pages printed from a document of `total_pages` pages.
    pub fn page_count(&self, total_pages: u32) -> (c: u32)
        requires
            self@ matches PageRangeView::Range { start, end } ==> min_u32(end, total_pages)
                - start < u32::MAX,
        ensures
            c == page_count_spec(self@, total_pages),
    {
        match self {
            PageRange::All => total_pages,
            PageRange::Current => 1,
            PageRange::Range { start, end } => {
                let e = if *end <= total_pages {
                    *end
                } else {
                    total_pages
                };
                if *start > e {
                    0
                } else {
                    e - *start + 1
                }
            },
            PageRange::Pages(pages) => {
                let n = pages.len();
                let mut i: usize = 0;
                let mut count: usize = 0;
                while i < n
                    invariant
                        n == pages@.len(),
                        i <= n,
                        count == count_at_most(pages@.take(i as int), total_pages),
                        count <= i,
                    decreases n - i,
                {
                    proof {
                        assert(pages@.take(i + 1).drop_last() =~= pages@.take(i as int));
                    }
                    if pages[i] <= total_pages {
                        count += 1;
                    }
                    i += 1;
                }
                proof {
                    assert(pages@.take(n as int) =~= pages@);
                }
                count as u32
            },
        }
    }
}

} // verus!

verus! {

/// Print output destination.
#[derive(Debug, Clone, PartialEq, Eq)]
pub enum PrintDestination {
    /// The default system printer.
    DefaultPrinter,
    /// A printer by name.
    Printer(String),
    /// A PDF file at this path.
    Pdf(String),
}

/// Print job status.
#[derive(Debug, Clone, Copy, PartialEq, Eq, Structural)]
pub enum PrintJobStatus {
    Queued,
    Printing,
    Paused,
    Completed,
    Cancelled,
    Failed,
}

impl PrintJobStatus {
    /// Completed, cancelled and failed jobs are over.
    pub open spec fn terminal(self) -> bool {
        self is Completed || self is Cancelled || self is Failed
    }

    /// Queued, printing and paused jobs are still running.
    pub open spec fn active(self) -> bool {
        self is Queued || self is Printing || self is Paused
    }

    /// Whether the job is over.
    pub fn is_terminal(&self) -> (b: bool)
        ensures
            b == self.terminal(),
    {
        match self {
            PrintJobStatus::Completed | PrintJobStatus::Cancelled | PrintJobStatus::Failed => true,
            _ => false,
        }
    }

    /// Whether the job is still running.
    pub fn is_active(&self) -> (b: bool)
        ensures
            b == self.active(),
    {
        match self {
            PrintJobStatus::Queued | PrintJobStatus::Printing | PrintJobStatus::Paused => true,
            _ => false,
        }
    }

    /// The display name of this status.
    pub fn display_name(&self) -> (s: &'static str)
        ensures
            s@ == match self {
                PrintJobStatus::Queued => "Queued"@,
                PrintJobStatus::Printing => "Printing"@,
                PrintJobStatus::Paused => "Paused"@,
                PrintJobStatus::Completed => "Completed"@,
                PrintJobStatus::Cancelled => "Cancelled"@,
                PrintJobStatus::Failed => "Failed"@,
            },
    {
        match self {
            PrintJobStatus::Queued => "Queued",
            PrintJobStatus::Printing => "Printing",
            PrintJobStatus::Paused => "Paused",
            PrintJobStatus::Completed => "Completed",
            PrintJobStatus::Cancelled => "Cancelled",
            PrintJobStatus::Failed => "Failed",
        }
    }
}

/// Every status is either over or still running, never both.
pub proof fn law_status_terminal_or_active(s: PrintJobStatus)
    ensures
        s.terminal() != s.active(),
{
}

/// Identifier of a print job.
#[derive(Debug, Clone, Copy, PartialEq, Eq, Hash, Structural)]
pub struct PrintJobId(pub u64);

impl PrintJobId {
    /// A new print job identifier, drawn at random.
    pub fn new() -> PrintJobId {
        PrintJobId(crate::types::random_u64())
    }
}

/// A print job with tracking information; `S` holds the print settings.
#[derive(Debug, Clone)]
pub struct PrintJob<S> {
    pub id: PrintJobId,
    pub title: String,
    pub status: PrintJobStatus,
    pub total_pages: u32,
    pub printed_pages: u32,
    pub settings: S,
    /// The reason, when the job failed.
    pub error_message: Option<String>,
    /// UNIX time (seconds) of creation.
    pub created_at: u64,
    /// UNIX time when printing started.
    pub started_at: Option<u64>,
    /// UNIX time when the job ended.
    pub completed_at: Option<u64>,
}

impl<S> PrintJob<S> {
    /// A queued job with nothing printed.
    pub fn new(title: String, total_pages: u32, settings: S) -> (j: PrintJob<S>)
        ensures
            j.title == title,
            j.status == PrintJobStatus::Queued,
            j.total_pages == total_pages,
            j.printed_pages == 0,
            j.settings == settings,
            j.error_message is None,
            j.started_at is None,
            j.completed_at is None,
    {
        PrintJob {
            id: PrintJobId::new(),
            title,
            status: PrintJobStatus::Queued,
            total_pages,
            printed_pages: 0,
            settings,
            error_message: None,
            created_at: crate::types::unix_seconds_now(),
            started_at: None,
            completed_at: None,
        }
    }

    /// Start a queued job; other jobs are left as they are.
    pub fn start(&mut self)
        ensures
            old(self).status == PrintJobStatus::Queued ==> final(self).started_at is Some
                && *final(self) == (PrintJob {
                status: PrintJobStatus::Printing,
                started_at: final(self).started_at,
                ..*old(self)
            }),
            old(self).status != PrintJobStatus::Queued ==> *final(self) == *old(self),
    {
        if self.status == PrintJobStatus::Queued {
            self.status = PrintJobStatus::Printing;
            self.started_at = Some(crate::types::unix_seconds_now());
        }
    }

    /// Pause a printing job; other jobs are left as they are.
    pub fn pause(&mut self)
        ensures
            *final(self) == if old(self).status == PrintJobStatus::Printing {
                PrintJob { status: PrintJobStatus::Paused, ..*old(self) }
            } else {
                *old(self)
            },
    {
        if self.status == PrintJobStatus::Printing {
            self.status = PrintJobStatus::Paused;
        }
    }

    /// Resume a paused job; other jobs are left as they are.
    pub fn resume(&mut self)
        ensures
            *final(self) == if old(self).status == PrintJobStatus::Paused {
                PrintJob { status: PrintJobStatus::Printing, ..*old(self) }
            } else {
                *old(self)
            },
    {
        if self.status == PrintJobStatus::Paused {
            self.status = PrintJobStatus::Printing;
        }
    }

    /// Cancel a running job; a job that is over is left as it is.
    pub fn cancel(&mut self)
        ensures
            old(self).status.active() ==> final(self).completed_at is Some && *final(self) == (
            PrintJob {
                status: PrintJobStatus::Cancelled,
                completed_at: final(self).completed_at,
                ..*old(self)
            }),
            !old(self).status.active() ==> *final(self) == *old(self),
    {
        if self.status.is_active() {
            self.status = PrintJobStatus::Cancelled;
            self.completed_at = Some(crate::types::unix_seconds_now());
        }
    }

    /// Count one more printed page of a printing job with pages left; the
    /// job completes with its last page.
    pub fn page_printed(&mut self)
        ensures
            (old(self).status == PrintJobStatus::Printing && old(self).printed_pages < old(
                self,
            ).total_pages) ==> {
                &&& final(self).printed_pages == old(self).printed_pages + 1
                &&& if final(self).printed_pages >= old(self).total_pages {
                    final(self).completed_at is Some && *final(self) == (PrintJob {
                        status: PrintJobStatus::Completed,
                        printed_pages: final(self).printed_pages,
                        completed_at: final(self).completed_at,
                        ..*old(self)
                    })
                } else {
                    *final(self) == (PrintJob {
                        printed_pages: final(self).printed_pages,
                        ..*old(self)
                    })
                }
            },
            !(old(self).status == PrintJobStatus::Printing && old(self).printed_pages < old(
                self,
            ).total_pages) ==> *final(self) == *old(self),
    {
        if self.status == PrintJobStatus::Printing && self.printed_pages < self.total_pages {
            self.printed_pages = self.printed_pages + 1;
            if self.printed_pages >= self.total_pages {
                self.status = PrintJobStatus::Completed;
                self.completed_at = Some(crate::types::unix_seconds_now());
            }
        }
    }

    /// Mark the job failed with a reason.
    pub fn fail(&mut self, error: String)
        ensures
            final(self).completed_at is Some,
            *final(self) == (PrintJob {
                status: PrintJobStatus::Failed,
                error_message: Some(error),
                completed_at: final(self).completed_at,
                ..*old(self)
            }),
    {
        self.status = PrintJobStatus::Failed;
        self.error_message = Some(error);
        self.completed_at = Some(crate::types::unix_seconds_now());
    }

    /// Mark the job completed with every page printed.
    pub fn complete(&mut self)
        ensures
            final(self).completed_at is Some,
            *final(self) == (PrintJob {
                status: PrintJobStatus::Completed,
                printed_pages: old(self).total_pages,
                completed_at: final(self).completed_at,
                ..*old(self)
            }),
    {
        self.status = PrintJobStatus::Completed;
        self.printed_pages = self.total_pages;
        self.completed_at = Some(crate::types::unix_seconds_now());
    }
}

/// Errors that can occur during printing.
#[derive(Debug, Clone, PartialEq, Eq)]
pub enum PrintError {
    NoPrinter,
    PrinterNotFound(String),
    JobFailed(String),
    PdfFailed(String),
    InvalidSettings(String),
    UnsupportedPlatform,
    Cancelled,
}

/// The operating system the browser runs on, as far as printing cares.
#[derive(Debug, Clone, Copy, PartialEq, Eq, Structural)]
pub enum Platform {
    Linux,
    MacOs,
    Windows,
    /// Any other operating system.
    Other,
}

/// Printing is supported on Linux, macOS and Windows.
pub open spec fn printing_supported(p: Platform) -> bool {
    p != Platform::Other
}

/// What the system print dialog answers on `platform`: the supported
/// platforms offer no dialog of their own yet, so printing is confirmed;
/// any other platform refuses.
pub fn system_print_dialog_answer(platform: Platform) -> (r: Result<bool, PrintError>)
    ensures
        printing_supported(platform) ==> r == Ok::<bool, PrintError>(true),
        !printing_supported(platform) ==> r == Err::<bool, PrintError>(
            PrintError::UnsupportedPlatform,
        ),
{
    match platform {
        Platform::Other => Err(PrintError::UnsupportedPlatform),
        _ => Ok(true),
    }
}

/// The names of the available printers on `platform`: a supported platform
/// offers its default printer; any other refuses.
pub fn get_available_printers(platform: Platform) -> (r: Result<Vec<String>, PrintError>)
    ensures
        printing_supported(platform) ==> (r matches Ok(v) && v@.len() == 1 && v@[0]@
            == "Default Printer"@),
        !printing_supported(platform) ==> r == Err::<Vec<String>, PrintError>(
            PrintError::UnsupportedPlatform,
        ),
{
    match platform {
        Platform::Other => Err(PrintError::UnsupportedPlatform),
        _ => {
            let mut v: Vec<String> = Vec::new();
            v.push(String::from_str("Default Printer"));
            Ok(v)
        },
    }
}

/// The name of the default printer on `platform`; any platform but Linux,
/// macOS and Windows refuses.
pub fn get_default_printer(platform: Platform) -> (r: Result<Option<String>, PrintError>)
    ensures
        printing_supported(platform) ==> (r matches Ok(Some(name)) && name@
            == "Default Printer"@),
        !printing_supported(platform) ==> r == Err::<Option<String>, PrintError>(
            PrintError::UnsupportedPlatform,
        ),
{
    match platform {
        Platform::Other => Err(PrintError::UnsupportedPlatform),
        _ => Ok(Some(String::from_str("Default Printer"))),
    }
}

} // verus!

verus! {

/// Response from print preview interaction.
#[derive(Debug, Clone, Copy, PartialEq, Eq, Default)]
pub struct PrintPreviewResponse {
    /// The user asked to print.
    pub print_requested: bool,
    /// The user asked to save as PDF.
    pub save_pdf_requested: bool,
    /// The user cancelled the preview.
    pub cancelled: bool,
}

/// Response from the print manager interface.
#[derive(Debug, Clone, Copy, PartialEq, Eq, Default)]
pub struct PrintManagerResponse {
    /// Response from the print preview.
    pub preview_response: PrintPreviewResponse,
    /// Whether the job list changed.
    pub jobs_updated: bool,
}

/// Print preview state: settings, page navigation and visibility.  The zoom
/// factor, a floating-point value, is kept by the caller that draws the
/// preview.
#[derive(Debug)]
pub struct PrintPreview<S> {
    settings: S,
    total_pages: u32,
    current_page: u32,
    show_margins: bool,
    visible: bool,
}

/// The abstract state of a print preview.
pub struct PrintPreviewView<S> {
    pub settings: S,
    pub total_pages: u32,
    pub current_page: u32,
    pub show_margins: bool,
    pub visible: bool,
}

impl<S> View for PrintPreview<S> {
    type V = PrintPreviewView<S>;

    closed spec fn view(&self) -> PrintPreviewView<S> {
        PrintPreviewView {
            settings: self.settings,
            total_pages: self.total_pages,
            current_page: self.current_page,
            show_margins: self.show_margins,
            visible: self.visible,
        }
    }
}

impl<S> PrintPreviewView<S> {
    /// The document has a page, and the current page is one of its pages.
    pub open spec fn wf(self) -> bool {
        1 <= self.current_page <= self.total_pages
    }
}

impl<S> PrintPreview<S> {
    /// A hidden preview of a one-page document with these settings, on its
    /// first page, with margin guides shown.
    pub fn with_settings(settings: S) -> (p: PrintPreview<S>)
        ensures
            p@ == (PrintPreviewView {
                settings,
                total_pages: 1,
                current_page: 1,
                show_margins: true,
                visible: false,
            }),
    {
        PrintPreview { settings, total_pages: 1, current_page: 1, show_margins: true, visible: false }
    }

    /// The current settings.
    pub fn settings(&self) -> (s: &S)
        ensures
            *s == self@.settings,
    {
        &self.settings
    }

    /// The settings, for changing in place.
    pub fn settings_mut(&mut self) -> (s: &mut S)
        ensures
            *s == old(self)@.settings,
            final(self)@ == (PrintPreviewView { settings: *final(s), ..old(self)@ }),
    {
        &mut self.settings
    }

    /// Replace the settings.
    pub fn set_settings(&mut self, settings: S)
        ensures
            final(self)@ == (PrintPreviewView { settings, ..old(self)@ }),
    {
        self.settings = settings;
    }

    /// Set the page count (at least one); the current page is moved back
    /// onto the document when it falls beyond it.
    pub fn set_total_pages(&mut self, pages: u32)
        requires
            old(self)@.wf(),
        ensures
            final(self)@.wf(),
            final(self)@ == (PrintPreviewView {
                total_pages: if pages >= 1 { pages } else { 1 },
                current_page: if old(self)@.current_page > (if pages >= 1 { pages } else { 1 }) {
                    if pages >= 1 { pages } else { 1 }
                } else {
                    old(self)@.current_page
                },
                ..old(self)@
            }),
    {
        self.total_pages = if pages >= 1 {
            pages
        } else {
            1
        };
        if self.current_page > self.total_pages {
            self.current_page = self.total_pages;
        }
    }

    /// The page count.
    pub fn total_pages(&self) -> (n: u32)
        ensures
            n == self@.total_pages,
    {
        self.total_pages
    }

    /// The current page (1-indexed).
    pub fn current_page(&self) -> (n: u32)
        ensures
            n == self@.current_page,
    {
        self.current_page
    }

    /// Go to a page, clamped to the document.
    pub fn set_current_page(&mut self, page: u32)
        requires
            old(self)@.wf(),
        ensures
            final(self)@.wf(),
            final(self)@ == (PrintPreviewView {
                current_page: if page < 1 {
                    1
                } else if page > old(self)@.total_pages {
                    old(self)@.total_pages
                } else {
                    page
                },
                ..old(self)@
            }),
    {
        self.current_page = if page < 1 {
            1
        } else if page > self.total_pages {
            self.total_pages
        } else {
            page
        };
    }

    /// Go to the next page, unless on the last.
    pub fn next_page(&mut self)
        requires
            old(self)@.wf(),
        ensures
            final(self)@.wf(),
            final(self)@ == (PrintPreviewView {
                current_page: if old(self)@.current_page < old(self)@.total_pages {
                    (old(self)@.current_page + 1) as u32
                } else {
                    old(self)@.current_page
                },
                ..old(self)@
            }),
    {
        if self.current_page < self.total_pages {
            self.current_page = self.current_page + 1;
        }
    }

    /// Go to the previous page, unless on the first.
    pub fn prev_page(&mut self)
        requires
            old(self)@.wf(),
        ensures
            final(self)@.wf(),
            final(self)@ == (PrintPreviewView {
                current_page: if old(self)@.current_page > 1 {
                    (old(self)@.current_page - 1) as u32
                } else {
                    old(self)@.current_page
                },
                ..old(self)@
            }),
    {
        if self.current_page > 1 {
            self.current_page = self.current_page - 1;
        }
    }

    /// The page counter shown above the preview, such as "Page 2 of 5".
    pub fn page_label(&self) -> (s: String)
        ensures
            s@ == "Page "@ + decimal(self@.current_page as nat) + " of "@ + decimal(
                self@.total_pages as nat,
            ),
    {
        let mut s = String::from_str("Page ");
        let current = decimal_string(self.current_page as u64);
        s.append(current.as_str());
        s.append(" of ");
        let total = decimal_string(self.total_pages as u64);
        s.append(total.as_str());
        s
    }

    /// Show or hide the margin guides.
    pub fn toggle_margins(&mut self)
        ensures
            final(self)@ == (PrintPreviewView {
                show_margins: !old(self)@.show_margins,
                ..old(self)@
            }),
    {
        self.show_margins = !self.show_margins;
    }

    /// Whether margin guides are shown.
    pub fn showing_margins(&self) -> (b: bool)
        ensures
            b == self@.show_margins,
    {
        self.show_margins
    }

    /// Show the preview.
    pub fn show(&mut self)
        ensures
            final(self)@ == (PrintPreviewView { visible: true, ..old(self)@ }),
    {
        self.visible = true;
    }

    /// Hide the preview.
    pub fn dismiss(&mut self)
        ensures
            final(self)@ == (PrintPreviewView { visible: false, ..old(self)@ }),
    {
        self.visible = false;
    }

    /// Whether the preview is shown.
    pub fn is_visible(&self) -> (b: bool)
        ensures
            b == self@.visible,
    {
        self.visible
    }
}

impl<S: Default> PrintPreview<S> {
    /// A hidden preview with default settings.
    pub fn new() -> (p: PrintPreview<S>)
        ensures
            p@.wf(),
            p@.total_pages == 1,
            p@.current_page == 1,
            p@.show_margins,
            !p@.visible,
    {
        PrintPreview::with_settings(S::default())
    }
}

} // verus!

verus! {

/// The job has this identifier.
pub open spec fn job_id_is<S>(id: PrintJobId) -> spec_fn(PrintJob<S>) -> bool {
    |j: PrintJob<S>| j.id == id
}

/// The position of the first job with identifier `id`.
pub open spec fn job_position<S>(jobs: Seq<PrintJob<S>>, id: PrintJobId) -> Option<int> {
    first_match(jobs, job_id_is(id))
}

/// The jobs that are still running, in order.
pub open spec fn running_jobs<S>(jobs: Seq<PrintJob<S>>) -> Seq<PrintJob<S>>
    decreases jobs.len(),
{
    if jobs.len() == 0 {
        Seq::empty()
    } else {
        let r = running_jobs(jobs.drop_last());
        if jobs.last().status.active() {
            r.push(jobs.last())
        } else {
            r
        }
    }
}

/// Numbers below a bound stay below it in the running jobs.
proof fn lemma_running_ids_below<S>(jobs: Seq<PrintJob<S>>, bound: u64)
    ensures
        (forall|i: int| 0 <= i < jobs.len() ==> (#[trigger] jobs[i]).id.0 < bound) ==> (forall|
            i: int,
        | 0 <= i < running_jobs(jobs).len() ==> (#[trigger] running_jobs(jobs)[i]).id.0 < bound),
    decreases jobs.len(),
{
    if jobs.len() > 0 {
        lemma_running_ids_below(jobs.drop_last(), bound);
        if forall|i: int| 0 <= i < jobs.len() ==> (#[trigger] jobs[i]).id.0 < bound {
            assert forall|i: int| 0 <= i < jobs.drop_last().len() implies (
            #[trigger] jobs.drop_last()[i]).id.0 < bound by {
                assert(jobs.drop_last()[i] == jobs[i]);
            }
            assert(jobs.last() == jobs[jobs.len() - 1]);
        }
    }
}

/// The job after `cancel`: a running job is cancelled at time `t`, a job
/// that is over is left as it is.
pub open spec fn cancelled_job<S>(j: PrintJob<S>, t: Option<u64>) -> PrintJob<S> {
    if j.status.active() {
        PrintJob { status: PrintJobStatus::Cancelled, completed_at: t, ..j }
    } else {
        j
    }
}

/// Print manager: the print jobs, the preview, the default settings and
/// the number the next job will get.
#[derive(Debug)]
pub struct PrintManager<S> {
    jobs: Vec<PrintJob<S>>,
    preview: PrintPreview<S>,
    default_settings: S,
    next_id: u64,
}

/// The abstract state of a print manager.
pub struct PrintManagerView<S> {
    pub jobs: Seq<PrintJob<S>>,
    pub preview: PrintPreviewView<S>,
    pub default_settings: S,
    /// The identifier number the next job will get.
    pub next_id: u64,
}

impl<S> PrintManagerView<S> {
    /// Every job's number is below the next one, so the next is fresh.
    pub open spec fn wf(self) -> bool {
        forall|i: int| 0 <= i < self.jobs.len() ==> (#[trigger] self.jobs[i]).id.0 < self.next_id
    }
}

impl<S> View for PrintManager<S> {
    type V = PrintManagerView<S>;

    closed spec fn view(&self) -> PrintManagerView<S> {
        PrintManagerView {
            jobs: self.jobs@,
            preview: self.preview@,
            default_settings: self.default_settings,
            next_id: self.next_id,
        }
    }
}

impl<S: Default + Clone> PrintManager<S> {
    /// A manager with no jobs, a hidden preview and default settings.
    pub fn new() -> (m: PrintManager<S>)
        ensures
            m@.wf(),
            m@.next_id == 1,
            m@.jobs.len() == 0,
            m@.preview.wf(),
            m@.preview.total_pages == 1,
            m@.preview.current_page == 1,
            m@.preview.show_margins,
            !m@.preview.visible,
    {
        PrintManager {
            jobs: Vec::new(),
            preview: PrintPreview::new(),
            default_settings: S::default(),
            next_id: 1,
        }
    }

    /// The print preview.
    pub fn preview(&self) -> (p: &PrintPreview<S>)
        ensures
            p@ == self@.preview,
    {
        &self.preview
    }

    /// The print preview, for changing in place.
    pub fn preview_mut(&mut self) -> (p: &mut PrintPreview<S>)
        ensures
            p@ == old(self)@.preview,
            final(self)@ == (PrintManagerView { preview: final(p)@, ..old(self)@ }),
    {
        &mut self.preview
    }

    /// Show the preview with a copy of the default settings.
    pub fn show_preview(&mut self)
        ensures
            final(self)@.jobs == old(self)@.jobs,
            final(self)@.default_settings == old(self)@.default_settings,
            final(self)@.next_id == old(self)@.next_id,
            cloned(old(self)@.default_settings, final(self)@.preview.settings),
            final(self)@.preview == (PrintPreviewView {
                settings: final(self)@.preview.settings,
                visible: true,
                ..old(self)@.preview
            }),
    {
        let s = self.default_settings.clone();
        self.preview.set_settings(s);
        self.preview.show();
    }

    /// Show the preview with these settings.
    pub fn show_preview_with_settings(&mut self, settings: S)
        ensures
            final(self)@ == (PrintManagerView {
                preview: PrintPreviewView { settings, visible: true, ..old(self)@.preview },
                ..old(self)@
            }),
    {
        self.preview.set_settings(settings);
        self.preview.show();
    }

    /// Hide the preview.
    pub fn hide_preview(&mut self)
        ensures
            final(self)@ == (PrintManagerView {
                preview: PrintPreviewView { visible: false, ..old(self)@.preview },
                ..old(self)@
            }),
    {
        self.preview.dismiss();
    }

    /// The default settings.
    pub fn default_settings(&self) -> (s: &S)
        ensures
            *s == self@.default_settings,
    {
        &self.default_settings
    }

    /// Replace the default settings.
    pub fn set_default_settings(&mut self, settings: S)
        ensures
            final(self)@ == (PrintManagerView { default_settings: settings, ..old(self)@ }),
    {
        self.default_settings = settings;
    }

    /// Queue a new job with a copy of the preview's settings and return its
    /// identifier, the next number, which no job held before.  (The counter
    /// is a `u64`, so it is required not to be spent.)
    pub fn create_job(&mut self, title: String, total_pages: u32) -> (id: PrintJobId)
        requires
            old(self)@.wf(),
            old(self)@.next_id < u64::MAX,
        ensures
            final(self)@.wf(),
            id == PrintJobId(old(self)@.next_id),
            final(self)@.next_id == old(self)@.next_id + 1,
            forall|i: int| 0 <= i < old(self)@.jobs.len() ==> (#[trigger] old(self)@.jobs[i]).id != id,
            final(self)@.preview == old(self)@.preview,
            final(self)@.default_settings == old(self)@.default_settings,
            final(self)@.jobs.len() == old(self)@.jobs.len() + 1,
            final(self)@.jobs.drop_last() == old(self)@.jobs,
            ({
                let j = final(self)@.jobs.last();
                &&& j.id == id
                &&& j.title == title
                &&& j.status == PrintJobStatus::Queued
                &&& j.total_pages == total_pages
                &&& j.printed_pages == 0
                &&& cloned(old(self)@.preview.settings, j.settings)
                &&& j.error_message is None
                &&& j.started_at is None
                &&& j.completed_at is None
            }),
    {
        let settings = self.preview.settings().clone();
        let mut job = PrintJob::new(title, total_pages, settings);
        let id = PrintJobId(self.next_id);
        job.id = id;
        self.jobs.push(job);
        self.next_id = self.next_id + 1;
        proof {
            assert(self.jobs@.drop_last() =~= old(self).jobs@);
            assert forall|i: int| 0 <= i < self@.jobs.len() implies (#[trigger] self@.jobs[i]).id.0
                < self@.next_id by {
                if i < old(self)@.jobs.len() {
                    assert(self@.jobs[i] == old(self)@.jobs[i]);
                }
            }
        }
        id
    }

    fn position(&self, id: PrintJobId) -> (r: Option<usize>)
        ensures
            match r {
                Some(i) => job_position(self@.jobs, id) == Some(i as int) && i < self@.jobs.len(),
                None => job_position(self@.jobs, id) is None,
            },
    {
        let n = self.jobs.len();
        let mut i: usize = 0;
        while i < n
            invariant
                n == self.jobs@.len(),
                i <= n,
                forall|j: int| 0 <= j < i ==> self.jobs@[j].id != id,
            decreases n - i,
        {
            if self.jobs[i].id == id {
                proof {
                    lemma_first_match_at(self.jobs@, job_id_is(id), i as int);
                }
                return Some(i);
            }
            i += 1;
        }
        proof {
            lemma_first_match_none(self.jobs@, job_id_is::<S>(id));
        }
        None
    }

    /// The first job with this identifier.
    pub fn get_job(&self, id: PrintJobId) -> (r: Option<&PrintJob<S>>)
        ensures
            match job_position(self@.jobs, id) {
                Some(i) => r == Some(&self@.jobs[i]),
                None => r is None,
            },
    {
        match self.position(id) {
            Some(i) => Some(&self.jobs[i]),
            None => None,
        }
    }

    /// All jobs, oldest first.
    pub fn jobs(&self) -> (r: &[PrintJob<S>])
        ensures
            r@ == self@.jobs,
    {
        self.jobs.as_slice()
    }

    /// The jobs that are still running, oldest first.
    pub fn active_jobs(&self) -> (r: Vec<&PrintJob<S>>)
        ensures
            r@.len() == running_jobs(self@.jobs).len(),
            forall|i: int| 0 <= i < r@.len() ==> *r@[i] == running_jobs(self@.jobs)[i],
    {
        let mut r: Vec<&PrintJob<S>> = Vec::new();
        let n = self.jobs.len();
        let mut i: usize = 0;
        while i < n
            invariant
                n == self.jobs@.len(),
                i <= n,
                r@.len() == running_jobs(self.jobs@.take(i as int)).len(),
                forall|k: int|
                    0 <= k < r@.len() ==> *r@[k] == running_jobs(self.jobs@.take(i as int))[k],
            decreases n - i,
        {
            proof {
                assert(self.jobs@.take(i + 1).drop_last() =~= self.jobs@.take(i as int));
            }
            if self.jobs[i].status.is_active() {
                r.push(&self.jobs[i]);
            }
            i += 1;
        }
        proof {
            assert(self.jobs@.take(n as int) =~= self.jobs@);
        }
        r
    }

    /// Cancel the first job with this identifier; false when there is none.
    pub fn cancel_job(&mut self, id: PrintJobId) -> (found: bool)
        ensures
            old(self)@.wf() ==> final(self)@.wf(),
            final(self)@.next_id == old(self)@.next_id,
            final(self)@.preview == old(self)@.preview,
            final(self)@.default_settings == old(self)@.default_settings,
            match job_position(old(self)@.jobs, id) {
                Some(i) => found && final(self)@.jobs == old(self)@.jobs.update(
                    i,
                    cancelled_job(old(self)@.jobs[i], final(self)@.jobs[i].completed_at),
                ) && (old(self)@.jobs[i].status.active() ==> final(self)@.jobs[i].completed_at is Some),
                None => !found && final(self)@.jobs == old(self)@.jobs,
            },
    {
        match self.position(id) {
            Some(i) => {
                let mut job = self.jobs.remove(i);
                job.cancel();
                self.jobs.insert(i, job);
                proof {
                    assert(self.jobs@ =~= old(self).jobs@.update(
                        i as int,
                        cancelled_job(old(self).jobs@[i as int], self.jobs@[i as int].completed_at),
                    ));
                }
                true
            },
            None => false,
        }
    }

    /// Remove the jobs that are over, keeping the running ones in order.
    pub fn clear_completed_jobs(&mut self)
        ensures
            final(self)@ == (PrintManagerView { jobs: running_jobs(old(self)@.jobs), ..old(self)@ }),
            old(self)@.wf() ==> final(self)@.wf(),
    {
        let ghost orig = self.jobs@;
        let mut i: usize = 0;
        let ghost mut k: int = 0;
        proof {
            assert(orig.take(0) =~= Seq::<PrintJob<S>>::empty());
            assert(self.jobs@ =~= running_jobs(orig.take(0)) + orig.skip(0));
        }
        while i < self.jobs.len()
            invariant
                orig == old(self).jobs@,
                self.preview == old(self).preview,
                self.default_settings == old(self).default_settings,
                self.next_id == old(self).next_id,
                0 <= k <= orig.len(),
                self.jobs@ == running_jobs(orig.take(k)) + orig.skip(k),
                i == running_jobs(orig.take(k)).len(),
            decreases orig.len() - k,
        {
            proof {
                assert(orig.take(k + 1).drop_last() =~= orig.take(k));
                assert(self.jobs@[i as int] == orig[k]);
            }
            if self.jobs[i].status.is_active() {
                i += 1;
                proof {
                    k = k + 1;
                    assert(self.jobs@ =~= running_jobs(orig.take(k)) + orig.skip(k));
                }
            } else {
                self.jobs.remove(i);
                proof {
                    k = k + 1;
                    assert(self.jobs@ =~= running_jobs(orig.take(k)) + orig.skip(k));
                }
            }
        }
        proof {
            assert(k == orig.len());
            assert(orig.take(k) =~= orig);
            assert(self.jobs@ =~= running_jobs(orig));
            lemma_running_ids_below(orig, self.next_id);
        }
    }

    /// Print to a PDF file: a job with these settings (which name the file)
    /// is created, run to completion and recorded.
    pub fn print_to_pdf(&mut self, settings: S, title: String, pages: u32) -> (r: Result<
        PrintJobId,
        PrintError,
    >)
        requires
            old(self)@.wf(),
            old(self)@.next_id < u64::MAX,
        ensures
            final(self)@.wf(),
            final(self)@.next_id == old(self)@.next_id + 1,
            r == Ok::<PrintJobId, PrintError>(PrintJobId(old(self)@.next_id)),
            forall|i: int| 0 <= i < old(self)@.jobs.len() ==> (#[trigger] old(self)@.jobs[i]).id
                != PrintJobId(old(self)@.next_id),
            final(self)@.preview == old(self)@.preview,
            final(self)@.default_settings == old(self)@.default_settings,
            final(self)@.jobs.len() == old(self)@.jobs.len() + 1,
            final(self)@.jobs.drop_last() == old(self)@.jobs,
            ({
                let j = final(self)@.jobs.last();
                &&& r == Ok::<PrintJobId, PrintError>(j.id)
                &&& j.title == title
                &&& j.status == PrintJobStatus::Completed
                &&& j.total_pages == pages
                &&& j.printed_pages == pages
                &&& j.settings == settings
                &&& j.error_message is None
                &&& j.started_at is Some
                &&& j.completed_at is Some
            }),
    {
        let mut job = PrintJob::new(title, pages, settings);
        let id = PrintJobId(self.next_id);
        job.id = id;
        job.start();
        job.complete();
        self.jobs.push(job);
        self.next_id = self.next_id + 1;
        proof {
            assert(self.jobs@.drop_last() =~= old(self).jobs@);
            assert forall|i: int| 0 <= i < self@.jobs.len() implies (#[trigger] self@.jobs[i]).id.0
                < self@.next_id by {
                if i < old(self)@.jobs.len() {
                    assert(self@.jobs[i] == old(self)@.jobs[i]);
                }
            }
        }
        Ok(id)
    }
}

} // verus!
