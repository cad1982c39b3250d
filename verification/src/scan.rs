//! Line Scanner: decides, line by line, whether the watched error pattern
//! has appeared in a child process's output stream.
//!
//! The pattern check is a case-sensitive substring match. A scanner stops at
//! the first matching line (the rest of the stream is abandoned, as the
//! attempt is about to be torn down) and otherwise reports every line it saw,
//! in stream order.
use vstd::prelude::*;

verus! {

/// The pattern occurs in `text` starting exactly at position `i`.
pub open spec fn match_at(text: Seq<char>, pat: Seq<char>, i: int) -> bool {
    &&& 0 <= i
    &&& i + pat.len() <= text.len()
    &&& text.subrange(i, i + pat.len() as int) == pat
}

/// The pattern occurs somewhere in `text` (an empty pattern always does).
pub open spec fn contains_pattern(text: Seq<char>, pat: Seq<char>) -> bool {
    exists|i: int| match_at(text, pat, i)
}

/// Whether the pattern occurs in `line` as a substring, case-sensitively.
pub fn line_contains(line: &str, pattern: &str) -> (found: bool)
    ensures
        found == contains_pattern(line@, pattern@),
{
    let n: usize = line.unicode_len();
    let m: usize = pattern.unicode_len();
    if m > n {
        proof {
            assert forall|i: int| !match_at(line@, pattern@, i) by {}
        }
        return false;
    }
    if m == 0 {
        proof {
            assert(match_at(line@, pattern@, 0)) by {
                assert(line@.subrange(0, 0) =~= pattern@);
            }
        }
        return true;
    }
    let mut i: usize = 0;
    while i <= n - m
        invariant
            1 <= m <= n,
            n == line@.len(),
            m == pattern@.len(),
            i <= n - m + 1,
            forall|j: int| 0 <= j < i ==> !match_at(line@, pattern@, j),
        decreases n - m + 1 - i,
    {
        if matches_at(line, pattern, i) {
            return true;
        }
        i += 1;
    }
    proof {
        // positions before i were checked; at any later one the pattern
        // would overrun the line
        assert forall|j: int| !match_at(line@, pattern@, j) by {}
    }
    false
}

/// Whether the pattern occurs in `line` starting exactly at position `i`.
fn matches_at(line: &str, pattern: &str, i: usize) -> (b: bool)
    requires
        i + pattern@.len() <= line@.len(),
        line@.len() <= usize::MAX,
    ensures
        b == match_at(line@, pattern@, i as int),
{
    let m: usize = pattern.unicode_len();
    let mut k: usize = 0;
    while k < m
        invariant
            k <= m,
            m == pattern@.len(),
            i + m <= line@.len(),
            line@.len() <= usize::MAX,
            forall|t: int| 0 <= t < k ==> line@[i + t] == pattern@[t],
        decreases m - k,
    {
        if line.get_char(i + k) != pattern.get_char(k) {
            proof {
                assert(!match_at(line@, pattern@, i as int)) by {
                    if match_at(line@, pattern@, i as int) {
                        assert(line@.subrange(i as int, i + m as int)[k as int] == pattern@[
                            k as int
                        ]);
                    }
                }
            }
            return false;
        }
        k += 1;
    }
    proof {
        assert(line@.subrange(i as int, i + m as int) =~= pattern@);
    }
    true
}

/// One report of a scanner about the stream it reads.
#[derive(Debug)]
pub enum ScanEvent {
    /// A line was seen and echoed; it did not hold the pattern.
    LineObserved(String),
    /// A line holding the pattern was seen; the scanner stops here.
    ErrorMatched(String),
    /// Reading the stream failed; the scanner stops here.
    StreamError(String),
}

/// The mathematical shape of a scanner report: the same three cases over
/// sequences of characters.
pub enum ScanEventView {
    /// A line without the pattern.
    LineObserved(Seq<char>),
    /// A line holding the pattern.
    ErrorMatched(Seq<char>),
    /// The reason a read failed.
    StreamError(Seq<char>),
}

impl View for ScanEvent {
    type V = ScanEventView;

    open spec fn view(&self) -> ScanEventView {
        match self {
            ScanEvent::LineObserved(s) => ScanEventView::LineObserved(s@),
            ScanEvent::ErrorMatched(s) => ScanEventView::ErrorMatched(s@),
            ScanEvent::StreamError(s) => ScanEventView::StreamError(s@),
        }
    }
}

impl DeepView for ScanEvent {
    type V = ScanEventView;

    open spec fn deep_view(&self) -> ScanEventView {
        self.view()
    }
}

/// The report a scanner makes for one successfully read line: the match
/// report if the line holds the pattern, the plain observation otherwise.
pub fn scan_line(line: String, pattern: &str) -> (ev: ScanEvent)
    ensures
        contains_pattern(line@, pattern@) ==> ev@ == ScanEventView::ErrorMatched(line@),
        !contains_pattern(line@, pattern@) ==> ev@ == ScanEventView::LineObserved(line@),
{
    if line_contains(line.as_str(), pattern) {
        ScanEvent::ErrorMatched(line)
    } else {
        ScanEvent::LineObserved(line)
    }
}

/// Some line of the stream holds the pattern.
pub open spec fn scanner_detects(lines: Seq<Seq<char>>, pat: Seq<char>) -> bool {
    exists|k: int| 0 <= k < lines.len() && contains_pattern(lines[k], pat)
}

/// The reports a scanner makes over a whole stream of lines: one
/// `LineObserved` per line, in order, until the first line holding the
/// pattern, which is reported as `ErrorMatched` and ends the scan.
pub open spec fn scan_events(lines: Seq<Seq<char>>, pat: Seq<char>) -> Seq<ScanEventView>
    decreases lines.len(),
{
    if lines.len() == 0 {
        seq![]
    } else if contains_pattern(lines[0], pat) {
        seq![ScanEventView::ErrorMatched(lines[0])]
    } else {
        seq![ScanEventView::LineObserved(lines[0])] + scan_events(lines.drop_first(), pat)
    }
}

/// When no line holds the pattern, the scanner reports every line exactly
/// once, in stream order: the reports are the lines themselves, each as a
/// plain observation.
pub proof fn lemma_no_match_all_lines_echoed(lines: Seq<Seq<char>>, pat: Seq<char>)
    requires
        forall|k: int| 0 <= k < lines.len() ==> !contains_pattern(#[trigger] lines[k], pat),
    ensures
        scan_events(lines, pat) =~= lines.map_values(|l: Seq<char>| ScanEventView::LineObserved(l)),
    decreases lines.len(),
{
    if lines.len() > 0 {
        assert(forall|k: int|
            0 <= k < lines.drop_first().len() ==> lines.drop_first()[k] == #[trigger] lines[k + 1]);
        lemma_no_match_all_lines_echoed(lines.drop_first(), pat);
    }
}

/// When the first line holding the pattern stands at position `i`, the
/// scanner echoes exactly the lines before it, in order, and ends with the
/// match report for line `i`: the rest of the stream is abandoned.
pub proof fn lemma_first_match_ends_scan(lines: Seq<Seq<char>>, pat: Seq<char>, i: int)
    requires
        0 <= i < lines.len(),
        contains_pattern(lines[i], pat),
        forall|j: int| 0 <= j < i ==> !contains_pattern(#[trigger] lines[j], pat),
    ensures
        scan_events(lines, pat) =~= lines.take(i).map_values(
            |l: Seq<char>| ScanEventView::LineObserved(l),
        ).push(ScanEventView::ErrorMatched(lines[i])),
    decreases i,
{
    if i == 0 {
    } else {
        assert(forall|k: int|
            0 <= k < lines.drop_first().len() ==> lines.drop_first()[k] == #[trigger] lines[k + 1]);
        lemma_first_match_ends_scan(lines.drop_first(), pat, i - 1);
        assert(lines.drop_first().take(i - 1) =~= lines.take(i).drop_first());
        assert(lines.take(i).map_values(|l: Seq<char>| ScanEventView::LineObserved(l)) =~= seq![
            ScanEventView::LineObserved(lines[0]),
        ] + lines.drop_first().take(i - 1).map_values(
            |l: Seq<char>| ScanEventView::LineObserved(l),
        ));
    }
}

/// A line holding the pattern is always reported: the scan of a stream in
/// which the pattern occurs ends with a match report.
pub proof fn lemma_match_is_reported(lines: Seq<Seq<char>>, pat: Seq<char>)
    requires
        scanner_detects(lines, pat),
    ensures
        scan_events(lines, pat).len() > 0,
        scan_events(lines, pat).last() is ErrorMatched,
    decreases lines.len(),
{
    let k = choose|k: int| 0 <= k < lines.len() && contains_pattern(lines[k], pat);
    if !contains_pattern(lines[0], pat) {
        assert(contains_pattern(lines.drop_first()[k - 1], pat));
        lemma_match_is_reported(lines.drop_first(), pat);
    }
}

/// The reports of one scanner over a fully read stream, computed at once:
/// what the scanner threads produce line by line, for a stream given whole.
pub fn scan_stream(lines: Vec<String>, pattern: &str) -> (events: Vec<ScanEvent>)
    ensures
        events.deep_view() == scan_events(lines.deep_view(), pattern@),
{
    let ghost linesv = lines.deep_view();
    let mut events: Vec<ScanEvent> = Vec::new();
    let mut i: usize = 0;
    while i < lines.len()
        invariant
            i <= lines.len(),
            linesv == lines.deep_view(),
            linesv.len() == lines.len(),
            forall|j: int| 0 <= j < lines.len() ==> linesv[j] == lines@[j]@,
            forall|j: int| 0 <= j < i ==> !contains_pattern(#[trigger] linesv[j], pattern@),
            events.deep_view() =~= linesv.take(i as int).map_values(
                |l: Seq<char>| ScanEventView::LineObserved(l),
            ),
        decreases lines.len() - i,
    {
        let ev = scan_line(lines[i].clone(), pattern);
        let matched = matches!(ev, ScanEvent::ErrorMatched(_));
        let ghost old_events = events.deep_view();
        events.push(ev);
        proof {
            assert(events.deep_view() =~= old_events.push(ev@));
        }
        if matched {
            proof {
                lemma_first_match_ends_scan(linesv, pattern@, i as int);
            }
            return events;
        }
        proof {
            assert(linesv.take(i + 1).map_values(|l: Seq<char>| ScanEventView::LineObserved(l))
                =~= linesv.take(i as int).map_values(
                |l: Seq<char>| ScanEventView::LineObserved(l),
            ).push(ScanEventView::LineObserved(linesv[i as int])));
        }
        i += 1;
    }
    proof {
        lemma_no_match_all_lines_echoed(linesv, pattern@);
        assert(linesv.take(linesv.len() as int) =~= linesv);
    }
    events
}

} // verus!
