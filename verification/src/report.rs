//! Reports: a tracker's statistics rendered as text, level by level.

use vstd::prelude::*;
use vstd::string::StringExecFns;
use vstd::std_specs::convert::FromSpec;
use vstd::std_specs::convert::FromSpecImpl;
use tabled::builder::Builder;
use tabled::settings::Style;
use crate::task::{percentage_terms_spec, CompletedTask, CompletedTaskView};
use crate::time::span_text;
use crate::time_tracker::{slowest_index, TimeTracker, TrackerView};

verus! {

/// The deepest heading a report uses.
pub const MAX_HEADING_LEVEL: usize = 6;

/// The level of the heading of a report rendered at `depth`: one more than
/// the depth, and never more than six.
pub open spec fn heading_level(depth: nat) -> nat {
    if depth + 1 >= MAX_HEADING_LEVEL {
        MAX_HEADING_LEVEL as nat
    } else {
        depth + 1
    }
}

/// The depth at which the sub-projects of a report at `depth` are rendered.
pub open spec fn child_depth(depth: nat) -> nat {
    if depth >= MAX_HEADING_LEVEL {
        MAX_HEADING_LEVEL as nat
    } else {
        depth + 1
    }
}

/// The depth reached from `depth` after descending `levels` times.
pub open spec fn nested_depth(depth: nat, levels: nat) -> nat
    decreases levels,
{
    if levels == 0 {
        depth
    } else {
        child_depth(nested_depth(depth, (levels - 1) as nat))
    }
}

/// `n` heading markers.
pub open spec fn heading_marks(n: nat) -> Seq<char> {
    Seq::new(n, |i: int| '#')
}

/// The heading of a report and the blank line after it.
pub open spec fn title_spec(name: Seq<char>, depth: nat) -> Seq<char> {
    heading_marks(heading_level(depth)) + " Time Report for "@ + name + "\n\n"@
}

/// The sentence that gives the total time, for the total given as text.
pub open spec fn description_of(total_text: Seq<char>) -> Seq<char> {
    "The total time spent on all tasks was "@ + total_text + ".\n"@
}

/// The sentence that gives the total time, roughly.
pub open spec fn description_spec(total: int) -> Seq<char> {
    description_of(span_text(total, false))
}

/// The share of each task of a report in its tracker's total, as text, and
/// the same for each sub-project. The report shows these texts as they are
/// given: working a share out takes a quotient that is no whole number, which
/// is left to the caller, with [`share_terms`] for the two numbers to divide.
#[derive(Debug)]
pub struct ShareTexts {
    /// One text for each direct task, in the tasks' order.
    pub tasks: Vec<String>,
    /// The share texts of each sub-project, in the sub-projects' order.
    pub subs: Vec<ShareTexts>,
}

/// Whether a pair of numbers is the pair whose quotient is the share of a
/// task that took `time` in a total of `total`.
pub open spec fn are_terms_of(terms: (i64, i64), time: int, total: int) -> bool {
    &&& terms.0 == percentage_terms_spec(time, total).0
    &&& terms.1 == percentage_terms_spec(time, total).1
}

/// What the texts in a vector read, in their order.
pub open spec fn text_views(texts: Seq<String>) -> Seq<Seq<char>> {
    Seq::new(texts.len(), |i: int| texts[i]@)
}

/// What a [`ShareTexts`] stands for: the texts for the direct tasks, and the
/// same for each sub-project.
pub struct SharesView {
    pub tasks: Seq<Seq<char>>,
    pub subs: Seq<SharesView>,
}

impl ShareTexts {
    /// What the share texts of the first `n` sub-projects stand for.
    pub open spec fn sub_views(&self, n: nat) -> Seq<SharesView>
        decreases self, 0nat, n,
    {
        if n == 0 || n > self.subs.len() {
            Seq::empty()
        } else {
            self.sub_views((n - 1) as nat).push(self.subs[n - 1]@)
        }
    }

    /// The view holds the views of the sub-projects' share texts, in order.
    pub proof fn lemma_sub_views(&self, n: nat)
        requires
            n <= self.subs.len(),
        ensures
            self.sub_views(n).len() == n,
            forall|i: int| 0 <= i < n ==> (#[trigger] self.sub_views(n)[i]) == self.subs[i]@,
        decreases n,
    {
        if n > 0 {
            self.lemma_sub_views((n - 1) as nat);
            assert(self.sub_views(n) == self.sub_views((n - 1) as nat).push(self.subs[n - 1]@));
        } else {
            assert(self.sub_views(n) == Seq::<SharesView>::empty());
        }
    }

    /// The view holds one text for each text given and one view for each set
    /// of texts given for a sub-project.
    pub proof fn lemma_view(&self)
        ensures
            self@.tasks == text_views(self.tasks@),
            self@.subs.len() == self.subs.len(),
            forall|i: int| 0 <= i < self.subs.len() ==> (#[trigger] self@.subs[i]) == self.subs[i]@,
    {
        self.lemma_sub_views(self.subs.len() as nat);
        assert(self@.subs == self.sub_views(self.subs.len() as nat));
    }
}

impl View for ShareTexts {
    type V = SharesView;

    open spec fn view(&self) -> SharesView
        decreases self, 1nat, 0nat,
    {
        SharesView {
            tasks: text_views(self.tasks@),
            subs: self.sub_views(self.subs.len() as nat),
        }
    }
}

/// Whether the share texts have the shape of the tracker: one text for each
/// task and one set of texts for each sub-project, at every level.
pub open spec fn shares_fit(shares: SharesView, tracker: TrackerView) -> bool
    decreases tracker,
{
    &&& shares.tasks.len() == tracker.tasks.len()
    &&& shares.subs.len() == tracker.subs.len()
    &&& forall|i: int|
        0 <= i < tracker.subs.len() ==> shares_fit(shares.subs[i], #[trigger] tracker.subs[i])
}

/// The sentence that names a task as the slowest, for the time it took and
/// its share given as text.
pub open spec fn slowest_sentence_of(name: Seq<char>, took: Seq<char>, share: Seq<char>) -> Seq<
    char,
> {
    "The slowest task was `"@ + name + "` which took "@ + took + " ("@ + share
        + " of all time)."@
}

/// The sentence that names a task as the slowest, with its share as given.
pub open spec fn slowest_sentence(task: CompletedTaskView, share: Seq<char>) -> Seq<char> {
    slowest_sentence_of(task.name, span_text(task.time(), true), share)
}

/// The sentence on the slowest task of a tracker, with the share given for
/// that task; nothing for no tasks.
pub open spec fn slowest_text(tracker: TrackerView, shares: Seq<Seq<char>>) -> Seq<char> {
    if tracker.tasks.len() == 0 {
        ""@
    } else {
        slowest_sentence(
            tracker.tasks[slowest_index(tracker.tasks)],
            shares[slowest_index(tracker.tasks)],
        )
    }
}

/// The row above the tasks' rows.
pub open spec fn header_row() -> Seq<Seq<char>> {
    seq!["name"@, "time"@, "percentage"@]
}

/// The row of one task: its name, the time it took, and its share as given.
pub open spec fn task_row(task: CompletedTaskView, share: Seq<char>) -> Seq<Seq<char>> {
    seq![task.name, span_text(task.time(), true), share]
}

/// The header and the rows of the first `n` tasks, in their order, each with
/// the share given for it.
pub open spec fn table_records(tracker: TrackerView, shares: Seq<Seq<char>>, n: nat) -> Seq<
    Seq<Seq<char>>,
> {
    Seq::new(
        n + 1,
        |i: int|
            if i == 0 {
                header_row()
            } else {
                task_row(tracker.tasks[i - 1], shares[i - 1])
            },
    )
}

/// How the given records, the header first, read as a table in Markdown.
pub uninterp spec fn markdown_table(records: Seq<Seq<Seq<char>>>) -> Seq<char>;

/// Builds a `tabled::Table` from the records with
/// `tabled::builder::Builder`, gives it `Style::markdown`, and renders it.
/// Believed of it: the text depends on the records alone. How the table is
/// drawn is not stated here.
#[verifier::external_body]
fn render_markdown_table(records: Vec<Vec<String>>) -> (text: String)
    ensures
        text@ == markdown_table(records.deep_view()),
{
    let mut table = Builder::from(records).build();
    table.with(Style::markdown());
    table.to_string()
}

/// The parts of one level of a report put together: the heading, the
/// sentence on the total, the sentence on the slowest task, a blank line,
/// and the table.
pub open spec fn body_of(
    title: Seq<char>,
    description: Seq<char>,
    slowest: Seq<char>,
    table: Seq<char>,
) -> Seq<char> {
    title + description + slowest + "\n\n"@ + table
}

/// A tracker's own part of a report: heading, total, slowest task, table.
pub open spec fn body_spec(tracker: TrackerView, shares: Seq<Seq<char>>, depth: nat) -> Seq<
    char,
> {
    body_of(
        title_spec(tracker.name, depth),
        description_spec(tracker.total_time()),
        slowest_text(tracker, shares),
        markdown_table(table_records(tracker, shares, tracker.tasks.len())),
    )
}

/// A tracker's own part of a report, then the reports of its first `n`
/// sub-projects, each after a blank line and one level deeper.
pub open spec fn text_upto(tracker: TrackerView, shares: SharesView, depth: nat, n: nat) -> Seq<
    char,
>
    decreases tracker, n,
{
    if n == 0 || n > tracker.subs.len() {
        body_spec(tracker, shares.tasks, depth)
    } else {
        text_upto(tracker, shares, depth, (n - 1) as nat) + "\n\n"@ + text_spec(
            tracker.subs[n - 1],
            shares.subs[n - 1],
            child_depth(depth),
        )
    }
}

/// The whole report of a tracker rendered at `depth`: the tracker itself
/// first, then each sub-project in turn, depth first.
pub open spec fn text_spec(tracker: TrackerView, shares: SharesView, depth: nat) -> Seq<char>
    decreases tracker, tracker.subs.len() + 1,
{
    text_upto(tracker, shares, depth, tracker.subs.len())
}

/// A heading is never above level one nor below level six.
pub proof fn lemma_heading_level_bounded(depth: nat)
    ensures
        1 <= heading_level(depth) <= MAX_HEADING_LEVEL,
{
}

/// Each level of nesting deepens the heading by one until level six, where
/// it stays however deep the nesting goes.
pub proof fn lemma_nested_heading_level(depth: nat, levels: nat)
    ensures
        depth <= MAX_HEADING_LEVEL ==> nested_depth(depth, levels) <= MAX_HEADING_LEVEL,
        depth + levels < MAX_HEADING_LEVEL ==> heading_level(nested_depth(depth, levels))
            == depth + levels + 1,
        depth + levels >= MAX_HEADING_LEVEL ==> heading_level(nested_depth(depth, levels))
            == MAX_HEADING_LEVEL,
        heading_level(nested_depth(depth, levels)) <= MAX_HEADING_LEVEL,
    decreases levels,
{
    if levels > 0 {
        lemma_nested_heading_level(depth, (levels - 1) as nat);
        lemma_nested_depth_value(depth, levels);
        lemma_nested_depth_value(depth, (levels - 1) as nat);
    }
}

/// The depth after `levels` descents is `depth + levels` while that is at
/// most six; from a depth above six the first descent leads to six.
pub proof fn lemma_nested_depth_value(depth: nat, levels: nat)
    ensures
        depth + levels <= MAX_HEADING_LEVEL ==> nested_depth(depth, levels) == depth + levels,
        depth + levels > MAX_HEADING_LEVEL && levels > 0 ==> nested_depth(depth, levels)
            == MAX_HEADING_LEVEL,
    decreases levels,
{
    if levels > 0 {
        lemma_nested_depth_value(depth, (levels - 1) as nat);
    }
}

/// A report on a tracker holds that tracker.
pub proof fn lemma_report_from_tracker(time_tracker: TimeTracker)
    ensures
        <Report as FromSpec<TimeTracker>>::from_spec(time_tracker).tracker_spec()
            == time_tracker,
        <Report as FromSpec<TimeTracker>>::from_spec(time_tracker)@ == time_tracker@,
{
}

/// A report starts with its own heading, at the level of its depth.
pub proof fn lemma_text_starts_with_title(tracker: TrackerView, shares: SharesView, depth: nat)
    ensures
        title_spec(tracker.name, depth).is_prefix_of(text_spec(tracker, shares, depth)),
        heading_marks(heading_level(depth)).is_prefix_of(text_spec(tracker, shares, depth)),
{
    lemma_upto_starts_with_title(tracker, shares, depth, tracker.subs.len());
}

proof fn lemma_upto_starts_with_title(
    tracker: TrackerView,
    shares: SharesView,
    depth: nat,
    n: nat,
)
    ensures
        title_spec(tracker.name, depth).is_prefix_of(text_upto(tracker, shares, depth, n)),
        heading_marks(heading_level(depth)).is_prefix_of(text_upto(tracker, shares, depth, n)),
    decreases n,
{
    if n == 0 || n > tracker.subs.len() {
    } else {
        lemma_upto_starts_with_title(tracker, shares, depth, (n - 1) as nat);
    }
}

/// One row of a table.
fn make_row(first: String, second: String, third: String) -> (row: Vec<String>)
    ensures
        row.deep_view() == seq![first@, second@, third@],
{
    let mut row: Vec<String> = Vec::new();
    row.push(first);
    row.push(second);
    row.push(third);
    assert(row.deep_view() =~= seq![first@, second@, third@]);
    row
}

/// The heading of a report on the project `name` at `depth`.
pub fn heading(name: &str, depth: usize) -> (s: String)
    ensures
        s@ == title_spec(name@, depth as nat),
{
    let level: usize = if depth >= MAX_HEADING_LEVEL - 1 {
        MAX_HEADING_LEVEL
    } else {
        depth + 1
    };
    let mut s = String::from_str("");
    let mut i: usize = 0;
    proof {
        reveal_strlit("");
        reveal_strlit("#");
    }
    assert(s@ =~= heading_marks(0));
    while i < level
        invariant
            i <= level,
            s@ == heading_marks(i as nat),
            "#"@ == seq!['#'],
        decreases level - i,
    {
        s.append("#");
        i = i + 1;
        assert(s@ =~= heading_marks(i as nat));
    }
    s.append(" Time Report for ");
    s.append(name);
    s.append("\n\n");
    s
}

/// The heading of a tracker's report at `depth`.
pub fn tracker_title(tracker: &TimeTracker, depth: usize) -> (s: String)
    ensures
        s@ == title_spec(tracker@.name, depth as nat),
{
    heading(tracker.name(), depth)
}

/// The sentence on a total time that reads `total_text`.
pub fn describe_total(total_text: &str) -> (s: String)
    ensures
        s@ == description_of(total_text@),
{
    let mut s = String::from_str("The total time spent on all tasks was ");
    s.append(total_text);
    s.append(".\n");
    s
}

/// The sentence on a tracker's total time.
pub fn tracker_description(tracker: &TimeTracker) -> (s: String)
    requires
        tracker.wf(),
    ensures
        s@ == description_spec(tracker@.total_time()),
{
    let total = tracker.total_time().text(false);
    describe_total(total.as_str())
}

/// The sentence on a slowest task of the given name, for the time it took
/// and its share given as text.
pub fn describe_slowest(name: &str, took: &str, share: &str) -> (s: String)
    ensures
        s@ == slowest_sentence_of(name@, took@, share@),
{
    let mut s = String::from_str("The slowest task was `");
    s.append(name);
    s.append("` which took ");
    s.append(took);
    s.append(" (");
    s.append(share);
    s.append(" of all time).");
    s
}

/// One level of a report from its parts.
pub fn assemble_body(title: String, description: &str, slowest: &str, table: &str) -> (s: String)
    ensures
        s@ == body_of(title@, description@, slowest@, table@),
{
    let mut s = title;
    s.append(description);
    s.append(slowest);
    s.append("\n\n");
    s.append(table);
    s
}

/// For each direct task of the tracker, in the tasks' order, the two numbers
/// whose quotient, times one hundred, is its share of the tracker's total.
pub fn share_terms(tracker: &TimeTracker) -> (terms: Vec<(i64, i64)>)
    requires
        tracker.wf(),
    ensures
        terms.len() == tracker@.tasks.len(),
        forall|i: int|
            0 <= i < terms.len() ==> are_terms_of(
                #[trigger] terms[i],
                tracker@.tasks[i].time(),
                tracker@.total_time(),
            ),
{
    let total = tracker.total_time();
    let tasks = tracker.tasks();
    let mut terms: Vec<(i64, i64)> = Vec::new();
    let mut i: usize = 0;
    while i < tasks.len()
        invariant
            i <= tasks.len(),
            terms.len() == i,
            tasks.len() == tracker@.tasks.len(),
            forall|j: int| 0 <= j < tasks.len() ==> (#[trigger] tasks[j])@ == tracker@.tasks[j],
            total@ == tracker@.total_time(),
            forall|j: int|
                0 <= j < i ==> are_terms_of(
                    #[trigger] terms[j],
                    tracker@.tasks[j].time(),
                    tracker@.total_time(),
                ),
        decreases tasks.len() - i,
    {
        let pair = tasks[i].percentage_terms(total);
        terms.push(pair);
        i = i + 1;
    }
    terms
}

/// The sentence on a tracker's slowest task, if it has any task, with the
/// share that `shares` gives for that task.
pub fn tracker_slowest_description(tracker: &TimeTracker, shares: &Vec<String>) -> (r: Option<
    String,
>)
    requires
        shares.len() == tracker@.tasks.len(),
    ensures
        r is None <==> tracker@.tasks.len() == 0,
        r matches Some(s) ==> s@ == slowest_text(tracker@, text_views(shares@)),
{
    match tracker.slowest_position() {
        None => None,
        Some(i) => {
            let task = &tracker.tasks()[i];
            let took = task.time().text(true);
            Some(describe_slowest(task.name(), took.as_str(), shares[i].as_str()))
        },
    }
}

/// The table of a tracker's direct tasks, one row each, in their order, with
/// the share that `shares` gives for each.
pub fn tracker_table(tracker: &TimeTracker, shares: &Vec<String>) -> (s: String)
    requires
        shares.len() == tracker@.tasks.len(),
    ensures
        s@ == markdown_table(table_records(tracker@, text_views(shares@), tracker@.tasks.len())),
{
    let tasks = tracker.tasks();
    let mut records: Vec<Vec<String>> = Vec::new();
    records.push(
        make_row(
            String::from_str("name"),
            String::from_str("time"),
            String::from_str("percentage"),
        ),
    );
    assert(records.deep_view() =~= table_records(tracker@, text_views(shares@), 0));
    let mut i: usize = 0;
    while i < tasks.len()
        invariant
            i <= tasks.len(),
            tasks.len() == tracker@.tasks.len(),
            shares.len() == tasks.len(),
            forall|j: int| 0 <= j < tasks.len() ==> (#[trigger] tasks[j])@ == tracker@.tasks[j],
            records.deep_view() == table_records(tracker@, text_views(shares@), i as nat),
        decreases tasks.len() - i,
    {
        let task = &tasks[i];
        let row = make_row(
            String::from_str(task.name()),
            task.time().text(true),
            shares[i].clone(),
        );
        let ghost before = records.deep_view();
        records.push(row);
        assert(records.deep_view() =~= before.push(row.deep_view()));
        i = i + 1;
        assert(records.deep_view() =~= table_records(tracker@, text_views(shares@), i as nat));
    }
    render_markdown_table(records)
}

/// The report of a tracker rendered at `depth`: its heading, its total, its
/// slowest task, the table of its tasks, and then the report of each
/// sub-project one level deeper. Each task's share reads as `shares` gives it.
pub fn tracker_text(tracker: &TimeTracker, shares: &ShareTexts, depth: usize) -> (s: String)
    requires
        tracker.wf(),
        shares_fit(shares@, tracker@),
    ensures
        s@ == text_spec(tracker@, shares@, depth as nat),
    decreases tracker,
{
    proof {
        shares.lemma_view();
    }
    let title = tracker_title(tracker, depth);
    let description = tracker_description(tracker);
    let slowest = match tracker_slowest_description(tracker, &shares.tasks) {
        Some(sentence) => sentence,
        None => String::from_str(""),
    };
    let table = tracker_table(tracker, &shares.tasks);
    let mut report = assemble_body(title, description.as_str(), slowest.as_str(), table.as_str());
    let next: usize = if depth >= MAX_HEADING_LEVEL {
        MAX_HEADING_LEVEL
    } else {
        depth + 1
    };
    let subs = tracker.sub_trackers();
    let mut i: usize = 0;
    while i < subs.len()
        invariant
            i <= subs.len(),
            subs.len() == tracker@.subs.len(),
            shares_fit(shares@, tracker@),
            shares@.tasks == text_views(shares.tasks@),
            shares@.subs.len() == shares.subs.len(),
            forall|j: int|
                0 <= j < shares.subs.len() ==> (#[trigger] shares@.subs[j]) == shares.subs[j]@,
            forall|j: int| 0 <= j < subs.len() ==> (#[trigger] subs[j])@ == tracker@.subs[j],
            forall|j: int| 0 <= j < subs.len() ==> (#[trigger] subs[j]).wf(),
            forall|j: int| 0 <= j < subs.len() ==> decreases_to!(tracker => #[trigger] subs[j]),
            next == child_depth(depth as nat),
            report@ == text_upto(tracker@, shares@, depth as nat, i as nat),
        decreases subs.len() - i,
    {
        assert(shares_fit(shares@.subs[i as int], tracker@.subs[i as int]));
        report.append("\n\n");
        let sub = tracker_text(&subs[i], &shares.subs[i], next);
        report.append(sub.as_str());
        i = i + 1;
    }
    report
}

/// A tracker held for reporting.
#[derive(Debug)]
pub struct Report {
    time_tracker: TimeTracker,
}

impl View for Report {
    type V = TrackerView;

    closed spec fn view(&self) -> TrackerView {
        self.time_tracker@
    }
}

impl Report {
    /// The tracker that the report holds.
    pub closed spec fn tracker_spec(&self) -> TimeTracker {
        self.time_tracker
    }

    /// The tracker held is well formed.
    pub open spec fn wf(&self) -> bool {
        self.tracker_spec().wf() && self@ == self.tracker_spec()@
    }

    /// A report on the given tracker.
    pub fn new(time_tracker: TimeTracker) -> (report: Report)
        ensures
            report.tracker_spec() == time_tracker,
            report@ == time_tracker@,
            time_tracker.wf() ==> report.wf(),
    {
        Report { time_tracker }
    }

    /// The tracker that the report holds.
    pub fn tracker(&self) -> (tracker: &TimeTracker)
        ensures
            *tracker == self.tracker_spec(),
            tracker@ == self@,
    {
        &self.time_tracker
    }

    /// The heading of the report at `depth`.
    pub fn title(&self, depth: usize) -> (s: String)
        ensures
            s@ == title_spec(self@.name, depth as nat),
    {
        tracker_title(&self.time_tracker, depth)
    }

    /// One sentence that states the total time, roughly.
    pub fn description(&self) -> (s: String)
        requires
            self.wf(),
        ensures
            s@ == description_spec(self@.total_time()),
    {
        tracker_description(&self.time_tracker)
    }

    /// For each direct task, the two numbers whose quotient, times one
    /// hundred, is its share of the total.
    pub fn share_terms(&self) -> (terms: Vec<(i64, i64)>)
        requires
            self.wf(),
        ensures
            terms.len() == self@.tasks.len(),
            forall|i: int|
                0 <= i < terms.len() ==> are_terms_of(
                    #[trigger] terms[i],
                    self@.tasks[i].time(),
                    self@.total_time(),
                ),
    {
        share_terms(&self.time_tracker)
    }

    /// One sentence that names the slowest task, the time it took and its
    /// share of the total as `shares` gives it; nothing for no tasks.
    pub fn slowest_task_description(&self, shares: &Vec<String>) -> (r: Option<String>)
        requires
            self.wf(),
            shares.len() == self@.tasks.len(),
        ensures
            r is None <==> self@.tasks.len() == 0,
            r matches Some(s) ==> s@ == slowest_text(self@, text_views(shares@)),
    {
        tracker_slowest_description(&self.time_tracker, shares)
    }

    /// The slowest of the tracker's direct tasks.
    pub fn slowest_task(&self) -> (slowest: Option<&CompletedTask>)
        ensures
            slowest is None <==> self@.tasks.len() == 0,
            slowest matches Some(task) ==> task@ == self@.tasks[slowest_index(self@.tasks)],
    {
        self.time_tracker.slowest_task()
    }

    /// The text of the report at `depth`, each task's share as `shares`
    /// gives it.
    pub fn text(&self, shares: &ShareTexts, depth: usize) -> (s: String)
        requires
            self.wf(),
            shares_fit(shares@, self@),
        ensures
            s@ == text_spec(self@, shares@, depth as nat),
    {
        tracker_text(&self.time_tracker, shares, depth)
    }

    /// What a report file holds: the text at depth zero and a line end.
    pub fn document(&self, shares: &ShareTexts) -> (s: String)
        requires
            self.wf(),
            shares_fit(shares@, self@),
        ensures
            s@ == text_spec(self@, shares@, 0) + "\n"@,
    {
        let mut s = self.text(shares, 0);
        s.append("\n");
        s
    }
}

impl From<TimeTracker> for Report {
    fn from(time_tracker: TimeTracker) -> (report: Report) {
        Report::new(time_tracker)
    }
}

impl FromSpecImpl<TimeTracker> for Report {
    open spec fn obeys_from_spec() -> bool {
        true
    }

    closed spec fn from_spec(time_tracker: TimeTracker) -> Report {
        Report { time_tracker }
    }
}

} // verus!
