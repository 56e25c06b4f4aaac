//! Tasks: a unit of work that has started, and one that has ended.

use vstd::prelude::*;
use vstd::string::StringExecFns;
use core::cmp::Ordering;
use vstd::std_specs::cmp::PartialOrdSpec;
use crate::time::{truncated_quotient, Duration, TimeOverflow, Timestamp, MAX_TIMESTAMP_NANOS};

verus! {

/// A named unit of work that has started and not yet ended.
#[derive(Debug, Clone, PartialEq, Eq, Hash)]
pub struct Task {
    name: String,
    start: Timestamp,
}

/// What a [`CompletedTask`] stands for: a name, and two instants in
/// nanoseconds since the epoch.
pub struct CompletedTaskView {
    pub name: Seq<char>,
    pub start: int,
    pub end: int,
}

impl CompletedTaskView {
    /// Both instants are in the range of a [`Timestamp`].
    pub open spec fn wf(self) -> bool {
        &&& -MAX_TIMESTAMP_NANOS <= self.start <= MAX_TIMESTAMP_NANOS
        &&& -MAX_TIMESTAMP_NANOS <= self.end <= MAX_TIMESTAMP_NANOS
    }

    /// The time the task took: negative where it ended before it started.
    pub open spec fn time(self) -> int {
        self.end - self.start
    }

    /// The task with `span` more nanoseconds on its end.
    pub open spec fn extended_by(self, span: int) -> CompletedTaskView {
        CompletedTaskView { name: self.name, start: self.start, end: self.end + span }
    }
}

/// A named unit of work with the instants at which it started and ended.
#[derive(Debug, Clone, Eq, Hash)]
pub struct CompletedTask {
    name: String,
    start: Timestamp,
    end: Timestamp,
}

impl View for CompletedTask {
    type V = CompletedTaskView;

    closed spec fn view(&self) -> CompletedTaskView {
        CompletedTaskView { name: self.name@, start: self.start@, end: self.end@ }
    }
}

/// Whether a number fits 64 bits.
pub open spec fn fits_i64(n: int) -> bool {
    i64::MIN <= n <= i64::MAX
}

/// The two numbers whose quotient is a task's share of a total, both in the
/// finest unit in which both fit 64 bits: nanoseconds, else microseconds,
/// else milliseconds.
pub open spec fn percentage_terms_spec(time: int, total: int) -> (int, int) {
    let micros = truncated_quotient(time, 1_000);
    let total_micros = truncated_quotient(total, 1_000);
    if fits_i64(time) && fits_i64(total) {
        (time, total)
    } else if fits_i64(micros) && fits_i64(total_micros) {
        (micros, total_micros)
    } else {
        (truncated_quotient(time, 1_000_000), truncated_quotient(total, 1_000_000))
    }
}

/// How two spans compare.
pub open spec fn time_ordering(a: int, b: int) -> Ordering {
    if a < b {
        Ordering::Less
    } else if a == b {
        Ordering::Equal
    } else {
        Ordering::Greater
    }
}

impl Task {
    /// The name of the task.
    pub closed spec fn name_view(&self) -> Seq<char> {
        self.name@
    }

    /// The instant at which the task started, in nanoseconds since the epoch.
    pub closed spec fn start_view(&self) -> int {
        self.start@
    }

    /// The start is in the range of a [`Timestamp`].
    pub open spec fn wf(&self) -> bool {
        -MAX_TIMESTAMP_NANOS <= self.start_view() <= MAX_TIMESTAMP_NANOS
    }

    /// A task of the given name that starts now.
    pub fn new(name: &str) -> (task: Task)
        ensures
            task.name_view() == name@,
            task.wf(),
    {
        Task { name: String::from_str(name), start: Timestamp::now() }
    }

    /// A task of the given name that started at `start`.
    pub fn starting_at(name: &str, start: Timestamp) -> (task: Task)
        ensures
            task.name_view() == name@,
            task.start_view() == start@,
            task.wf(),
    {
        start.known_in_range();
        Task { name: String::from_str(name), start }
    }

    /// The name of the task.
    pub fn name(&self) -> (name: &str)
        ensures
            name@ == self.name_view(),
    {
        self.name.as_str()
    }

    /// The instant at which the task started.
    pub fn start(&self) -> (start: Timestamp)
        ensures
            start@ == self.start_view(),
    {
        self.start
    }

    /// Ends the task now.
    pub fn complete(self) -> (done: CompletedTask)
        ensures
            done@.name == self.name_view(),
            done@.start == self.start_view(),
            done.wf(),
    {
        self.complete_at(Timestamp::now())
    }

    /// Ends the task at `end`.
    pub fn complete_at(self, end: Timestamp) -> (done: CompletedTask)
        ensures
            done@ == (CompletedTaskView {
                name: self.name_view(),
                start: self.start_view(),
                end: end@,
            }),
            done.wf(),
    {
        self.start.known_in_range();
        end.known_in_range();
        CompletedTask { name: self.name, start: self.start, end }
    }
}

impl CompletedTask {
    /// Both instants are in range.
    pub open spec fn wf(&self) -> bool {
        self@.wf()
    }

    /// A completed task from its parts.
    pub fn new(name: &str, start: Timestamp, end: Timestamp) -> (task: CompletedTask)
        ensures
            task@ == (CompletedTaskView { name: name@, start: start@, end: end@ }),
            task.wf(),
    {
        start.known_in_range();
        end.known_in_range();
        CompletedTask { name: String::from_str(name), start, end }
    }

    /// A copy of the task.
    pub fn clone_task(&self) -> (copy: CompletedTask)
        ensures
            copy@ == self@,
    {
        CompletedTask { name: self.name.clone(), start: self.start, end: self.end }
    }

    /// The name of the task.
    pub fn name(&self) -> (name: &str)
        ensures
            name@ == self@.name,
    {
        self.name.as_str()
    }

    /// Whether the two tasks have the same name, letter for letter.
    pub fn same_name(&self, other: &CompletedTask) -> (same: bool)
        ensures
            same <==> self@.name == other@.name,
    {
        self.name == other.name
    }

    /// The instant at which the task started.
    pub fn start(&self) -> (start: Timestamp)
        ensures
            start@ == self@.start,
    {
        self.start
    }

    /// The instant at which the task ended.
    pub fn end(&self) -> (end: Timestamp)
        ensures
            end@ == self@.end,
    {
        self.end
    }

    /// The time the task took: its end less its start.
    pub fn time(&self) -> (span: Duration)
        ensures
            span@ == self@.time(),
            span.wf(),
            self.wf(),
    {
        self.start.known_in_range();
        self.end.known_in_range();
        self.end.duration_since(self.start)
    }

    /// Moves the end of the task later by `span`, or reports that the new end
    /// would leave the range of a [`Timestamp`] and changes nothing.
    pub fn extend_by(&mut self, span: Duration) -> (r: Result<(), TimeOverflow>)
        ensures
            r is Ok <==> old(self)@.extended_by(span@).wf(),
            r is Ok ==> final(self)@ == old(self)@.extended_by(span@),
            r is Err ==> final(self)@ == old(self)@,
            final(self).wf(),
    {
        self.start.known_in_range();
        self.end.known_in_range();
        match self.end.checked_add(span) {
            Some(end) => {
                self.end = end;
                Ok(())
            },
            None => Err(TimeOverflow),
        }
    }

    /// Adds the time that `other` took to the receiver: its end moves later by
    /// it, the name and the start stay. Reports an end out of range and then
    /// changes nothing.
    pub fn extend(&mut self, other: &CompletedTask) -> (r: Result<(), TimeOverflow>)
        ensures
            r is Ok <==> old(self)@.extended_by(other@.time()).wf(),
            r is Ok ==> final(self)@ == old(self)@.extended_by(other@.time()),
            r is Err ==> final(self)@ == old(self)@,
            final(self).wf(),
    {
        self.extend_by(other.time())
    }

    /// The two numbers whose quotient, times one hundred, is the receiver's
    /// share of `total`, in the finest unit that holds both.
    pub fn percentage_terms(&self, total: Duration) -> (terms: (i64, i64))
        ensures
            terms.0 == percentage_terms_spec(self@.time(), total@).0,
            terms.1 == percentage_terms_spec(self@.time(), total@).1,
    {
        let time = self.time();
        match (time.num_nanoseconds(), total.num_nanoseconds()) {
            (Some(nanos), Some(total_nanos)) => (nanos, total_nanos),
            _ => match (time.num_microseconds(), total.num_microseconds()) {
                (Some(micros), Some(total_micros)) => (micros, total_micros),
                _ => (time.num_milliseconds(), total.num_milliseconds()),
            },
        }
    }
}

/// Extending a task adds exactly the given span to the time it took, and
/// leaves its name and its start as they were.
pub proof fn lemma_extend_adds_time(task: CompletedTaskView, span: int)
    ensures
        task.extended_by(span).time() == task.time() + span,
        task.extended_by(span).start == task.start,
        task.extended_by(span).name == task.name,
{
}

/// Extending by one task and then by another is extending by the first
/// extended by the second.
pub proof fn lemma_extend_associative(
    a: CompletedTaskView,
    b: CompletedTaskView,
    c: CompletedTaskView,
)
    ensures
        a.extended_by(b.time()).extended_by(c.time()) == a.extended_by(
            b.extended_by(c.time()).time(),
        ),
{
}

/// Tasks compare as the times they took compare.
pub proof fn lemma_order_is_order_by_time(a: CompletedTask, b: CompletedTask)
    ensures
        a.partial_cmp_spec(&b) == Some(Ordering::Less) <==> a@.time() < b@.time(),
        a.partial_cmp_spec(&b) == Some(Ordering::Equal) <==> a@.time() == b@.time(),
        a.partial_cmp_spec(&b) == Some(Ordering::Greater) <==> a@.time() > b@.time(),
{
}

/// The share of a task in the time that it took itself is a quotient of two
/// equal numbers, and neither is zero unless the task took no time at all:
/// the whole is one hundred percent of itself.
pub proof fn lemma_terms_of_the_whole(time: int)
    ensures
        percentage_terms_spec(time, time).0 == percentage_terms_spec(time, time).1,
        time != 0 ==> percentage_terms_spec(time, time).0 != 0,
{
}

impl<'a> From<&'a str> for Task {
    /// A task of the given name that starts now.
    fn from(name: &'a str) -> (task: Task) {
        Task::new(name)
    }
}

impl<'a> vstd::std_specs::convert::FromSpecImpl<&'a str> for Task {
    open spec fn obeys_from_spec() -> bool {
        false
    }

    open spec fn from_spec(name: &'a str) -> Task {
        arbitrary()
    }
}

impl From<String> for Task {
    /// A task of the given name that starts now.
    fn from(name: String) -> (task: Task) {
        Task::new(name.as_str())
    }
}

impl vstd::std_specs::convert::FromSpecImpl<String> for Task {
    open spec fn obeys_from_spec() -> bool {
        false
    }

    open spec fn from_spec(name: String) -> Task {
        arbitrary()
    }
}

impl From<Task> for CompletedTask {
    /// The task, ended now.
    fn from(task: Task) -> (done: CompletedTask) {
        task.complete()
    }
}

impl vstd::std_specs::convert::FromSpecImpl<Task> for CompletedTask {
    open spec fn obeys_from_spec() -> bool {
        false
    }

    open spec fn from_spec(task: Task) -> CompletedTask {
        arbitrary()
    }
}

impl PartialEq for CompletedTask {
    fn eq(&self, other: &CompletedTask) -> (r: bool) {
        self.name == other.name && self.start.nanos() == other.start.nanos() && self.end.nanos()
            == other.end.nanos()
    }
}

impl vstd::std_specs::cmp::PartialEqSpecImpl for CompletedTask {
    open spec fn obeys_eq_spec() -> bool {
        true
    }

    open spec fn eq_spec(&self, other: &CompletedTask) -> bool {
        self@ == other@
    }
}

impl PartialOrd for CompletedTask {
    fn partial_cmp(&self, other: &CompletedTask) -> (r: Option<Ordering>) {
        let mine: i128 = self.time().nanos();
        let theirs: i128 = other.time().nanos();
        if mine < theirs {
            Some(Ordering::Less)
        } else if mine == theirs {
            Some(Ordering::Equal)
        } else {
            Some(Ordering::Greater)
        }
    }
}

impl vstd::std_specs::cmp::PartialOrdSpecImpl for CompletedTask {
    open spec fn obeys_partial_cmp_spec() -> bool {
        true
    }

    open spec fn partial_cmp_spec(&self, other: &CompletedTask) -> Option<Ordering> {
        Some(time_ordering(self@.time(), other@.time()))
    }
}

} // verus!
