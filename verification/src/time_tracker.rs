//! Trackers: a project's ledger of completed tasks and sub-projects.

use vstd::prelude::*;
use vstd::string::StringExecFns;
use crate::task::{CompletedTask, CompletedTaskView, Task};
use crate::time::{
    Duration, TimeOverflow, Timestamp, MAX_DURATION_NANOS, MAX_TIMESTAMP_NANOS,
};

verus! {

/// What a [`TimeTracker`] stands for: a name, a start in nanoseconds since
/// the epoch, its tasks in the order they came, and its sub-projects.
pub struct TrackerView {
    pub name: Seq<char>,
    pub start: int,
    pub tasks: Seq<CompletedTaskView>,
    pub subs: Seq<TrackerView>,
}

/// The sum of the times that the tasks took.
pub open spec fn total_of(tasks: Seq<CompletedTaskView>) -> int
    decreases tasks.len(),
{
    if tasks.len() == 0 {
        0
    } else {
        total_of(tasks.drop_last()) + tasks.last().time()
    }
}

/// The place of the task that took longest; of those that took equally long,
/// the last. Zero for no tasks.
pub open spec fn slowest_index(tasks: Seq<CompletedTaskView>) -> int
    decreases tasks.len(),
{
    if tasks.len() <= 1 {
        0
    } else {
        let before = slowest_index(tasks.drop_last());
        if tasks.last().time() >= tasks[before].time() {
            tasks.len() - 1
        } else {
            before
        }
    }
}

/// The place of the first task of the given name; the number of tasks where
/// there is none.
pub open spec fn first_named(tasks: Seq<CompletedTaskView>, name: Seq<char>) -> int
    decreases tasks.len(),
{
    if tasks.len() == 0 {
        0
    } else {
        let before = first_named(tasks.drop_last(), name);
        if before < tasks.len() - 1 {
            before
        } else if tasks.last().name == name {
            tasks.len() - 1
        } else {
            tasks.len() as int
        }
    }
}

/// Whether the total of the first `k` tasks is in range for every `k`.
pub open spec fn running_totals_in_range(tasks: Seq<CompletedTaskView>) -> bool {
    forall|k: int| 0 <= k <= tasks.len() ==> total_in_range(#[trigger] total_of(tasks.take(k)))
}

/// What the tasks in a vector stand for, in their order.
pub open spec fn task_views(tasks: Seq<CompletedTask>) -> Seq<CompletedTaskView> {
    Seq::new(tasks.len(), |i: int| tasks[i]@)
}

/// What the trackers in a vector stand for, in their order.
pub open spec fn tracker_views(trackers: Seq<TimeTracker>) -> Seq<TrackerView> {
    Seq::new(trackers.len(), |i: int| trackers[i]@)
}

/// The task of the given name that started at `start` and ended at `end`.
pub open spec fn finished_at(name: Seq<char>, start: int, end: int) -> CompletedTaskView {
    CompletedTaskView { name, start, end }
}

/// Whether a total stays in range whatever time one more task took: no task
/// takes longer than the whole range of instants, forth or back.
pub open spec fn room_for_any_task(total: int) -> bool {
    &&& total_in_range(total - 2 * MAX_TIMESTAMP_NANOS)
    &&& total_in_range(total + 2 * MAX_TIMESTAMP_NANOS)
}

/// Whether a sum of times is in the range of a [`Duration`].
pub open spec fn total_in_range(total: int) -> bool {
    -MAX_DURATION_NANOS <= total <= MAX_DURATION_NANOS
}

impl TrackerView {
    /// The time spent on the direct tasks. Sub-projects count through the
    /// task that absorbing them adds, not by descent.
    pub open spec fn total_time(self) -> int {
        total_of(self.tasks)
    }

    /// Every instant is in range, at every level, and so is every total.
    pub open spec fn wf(self) -> bool
        decreases self,
    {
        &&& -MAX_TIMESTAMP_NANOS <= self.start <= MAX_TIMESTAMP_NANOS
        &&& forall|i: int| 0 <= i < self.tasks.len() ==> (#[trigger] self.tasks[i]).wf()
        &&& total_in_range(self.total_time())
        &&& forall|i: int| 0 <= i < self.subs.len() ==> (#[trigger] self.subs[i]).wf()
    }

    /// The task that stands for the whole tracker: its name, its start, and
    /// an end later than the start by its total time.
    pub open spec fn as_task(self) -> CompletedTaskView {
        CompletedTaskView {
            name: self.name,
            start: self.start,
            end: self.start + self.total_time(),
        }
    }

    /// The tracker with one more task at the end.
    pub open spec fn with_task(self, task: CompletedTaskView) -> TrackerView {
        TrackerView { tasks: self.tasks.push(task), ..self }
    }

    /// Whether extending the task at `i` by `span` keeps it and the total in range.
    pub open spec fn can_extend_task(self, i: int, span: int) -> bool {
        self.tasks[i].extended_by(span).wf() && total_in_range(self.total_time() + span)
    }

    /// The tracker with the task at `i` extended by `span`.
    pub open spec fn with_extended_task(self, i: int, span: int) -> TrackerView {
        TrackerView { tasks: self.tasks.update(i, self.tasks[i].extended_by(span)), ..self }
    }

    /// Whether a finished task can be merged in with everything still in range.
    pub open spec fn can_merge(self, task: CompletedTaskView) -> bool {
        let i = first_named(self.tasks, task.name);
        if i < self.tasks.len() {
            self.can_extend_task(i, task.time())
        } else {
            total_in_range(self.total_time() + task.time())
        }
    }

    /// The tracker after a finished task is merged in: the first task of the
    /// same name is extended by the time it took; without one, the task is
    /// added at the end.
    pub open spec fn merged(self, task: CompletedTaskView) -> TrackerView {
        let i = first_named(self.tasks, task.name);
        if i < self.tasks.len() {
            self.with_extended_task(i, task.time())
        } else {
            self.with_task(task)
        }
    }

    /// Whether `other` can be absorbed with everything still in range.
    pub open spec fn can_absorb(self, other: TrackerView) -> bool {
        other.as_task().wf() && total_in_range(self.total_time() + other.total_time())
    }

    /// The tracker after it absorbs `other`: one more task, which stands for
    /// `other`, and one more sub-project, `other` itself.
    pub open spec fn absorbed(self, other: TrackerView) -> TrackerView {
        TrackerView {
            tasks: self.tasks.push(other.as_task()),
            subs: self.subs.push(other),
            ..self
        }
    }
}

/// A named project: its completed tasks, its sub-projects and its start.
#[derive(Debug)]
pub struct TimeTracker {
    name: String,
    tasks: Vec<CompletedTask>,
    sub_trackers: Vec<TimeTracker>,
    start: Timestamp,
    /// The sum of the tasks' times, kept in step with `tasks`.
    total: Duration,
}

impl View for TimeTracker {
    type V = TrackerView;

    closed spec fn view(&self) -> TrackerView
        decreases self, 1nat, 0nat,
    {
        TrackerView {
            name: self.name@,
            start: self.start@,
            tasks: Seq::new(self.tasks.len() as nat, |i: int| self.tasks[i]@),
            subs: self.sub_views(self.sub_trackers.len() as nat),
        }
    }
}

impl Clone for TimeTracker {
    /// A deep copy: the tasks and the sub-projects are copied, level by level.
    fn clone(&self) -> (copy: TimeTracker)
        ensures
            copy@ == self@,
            self.wf() ==> copy.wf(),
        decreases self,
    {
        let mut tasks: Vec<CompletedTask> = Vec::new();
        let mut i: usize = 0;
        while i < self.tasks.len()
            invariant
                i <= self.tasks.len(),
                tasks.len() == i,
                forall|j: int| 0 <= j < i ==> (#[trigger] tasks[j])@ == self.tasks[j]@,
            decreases self.tasks.len() - i,
        {
            tasks.push(self.tasks[i].clone_task());
            i = i + 1;
        }
        let mut sub_trackers: Vec<TimeTracker> = Vec::new();
        let mut k: usize = 0;
        while k < self.sub_trackers.len()
            invariant
                k <= self.sub_trackers.len(),
                sub_trackers.len() == k,
                forall|j: int| 0 <= j < k ==> (#[trigger] sub_trackers[j])@ == self.sub_trackers[j]@,
                forall|j: int|
                    0 <= j < k && self.sub_trackers[j].wf() ==> (#[trigger] sub_trackers[j]).wf(),
            decreases self.sub_trackers.len() - k,
        {
            let sub = self.sub_trackers[k].clone();
            sub_trackers.push(sub);
            k = k + 1;
        }
        let copy = TimeTracker {
            name: self.name.clone(),
            tasks,
            sub_trackers,
            start: self.start,
            total: self.total,
        };
        proof {
            self.lemma_subs();
            copy.lemma_subs();
            assert(copy@.tasks =~= self@.tasks);
            assert(copy@.subs =~= self@.subs);
        }
        copy
    }
}

/// Adding a task at the end adds the time it took to the total.
pub proof fn lemma_total_push(tasks: Seq<CompletedTaskView>, task: CompletedTaskView)
    ensures
        total_of(tasks.push(task)) == total_of(tasks) + task.time(),
{
    assert(tasks.push(task).drop_last() =~= tasks);
}

/// Extending one task by a span adds that span to the total.
pub proof fn lemma_total_extend(tasks: Seq<CompletedTaskView>, i: int, span: int)
    requires
        0 <= i < tasks.len(),
    ensures
        total_of(tasks.update(i, tasks[i].extended_by(span))) == total_of(tasks) + span,
    decreases tasks.len(),
{
    let after = tasks.update(i, tasks[i].extended_by(span));
    if i == tasks.len() - 1 {
        assert(after.drop_last() =~= tasks.drop_last());
    } else {
        lemma_total_extend(tasks.drop_last(), i, span);
        assert(after.drop_last() =~= tasks.drop_last().update(
            i,
            tasks.drop_last()[i].extended_by(span),
        ));
    }
}

/// The first task of a name is at `i` when the task there has the name and
/// none before it has; it is nowhere when no task has the name.
pub proof fn lemma_first_named(tasks: Seq<CompletedTaskView>, name: Seq<char>, i: int)
    requires
        0 <= i <= tasks.len(),
        forall|j: int| 0 <= j < i ==> (#[trigger] tasks[j]).name != name,
        i < tasks.len() ==> tasks[i].name == name,
    ensures
        first_named(tasks, name) == i,
    decreases tasks.len(),
{
    if tasks.len() > 0 {
        let front = tasks.drop_last();
        if i < tasks.len() - 1 {
            lemma_first_named(front, name, i);
        } else {
            lemma_first_named(front, name, tasks.len() - 1);
        }
    }
}

/// The slowest task is in the list, none took longer, and every task after
/// it took less.
pub proof fn lemma_slowest_index(tasks: Seq<CompletedTaskView>)
    requires
        tasks.len() > 0,
    ensures
        0 <= slowest_index(tasks) < tasks.len(),
        forall|j: int|
            0 <= j < tasks.len() ==> (#[trigger] tasks[j]).time() <= tasks[slowest_index(
                tasks,
            )].time(),
        forall|j: int|
            slowest_index(tasks) < j < tasks.len() ==> (#[trigger] tasks[j]).time()
                < tasks[slowest_index(tasks)].time(),
    decreases tasks.len(),
{
    if tasks.len() > 1 {
        let front = tasks.drop_last();
        lemma_slowest_index(front);
        assert(forall|j: int| 0 <= j < front.len() ==> front[j] == tasks[j]);
    }
}

/// No tasks took no time, and two tasks took the sum of their times.
pub proof fn lemma_total_of_none_and_two(a: CompletedTaskView, b: CompletedTaskView)
    ensures
        total_of(Seq::empty()) == 0,
        total_of(seq![a]) == a.time(),
        total_of(seq![a, b]) == a.time() + b.time(),
{
    let none = Seq::<CompletedTaskView>::empty();
    lemma_total_push(none, a);
    assert(none.push(a) =~= seq![a]);
    lemma_total_push(seq![a], b);
    assert(seq![a].push(b) =~= seq![a, b]);
}

/// Merging two tasks of one name into a tracker without tasks leaves one
/// task, which took as long as both together and started with the first.
/// Merging two tasks of different names leaves both, the first before the
/// second.
pub proof fn lemma_merge_two(tracker: TrackerView, a: CompletedTaskView, b: CompletedTaskView)
    requires
        tracker.tasks.len() == 0,
    ensures
        a.name == b.name ==> tracker.merged(a).merged(b).tasks == seq![a.extended_by(b.time())],
        a.name == b.name ==> tracker.merged(a).merged(b).total_time() == a.time() + b.time(),
        a.name != b.name ==> tracker.merged(a).merged(b).tasks == seq![a, b],
{
    lemma_first_named(tracker.tasks, a.name, 0);
    let one = tracker.merged(a);
    assert(one.tasks =~= seq![a]);
    if a.name == b.name {
        lemma_first_named(one.tasks, b.name, 0);
        assert(one.merged(b).tasks =~= seq![a.extended_by(b.time())]);
        lemma_total_of_none_and_two(a.extended_by(b.time()), b);
    } else {
        lemma_first_named(one.tasks, b.name, 1);
        assert(one.merged(b).tasks =~= seq![a, b]);
    }
}

/// A merge never changes the number of tasks by more than one, and it adds
/// the time the merged task took to the total.
pub proof fn lemma_merge_total(tracker: TrackerView, task: CompletedTaskView)
    ensures
        tracker.merged(task).total_time() == tracker.total_time() + task.time(),
        tracker.tasks.len() <= tracker.merged(task).tasks.len() <= tracker.tasks.len() + 1,
        tracker.merged(task).subs == tracker.subs,
{
    lemma_first_named_in_bounds(tracker.tasks, task.name);
    let i = first_named(tracker.tasks, task.name);
    if i < tracker.tasks.len() {
        lemma_total_extend(tracker.tasks, i, task.time());
    } else {
        lemma_total_push(tracker.tasks, task);
    }
}

/// The first task of a name is at a place in the list, or nowhere.
pub proof fn lemma_first_named_in_bounds(tasks: Seq<CompletedTaskView>, name: Seq<char>)
    ensures
        0 <= first_named(tasks, name) <= tasks.len(),
        first_named(tasks, name) < tasks.len() ==> tasks[first_named(tasks, name)].name == name,
        forall|j: int| 0 <= j < first_named(tasks, name) ==> (#[trigger] tasks[j]).name != name,
    decreases tasks.len(),
{
    if tasks.len() > 0 {
        let front = tasks.drop_last();
        lemma_first_named_in_bounds(front, name);
        assert(forall|j: int| 0 <= j < front.len() ==> front[j] == tasks[j]);
    }
}

/// Absorbing a tracker adds exactly one task and exactly one sub-project,
/// whatever the absorbed tracker holds, and adds its total to the total.
pub proof fn lemma_absorb_adds_one_of_each(tracker: TrackerView, other: TrackerView)
    ensures
        tracker.absorbed(other).tasks.len() == tracker.tasks.len() + 1,
        tracker.absorbed(other).subs.len() == tracker.subs.len() + 1,
        tracker.absorbed(other).tasks.last() == other.as_task(),
        tracker.absorbed(other).subs.last() == other,
        tracker.absorbed(other).total_time() == tracker.total_time() + other.total_time(),
{
    lemma_total_push(tracker.tasks, other.as_task());
}

impl TimeTracker {
    /// What the first `n` sub-projects stand for.
    spec fn sub_views(&self, n: nat) -> Seq<TrackerView>
        decreases self, 0nat, n,
    {
        if n == 0 || n > self.sub_trackers.len() {
            Seq::empty()
        } else {
            self.sub_views((n - 1) as nat).push(self.sub_trackers[n - 1]@)
        }
    }

    proof fn lemma_sub_views(&self, n: nat)
        requires
            n <= self.sub_trackers.len(),
        ensures
            self.sub_views(n).len() == n,
            forall|i: int|
                0 <= i < n ==> (#[trigger] self.sub_views(n)[i]) == self.sub_trackers[i]@,
        decreases n,
    {
        if n > 0 {
            self.lemma_sub_views((n - 1) as nat);
            assert(self.sub_views(n) == self.sub_views((n - 1) as nat).push(
                self.sub_trackers[n - 1]@,
            ));
        } else {
            assert(self.sub_views(n) == Seq::<TrackerView>::empty());
        }
    }

    /// The view holds the views of the sub-projects, in their order.
    proof fn lemma_subs(&self)
        ensures
            self@.subs.len() == self.sub_trackers.len(),
            forall|i: int|
                0 <= i < self.sub_trackers.len() ==> (#[trigger] self@.subs[i])
                    == self.sub_trackers[i]@,
    {
        self.lemma_sub_views(self.sub_trackers.len() as nat);
        assert(self@.subs == self.sub_views(self.sub_trackers.len() as nat));
    }

    /// The same sub-projects stand for the same.
    proof fn lemma_subs_kept(&self, before: &TimeTracker)
        requires
            self.sub_trackers == before.sub_trackers,
        ensures
            self@.subs == before@.subs,
    {
        self.lemma_subs();
        before.lemma_subs();
        assert(self@.subs =~= before@.subs);
    }

    /// The view is well formed at every level, and each level's running
    /// total is the sum of its tasks' times.
    pub closed spec fn wf(&self) -> bool
        decreases self,
    {
        &&& self@.wf()
        &&& self.total@ == self@.total_time()
        &&& forall|i: int|
            0 <= i < self.sub_trackers.len() ==> (#[trigger] self.sub_trackers[i]).wf()
    }

    /// An empty tracker of the given name that starts now.
    pub fn new(name: &str) -> (tracker: TimeTracker)
        ensures
            tracker@.name == name@,
            tracker@.tasks.len() == 0,
            tracker@.subs.len() == 0,
            tracker.wf(),
    {
        TimeTracker::starting_at(name, Timestamp::now())
    }

    /// An empty tracker of the given name that started at `start`.
    pub fn starting_at(name: &str, start: Timestamp) -> (tracker: TimeTracker)
        ensures
            tracker@ == (TrackerView {
                name: name@,
                start: start@,
                tasks: Seq::empty(),
                subs: Seq::empty(),
            }),
            tracker.wf(),
    {
        start.known_in_range();
        let tracker = TimeTracker {
            name: String::from_str(name),
            tasks: Vec::new(),
            sub_trackers: Vec::new(),
            start,
            total: Duration::zero(),
        };
        assert(tracker@.tasks =~= Seq::empty());
        tracker
    }

    /// A tracker put together from its parts, the tasks and the
    /// sub-projects in the given order. Nothing is added for a sub-project.
    /// Reports a running total of the tasks' times that leaves its range.
    pub fn from_parts(
        name: &str,
        start: Timestamp,
        tasks: Vec<CompletedTask>,
        sub_trackers: Vec<TimeTracker>,
    ) -> (r: Result<TimeTracker, TimeOverflow>)
        requires
            forall|i: int| 0 <= i < sub_trackers.len() ==> (#[trigger] sub_trackers[i]).wf(),
        ensures
            r is Ok <==> running_totals_in_range(task_views(tasks@)),
            r matches Ok(tracker) ==> tracker.wf() && tracker@ == (TrackerView {
                name: name@,
                start: start@,
                tasks: task_views(tasks@),
                subs: tracker_views(sub_trackers@),
            }),
    {
        start.known_in_range();
        let ghost views = task_views(tasks@);
        let mut total = Duration::zero();
        let mut i: usize = 0;
        assert(views.take(0) =~= Seq::empty());
        while i < tasks.len()
            invariant
                i <= tasks.len(),
                views == task_views(tasks@),
                total@ == total_of(views.take(i as int)),
                forall|k: int| 0 <= k <= i ==> total_in_range(#[trigger] total_of(views.take(k))),
                forall|j: int| 0 <= j < i ==> (#[trigger] views[j]).wf(),
            decreases tasks.len() - i,
        {
            let time = tasks[i].time();
            proof {
                assert(views.take(i as int + 1).drop_last() =~= views.take(i as int));
                assert(views.take(i as int + 1).last() == tasks[i as int]@);
            }
            match total.checked_add(time) {
                Some(sum) => {
                    total = sum;
                },
                None => {
                    assert(!total_in_range(total_of(views.take(i as int + 1))));
                    return Err(TimeOverflow);
                },
            }
            i = i + 1;
        }
        assert(views.take(i as int) =~= views);
        let tracker = TimeTracker { name: String::from_str(name), tasks, sub_trackers, start, total };
        proof {
            tracker.lemma_subs();
            assert(tracker@.tasks =~= views);
            assert(tracker@.subs =~= tracker_views(sub_trackers@));
            assert forall|j: int| 0 <= j < tracker@.subs.len() implies (#[trigger] tracker@.subs[j]).wf() by {
                assert(sub_trackers[j].wf());
            }
        }
        Ok(tracker)
    }

    /// The name of the project.
    pub fn name(&self) -> (name: &str)
        ensures
            name@ == self@.name,
    {
        self.name.as_str()
    }

    /// The instant at which the project started.
    pub fn start(&self) -> (start: Timestamp)
        ensures
            start@ == self@.start,
    {
        self.start
    }

    /// The tasks, in the order in which they were first added.
    pub fn tasks(&self) -> (tasks: &Vec<CompletedTask>)
        ensures
            tasks.len() == self@.tasks.len(),
            forall|i: int| 0 <= i < tasks.len() ==> (#[trigger] tasks[i])@ == self@.tasks[i],
    {
        &self.tasks
    }

    /// The sub-projects, in the order in which they were absorbed.
    pub fn sub_trackers(&self) -> (subs: &Vec<TimeTracker>)
        ensures
            subs.len() == self@.subs.len(),
            forall|i: int| 0 <= i < subs.len() ==> (#[trigger] subs[i])@ == self@.subs[i],
            forall|i: int| 0 <= i < subs.len() && self.wf() ==> (#[trigger] subs[i]).wf(),
            forall|i: int| 0 <= i < subs.len() ==> decreases_to!(self => #[trigger] subs[i]),
    {
        proof {
            self.lemma_subs();
        }
        &self.sub_trackers
    }

    /// The total time spent on the direct tasks.
    pub fn total_time(&self) -> (total: Duration)
        requires
            self.wf(),
        ensures
            total@ == self@.total_time(),
    {
        self.total
    }

    /// The place of the task that took longest, if there is any task; of
    /// several that took equally long, the last.
    pub fn slowest_position(&self) -> (slowest: Option<usize>)
        ensures
            slowest is None <==> self@.tasks.len() == 0,
            slowest matches Some(i) ==> i == slowest_index(self@.tasks) && i < self@.tasks.len(),
    {
        if self.tasks.len() == 0 {
            return None;
        }
        let mut best: usize = 0;
        let mut best_time: i128 = self.tasks[0].time().nanos();
        let mut i: usize = 1;
        assert(self@.tasks.take(1).len() == 1);
        while i < self.tasks.len()
            invariant
                1 <= i <= self.tasks.len(),
                0 <= best < i,
                best == slowest_index(self@.tasks.take(i as int)),
                best_time == self@.tasks[best as int].time(),
            decreases self.tasks.len() - i,
        {
            let time: i128 = self.tasks[i].time().nanos();
            proof {
                let upto = self@.tasks.take(i as int + 1);
                assert(upto.drop_last() =~= self@.tasks.take(i as int));
                assert(upto.last() == self@.tasks[i as int]);
                assert(upto[best as int] == self@.tasks[best as int]);
            }
            if time >= best_time {
                best = i;
                best_time = time;
            }
            i = i + 1;
        }
        assert(self@.tasks.take(i as int) =~= self@.tasks);
        Some(best)
    }

    /// The task that took longest, if there is any task; of several that took
    /// equally long, the last.
    pub fn slowest_task(&self) -> (slowest: Option<&CompletedTask>)
        ensures
            slowest is None <==> self@.tasks.len() == 0,
            slowest matches Some(task) ==> task@ == self@.tasks[slowest_index(self@.tasks)],
    {
        match self.slowest_position() {
            Some(i) => Some(&self.tasks[i]),
            None => None,
        }
    }

    /// The task that stands for this tracker when another absorbs it, if its
    /// end is in range.
    pub fn as_completed_task(&self) -> (r: Option<CompletedTask>)
        requires
            self.wf(),
        ensures
            r is Some <==> self@.as_task().wf(),
            r matches Some(task) ==> task@ == self@.as_task(),
    {
        self.start.known_in_range();
        match self.start.checked_add(self.total) {
            Some(end) => Some(CompletedTask::new(self.name.as_str(), self.start, end)),
            None => None,
        }
    }

    /// Adds a finished task at the end, or reports that the total would
    /// leave its range and changes nothing.
    pub fn push_completed(&mut self, task: CompletedTask) -> (r: Result<(), TimeOverflow>)
        requires
            old(self).wf(),
        ensures
            r is Ok <==> total_in_range(old(self)@.total_time() + task@.time()),
            r is Ok ==> final(self)@ == old(self)@.with_task(task@),
            r is Err ==> final(self)@ == old(self)@,
            final(self).wf(),
    {
        let time = task.time();
        match self.total.checked_add(time) {
            Some(total) => {
                proof {
                    lemma_total_push(self@.tasks, task@);
                }
                self.tasks.push(task);
                self.total = total;
                proof {
                    self.lemma_subs_kept(old(self));
                }
                assert(self@.tasks =~= old(self)@.tasks.push(task@));
                Ok(())
            },
            None => Err(TimeOverflow),
        }
    }

    /// Merges a finished task in: the first task of the same name, if there
    /// is one, is extended by the time it took, else the task is added at the
    /// end. Reports an end or a total out of range and then changes nothing.
    #[verifier::loop_isolation(false)]
    pub fn merge_completed(&mut self, task: CompletedTask) -> (r: Result<(), TimeOverflow>)
        requires
            old(self).wf(),
        ensures
            r is Ok <==> old(self)@.can_merge(task@),
            r is Ok ==> final(self)@ == old(self)@.merged(task@),
            r is Err ==> final(self)@ == old(self)@,
            final(self).wf(),
    {
        let time = task.time();
        let mut i: usize = 0;
        while i < self.tasks.len()
            invariant
                0 <= i <= self.tasks.len(),
                *self == *old(self),
                forall|j: int| 0 <= j < i ==> (#[trigger] self@.tasks[j]).name != task@.name,
            decreases self.tasks.len() - i,
        {
            let same = self.tasks[i].same_name(&task);
            assert(self@.tasks[i as int] == self.tasks[i as int]@);
            if same {
                proof {
                    lemma_first_named(self@.tasks, task@.name, i as int);
                    lemma_total_extend(self@.tasks, i as int, time@);
                }
                let total = match self.total.checked_add(time) {
                    Some(total) => total,
                    None => {
                        return Err(TimeOverflow);
                    },
                };
                let mut extended = self.tasks[i].clone_task();
                match extended.extend_by(time) {
                    Ok(()) => {},
                    Err(e) => {
                        return Err(e);
                    },
                }
                self.tasks.set(i, extended);
                self.total = total;
                assert(self@.tasks =~= old(self)@.tasks.update(
                    i as int,
                    old(self)@.tasks[i as int].extended_by(time@),
                ));
                proof {
                    self.lemma_subs_kept(old(self));
                }
                return Ok(());
            }
            i = i + 1;
        }
        proof {
            lemma_first_named(self@.tasks, task@.name, i as int);
        }
        self.push_completed(task)
    }

    /// Ends `task` now and adds it at the end. Whatever instant the clock
    /// gives as the end, the outcome is that of adding the task so finished:
    /// it is added exactly when the total stays in range, and else nothing
    /// changes. A total with room for the longest time a task can take is
    /// enough for the task to be added.
    pub fn add_completed_task(&mut self, task: Task) -> (r: Result<(), TimeOverflow>)
        requires
            old(self).wf(),
        ensures
            exists|end: int|
                {
                    let done = #[trigger] finished_at(task.name_view(), task.start_view(), end);
                    &&& done.wf()
                    &&& r is Ok <==> total_in_range(old(self)@.total_time() + done.time())
                    &&& r is Ok ==> final(self)@ == old(self)@.with_task(done)
                },
            room_for_any_task(old(self)@.total_time()) ==> r is Ok,
            r is Err ==> final(self)@ == old(self)@,
            final(self).wf(),
    {
        let done = task.complete();
        assert(done@ == finished_at(task.name_view(), task.start_view(), done@.end));
        self.push_completed(done)
    }

    /// Ends `task` now and merges it in by its name. Whatever instant the
    /// clock gives as the end, the outcome is that of merging the task so
    /// finished: it is merged exactly when the merge keeps everything in
    /// range, and else nothing changes. Where no task has the name yet, a
    /// total with room for the longest time a task can take is enough for
    /// the task to be added.
    pub fn add_or_extend_completed_task(&mut self, task: Task) -> (r: Result<(), TimeOverflow>)
        requires
            old(self).wf(),
        ensures
            exists|end: int|
                {
                    let done = #[trigger] finished_at(task.name_view(), task.start_view(), end);
                    &&& done.wf()
                    &&& r is Ok <==> old(self)@.can_merge(done)
                    &&& r is Ok ==> final(self)@ == old(self)@.merged(done)
                },
            first_named(old(self)@.tasks, task.name_view()) == old(self)@.tasks.len()
                && room_for_any_task(old(self)@.total_time()) ==> r is Ok,
            (forall|end: int|
                finished_at(task.name_view(), task.start_view(), end).wf() ==> old(
                    self,
                )@.can_merge(#[trigger] finished_at(task.name_view(), task.start_view(), end)))
                ==> r is Ok,
            r is Err ==> final(self)@ == old(self)@,
            final(self).wf(),
    {
        let done = task.complete();
        assert(done@ == finished_at(task.name_view(), task.start_view(), done@.end));
        self.merge_completed(done)
    }

    /// Absorbs `other`: adds the task that stands for it to the tasks, and
    /// `other` itself to the sub-projects. Reports an end or a total out of
    /// range and then changes nothing.
    pub fn extend(&mut self, other: TimeTracker) -> (r: Result<(), TimeOverflow>)
        requires
            old(self).wf(),
            other.wf(),
        ensures
            r is Ok <==> old(self)@.can_absorb(other@),
            r is Ok ==> final(self)@ == old(self)@.absorbed(other@),
            r is Err ==> final(self)@ == old(self)@,
            final(self).wf(),
    {
        let task = match other.as_completed_task() {
            Some(task) => task,
            None => {
                return Err(TimeOverflow);
            },
        };
        match self.push_completed(task) {
            Ok(()) => {},
            Err(e) => {
                return Err(e);
            },
        }
        let ghost before = *self;
        self.sub_trackers.push(other);
        proof {
            before.lemma_subs();
            self.lemma_subs();
        }
        assert(self@.tasks =~= before@.tasks);
        assert(self@.subs =~= before@.subs.push(other@));
        Ok(())
    }
}

} // verus!
