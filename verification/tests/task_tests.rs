use std::cmp::Ordering;

use time_requirements::task::{CompletedTask, Task};
use time_requirements::time::{
    Duration, TimeOverflow, Timestamp, MAX_DURATION_NANOS, MAX_TIMESTAMP_NANOS,
};

fn at(millis: i32) -> Timestamp {
    Timestamp::from_millis(millis)
}

fn done(name: &str, start: i32, end: i32) -> CompletedTask {
    CompletedTask::new(name, at(start), at(end))
}

#[test]
fn time_is_end_less_start() {
    assert_eq!(done("a", 100, 150).time().nanos(), 50_000_000);
    assert_eq!(done("a", 0, 0).time().nanos(), 0);
    assert_eq!(done("a", 150, 100).time().nanos(), -50_000_000);
    assert_eq!(done("a", -20, 30).time().num_milliseconds(), 50);
}

#[test]
fn tasks_order_by_the_time_they_took() {
    let short = done("z", 1_000, 1_010);
    let long = done("a", 0, 100);
    let other_short = done("y", 500, 510);
    assert!(short < long);
    assert!(long > short);
    assert_eq!(short.partial_cmp(&long), Some(Ordering::Less));
    assert_eq!(long.partial_cmp(&short), Some(Ordering::Greater));
    assert_eq!(short.partial_cmp(&other_short), Some(Ordering::Equal));
    assert!(short <= other_short && short >= other_short);
}

#[test]
fn tasks_are_equal_by_name_start_and_end() {
    assert_eq!(done("a", 0, 10), done("a", 0, 10));
    assert_ne!(done("a", 0, 10), done("b", 0, 10));
    assert_ne!(done("a", 0, 10), done("a", 1, 10));
    assert_ne!(done("a", 0, 10), done("a", 0, 11));
    assert_ne!(done("a", 0, 10), done("a", 5, 15));
}

#[test]
fn extend_adds_the_other_time_and_keeps_the_start() {
    let mut first = done("first", 100, 110);
    let second = done("second", 500, 530);
    assert_eq!(first.extend(&second), Ok(()));
    assert_eq!(first.time().num_milliseconds(), 40);
    assert_eq!(first.start(), at(100));
    assert_eq!(first.end(), at(140));
    assert_eq!(first.name(), "first");
}

#[test]
fn extend_by_a_negative_time_moves_the_end_back() {
    let mut first = done("first", 100, 110);
    let backwards = done("second", 530, 500);
    assert_eq!(first.extend(&backwards), Ok(()));
    assert_eq!(first.end(), at(80));
    assert_eq!(first.time().num_milliseconds(), -20);
}

#[test]
fn chained_extends_group_either_way() {
    let a = done("a", 0, 7);
    let b = done("b", 10, 21);
    let c = done("c", 30, 43);

    let mut left = a.clone();
    left.extend(&b).unwrap();
    left.extend(&c).unwrap();

    let mut inner = b.clone();
    inner.extend(&c).unwrap();
    let mut right = a.clone();
    right.extend(&inner).unwrap();

    assert_eq!(left.time(), right.time());
    assert_eq!(left.time().num_milliseconds(), 31);
    assert_eq!(left.start(), at(0));
    assert_eq!(right.start(), at(0));
}

#[test]
fn extend_reports_an_end_out_of_range() {
    let last = Timestamp::from_nanos(MAX_TIMESTAMP_NANOS).unwrap();
    let mut task = CompletedTask::new("late", at(0), last);
    let before = task.clone();
    assert_eq!(task.extend(&done("one", 0, 1)), Err(TimeOverflow));
    assert_eq!(task, before);
    assert_eq!(task.extend_by(Duration::from_nanos(1).unwrap()), Err(TimeOverflow));
    assert_eq!(task.extend_by(Duration::from_nanos(-1).unwrap()), Ok(()));
    assert_eq!(task.end().nanos(), MAX_TIMESTAMP_NANOS - 1);
}

#[test]
fn timestamps_and_durations_keep_their_ranges() {
    assert!(Timestamp::from_nanos(MAX_TIMESTAMP_NANOS).is_some());
    assert!(Timestamp::from_nanos(MAX_TIMESTAMP_NANOS + 1).is_none());
    assert!(Timestamp::from_nanos(-MAX_TIMESTAMP_NANOS - 1).is_none());
    assert!(Duration::from_nanos(MAX_DURATION_NANOS).is_some());
    assert!(Duration::from_nanos(MAX_DURATION_NANOS + 1).is_none());
    assert!(Duration::from_nanos(-MAX_DURATION_NANOS - 1).is_none());
    assert!(Duration::from_millis(i64::MAX).is_some());
    assert!(Duration::from_millis(i64::MIN).is_none());
    assert_eq!(Duration::from_millis(3).unwrap().nanos(), 3_000_000);
    assert_eq!(Timestamp::from_parts(2, 5).unwrap().nanos(), 2_000_000_005);
    assert_eq!(Timestamp::from_parts(-1, 1).unwrap().nanos(), -999_999_999);
    assert!(Timestamp::from_parts(i64::MAX, 0).is_none());
    assert_eq!(Duration::zero().nanos(), 0);
}

#[test]
fn timestamp_sums_and_differences() {
    let t = at(1_000);
    let later = t.checked_add(Duration::from_millis(250).unwrap()).unwrap();
    assert_eq!(later, at(1_250));
    assert_eq!(later.duration_since(t).num_milliseconds(), 250);
    assert_eq!(t.duration_since(later).num_milliseconds(), -250);
    let last = Timestamp::from_nanos(MAX_TIMESTAMP_NANOS).unwrap();
    assert!(last.checked_add(Duration::from_nanos(1).unwrap()).is_none());
    let max = Duration::from_nanos(MAX_DURATION_NANOS).unwrap();
    assert!(max.checked_add(Duration::from_nanos(1).unwrap()).is_none());
    assert_eq!(
        max.checked_add(Duration::from_nanos(-1).unwrap()).unwrap().nanos(),
        MAX_DURATION_NANOS - 1
    );
}

#[test]
fn whole_units_round_toward_zero() {
    let d = Duration::from_nanos(1_999_999).unwrap();
    assert_eq!(d.num_milliseconds(), 1);
    assert_eq!(d.num_microseconds(), Some(1_999));
    let n = Duration::from_nanos(-1_999_999).unwrap();
    assert_eq!(n.num_milliseconds(), -1);
    assert_eq!(n.num_microseconds(), Some(-1_999));
    let max = Duration::from_nanos(MAX_DURATION_NANOS).unwrap();
    assert_eq!(max.num_milliseconds(), i64::MAX);
    assert_eq!(max.num_microseconds(), None);
    let edge = Duration::from_nanos(9_223_372_036_854_775_807_999).unwrap();
    assert_eq!(edge.num_microseconds(), Some(i64::MAX));
    let over = Duration::from_nanos(9_223_372_036_854_775_808_000).unwrap();
    assert_eq!(over.num_microseconds(), None);
}

#[test]
fn seconds_split_rounds_down() {
    assert_eq!(Duration::from_nanos(2_500_000_000).unwrap().split_seconds(), (2, 500_000_000));
    assert_eq!(Duration::from_nanos(-1).unwrap().split_seconds(), (-1, 999_999_999));
    assert_eq!(Duration::from_nanos(-3_000_000_000).unwrap().split_seconds(), (-3, 0));
    assert_eq!(Duration::zero().split_seconds(), (0, 0));
}

#[test]
fn durations_read_in_english() {
    assert_eq!(Duration::from_millis(50).unwrap().text(true), "50 ms");
    assert_eq!(Duration::from_millis(50).unwrap().text(false), "now");
    assert_eq!(Duration::from_millis(90_000).unwrap().text(true), "1 minute and 30 seconds");
    assert_eq!(Duration::from_millis(120_000).unwrap().text(false), "2 minutes");
    assert_eq!(Duration::from_millis(61_001).unwrap().text(true), "1 minute, 1 second and 1 ms");
    assert_eq!(Duration::zero().text(true), "0 seconds");
    assert_eq!(Duration::from_millis(-50).unwrap().text(true), "50 ms");
}

#[test]
fn a_task_starts_and_ends_on_the_clock() {
    let before = Timestamp::now();
    let task = Task::new("My Task");
    assert_eq!(task.name(), "My Task");
    assert!(task.start().nanos() >= before.nanos());
    assert!(task.start().nanos() > 1_500_000_000_000_000_000);
    let start = task.start();
    let completed = task.complete();
    assert_eq!(completed.name(), "My Task");
    assert_eq!(completed.start(), start);
    assert!(completed.time().nanos() >= 0);
}

#[test]
fn a_task_ends_at_a_given_instant() {
    let task = Task::starting_at("fixed", at(10));
    assert_eq!(task.start(), at(10));
    let completed = task.complete_at(at(35));
    assert_eq!(completed, done("fixed", 10, 35));
    assert_eq!(completed.clone_task(), completed);
    assert!(completed.same_name(&done("fixed", 0, 0)));
    assert!(!completed.same_name(&done("Fixed", 10, 35)));
}

#[test]
fn tasks_come_from_names() {
    let from_str: Task = "My Task".into();
    assert_eq!(from_str.name(), "My Task");
    let from_string: Task = String::from("My Task").into();
    assert_eq!(from_string.name(), "My Task");
    let start = from_string.start();
    let completed: CompletedTask = from_string.into();
    assert_eq!(completed.name(), "My Task");
    assert_eq!(completed.start(), start);
    assert!(completed.end().nanos() >= start.nanos());
}

#[test]
fn the_longest_spans_read_in_english() {
    let max = Duration::from_nanos(MAX_DURATION_NANOS).unwrap();
    let min = Duration::from_nanos(-MAX_DURATION_NANOS).unwrap();
    assert_eq!(max.text(false), "292471208 years");
    assert_eq!(min.text(false), "292471208 years");
    assert_eq!(max.text(true), min.text(true));
    assert!(max.text(true).starts_with("292471208 years, "));
    assert_eq!(
        Duration::from_nanos(1_001_001_001).unwrap().text(true),
        "1 second, 1 ms, 1 µs and 1 ns"
    );
}

fn share(task: &CompletedTask, total: Duration) -> f64 {
    let (part, whole) = task.percentage_terms(total);
    part as f64 / whole as f64 * 100.0
}

#[test]
fn percentage_terms_prefer_nanoseconds() {
    let task = done("a", 0, 50);
    let total = Duration::from_millis(80).unwrap();
    assert_eq!(task.percentage_terms(total), (50_000_000, 80_000_000));
    let short = CompletedTask::new(
        "short",
        Timestamp::from_nanos(1_000).unwrap(),
        Timestamp::from_nanos(1_500).unwrap(),
    );
    assert_eq!(short.percentage_terms(short.time()), (500, 500));
    assert_eq!(short.percentage_terms(Duration::from_nanos(2_000).unwrap()), (500, 2_000));
    let edge = Duration::from_nanos(9_223_372_036_854_775_807).unwrap();
    assert_eq!(task.percentage_terms(edge), (50_000_000, i64::MAX));
}

#[test]
fn percentage_terms_fall_back_to_microseconds() {
    let task = done("a", 0, 50);
    let total = Duration::from_nanos(9_223_372_036_854_775_808).unwrap();
    assert_eq!(task.percentage_terms(total), (50_000, 9_223_372_036_854_775));
    let wide = Duration::from_nanos(10_000_000_000_000_000_999).unwrap();
    assert_eq!(task.percentage_terms(wide), (50_000, 10_000_000_000_000_000));
    let back = Duration::from_nanos(-10_000_000_000_000_000_999).unwrap();
    assert_eq!(task.percentage_terms(back), (50_000, -10_000_000_000_000_000));
}

#[test]
fn percentage_terms_fall_back_to_milliseconds() {
    let task = done("a", 0, 50);
    let huge = Duration::from_nanos(MAX_DURATION_NANOS).unwrap();
    assert_eq!(task.percentage_terms(huge), (50, i64::MAX));
    let first = Timestamp::from_nanos(-MAX_TIMESTAMP_NANOS).unwrap();
    let last = Timestamp::from_nanos(MAX_TIMESTAMP_NANOS).unwrap();
    let long = CompletedTask::new("long", first, last);
    assert_eq!(
        long.percentage_terms(Duration::from_millis(7).unwrap()),
        (18_000_000_000_000_000, 7)
    );
    assert_eq!(long.percentage_terms(long.time()), (18_000_000_000_000_000, 18_000_000_000_000_000));
}

#[test]
fn the_whole_is_one_hundred_percent() {
    for nanos in [1, 2, 500, 999, 1_000, 50_000_000, 86_400_000_000_000, MAX_TIMESTAMP_NANOS] {
        let task = CompletedTask::new(
            "a",
            Timestamp::from_nanos(0).unwrap(),
            Timestamp::from_nanos(nanos).unwrap(),
        );
        let (part, whole) = task.percentage_terms(task.time());
        assert_eq!(part, whole);
        assert!(part != 0);
        assert!((share(&task, task.time()) - 100.0).abs() < 1e-2);
    }
}

#[test]
fn a_share_may_be_above_one_hundred_or_of_nothing() {
    let task = done("a", 0, 100);
    let half = share(&task, Duration::from_millis(200).unwrap());
    assert!(half > 40.0 && half < 60.0);
    assert!(share(&task, Duration::from_millis(50).unwrap()) > 100.0);
    assert_eq!(task.percentage_terms(Duration::zero()), (100_000_000, 0));
    assert!(share(&task, Duration::zero()).is_infinite());
    assert!(share(&done("none", 5, 5), Duration::zero()).is_nan());
}
