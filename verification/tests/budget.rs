use std::time::{Duration, Instant};
use tunaturk::budget::{allocate_time, resolve_limit, EndCondition, SearchLimit};
use tunaturk::go::GoInfo;
use tunaturk::rules::Color;

fn go(text: &str) -> GoInfo {
    GoInfo::parse(text).unwrap()
}

#[test]
fn clock_ahead_spends_part_of_the_lead() {
    assert_eq!(allocate_time(10000, 4000), 5500);
}

#[test]
fn clock_behind_spends_a_tenth() {
    assert_eq!(allocate_time(4000, 10000), 400);
}

#[test]
fn clock_level_spends_a_tenth() {
    assert_eq!(allocate_time(3000, 3000), 300);
    assert_eq!(allocate_time(0, 0), 0);
    assert_eq!(allocate_time(9, 9), 0);
}

#[test]
fn clock_allowance_rounds_down() {
    assert_eq!(allocate_time(11, 10), 1);
    assert_eq!(allocate_time(12, 10), 2);
    assert_eq!(allocate_time(19, 0), 15);
}

#[test]
fn clock_allowance_does_not_overflow() {
    assert_eq!(allocate_time(u32::MAX, 0), 3_650_722_200);
    assert_eq!(allocate_time(u32::MAX, u32::MAX), 429_496_729);
    assert_eq!(allocate_time(0, u32::MAX), 0);
}

#[test]
fn depth_comes_before_the_clocks() {
    let info = go("wtime 10000 btime 4000 depth 5");
    assert_eq!(resolve_limit(&info, Color::White), Some(SearchLimit::Depth(5)));
    assert_eq!(resolve_limit(&info, Color::Black), Some(SearchLimit::Depth(5)));
}

#[test]
fn limits_are_taken_in_order() {
    let all = go("infinite nodes 100 depth 5 movetime 70 wtime 10000 btime 4000");
    assert_eq!(resolve_limit(&all, Color::White), Some(SearchLimit::Infinite));
    let no_flag = go("nodes 100 depth 5 movetime 70 wtime 10000 btime 4000");
    assert_eq!(resolve_limit(&no_flag, Color::White), Some(SearchLimit::Nodes(100)));
    let no_nodes = go("depth 5 movetime 70 wtime 10000 btime 4000");
    assert_eq!(resolve_limit(&no_nodes, Color::White), Some(SearchLimit::Depth(5)));
    let no_depth = go("movetime 70 wtime 10000 btime 4000");
    assert_eq!(resolve_limit(&no_depth, Color::White), Some(SearchLimit::Millis(70)));
    let clocks = go("wtime 10000 btime 4000");
    assert_eq!(resolve_limit(&clocks, Color::White), Some(SearchLimit::Millis(5500)));
}

#[test]
fn clocks_are_read_for_the_side_to_move() {
    let info = go("wtime 10000 btime 4000");
    assert_eq!(resolve_limit(&info, Color::White), Some(SearchLimit::Millis(5500)));
    assert_eq!(resolve_limit(&info, Color::Black), Some(SearchLimit::Millis(400)));
}

#[test]
fn increments_do_not_change_the_allowance() {
    let info = go("wtime 10000 btime 4000 winc 500 binc 900 movestogo 3");
    assert_eq!(resolve_limit(&info, Color::White), Some(SearchLimit::Millis(5500)));
}

#[test]
fn depth_is_capped_at_a_byte() {
    assert_eq!(resolve_limit(&go("depth 255"), Color::White), Some(SearchLimit::Depth(255)));
    assert_eq!(resolve_limit(&go("depth 256"), Color::White), Some(SearchLimit::Depth(255)));
    assert_eq!(resolve_limit(&go("depth 4294967295"), Color::White), Some(SearchLimit::Depth(255)));
    assert_eq!(resolve_limit(&go("depth 0"), Color::White), Some(SearchLimit::Depth(0)));
}

#[test]
fn no_limit_is_no_rule() {
    assert_eq!(resolve_limit(&go(""), Color::White), None);
    assert_eq!(resolve_limit(&go("wtime 1000"), Color::White), None);
    assert_eq!(resolve_limit(&go("btime 1000"), Color::Black), None);
    assert_eq!(resolve_limit(&go("winc 1 binc 2 movestogo 3 mate 4"), Color::White), None);
}

#[test]
fn end_condition_follows_the_limit() {
    let start = Instant::now();
    assert!(matches!(EndCondition::starting_at(SearchLimit::Infinite, &start), EndCondition::Infinite));
    assert!(matches!(
        EndCondition::starting_at(SearchLimit::Nodes(12), &start),
        EndCondition::Nodes(12)
    ));
    assert!(matches!(
        EndCondition::starting_at(SearchLimit::Depth(3), &start),
        EndCondition::Depth(3)
    ));
    match EndCondition::starting_at(SearchLimit::Millis(250), &start) {
        EndCondition::Time(deadline) => assert_eq!(deadline, start + Duration::from_millis(250)),
        other => panic!("no deadline: {:?}", other),
    }
}

#[test]
fn end_condition_without_a_deadline_in_reach_is_unbounded() {
    let start = Instant::now();
    let condition = EndCondition::starting_at(SearchLimit::Millis(u64::MAX), &start);
    match start.checked_add(Duration::from_millis(u64::MAX)) {
        Some(deadline) => assert!(matches!(condition, EndCondition::Time(at) if at == deadline)),
        None => assert!(matches!(condition, EndCondition::Infinite)),
    }
}

#[test]
fn end_condition_takes_the_deadline_that_it_is_given() {
    let at = Instant::now();
    assert!(matches!(
        EndCondition::with_deadline(SearchLimit::Millis(5), Some(at)),
        EndCondition::Time(deadline) if deadline == at
    ));
    assert!(matches!(
        EndCondition::with_deadline(SearchLimit::Millis(5), None),
        EndCondition::Infinite
    ));
    assert!(matches!(
        EndCondition::with_deadline(SearchLimit::Infinite, Some(at)),
        EndCondition::Infinite
    ));
    assert!(matches!(
        EndCondition::with_deadline(SearchLimit::Nodes(9), Some(at)),
        EndCondition::Nodes(9)
    ));
    assert!(matches!(
        EndCondition::with_deadline(SearchLimit::Depth(4), None),
        EndCondition::Depth(4)
    ));
}

#[test]
fn deadline_is_met_as_the_clock_says() {
    let condition = EndCondition::Time(Instant::now());
    assert!(condition.met_given(0, 0, true));
    assert!(!condition.met_given(u64::MAX, u8::MAX, false));
    assert!(EndCondition::Nodes(3).met_given(3, 0, false));
    assert!(!EndCondition::Nodes(3).met_given(2, 0, true));
    assert!(EndCondition::Depth(3).met_given(0, 3, false));
    assert!(!EndCondition::Depth(3).met_given(0, 2, true));
    assert!(!EndCondition::Infinite.met_given(0, 0, true));
}

#[test]
fn deadline_is_met_from_its_instant_on() {
    let deadline = Instant::now();
    let condition = EndCondition::Time(deadline);
    assert!(condition.met_at(0, 0, &deadline));
    assert!(condition.met_at(0, 0, &(deadline + Duration::from_millis(1))));
    assert!(!condition.met_at(u64::MAX, 9, &(deadline - Duration::from_millis(1))));
    assert!(EndCondition::Nodes(3).met_at(3, 0, &deadline));
    assert!(!EndCondition::Nodes(3).met_at(2, 0, &deadline));
    assert!(EndCondition::Depth(3).met_at(0, 3, &deadline));
    assert!(!EndCondition::Infinite.met_at(0, 0, &deadline));
}

#[test]
fn deadline_of_a_limit_of_time_is_the_start_and_the_time() {
    let start = Instant::now();
    for ms in [0, 1, 250, 5500, u32::MAX as u64] {
        match EndCondition::starting_at(SearchLimit::Millis(ms), &start) {
            EndCondition::Time(deadline) => {
                assert_eq!(Some(deadline), start.checked_add(Duration::from_millis(ms)));
                assert_eq!(deadline.duration_since(start), Duration::from_millis(ms));
            }
            other => panic!("no deadline: {:?}", other),
        }
    }
}

#[test]
fn node_condition_is_met_from_its_count_on() {
    let condition = EndCondition::Nodes(100);
    assert!(!condition.met(0, 0));
    assert!(!condition.met(99, 7));
    assert!(condition.met(100, 0));
    assert!(condition.met(u64::MAX, 0));
}

#[test]
fn depth_condition_is_met_at_its_depth_only() {
    let condition = EndCondition::Depth(3);
    assert!(!condition.met(0, 2));
    assert!(condition.met(0, 3));
    assert!(!condition.met(1000, 4));
}

#[test]
fn infinite_condition_is_never_met() {
    assert!(!EndCondition::Infinite.met(0, 0));
    assert!(!EndCondition::Infinite.met(u64::MAX, u8::MAX));
}

#[test]
fn deadline_is_met_once_it_has_passed() {
    let now = Instant::now();
    assert!(EndCondition::Time(now).met(0, 0));
    let later = now + Duration::from_secs(3600);
    assert!(!EndCondition::Time(later).met(u64::MAX, 3));
}
