use thread_priority::windows::PriorityClass;
use thread_priority::{set_thread_priority, Priority};

#[test]
fn test_to_posix() {
    assert!(Priority::from(50).to_posix(0, 100) < Priority::from(70).to_posix(0, 100));
}

#[test]
fn test_to_nice() {
    assert_eq!(Priority::from(0).to_nice(), 19);
    assert_eq!(Priority::from(100).to_nice(), -20);
    assert!(Priority::from(50).to_nice() > Priority::from(70).to_nice());
    set_thread_priority(Priority::from(30)).unwrap();
    set_thread_priority(Priority::from(10)).unwrap();
}

#[test]
fn test_windows() {
    for i in 0..114 {
        let priority = Priority::from(i).to_windows();
        if i == 0 {
            assert_eq!(priority, PriorityClass::Idle);
        } else if i < 20 {
            assert_eq!(priority, PriorityClass::Lowest);
        } else if i < 40 {
            assert_eq!(priority, PriorityClass::BelowNormal);
        } else if i < 60 {
            assert_eq!(priority, PriorityClass::Normal);
        } else if i < 80 {
            assert_eq!(priority, PriorityClass::AboveNormal);
        } else if i < 100 {
            assert_eq!(priority, PriorityClass::Highest);
        } else {
            assert_eq!(priority, PriorityClass::TimeCritical);
        }
    }
}

#[test]
fn level_kept_inside_scale() {
    assert_eq!(Priority::from(0).level(), 0);
    assert_eq!(Priority::from(1).level(), 1);
    assert_eq!(Priority::from(50).level(), 50);
    assert_eq!(Priority::from(100).level(), 100);
}

#[test]
fn level_clamped_above_scale() {
    assert_eq!(Priority::from(101).level(), 100);
    assert_eq!(Priority::from(113).level(), 100);
    assert_eq!(Priority::from(255).level(), 100);
}

#[test]
fn nice_of_midpoint() {
    assert_eq!(Priority::from(50).to_nice(), 0);
}

#[test]
fn windows_scenario_high_levels() {
    assert_eq!(Priority::from(90).to_windows(), PriorityClass::Highest);
    assert_eq!(Priority::from(100).to_windows(), PriorityClass::TimeCritical);
}

#[test]
fn posix_scenario_full_range() {
    assert_eq!(Priority::from(70).to_posix(0, 100), 70);
}

#[test]
fn posix_degenerate_range() {
    assert_eq!(Priority::from(0).to_posix(5, 5), 5);
    assert_eq!(Priority::from(70).to_posix(5, 5), 5);
    assert_eq!(Priority::from(100).to_posix(5, 5), 5);
}

#[test]
fn posix_truncates() {
    assert_eq!(Priority::from(33).to_posix(0, 10), 3);
    assert_eq!(Priority::from(99).to_posix(-2, 3), 2);
}
