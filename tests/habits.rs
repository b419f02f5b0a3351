use std::collections::HashSet;

use flow_state::{
    count_by_pattern, days_from_monday, is_calendar_day, find_best_habit, find_newest_habit,
    find_oldest_habit, find_worst_habit, Day, Habit, HabitPattern,
    HabitStatus, HabitType, FIRST_DAY, LAST_DAY, UNIX_EPOCH_DAY,
};

const TODAY: i32 = 739_414;

fn habit(name: &str, created: i32, days: &[i32]) -> Habit {
    Habit {
        name: name.to_string(),
        habit_type: HabitType::Build,
        days_completed: days.iter().copied().collect::<HashSet<i32>>(),
        created,
    }
}

#[test]
fn day_labels() {
    assert_eq!(Day::Today.as_str(), "Today");
    assert_eq!(Day::Yesterday.as_str(), "Yesterday");
}

#[test]
fn day_resolves_against_today() {
    assert_eq!(Day::Today.resolve_date(TODAY), TODAY);
    assert_eq!(Day::Yesterday.resolve_date(TODAY), TODAY - 1);
}

#[test]
fn calendar_day_range() {
    assert!(is_calendar_day(TODAY));
    assert!(is_calendar_day(FIRST_DAY));
    assert!(is_calendar_day(LAST_DAY));
    assert!(!is_calendar_day(FIRST_DAY - 1));
    assert!(!is_calendar_day(LAST_DAY + 1));
}

#[test]
fn weekday_positions() {
    // 0001-01-01 was a Monday, 2025-06-12 a Thursday, 2025-06-15 a Sunday.
    assert_eq!(days_from_monday(1), 0);
    assert_eq!(days_from_monday(TODAY), 3);
    assert_eq!(days_from_monday(TODAY + 3), 6);
    assert_eq!(days_from_monday(TODAY + 4), 0);
    assert_eq!(days_from_monday(0), 6);
    assert_eq!(days_from_monday(-6), 0);
    assert_eq!(days_from_monday(UNIX_EPOCH_DAY), 3);
}

#[test]
fn status_and_emoji() {
    assert_eq!(HabitStatus::Complete.emoji(), "✅");
    assert_eq!(HabitStatus::InComplete.emoji(), "⚪");
    let h = habit("Run", TODAY - 3, &[TODAY - 1]);
    assert_eq!(h.check_status(&Day::Today, TODAY), HabitStatus::InComplete);
    assert_eq!(h.check_status(&Day::Yesterday, TODAY), HabitStatus::Complete);
}

#[test]
fn pattern_labels() {
    assert_eq!(HabitPattern::Chaotic.string(), "Chaotic 🌪️");
    assert_eq!(HabitPattern::Struggling.string(), "Struggling  😤");
    assert_eq!(HabitPattern::Developing.string(), "Developing 🌱");
    assert_eq!(HabitPattern::Established.string(), "Established ⚖️");
    assert_eq!(HabitPattern::Mastered.string(), "Mastered 🎯");
}

#[test]
fn toggle_twice_restores_history() {
    let mut h = habit("Run", TODAY - 5, &[TODAY - 2, TODAY - 4]);
    let before = h.days_completed.clone();
    h.toggle_complete(&Day::Today, TODAY);
    assert!(h.days_completed.contains(&TODAY));
    h.toggle_complete(&Day::Today, TODAY);
    assert_eq!(h.days_completed, before);
    h.toggle_complete(&Day::Yesterday, TODAY);
    h.toggle_complete(&Day::Yesterday, TODAY);
    assert_eq!(h.days_completed, before);
    // Toggling a date that is already present removes it, and back.
    let mut g = habit("Read", TODAY - 5, &[TODAY]);
    g.toggle_complete(&Day::Today, TODAY);
    assert!(g.days_completed.is_empty());
    g.toggle_complete(&Day::Today, TODAY);
    assert_eq!(g.days_completed, [TODAY].into_iter().collect::<HashSet<i32>>());
}

#[test]
fn reset_wipes_history_and_moves_creation() {
    let mut h = habit("Run", TODAY - 30, &[TODAY - 2, TODAY - 4]);
    h.reset(TODAY);
    assert!(h.days_completed.is_empty());
    assert_eq!(h.created, TODAY);
    assert_eq!(h.name, "Run");
}

#[test]
fn days_since_creation_is_at_least_one() {
    assert_eq!(habit("a", TODAY, &[]).days_since_creation(TODAY), 1);
    assert_eq!(habit("a", TODAY + 5, &[]).days_since_creation(TODAY), 1);
    assert_eq!(habit("a", TODAY - 1, &[]).days_since_creation(TODAY), 1);
    assert_eq!(habit("a", TODAY - 10, &[]).days_since_creation(TODAY), 10);
}

#[test]
fn pattern_new_habit_without_check_ins_is_chaotic() {
    let h = habit("Run", TODAY, &[]);
    assert_eq!(h.check_pattern(TODAY), HabitPattern::Chaotic);
    assert_eq!(h.check_raw_pattern(TODAY), 0);
}

#[test]
fn pattern_half_rate_over_ten_days_is_developing() {
    let days: Vec<i32> = (1..=5).map(|k| TODAY - 2 * k).collect();
    let h = habit("Run", TODAY - 10, &days);
    assert_eq!(h.check_raw_pattern(TODAY), 3);
    assert_eq!(h.check_pattern(TODAY), HabitPattern::Developing);
}

#[test]
fn pattern_perfect_rate_is_not_mastered_in_first_week() {
    let h = habit("Run", TODAY - 2, &[TODAY - 1, TODAY]);
    assert_eq!(h.check_raw_pattern(TODAY), 5);
    assert_eq!(h.check_pattern(TODAY), HabitPattern::Developing);
}

#[test]
fn pattern_perfect_rate_after_a_week_is_mastered() {
    let days: Vec<i32> = (0..8).map(|k| TODAY - k).collect();
    let h = habit("Run", TODAY - 8, &days);
    assert_eq!(h.check_raw_pattern(TODAY), 5);
    assert_eq!(h.check_pattern(TODAY), HabitPattern::Mastered);
}

#[test]
fn pattern_other_levels() {
    // 1 of 10 days: 0.5 rounds up to 1.
    assert_eq!(habit("a", TODAY - 10, &[TODAY]).check_pattern(TODAY), HabitPattern::Chaotic);
    assert_eq!(habit("a", TODAY - 10, &[TODAY]).check_raw_pattern(TODAY), 1);
    // 3 of 10 days: 1.5 rounds up to 2.
    let h = habit("a", TODAY - 10, &[TODAY, TODAY - 1, TODAY - 2]);
    assert_eq!(h.check_pattern(TODAY), HabitPattern::Struggling);
    // 8 of 10 days: 4.
    let days: Vec<i32> = (0..8).map(|k| TODAY - k).collect();
    let h = habit("a", TODAY - 10, &days);
    assert_eq!(h.check_pattern(TODAY), HabitPattern::Established);
    assert_eq!(h.check_raw_pattern(TODAY), 4);
    // More check-ins than days: capped at 5.
    let days: Vec<i32> = (0..20).map(|k| TODAY - k).collect();
    let h = habit("a", TODAY - 10, &days);
    assert_eq!(h.check_raw_pattern(TODAY), 5);
    assert_eq!(h.check_pattern(TODAY), HabitPattern::Mastered);
}

#[test]
fn best_and_worst_take_the_first_on_ties() {
    let habits = vec![
        habit("low", TODAY - 10, &[]),
        habit("high1", TODAY - 2, &[TODAY, TODAY - 1]),
        habit("low2", TODAY - 10, &[]),
        habit("high2", TODAY - 2, &[TODAY, TODAY - 1]),
    ];
    assert_eq!(find_best_habit(&habits, TODAY).unwrap().name, "high1");
    assert_eq!(find_worst_habit(&habits, TODAY).unwrap().name, "low");
    assert!(find_best_habit(&[], TODAY).is_none());
    assert!(find_worst_habit(&[], TODAY).is_none());
}

#[test]
fn default_habit_is_blank() {
    let h = Habit::default();
    assert!(h.name.is_empty());
    assert_eq!(h.habit_type, HabitType::Build);
    assert!(h.days_completed.is_empty());
    assert_eq!(h.created, UNIX_EPOCH_DAY);
}

#[test]
fn patterns_are_counted() {
    let habits = vec![
        habit("new", TODAY, &[]),
        habit("half", TODAY - 10, &[TODAY, TODAY - 2, TODAY - 4, TODAY - 6, TODAY - 8]),
        habit("young", TODAY - 2, &[TODAY, TODAY - 1]),
        habit("old", TODAY - 30, &[]),
    ];
    assert_eq!(count_by_pattern(&habits, HabitPattern::Chaotic, TODAY), 2);
    assert_eq!(count_by_pattern(&habits, HabitPattern::Developing, TODAY), 2);
    assert_eq!(count_by_pattern(&habits, HabitPattern::Mastered, TODAY), 0);
    assert_eq!(count_by_pattern(&[], HabitPattern::Chaotic, TODAY), 0);
}

#[test]
fn newest_is_last_and_oldest_is_first_on_ties() {
    let habits = vec![
        habit("a", TODAY - 5, &[]),
        habit("b", TODAY, &[]),
        habit("c", TODAY - 9, &[]),
        habit("d", TODAY, &[]),
        habit("e", TODAY - 9, &[]),
    ];
    assert_eq!(find_newest_habit(&habits).unwrap().name, "d");
    assert_eq!(find_oldest_habit(&habits).unwrap().name, "c");
    assert!(find_newest_habit(&[]).is_none());
    assert!(find_oldest_habit(&[]).is_none());
}
