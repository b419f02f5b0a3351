use std::collections::HashSet;

use flow_state::{
    example_habits, App, Counter, CurrentScreen, Day, Habit, HabitStatus, HabitType, ScreenMode,
    EXAMPLE_DAY, LAST_DAY,
};

// 2025-06-12, a Thursday.
const TODAY: i32 = 739_414;

fn habit(name: &str, habit_type: HabitType, created: i32, days: &[i32]) -> Habit {
    Habit {
        name: name.to_string(),
        habit_type,
        days_completed: days.iter().copied().collect::<HashSet<i32>>(),
        created,
    }
}

fn app_with(build: Vec<Habit>, avoid: Vec<Habit>) -> App {
    let mut app = App::new();
    app.replace_habits(build, avoid);
    app
}

fn enter_name(app: &mut App, name: &str) {
    for ch in name.chars() {
        app.type_char(ch);
    }
}

#[test]
fn new_app_starts_empty_and_normal() {
    let app = App::new();
    assert!(app.build_habits.is_empty());
    assert!(app.avoid_habits.is_empty());
    assert_eq!(app.counter, Counter::new());
    assert_eq!(app.screen_mode, ScreenMode::Normal);
    assert_eq!(app.current_screen, CurrentScreen::Today);
    assert_eq!(app.current_day, Day::Today);
}

#[test]
fn page_and_day_cycle() {
    let mut app = App::new();
    app.toggle_page();
    assert_eq!(app.current_screen, CurrentScreen::Stats);
    app.toggle_page();
    assert_eq!(app.current_screen, CurrentScreen::Heatmap);
    app.toggle_page();
    assert_eq!(app.current_screen, CurrentScreen::Today);
    app.toggle_day();
    assert_eq!(app.current_day, Day::Yesterday);
    app.toggle_day();
    assert_eq!(app.current_day, Day::Today);
}

#[test]
fn weekly_gauge_with_no_habits() {
    let app = App::new();
    assert_eq!(app.check_weeks_progress(TODAY), "▱▱▱▱▱▱▱▱▱▱ 0.0%  (0/0)");
    assert_eq!(app.check_weeks_progress(LAST_DAY), "▱▱▱▱▱▱▱▱▱▱ 0.0%  (0/0)");
    assert_eq!(
        app.check_todays_progress(&Day::Today, TODAY),
        "▱▱▱▱▱▱▱▱▱▱ 0.0%  (0/0)"
    );
}

#[test]
fn daily_gauge_counts_both_lists() {
    let app = app_with(
        vec![
            habit("a", HabitType::Build, TODAY - 9, &[TODAY]),
            habit("b", HabitType::Build, TODAY - 9, &[TODAY - 1]),
        ],
        vec![habit("c", HabitType::Avoid, TODAY - 9, &[TODAY, TODAY - 1])],
    );
    assert_eq!(
        app.check_todays_progress(&Day::Today, TODAY),
        "▰▰▰▰▰▰▰▱▱▱ 66.7%  (2/3)"
    );
    assert_eq!(
        app.check_todays_progress(&Day::Yesterday, TODAY),
        "▰▰▰▰▰▰▰▱▱▱ 66.7%  (2/3)"
    );
    assert_eq!(
        app.check_todays_progress(&Day::Today, TODAY + 1),
        "▱▱▱▱▱▱▱▱▱▱ 0.0%  (0/3)"
    );
    assert_eq!(app.completed_on(TODAY), 2);
}

#[test]
fn weekly_gauge_counts_monday_to_sunday() {
    // The week of 2025-06-12 runs from TODAY - 3 (Monday) to TODAY + 3 (Sunday).
    let app = app_with(
        vec![habit("a", HabitType::Build, TODAY - 30, &[TODAY - 4, TODAY - 3, TODAY, TODAY + 3])],
        vec![habit("b", HabitType::Avoid, TODAY - 30, &[TODAY + 4, TODAY - 1])],
    );
    assert_eq!(app.check_weeks_progress(TODAY), "▰▰▰▱▱▱▱▱▱▱ 28.6%  (4/14)");
    // On the Monday itself the same week is counted.
    assert_eq!(app.check_weeks_progress(TODAY - 3), "▰▰▰▱▱▱▱▱▱▱ 28.6%  (4/14)");
    // The next Monday starts a new week.
    assert_eq!(app.check_weeks_progress(TODAY + 4), "▰▱▱▱▱▱▱▱▱▱ 7.1%  (1/14)");
}

#[test]
fn add_mode_only_from_normal() {
    let mut app = App::new();
    app.toggle_add_mode();
    assert_eq!(app.screen_mode, ScreenMode::Adding);
    app.toggle_delete_mode();
    assert_eq!(app.screen_mode, ScreenMode::Adding);
    app.toggle_normal_mode();
    assert_eq!(app.screen_mode, ScreenMode::Normal);
    assert!(app.current_habit.name.is_empty());
}

#[test]
fn add_with_empty_name_does_nothing() {
    let mut app = App::new();
    app.toggle_add_mode();
    app.add_habit(TODAY);
    assert_eq!(app.screen_mode, ScreenMode::Adding);
    assert!(app.build_habits.is_empty());
}

#[test]
fn add_outside_adding_mode_does_nothing() {
    let mut app = App::new();
    enter_name(&mut app, "Run");
    app.add_habit(TODAY);
    assert!(app.build_habits.is_empty());
    assert_eq!(app.screen_mode, ScreenMode::Normal);
}

#[test]
fn add_avoid_habit_to_empty_lists_moves_focus() {
    let mut app = App::new();
    app.toggle_add_mode();
    app.toggle_habit_type();
    enter_name(&mut app, "Snacking");
    app.add_habit(TODAY);
    assert_eq!(app.avoid_habits.len(), 1);
    assert_eq!(app.avoid_habits[0].habit_type, HabitType::Avoid);
    assert!(app.counter.switch);
    assert_eq!(app.get_selected_habit().unwrap().name, "Snacking");
}

#[test]
fn end_to_end_add_toggle_reset() {
    let mut app = App::new();
    app.toggle_add_mode();
    enter_name(&mut app, "Run");
    app.add_habit(TODAY - 5);
    assert_eq!(app.build_habits.len(), 1);
    assert_eq!(app.build_habits[0].name, "Run");
    assert_eq!(app.build_habits[0].habit_type, HabitType::Build);
    assert_eq!(app.build_habits[0].created, TODAY - 5);
    assert_eq!(app.counter, Counter { build_counter: 0, avoid_counter: 0, switch: false });
    assert_eq!(app.screen_mode, ScreenMode::Normal);
    assert!(app.current_habit.name.is_empty());

    app.toggle_current_habit(TODAY);
    assert_eq!(app.build_habits[0].check_status(&Day::Today, TODAY), HabitStatus::Complete);

    app.toggle_reset_mode();
    assert_eq!(app.screen_mode, ScreenMode::Reset);
    app.reset_current_habit(TODAY);
    assert_eq!(app.screen_mode, ScreenMode::Normal);
    assert!(app.build_habits[0].days_completed.is_empty());
    assert_eq!(app.build_habits[0].created, TODAY);
    assert_eq!(
        app.build_habits[0].check_status(&Day::Today, TODAY),
        HabitStatus::InComplete
    );
}

#[test]
fn toggle_uses_the_selected_day() {
    let mut app = app_with(vec![habit("a", HabitType::Build, TODAY - 9, &[])], vec![]);
    app.toggle_day();
    app.toggle_current_habit(TODAY);
    assert!(app.build_habits[0].days_completed.contains(&(TODAY - 1)));
    assert!(!app.build_habits[0].days_completed.contains(&TODAY));
    app.toggle_current_habit(TODAY);
    assert!(app.build_habits[0].days_completed.is_empty());
}

#[test]
fn cross_type_edit_moves_habit_and_keeps_history() {
    let mut app = app_with(
        vec![
            habit("Run", HabitType::Build, TODAY - 20, &[TODAY - 3, TODAY - 2]),
            habit("Read", HabitType::Build, TODAY - 20, &[]),
        ],
        vec![habit("Snack", HabitType::Avoid, TODAY - 20, &[])],
    );
    let selected = app.get_selected_habit().unwrap().clone();
    app.toggle_edit_mode(selected);
    assert_eq!(app.screen_mode, ScreenMode::Editing);
    app.toggle_habit_type();
    app.type_char('s');
    app.edit_habit();
    assert_eq!(app.screen_mode, ScreenMode::Normal);
    assert_eq!(app.build_habits.len(), 1);
    assert_eq!(app.build_habits[0].name, "Read");
    assert_eq!(app.avoid_habits.len(), 2);
    let moved = &app.avoid_habits[1];
    assert_eq!(moved.name, "Runs");
    assert_eq!(moved.habit_type, HabitType::Avoid);
    assert_eq!(moved.created, TODAY - 20);
    assert_eq!(
        moved.days_completed,
        [TODAY - 3, TODAY - 2].into_iter().collect::<HashSet<i32>>()
    );
}

#[test]
fn same_type_edit_renames_in_place() {
    let mut app = app_with(
        vec![
            habit("Run", HabitType::Build, TODAY - 20, &[TODAY]),
            habit("Read", HabitType::Build, TODAY - 20, &[]),
        ],
        vec![],
    );
    app.increment_habits_counter();
    let selected = app.get_selected_habit().unwrap().clone();
    app.toggle_edit_mode(selected);
    app.erase_char();
    app.erase_char();
    app.edit_habit();
    assert_eq!(app.build_habits[1].name, "Re");
    assert_eq!(app.build_habits[0].name, "Run");
    assert_eq!(app.build_habits[0].days_completed.len(), 1);
}

#[test]
fn delete_last_build_habit_reclamps() {
    let mut app = app_with(
        vec![
            habit("a", HabitType::Build, TODAY, &[]),
            habit("b", HabitType::Build, TODAY, &[]),
        ],
        vec![habit("c", HabitType::Avoid, TODAY, &[])],
    );
    app.increment_habits_counter();
    assert_eq!(app.counter.build_counter, 1);
    app.toggle_delete_mode();
    assert_eq!(app.screen_mode, ScreenMode::Deleting);
    // Navigation does not retarget an open confirmation.
    app.decrement_habits_counter();
    app.delete_current_habit();
    assert_eq!(app.screen_mode, ScreenMode::Normal);
    assert_eq!(app.build_habits.len(), 1);
    assert_eq!(app.build_habits[0].name, "a");
    assert_eq!(app.counter.build_counter, 0);
    // Deleting the only build habit hands the focus to the avoid list.
    app.toggle_delete_mode();
    app.delete_current_habit();
    assert!(app.build_habits.is_empty());
    assert!(app.counter.switch);
    assert_eq!(app.get_selected_habit().unwrap().name, "c");
    app.toggle_delete_mode();
    app.delete_current_habit();
    assert!(app.avoid_habits.is_empty());
    assert_eq!(app.counter, Counter::new());
    // Nothing to select: the confirmation does not open.
    app.toggle_delete_mode();
    assert_eq!(app.screen_mode, ScreenMode::Normal);
}

#[test]
fn cancel_leaves_habits_alone() {
    let mut app = app_with(vec![habit("a", HabitType::Build, TODAY, &[TODAY])], vec![]);
    app.toggle_reset_mode();
    app.toggle_normal_mode();
    app.reset_current_habit(TODAY + 3);
    assert_eq!(app.build_habits[0].created, TODAY);
    assert_eq!(app.build_habits[0].days_completed.len(), 1);
}

#[test]
fn replace_habits_clamps_cursor() {
    let mut app = App::new();
    app.counter = Counter { build_counter: 7, avoid_counter: 3, switch: false };
    app.replace_habits(vec![], vec![habit("c", HabitType::Avoid, TODAY, &[])]);
    assert_eq!(app.counter, Counter { build_counter: 0, avoid_counter: 0, switch: true });
}

#[test]
fn example_habits_offered_on_first_start() {
    let (build, avoid) = example_habits();
    let names: Vec<&str> = build.iter().map(|h| h.name.as_str()).collect();
    assert_eq!(names, ["Morning run", "Read 10 pages"]);
    let names: Vec<&str> = avoid.iter().map(|h| h.name.as_str()).collect();
    assert_eq!(names, ["Social media scrolling", "Late-night snacking"]);
    assert!(build.iter().all(|h| h.habit_type == HabitType::Build));
    assert!(avoid.iter().all(|h| h.habit_type == HabitType::Avoid));
    assert!(build.iter().chain(avoid.iter()).all(|h| h.created == EXAMPLE_DAY));
    assert!(build.iter().chain(avoid.iter()).all(|h| h.days_completed.is_empty()));
}

#[test]
fn added_habit_is_the_draft_with_its_creation_date() {
    let mut app = App::new();
    app.toggle_add_mode();
    enter_name(&mut app, "Walk");
    app.current_habit.days_completed.insert(TODAY - 1);
    app.add_habit(TODAY);
    assert_eq!(app.build_habits.len(), 1);
    assert_eq!(app.build_habits[0].name, "Walk");
    assert_eq!(app.build_habits[0].created, TODAY);
    assert_eq!(
        app.build_habits[0].days_completed,
        [TODAY - 1].into_iter().collect::<HashSet<i32>>()
    );
}

#[test]
fn draft_edits_only_while_a_form_is_open() {
    let mut app = App::new();
    app.type_char('x');
    app.toggle_habit_type();
    assert!(app.current_habit.name.is_empty());
    assert_eq!(app.current_habit.habit_type, HabitType::Build);
    app.toggle_add_mode();
    enter_name(&mut app, "ab");
    app.erase_char();
    assert_eq!(app.current_habit.name, "a");
    app.erase_char();
    app.erase_char();
    assert!(app.current_habit.name.is_empty());
    app.toggle_habit_type();
    assert_eq!(app.current_habit.habit_type, HabitType::Avoid);
}

#[test]
fn cloned_habit_keeps_every_field() {
    let h = habit("Run", HabitType::Avoid, TODAY - 4, &[TODAY, TODAY - 2, TODAY - 3]);
    let c = h.clone();
    assert_eq!(c.name, h.name);
    assert_eq!(c.habit_type, h.habit_type);
    assert_eq!(c.days_completed, h.days_completed);
    assert_eq!(c.created, h.created);
}
