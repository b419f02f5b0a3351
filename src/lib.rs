//! A habit tracker's engine: habits and their completion history, the
//! two-list selection cursor, the screen and mode state machine, and the
//! statistics derived from the history (patterns and progress gauges).
//!
//! Calendar dates are day numbers in the proleptic Gregorian calendar,
//! counted from 0001-01-01 as day 1. Every operation that depends on the
//! current date takes it as an argument, `today`; the library never reads a
//! clock.

mod app;
mod calendar;
mod gauge;
mod habit;
mod selection;

pub use app::{
    example_habits, lemma_type_change_keeps_history, App, AppView, CurrentScreen, ScreenMode,
    EXAMPLE_DAY,
};
pub use calendar::{days_from_monday, is_calendar_day, Day, FIRST_DAY, LAST_DAY, UNIX_EPOCH_DAY};
pub use gauge::{progress_text, MAX_TALLY};
pub use habit::{
    count_by_pattern, find_best_habit, find_newest_habit, find_oldest_habit, find_worst_habit,
    lemma_toggle_twice_restores, Habit, HabitPattern, HabitStatus, HabitType, HabitView,
};
pub use selection::{lemma_selection_stays_valid, Counter, SelectionOp};
