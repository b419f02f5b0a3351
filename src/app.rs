use std::collections::HashSet;

use vstd::prelude::*;

use crate::calendar::{
    days_from_monday, is_day, spec_days_from_monday, Day,
};
use crate::gauge::{progress_text, spec_progress_text};
use crate::habit::{Habit, HabitType, HabitView};
use crate::selection::Counter;

verus! {

/// The page the user looks at.
#[derive(Clone, Copy, Debug, PartialEq, Eq, Structural)]
pub enum CurrentScreen {
    Today,
    Stats,
    Heatmap,
}

/// The workflow in progress: plain navigation, or one of the forms and
/// confirmations.
#[derive(Clone, Copy, Debug, PartialEq, Eq, Structural)]
pub enum ScreenMode {
    Normal,
    Adding,
    Editing,
    Deleting,
    Reset,
}

/// The engine: both habit lists, the cursor over them, the page and the
/// mode, the draft that a form fills in, the day that statuses are shown
/// for, and the habit that an open edit, delete or reset works on.
pub struct App {
    pub build_habits: Vec<Habit>,
    pub avoid_habits: Vec<Habit>,
    pub counter: Counter,
    pub current_screen: CurrentScreen,
    pub screen_mode: ScreenMode,
    pub current_habit: Habit,
    pub current_day: Day,
    pub target_type: HabitType,
    pub target_index: usize,
}

/// The mathematical value of an [`App`].
pub struct AppView {
    pub build_habits: Seq<HabitView>,
    pub avoid_habits: Seq<HabitView>,
    pub counter: Counter,
    pub current_screen: CurrentScreen,
    pub screen_mode: ScreenMode,
    pub current_habit: HabitView,
    pub current_day: Day,
    pub target_type: HabitType,
    pub target_index: usize,
}

pub open spec fn views(hs: Seq<Habit>) -> Seq<HabitView> {
    hs.map_values(|h: Habit| h@)
}

impl View for App {
    type V = AppView;

    open spec fn view(&self) -> AppView {
        AppView {
            build_habits: views(self.build_habits@),
            avoid_habits: views(self.avoid_habits@),
            counter: self.counter,
            current_screen: self.current_screen,
            screen_mode: self.screen_mode,
            current_habit: self.current_habit@,
            current_day: self.current_day,
            target_type: self.target_type,
            target_index: self.target_index,
        }
    }
}

/// How many of `hs` were completed on `date`.
pub open spec fn count_done(hs: Seq<HabitView>, date: i32) -> nat
    decreases hs.len(),
{
    if hs.len() == 0 {
        0
    } else {
        count_done(hs.drop_last(), date) + if hs.last().is_complete_on(date) {
            1nat
        } else {
            0nat
        }
    }
}

pub open spec fn next_screen(s: CurrentScreen) -> CurrentScreen {
    match s {
        CurrentScreen::Today => CurrentScreen::Stats,
        CurrentScreen::Stats => CurrentScreen::Heatmap,
        CurrentScreen::Heatmap => CurrentScreen::Today,
    }
}

pub open spec fn other_day(d: Day) -> Day {
    match d {
        Day::Today => Day::Yesterday,
        Day::Yesterday => Day::Today,
    }
}

impl AppView {
    pub open spec fn list(self, t: HabitType) -> Seq<HabitView> {
        match t {
            HabitType::Build => self.build_habits,
            HabitType::Avoid => self.avoid_habits,
        }
    }

    pub open spec fn with_list(self, t: HabitType, s: Seq<HabitView>) -> AppView {
        match t {
            HabitType::Build => AppView { build_habits: s, ..self },
            HabitType::Avoid => AppView { avoid_habits: s, ..self },
        }
    }

    pub open spec fn total(self) -> nat {
        self.build_habits.len() + self.avoid_habits.len()
    }

    /// The list and position under the cursor, if the focused list has a
    /// habit there.
    pub open spec fn selection(self) -> Option<(HabitType, int)> {
        if self.counter.switch {
            if self.counter.avoid_counter < self.avoid_habits.len() {
                Some((HabitType::Avoid, self.counter.avoid_counter as int))
            } else {
                None
            }
        } else if self.counter.build_counter < self.build_habits.len() {
            Some((HabitType::Build, self.counter.build_counter as int))
        } else {
            None
        }
    }

    pub open spec fn target_in_bounds(self) -> bool {
        self.target_index < self.list(self.target_type).len()
    }

    /// Each list holds habits of its own type only.
    pub open spec fn lists_typed(self) -> bool {
        &&& forall|i: int|
            0 <= i < self.build_habits.len() ==> #[trigger] self.build_habits[i].habit_type
                == HabitType::Build
        &&& forall|i: int|
            0 <= i < self.avoid_habits.len() ==> #[trigger] self.avoid_habits[i].habit_type
                == HabitType::Avoid
    }

    /// A form is open: the draft is in use.
    pub open spec fn form_open(self) -> bool {
        self.screen_mode == ScreenMode::Adding || self.screen_mode == ScreenMode::Editing
    }

    /// The cursor fits the lists, each list holds habits of its own type, an
    /// open edit, delete or reset has a habit to work on, the draft is blank
    /// unless a form is open, and an add form starts from no history.
    pub open spec fn valid(self) -> bool {
        &&& self.counter.valid(self.build_habits.len(), self.avoid_habits.len())
        &&& self.lists_typed()
        &&& (self.screen_mode == ScreenMode::Editing || self.screen_mode == ScreenMode::Deleting
            || self.screen_mode == ScreenMode::Reset) ==> self.target_in_bounds()
        &&& !self.form_open() ==> self.current_habit == HabitView::blank()
        &&& self.screen_mode == ScreenMode::Adding ==> self.current_habit.days_completed
            == Set::<i32>::empty()
    }

    pub open spec fn reclamped(self) -> AppView {
        AppView {
            counter: self.counter.clamped(self.build_habits.len(), self.avoid_habits.len()),
            ..self
        }
    }

    pub open spec fn back_to_normal(self) -> AppView {
        AppView { screen_mode: ScreenMode::Normal, current_habit: HabitView::blank(), ..self }
    }

    pub open spec fn after_toggle_page(self) -> AppView {
        AppView { current_screen: next_screen(self.current_screen), ..self }
    }

    pub open spec fn after_toggle_day(self) -> AppView {
        AppView { current_day: other_day(self.current_day), ..self }
    }

    pub open spec fn after_increment(self) -> AppView {
        AppView {
            counter: self.counter.incremented(self.build_habits.len(), self.avoid_habits.len()),
            ..self
        }
    }

    pub open spec fn after_decrement(self) -> AppView {
        AppView { counter: self.counter.decremented(self.build_habits.len()), ..self }
    }

    pub open spec fn after_add_mode(self) -> AppView {
        if self.screen_mode == ScreenMode::Normal {
            AppView {
                screen_mode: ScreenMode::Adding,
                current_habit: HabitView::blank(),
                ..self
            }
        } else {
            self
        }
    }

    /// Opens `mode` on the habit under the cursor, from normal mode only.
    pub open spec fn after_confirm_mode(self, mode: ScreenMode) -> AppView {
        if self.screen_mode == ScreenMode::Normal && self.selection() is Some {
            let (t, i) = self.selection()->0;
            AppView { screen_mode: mode, target_type: t, target_index: i as usize, ..self }
        } else {
            self
        }
    }

    pub open spec fn after_edit_mode(self, draft: HabitView) -> AppView {
        if self.screen_mode == ScreenMode::Normal && self.selection() is Some {
            AppView { current_habit: draft, ..self.after_confirm_mode(ScreenMode::Editing) }
        } else {
            self
        }
    }

    pub open spec fn after_normal_mode(self) -> AppView {
        if self.screen_mode != ScreenMode::Normal {
            self.back_to_normal()
        } else {
            self
        }
    }

    /// Switches the draft's type, while a form is open.
    pub open spec fn after_toggle_habit_type(self) -> AppView {
        if self.form_open() {
            AppView {
                current_habit: HabitView {
                    habit_type: self.current_habit.habit_type.flipped(),
                    ..self.current_habit
                },
                ..self
            }
        } else {
            self
        }
    }

    /// Appends `c` to the draft's name, while a form is open.
    pub open spec fn after_type_char(self, c: char) -> AppView {
        if self.form_open() {
            AppView {
                current_habit: HabitView {
                    name: self.current_habit.name.push(c),
                    ..self.current_habit
                },
                ..self
            }
        } else {
            self
        }
    }

    /// Drops the last character of the draft's name, while a form is open.
    pub open spec fn after_erase_char(self) -> AppView {
        if self.form_open() && self.current_habit.name.len() > 0 {
            AppView {
                current_habit: HabitView {
                    name: self.current_habit.name.drop_last(),
                    ..self.current_habit
                },
                ..self
            }
        } else {
            self
        }
    }

    /// The habit that an add commits on `today`: the draft, created `today`.
    pub open spec fn new_habit(self, today: i32) -> HabitView {
        HabitView { created: today, ..self.current_habit }
    }

    /// Commits the add form: only in adding mode and with a name.
    pub open spec fn after_add(self, today: i32) -> AppView {
        if self.screen_mode == ScreenMode::Adding && self.current_habit.name.len() > 0 {
            let t = self.current_habit.habit_type;
            self.with_list(t, self.list(t).push(self.new_habit(today))).reclamped().back_to_normal()
        } else {
            self
        }
    }

    /// The target habit with the draft's name and type, its history kept.
    pub open spec fn edited_target(self) -> HabitView {
        HabitView {
            name: self.current_habit.name,
            habit_type: self.current_habit.habit_type,
            ..self.list(self.target_type)[self.target_index as int]
        }
    }

    /// Commits the edit form: only in editing mode and with a name. A change
    /// of type moves the habit to the end of the other list.
    pub open spec fn after_edit(self) -> AppView {
        if self.screen_mode == ScreenMode::Editing && self.current_habit.name.len() > 0 {
            if self.target_in_bounds() {
                let t = self.target_type;
                let i = self.target_index as int;
                let u = self.current_habit.habit_type;
                if u == t {
                    self.with_list(t, self.list(t).update(i, self.edited_target())).back_to_normal()
                } else {
                    let moved = self.with_list(t, self.list(t).remove(i));
                    moved.with_list(
                        u,
                        moved.list(u).push(self.edited_target()),
                    ).reclamped().back_to_normal()
                }
            } else {
                self.back_to_normal()
            }
        } else {
            self
        }
    }

    /// Commits a delete: only in deleting mode.
    pub open spec fn after_delete(self) -> AppView {
        if self.screen_mode == ScreenMode::Deleting {
            if self.target_in_bounds() {
                let t = self.target_type;
                self.with_list(
                    t,
                    self.list(t).remove(self.target_index as int),
                ).reclamped().back_to_normal()
            } else {
                self.back_to_normal()
            }
        } else {
            self
        }
    }

    /// Commits a reset on `today`: only in reset mode.
    pub open spec fn after_reset(self, today: i32) -> AppView {
        if self.screen_mode == ScreenMode::Reset {
            if self.target_in_bounds() {
                let t = self.target_type;
                let i = self.target_index as int;
                self.with_list(t, self.list(t).update(i, self.list(t)[i].reset_on(today))).back_to_normal()
            } else {
                self.back_to_normal()
            }
        } else {
            self
        }
    }

    /// Toggles the habit under the cursor on the current day: only in normal
    /// mode.
    pub open spec fn after_toggle_current(self, today: int) -> AppView {
        if self.screen_mode == ScreenMode::Normal && self.selection() is Some {
            let (t, i) = self.selection()->0;
            let date = self.current_day.spec_resolve(today) as i32;
            self.with_list(t, self.list(t).update(i, self.list(t)[i].toggled(date)))
        } else {
            self
        }
    }

    /// Completions on `date` over both lists.
    pub open spec fn done_on(self, date: i32) -> nat {
        count_done(self.build_habits, date) + count_done(self.avoid_habits, date)
    }

    /// Completions over both lists on the `n` days from `start` on.
    pub open spec fn done_from(self, start: int, n: nat) -> nat
        decreases n,
    {
        if n == 0 {
            0
        } else {
            self.done_from(start, (n - 1) as nat) + self.done_on((start + n - 1) as i32)
        }
    }

    /// The Monday of the week that holds `today`.
    pub open spec fn week_start(today: int) -> int {
        today - spec_days_from_monday(today)
    }
}

fn retitle_at(list: &mut Vec<Habit>, i: usize, name: String, habit_type: HabitType)
    requires
        i < old(list)@.len(),
    ensures
        views(final(list)@) == views(old(list)@).update(
            i as int,
            HabitView { name: name@, habit_type: habit_type, ..old(list)@[i as int]@ },
        ),
{
    let ghost before = views(list@);
    list[i].name = name;
    list[i].habit_type = habit_type;
    assert(views(list@) =~= before.update(
        i as int,
        HabitView { name: name@, habit_type: habit_type, ..before[i as int] },
    ));
}

fn toggle_at(list: &mut Vec<Habit>, i: usize, day: &Day, today: i32)
    requires
        i < old(list)@.len(),
        is_day(today as int),
    ensures
        views(final(list)@) == views(old(list)@).update(
            i as int,
            old(list)@[i as int]@.toggled(day.spec_resolve(today as int) as i32),
        ),
{
    let ghost before = views(list@);
    list[i].toggle_complete(day, today);
    assert(views(list@) =~= before.update(
        i as int,
        before[i as int].toggled(day.spec_resolve(today as int) as i32),
    ));
}

fn reset(list: &mut Vec<Habit>, i: usize, today: i32)
    requires
        i < old(list)@.len(),
    ensures
        views(final(list)@) == views(old(list)@).update(
            i as int,
            old(list)@[i as int]@.reset_on(today),
        ),
{
    let ghost before = views(list@);
    list[i].reset(today);
    assert(views(list@) =~= before.update(i as int, before[i as int].reset_on(today)));
}

fn remove_at(list: &mut Vec<Habit>, i: usize) -> (r: Habit)
    requires
        i < old(list)@.len(),
    ensures
        views(final(list)@) == views(old(list)@).remove(i as int),
        r == old(list)@[i as int],
{
    let ghost before = views(list@);
    let r = list.remove(i);
    assert(views(list@) =~= before.remove(i as int));
    r
}

fn push_habit(list: &mut Vec<Habit>, h: Habit)
    ensures
        views(final(list)@) == views(old(list)@).push(h@),
{
    let ghost before = views(list@);
    let ghost hv = h@;
    list.push(h);
    assert(views(list@) =~= before.push(hv));
}

/// Relies on `String::push`: appends `c` to the end of the string.
#[verifier::external_body]
fn push_char(s: &mut String, c: char)
    ensures
        final(s)@ == old(s)@.push(c),
{
    s.push(c);
}

/// Relies on `String::pop`: removes and returns the last character, or
/// returns `None` and leaves the string alone when it is empty.
#[verifier::external_body]
fn pop_char(s: &mut String) -> (r: Option<char>)
    ensures
        old(s)@.len() == 0 ==> r is None && final(s)@ == old(s)@,
        old(s)@.len() > 0 ==> r == Some(old(s)@.last()) && final(s)@ == old(s)@.drop_last(),
{
    s.pop()
}

fn count_completed(habits: &Vec<Habit>, date: i32) -> (r: usize)
    ensures
        r == count_done(views(habits@), date),
        r <= habits@.len(),
{
    let ghost hs = views(habits@);
    let mut r: usize = 0;
    let mut i: usize = 0;
    while i < habits.len()
        invariant
            hs == views(habits@),
            i <= habits@.len(),
            r <= i,
            r == count_done(hs.take(i as int), date),
        decreases habits@.len() - i,
    {
        assert(hs.take(i as int + 1).drop_last() =~= hs.take(i as int));
        if habits[i].days_completed.contains(&date) {
            r = r + 1;
        }
        i = i + 1;
    }
    assert(hs.take(i as int) =~= hs);
    r
}

impl App {
    pub fn new() -> (r: App)
        ensures
            r@ == (AppView {
                build_habits: Seq::empty(),
                avoid_habits: Seq::empty(),
                counter: Counter { build_counter: 0, avoid_counter: 0, switch: false },
                current_screen: CurrentScreen::Today,
                screen_mode: ScreenMode::Normal,
                current_habit: HabitView::blank(),
                current_day: Day::Today,
                target_type: HabitType::Build,
                target_index: 0,
            }),
            r@.valid(),
    {
        let r = App {
            build_habits: Vec::new(),
            avoid_habits: Vec::new(),
            counter: Counter::new(),
            current_screen: CurrentScreen::Today,
            screen_mode: ScreenMode::Normal,
            current_habit: Habit::default(),
            current_day: Day::Today,
            target_type: HabitType::Build,
            target_index: 0,
        };
        assert(r@.build_habits =~= Seq::empty());
        assert(r@.avoid_habits =~= Seq::empty());
        r
    }

    /// Puts `build_habits` and `avoid_habits` in place of the lists, brings
    /// the cursor within them and returns to normal mode. The engine is then
    /// valid exactly when each list holds habits of its own type.
    pub fn replace_habits(&mut self, build_habits: Vec<Habit>, avoid_habits: Vec<Habit>)
        ensures
            final(self)@ == (AppView {
                build_habits: views(build_habits@),
                avoid_habits: views(avoid_habits@),
                ..old(self)@
            }).reclamped().back_to_normal(),
            final(self)@.valid() <==> final(self)@.lists_typed(),
    {
        self.build_habits = build_habits;
        self.avoid_habits = avoid_habits;
        self.counter.clamp(self.build_habits.len(), self.avoid_habits.len());
        self.screen_mode = ScreenMode::Normal;
        self.current_habit = Habit::default();
    }

    /// Cycles the page: today, stats, heatmap, and back to today.
    pub fn toggle_page(&mut self)
        ensures
            final(self)@ == old(self)@.after_toggle_page(),
    {
        self.current_screen = match self.current_screen {
            CurrentScreen::Today => CurrentScreen::Stats,
            CurrentScreen::Stats => CurrentScreen::Heatmap,
            CurrentScreen::Heatmap => CurrentScreen::Today,
        };
    }

    /// Switches the day that statuses and toggles refer to.
    pub fn toggle_day(&mut self)
        ensures
            final(self)@ == old(self)@.after_toggle_day(),
    {
        self.current_day = match self.current_day {
            Day::Today => Day::Yesterday,
            Day::Yesterday => Day::Today,
        };
    }

    pub fn increment_habits_counter(&mut self)
        ensures
            final(self)@ == old(self)@.after_increment(),
            old(self)@.valid() ==> final(self)@.valid(),
    {
        self.counter.increment(self.build_habits.len(), self.avoid_habits.len());
    }

    pub fn decrement_habits_counter(&mut self)
        ensures
            final(self)@ == old(self)@.after_decrement(),
            old(self)@.valid() ==> final(self)@.valid(),
    {
        self.counter.decrement(self.build_habits.len());
    }

    /// The list and position under the cursor, if the focused list has a
    /// habit there.
    pub fn selected(&self) -> (r: Option<(HabitType, usize)>)
        ensures
            r matches Some(p) ==> self@.selection() == Some((p.0, p.1 as int)),
            r is None ==> self@.selection() is None,
    {
        if self.counter.switch {
            if self.counter.avoid_counter < self.avoid_habits.len() {
                Some((HabitType::Avoid, self.counter.avoid_counter))
            } else {
                None
            }
        } else if self.counter.build_counter < self.build_habits.len() {
            Some((HabitType::Build, self.counter.build_counter))
        } else {
            None
        }
    }

    /// The habit under the cursor.
    pub fn get_selected_habit(&self) -> (r: Option<&Habit>)
        ensures
            r is None <==> self@.selection() is None,
            r matches Some(h) ==> (match self@.selection() {
                Some((t, i)) => h@ == self@.list(t)[i],
                None => false,
            }),
    {
        match self.selected() {
            Some((HabitType::Build, i)) => Some(&self.build_habits[i]),
            Some((HabitType::Avoid, i)) => Some(&self.avoid_habits[i]),
            None => None,
        }
    }

    pub fn toggle_add_mode(&mut self)
        ensures
            final(self)@ == old(self)@.after_add_mode(),
            old(self)@.valid() ==> final(self)@.valid(),
    {
        if self.screen_mode == ScreenMode::Normal {
            self.screen_mode = ScreenMode::Adding;
            self.current_habit = Habit::default();
        }
    }

    fn open_confirm_mode(&mut self, mode: ScreenMode)
        ensures
            final(self)@ == old(self)@.after_confirm_mode(mode),
            old(self)@.valid() ==> final(self)@.valid(),
    {
        if self.screen_mode == ScreenMode::Normal {
            match self.selected() {
                Some((t, i)) => {
                    self.screen_mode = mode;
                    self.target_type = t;
                    self.target_index = i;
                },
                None => {},
            }
        }
    }

    /// Opens the edit form on the habit under the cursor, with `habit` as the
    /// draft.
    pub fn toggle_edit_mode(&mut self, habit: Habit)
        requires
            old(self)@.screen_mode == ScreenMode::Normal ==> match old(self)@.selection() {
                Some((t, i)) => habit@ == old(self)@.list(t)[i],
                None => true,
            },
        ensures
            final(self)@ == old(self)@.after_edit_mode(habit@),
            old(self)@.valid() ==> final(self)@.valid(),
    {
        if self.screen_mode == ScreenMode::Normal && self.selected().is_some() {
            self.open_confirm_mode(ScreenMode::Editing);
            self.current_habit = habit;
        }
    }

    /// Asks to confirm the deletion of the habit under the cursor.
    pub fn toggle_delete_mode(&mut self)
        ensures
            final(self)@ == old(self)@.after_confirm_mode(ScreenMode::Deleting),
            old(self)@.valid() ==> final(self)@.valid(),
    {
        self.open_confirm_mode(ScreenMode::Deleting);
    }

    /// Asks to confirm the reset of the habit under the cursor.
    pub fn toggle_reset_mode(&mut self)
        ensures
            final(self)@ == old(self)@.after_confirm_mode(ScreenMode::Reset),
            old(self)@.valid() ==> final(self)@.valid(),
    {
        self.open_confirm_mode(ScreenMode::Reset);
    }

    /// Leaves any form or confirmation without committing it.
    pub fn toggle_normal_mode(&mut self)
        ensures
            final(self)@ == old(self)@.after_normal_mode(),
            old(self)@.valid() ==> final(self)@.valid(),
    {
        if self.screen_mode != ScreenMode::Normal {
            self.screen_mode = ScreenMode::Normal;
            self.current_habit = Habit::default();
        }
    }

    /// Switches the draft between build and avoid.
    pub fn toggle_habit_type(&mut self)
        ensures
            final(self)@ == old(self)@.after_toggle_habit_type(),
            old(self)@.valid() ==> final(self)@.valid(),
    {
        if self.screen_mode == ScreenMode::Adding || self.screen_mode == ScreenMode::Editing {
            self.current_habit.habit_type = match self.current_habit.habit_type {
                HabitType::Build => HabitType::Avoid,
                HabitType::Avoid => HabitType::Build,
            };
        }
    }

    /// Appends `c` to the draft's name, while a form is open.
    pub fn type_char(&mut self, c: char)
        ensures
            final(self)@ == old(self)@.after_type_char(c),
            old(self)@.valid() ==> final(self)@.valid(),
    {
        if self.screen_mode == ScreenMode::Adding || self.screen_mode == ScreenMode::Editing {
            push_char(&mut self.current_habit.name, c);
        }
    }

    /// Drops the last character of the draft's name, while a form is open.
    pub fn erase_char(&mut self)
        ensures
            final(self)@ == old(self)@.after_erase_char(),
            old(self)@.valid() ==> final(self)@.valid(),
    {
        if self.screen_mode == ScreenMode::Adding || self.screen_mode == ScreenMode::Editing {
            pop_char(&mut self.current_habit.name);
        }
    }
    /// Commits the add form on `today`: the draft, created `today`, goes to
    /// the end of the list of its type.
    pub fn add_habit(&mut self, today: i32)
        ensures
            final(self)@ == old(self)@.after_add(today),
            old(self)@.valid() ==> final(self)@.valid(),
    {
        if self.screen_mode == ScreenMode::Adding && !self.current_habit.name.as_str().is_empty() {
            let mut h = self.current_habit.clone();
            h.created = today;
            let ghost hv = h@;
            let ghost before = self@;
            assert(hv == before.new_habit(today));
            match self.current_habit.habit_type {
                HabitType::Build => {
                    self.build_habits.push(h);
                    assert(self@.build_habits =~= before.build_habits.push(hv));
                },
                HabitType::Avoid => {
                    self.avoid_habits.push(h);
                    assert(self@.avoid_habits =~= before.avoid_habits.push(hv));
                },
            }
            self.counter.clamp(self.build_habits.len(), self.avoid_habits.len());
            self.screen_mode = ScreenMode::Normal;
            self.current_habit = Habit::default();
        }
    }

    fn target_in_bounds(&self) -> (r: bool)
        ensures
            r == self@.target_in_bounds(),
    {
        match self.target_type {
            HabitType::Build => self.target_index < self.build_habits.len(),
            HabitType::Avoid => self.target_index < self.avoid_habits.len(),
        }
    }

    /// Commits the edit form: the target habit takes the draft's name and
    /// type and keeps its history; a change of type moves it to the end of
    /// the other list.
    pub fn edit_habit(&mut self)
        ensures
            final(self)@ == old(self)@.after_edit(),
            old(self)@.valid() ==> final(self)@.valid(),
    {
        if self.screen_mode == ScreenMode::Editing && !self.current_habit.name.as_str().is_empty() {
            if self.target_in_bounds() {
                let t = self.target_type;
                let i = self.target_index;
                let u = self.current_habit.habit_type;
                let name = self.current_habit.name.clone();
                if u == t {
                    match t {
                        HabitType::Build => retitle_at(&mut self.build_habits, i, name, u),
                        HabitType::Avoid => retitle_at(&mut self.avoid_habits, i, name, u),
                    }
                } else {
                    let mut h = match t {
                        HabitType::Build => remove_at(&mut self.build_habits, i),
                        HabitType::Avoid => remove_at(&mut self.avoid_habits, i),
                    };
                    h.name = name;
                    h.habit_type = u;
                    match u {
                        HabitType::Build => push_habit(&mut self.build_habits, h),
                        HabitType::Avoid => push_habit(&mut self.avoid_habits, h),
                    }
                    self.counter.clamp(self.build_habits.len(), self.avoid_habits.len());
                }
            }
            self.screen_mode = ScreenMode::Normal;
            self.current_habit = Habit::default();
        }
    }

    /// Commits a delete: the target habit leaves its list and the cursor is
    /// brought back within the lists.
    pub fn delete_current_habit(&mut self)
        ensures
            final(self)@ == old(self)@.after_delete(),
            old(self)@.valid() ==> final(self)@.valid(),
    {
        if self.screen_mode == ScreenMode::Deleting {
            if self.target_in_bounds() {
                let i = self.target_index;
                match self.target_type {
                    HabitType::Build => {
                        remove_at(&mut self.build_habits, i);
                    },
                    HabitType::Avoid => {
                        remove_at(&mut self.avoid_habits, i);
                    },
                }
                self.counter.clamp(self.build_habits.len(), self.avoid_habits.len());
            }
            self.screen_mode = ScreenMode::Normal;
            self.current_habit = Habit::default();
        }
    }

    /// Commits a reset on `today`: the target habit loses its history and
    /// counts as created `today`.
    pub fn reset_current_habit(&mut self, today: i32)
        ensures
            final(self)@ == old(self)@.after_reset(today),
            old(self)@.valid() ==> final(self)@.valid(),
    {
        if self.screen_mode == ScreenMode::Reset {
            if self.target_in_bounds() {
                let i = self.target_index;
                match self.target_type {
                    HabitType::Build => reset(&mut self.build_habits, i, today),
                    HabitType::Avoid => reset(&mut self.avoid_habits, i, today),
                }
            }
            self.screen_mode = ScreenMode::Normal;
            self.current_habit = Habit::default();
        }
    }

    /// Toggles the habit under the cursor on the selected day, when the
    /// current date is `today`.
    pub fn toggle_current_habit(&mut self, today: i32)
        requires
            is_day(today as int),
        ensures
            final(self)@ == old(self)@.after_toggle_current(today as int),
            old(self)@.valid() ==> final(self)@.valid(),
    {
        if self.screen_mode == ScreenMode::Normal {
            let day = self.current_day;
            match self.selected() {
                Some((HabitType::Build, i)) => toggle_at(&mut self.build_habits, i, &day, today),
                Some((HabitType::Avoid, i)) => toggle_at(&mut self.avoid_habits, i, &day, today),
                None => {},
            }
        }
    }

    /// Completions on `date` over both lists.
    pub fn completed_on(&self, date: i32) -> (r: u128)
        ensures
            r == self@.done_on(date),
            r <= self@.total(),
    {
        count_completed(&self.build_habits, date) as u128 + count_completed(
            &self.avoid_habits,
            date,
        ) as u128
    }

    /// The progress line for the date `day` names when the current date is
    /// `today`: habits completed that day out of all habits.
    pub fn check_todays_progress(&self, day: &Day, today: i32) -> (r: String)
        requires
            is_day(today as int),
        ensures
            r@ == spec_progress_text(
                self@.done_on(day.spec_resolve(today as int) as i32),
                self@.total(),
            ),
    {
        let date = day.resolve_date(today);
        let done = self.completed_on(date);
        let total = self.build_habits.len() as u128 + self.avoid_habits.len() as u128;
        progress_text(done, total)
    }

    /// The progress line for the week (Monday to Sunday) that holds `today`:
    /// completions over its seven days out of seven per habit.
    pub fn check_weeks_progress(&self, today: i32) -> (r: String)
        requires
            is_day(today as int),
        ensures
            r@ == spec_progress_text(
                self@.done_from(AppView::week_start(today as int), 7),
                7 * self@.total(),
            ),
    {
        let start = today - days_from_monday(today) as i32;
        let total = self.build_habits.len() as u128 + self.avoid_habits.len() as u128;
        let mut done: u128 = 0;
        let mut k: i32 = 0;
        while k < 7
            invariant
                0 <= k <= 7,
                start as int == AppView::week_start(today as int),
                is_day(today as int),
                total == self@.total(),
                done == self@.done_from(start as int, k as nat),
                total <= 2 * usize::MAX,
                done <= k * total,
            decreases 7 - k,
        {
            let d = self.completed_on(start + k);
            assert(done + d <= (k + 1) * total) by (nonlinear_arith)
                requires
                    done <= k * total,
                    d <= total,
            ;
            assert((k + 1) * total <= 7 * total) by (nonlinear_arith)
                requires
                    k < 7,
            ;
            done = done + d;
            k = k + 1;
        }
        progress_text(done, 7 * total)
    }

}

/// Committing an edit that changes a habit's type moves the habit to the end
/// of the other list with its completion history and creation date as they
/// were, and takes it out of its old list.
pub proof fn lemma_type_change_keeps_history(v: AppView)
    requires
        v.screen_mode == ScreenMode::Editing,
        v.current_habit.name.len() > 0,
        v.target_in_bounds(),
        v.current_habit.habit_type != v.target_type,
    ensures
        ({
            let t = v.target_type;
            let u = v.current_habit.habit_type;
            let old_habit = v.list(t)[v.target_index as int];
            let r = v.after_edit();
            &&& r.list(t) == v.list(t).remove(v.target_index as int)
            &&& r.list(u).len() == v.list(u).len() + 1
            &&& r.list(u).drop_last() == v.list(u)
            &&& r.list(u).last().days_completed == old_habit.days_completed
            &&& r.list(u).last().created == old_habit.created
            &&& r.list(u).last().name == v.current_habit.name
            &&& r.list(u).last().habit_type == u
            &&& r.screen_mode == ScreenMode::Normal
        }),
{
    let t = v.target_type;
    let u = v.current_habit.habit_type;
    let r = v.after_edit();
    let moved = v.with_list(t, v.list(t).remove(v.target_index as int));
    assert(moved.list(u) == v.list(u));
    assert(r.list(u).drop_last() =~= v.list(u));
}

/// Day number of 2025-06-12, the creation date of the example habits.
pub const EXAMPLE_DAY: i32 = 739_414;

pub open spec fn example_habit(name: Seq<char>, habit_type: HabitType) -> HabitView {
    HabitView { name, habit_type, days_completed: Set::empty(), created: EXAMPLE_DAY }
}

fn new_example(name: &str, habit_type: HabitType) -> (r: Habit)
    ensures
        r@ == example_habit(name@, habit_type),
{
    Habit {
        name: name.to_owned(),
        habit_type,
        days_completed: HashSet::new(),
        created: EXAMPLE_DAY,
    }
}

/// The habits a first start offers when nothing has been saved yet: two to
/// build and two to avoid, none checked in.
pub fn example_habits() -> (r: (Vec<Habit>, Vec<Habit>))
    ensures
        views(r.0@) == seq![
            example_habit("Morning run"@, HabitType::Build),
            example_habit("Read 10 pages"@, HabitType::Build),
        ],
        views(r.1@) == seq![
            example_habit("Social media scrolling"@, HabitType::Avoid),
            example_habit("Late-night snacking"@, HabitType::Avoid),
        ],
{
    let mut build: Vec<Habit> = Vec::new();
    push_habit(&mut build, new_example("Morning run", HabitType::Build));
    push_habit(&mut build, new_example("Read 10 pages", HabitType::Build));
    let mut avoid: Vec<Habit> = Vec::new();
    push_habit(&mut avoid, new_example("Social media scrolling", HabitType::Avoid));
    push_habit(&mut avoid, new_example("Late-night snacking", HabitType::Avoid));
    assert(views(build@) =~= seq![
        example_habit("Morning run"@, HabitType::Build),
        example_habit("Read 10 pages"@, HabitType::Build),
    ]);
    assert(views(avoid@) =~= seq![
        example_habit("Social media scrolling"@, HabitType::Avoid),
        example_habit("Late-night snacking"@, HabitType::Avoid),
    ]);
    (build, avoid)
}

} // verus!
