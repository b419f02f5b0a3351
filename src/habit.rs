use std::collections::HashSet;

use vstd::prelude::*;

use crate::calendar::{is_day, Day, UNIX_EPOCH_DAY};

verus! {

broadcast use vstd::std_specs::hash::group_hash_axioms;

/// Whether a habit was completed on the day asked about.
#[derive(Clone, Copy, Debug, PartialEq, Eq, Structural)]
pub enum HabitStatus {
    Complete,
    InComplete,
}

impl HabitStatus {
    pub fn emoji(&self) -> (r: &'static str)
        ensures
            r@ == (match self {
                HabitStatus::Complete => "✅"@,
                HabitStatus::InComplete => "⚪"@,
            }),
    {
        match self {
            HabitStatus::Complete => "✅",
            HabitStatus::InComplete => "⚪",
        }
    }
}

/// How well a habit has taken root, from its check-in rate.
#[derive(Clone, Copy, Debug, PartialEq, Eq, Structural)]
pub enum HabitPattern {
    Chaotic,
    Struggling,
    Developing,
    Established,
    Mastered,
}

impl HabitPattern {
    pub fn string(&self) -> (r: &'static str)
        ensures
            r@ == (match self {
                HabitPattern::Chaotic => "Chaotic 🌪️"@,
                HabitPattern::Struggling => "Struggling  😤"@,
                HabitPattern::Developing => "Developing 🌱"@,
                HabitPattern::Established => "Established ⚖️"@,
                HabitPattern::Mastered => "Mastered 🎯"@,
            }),
    {
        match self {
            HabitPattern::Chaotic => "Chaotic 🌪️",
            HabitPattern::Struggling => "Struggling  😤",
            HabitPattern::Developing => "Developing 🌱",
            HabitPattern::Established => "Established ⚖️",
            HabitPattern::Mastered => "Mastered 🎯",
        }
    }
}

/// A habit to reinforce, or one to suppress.
#[derive(Clone, Copy, Debug, PartialEq, Eq, Structural)]
pub enum HabitType {
    Build,
    Avoid,
}

impl HabitType {
    pub open spec fn flipped(self) -> HabitType {
        match self {
            HabitType::Build => HabitType::Avoid,
            HabitType::Avoid => HabitType::Build,
        }
    }
}

/// A habit: its name, its kind, the dates on which it was completed and
/// the date it was created (or last reset).
#[derive(Debug)]
pub struct Habit {
    pub name: String,
    pub habit_type: HabitType,
    pub days_completed: HashSet<i32>,
    pub created: i32,
}

/// The mathematical value of a [`Habit`].
pub struct HabitView {
    pub name: Seq<char>,
    pub habit_type: HabitType,
    pub days_completed: Set<i32>,
    pub created: i32,
}

impl View for Habit {
    type V = HabitView;

    open spec fn view(&self) -> HabitView {
        HabitView {
            name: self.name@,
            habit_type: self.habit_type,
            days_completed: self.days_completed@,
            created: self.created,
        }
    }
}

/// The pattern that a check-in score in `0..` gives a habit that is
/// `days` days old: the score is clamped to `1..=5`, and a perfect score is
/// only trusted once the habit is a week old.
pub open spec fn pattern_of(score: int, days: int) -> HabitPattern {
    if score <= 1 {
        HabitPattern::Chaotic
    } else if score == 2 {
        HabitPattern::Struggling
    } else if score == 3 {
        HabitPattern::Developing
    } else if score == 4 {
        HabitPattern::Established
    } else if days < 7 {
        HabitPattern::Developing
    } else {
        HabitPattern::Mastered
    }
}

impl HabitView {
    /// The draft that an empty form starts from.
    pub open spec fn blank() -> HabitView {
        HabitView {
            name: Seq::empty(),
            habit_type: HabitType::Build,
            days_completed: Set::empty(),
            created: UNIX_EPOCH_DAY,
        }
    }

    pub open spec fn is_complete_on(self, date: i32) -> bool {
        self.days_completed.contains(date)
    }

    /// The habit with its completion on `date` flipped.
    pub open spec fn toggled(self, date: i32) -> HabitView {
        HabitView {
            days_completed: if self.days_completed.contains(date) {
                self.days_completed.remove(date)
            } else {
                self.days_completed.insert(date)
            },
            ..self
        }
    }

    /// The habit with its history wiped and its creation moved to `today`.
    pub open spec fn reset_on(self, today: i32) -> HabitView {
        HabitView { days_completed: Set::empty(), created: today, ..self }
    }

    /// Whole days from creation to `today`, at least 1.
    pub open spec fn days_since_creation(self, today: int) -> int {
        if today - self.created >= 1 {
            today - self.created
        } else {
            1
        }
    }

    /// Check-ins per day since creation, times 5, rounded half up.
    pub open spec fn check_in_score(self, today: int) -> int {
        let days = self.days_since_creation(today);
        (10 * self.days_completed.len() + days) / (2 * days)
    }

    /// The check-in score capped at 5.
    pub open spec fn raw_pattern(self, today: int) -> int {
        let s = self.check_in_score(today);
        if s > 5 {
            5
        } else {
            s
        }
    }

    pub open spec fn pattern(self, today: int) -> HabitPattern {
        pattern_of(self.check_in_score(today), self.days_since_creation(today))
    }
}

/// A set holding the same dates as `days`.
fn copy_days(days: &HashSet<i32>) -> (r: HashSet<i32>)
    ensures
        r@ == days@,
{
    let mut r: HashSet<i32> = HashSet::new();
    let ghost all = vstd::std_specs::iter::IteratorSpec::remaining(
        &vstd::std_specs::hash::spec_hash_keys_iter(days),
    ).unref();
    for d in it: days.iter()
        invariant
            it.seq().unref() == all,
            all.to_set() == days@,
            forall|x: i32| r@.contains(x) <==> all.take(it.index() as int).contains(x),
            it.index() == all.len() ==> r@ == days@,
    {
        let ghost k = it.index();
        let ghost before = r@;
        r.insert(*d);
        assert forall|x: i32| r@.contains(x) <==> all.take(k + 1).contains(x) by {
            if x == *d {
                assert(all.take(k + 1)[k] == x);
            }
            if before.contains(x) {
                let j = choose|j: int| 0 <= j < k && #[trigger] all.take(k)[j] == x;
                assert(all.take(k + 1)[j] == x);
            }
            if all.take(k + 1).contains(x) && x != *d {
                let j = choose|j: int| 0 <= j < k + 1 && #[trigger] all.take(k + 1)[j] == x;
                assert(all.take(k)[j] == x);
            }
        }
        assert(k + 1 == all.len() ==> all.take(k + 1) =~= all);
        assert(k + 1 == all.len() ==> r@ =~= days@);
    }
    r
}

impl Clone for Habit {
    fn clone(&self) -> (r: Habit)
        ensures
            r@ == self@,
    {
        Habit {
            name: self.name.clone(),
            habit_type: self.habit_type,
            days_completed: copy_days(&self.days_completed),
            created: self.created,
        }
    }
}

impl Default for Habit {
    fn default() -> (r: Habit)
        ensures
            r@ == HabitView::blank(),
    {
        Habit {
            name: String::new(),
            habit_type: HabitType::Build,
            days_completed: HashSet::new(),
            created: UNIX_EPOCH_DAY,
        }
    }
}

impl Habit {
    /// Whether the habit was completed on the date `day` names, when the
    /// current date is `today`.
    pub fn check_status(&self, day: &Day, today: i32) -> (r: HabitStatus)
        requires
            is_day(today as int),
        ensures
            r == (if self@.is_complete_on(day.spec_resolve(today as int) as i32) {
                HabitStatus::Complete
            } else {
                HabitStatus::InComplete
            }),
    {
        let date = day.resolve_date(today);
        if self.days_completed.contains(&date) {
            HabitStatus::Complete
        } else {
            HabitStatus::InComplete
        }
    }

    /// Marks the habit done on the date `day` names, or undoes that mark.
    pub fn toggle_complete(&mut self, day: &Day, today: i32)
        requires
            is_day(today as int),
        ensures
            final(self)@ == old(self)@.toggled(day.spec_resolve(today as int) as i32),
    {
        let date = day.resolve_date(today);
        let ghost before = self.days_completed@;
        if !self.days_completed.insert(date) {
            assert(before.insert(date) =~= before);
            self.days_completed.remove(&date);
        }
    }

    /// Wipes the completion history and makes `today` the creation date.
    pub fn reset(&mut self, today: i32)
        ensures
            final(self)@ == old(self)@.reset_on(today),
    {
        self.days_completed.clear();
        self.created = today;
    }

    pub fn days_since_creation(&self, today: i32) -> (r: i64)
        ensures
            r as int == self@.days_since_creation(today as int),
    {
        let d = today as i64 - self.created as i64;
        if d >= 1 {
            d
        } else {
            1
        }
    }

    fn check_in_score(&self, today: i32) -> (r: u128)
        ensures
            r as int == self@.check_in_score(today as int),
    {
        let days = self.days_since_creation(today) as u128;
        let check_ins = self.days_completed.len() as u128;
        (10 * check_ins + days) / (2 * days)
    }

    /// The check-in score capped at 5, when the current date is `today`.
    pub fn check_raw_pattern(&self, today: i32) -> (r: i32)
        ensures
            r as int == self@.raw_pattern(today as int),
            0 <= r <= 5,
    {
        let s = self.check_in_score(today);
        if s > 5 {
            5
        } else {
            s as i32
        }
    }

    /// The habit's pattern when the current date is `today`.
    pub fn check_pattern(&self, today: i32) -> (r: HabitPattern)
        ensures
            r == self@.pattern(today as int),
    {
        let days = self.days_since_creation(today);
        let s = self.check_in_score(today);
        if s <= 1 {
            HabitPattern::Chaotic
        } else if s == 2 {
            HabitPattern::Struggling
        } else if s == 3 {
            HabitPattern::Developing
        } else if s == 4 {
            HabitPattern::Established
        } else if days < 7 {
            HabitPattern::Developing
        } else {
            HabitPattern::Mastered
        }
    }

}

/// Toggling a habit twice on the same date gives back the habit it was:
/// in particular the completion set is restored exactly.
pub proof fn lemma_toggle_twice_restores(h: HabitView, date: i32)
    ensures
        h.toggled(date).toggled(date) == h,
{
    if h.days_completed.contains(date) {
        assert(h.days_completed.remove(date).insert(date) =~= h.days_completed);
    } else {
        assert(h.days_completed.insert(date).remove(date) =~= h.days_completed);
    }
}

/// The creation date of each habit, in list order.
pub open spec fn creation_days(habits: Seq<Habit>) -> Seq<int> {
    habits.map_values(|h: Habit| h.created as int)
}

/// `i` is the last position holding the largest value of `s`.
pub open spec fn is_last_max(s: Seq<int>, i: int) -> bool {
    &&& 0 <= i < s.len()
    &&& forall|j: int| 0 <= j < s.len() ==> s[j] <= s[i]
    &&& forall|j: int| i < j < s.len() ==> s[j] < s[i]
}

/// The raw pattern score of each habit, in list order.
pub open spec fn raw_scores(habits: Seq<Habit>, today: int) -> Seq<int> {
    habits.map_values(|h: Habit| h@.raw_pattern(today))
}

/// `i` is the first position holding the largest value of `s`.
pub open spec fn is_first_max(s: Seq<int>, i: int) -> bool {
    &&& 0 <= i < s.len()
    &&& forall|j: int| 0 <= j < s.len() ==> s[j] <= s[i]
    &&& forall|j: int| 0 <= j < i ==> s[j] < s[i]
}

/// `i` is the first position holding the smallest value of `s`.
pub open spec fn is_first_min(s: Seq<int>, i: int) -> bool {
    &&& 0 <= i < s.len()
    &&& forall|j: int| 0 <= j < s.len() ==> s[i] <= s[j]
    &&& forall|j: int| 0 <= j < i ==> s[i] < s[j]
}

/// The habit with the highest raw pattern score when the current date is
/// `today`; the first of them on a tie, and none for an empty list.
pub fn find_best_habit(habits: &[Habit], today: i32) -> (r: Option<&Habit>)
    ensures
        r is None <==> habits@.len() == 0,
        r matches Some(h) ==> exists|i: int|
            is_first_max(raw_scores(habits@, today as int), i) && *h == habits@[i],
{
    if habits.len() == 0 {
        return None;
    }
    let ghost s = raw_scores(habits@, today as int);
    let mut best: usize = 0;
    let mut best_score = habits[0].check_raw_pattern(today);
    let mut i: usize = 1;
    while i < habits.len()
        invariant
            s == raw_scores(habits@, today as int),
            1 <= i <= habits@.len(),
            best < i,
            best_score as int == s[best as int],
            forall|j: int| 0 <= j < i ==> s[j] <= s[best as int],
            forall|j: int| 0 <= j < best ==> s[j] < s[best as int],
        decreases habits@.len() - i,
    {
        let score = habits[i].check_raw_pattern(today);
        if score > best_score {
            best = i;
            best_score = score;
        }
        i = i + 1;
    }
    assert(is_first_max(s, best as int));
    Some(&habits[best])
}

/// The habit with the lowest raw pattern score when the current date is
/// `today`; the first of them on a tie, and none for an empty list.
pub fn find_worst_habit(habits: &[Habit], today: i32) -> (r: Option<&Habit>)
    ensures
        r is None <==> habits@.len() == 0,
        r matches Some(h) ==> exists|i: int|
            is_first_min(raw_scores(habits@, today as int), i) && *h == habits@[i],
{
    if habits.len() == 0 {
        return None;
    }
    let ghost s = raw_scores(habits@, today as int);
    let mut worst: usize = 0;
    let mut worst_score = habits[0].check_raw_pattern(today);
    let mut i: usize = 1;
    while i < habits.len()
        invariant
            s == raw_scores(habits@, today as int),
            1 <= i <= habits@.len(),
            worst < i,
            worst_score as int == s[worst as int],
            forall|j: int| 0 <= j < i ==> s[worst as int] <= s[j],
            forall|j: int| 0 <= j < worst ==> s[worst as int] < s[j],
        decreases habits@.len() - i,
    {
        let score = habits[i].check_raw_pattern(today);
        if score < worst_score {
            worst = i;
            worst_score = score;
        }
        i = i + 1;
    }
    assert(is_first_min(s, worst as int));
    Some(&habits[worst])
}

/// How many of `habits` have pattern `p` when the current date is `today`.
pub open spec fn count_pattern(habits: Seq<Habit>, p: HabitPattern, today: int) -> nat
    decreases habits.len(),
{
    if habits.len() == 0 {
        0
    } else {
        count_pattern(habits.drop_last(), p, today) + if habits.last()@.pattern(today) == p {
            1nat
        } else {
            0nat
        }
    }
}

/// How many of `habits` have pattern `pattern` when the current date is
/// `today`.
pub fn count_by_pattern(habits: &[Habit], pattern: HabitPattern, today: i32) -> (r: usize)
    ensures
        r == count_pattern(habits@, pattern, today as int),
{
    let mut r: usize = 0;
    let mut i: usize = 0;
    while i < habits.len()
        invariant
            i <= habits@.len(),
            r <= i,
            r == count_pattern(habits@.take(i as int), pattern, today as int),
        decreases habits@.len() - i,
    {
        assert(habits@.take(i as int + 1).drop_last() =~= habits@.take(i as int));
        if habits[i].check_pattern(today) == pattern {
            r = r + 1;
        }
        i = i + 1;
    }
    assert(habits@.take(i as int) =~= habits@);
    r
}

/// The most recently created habit: the last of them on a tie, none for an
/// empty list.
pub fn find_newest_habit(habits: &[Habit]) -> (r: Option<&Habit>)
    ensures
        r is None <==> habits@.len() == 0,
        r matches Some(h) ==> exists|i: int|
            is_last_max(creation_days(habits@), i) && *h == habits@[i],
{
    if habits.len() == 0 {
        return None;
    }
    let ghost s = creation_days(habits@);
    let mut best: usize = 0;
    let mut i: usize = 1;
    while i < habits.len()
        invariant
            s == creation_days(habits@),
            1 <= i <= habits@.len(),
            best < i,
            forall|j: int| 0 <= j < i ==> s[j] <= s[best as int],
            forall|j: int| best < j < i ==> s[j] < s[best as int],
        decreases habits@.len() - i,
    {
        if habits[i].created >= habits[best].created {
            best = i;
        }
        i = i + 1;
    }
    assert(is_last_max(s, best as int));
    Some(&habits[best])
}

/// The earliest created habit: the first of them on a tie, none for an
/// empty list.
pub fn find_oldest_habit(habits: &[Habit]) -> (r: Option<&Habit>)
    ensures
        r is None <==> habits@.len() == 0,
        r matches Some(h) ==> exists|i: int|
            is_first_min(creation_days(habits@), i) && *h == habits@[i],
{
    if habits.len() == 0 {
        return None;
    }
    let ghost s = creation_days(habits@);
    let mut best: usize = 0;
    let mut i: usize = 1;
    while i < habits.len()
        invariant
            s == creation_days(habits@),
            1 <= i <= habits@.len(),
            best < i,
            forall|j: int| 0 <= j < i ==> s[best as int] <= s[j],
            forall|j: int| 0 <= j < best ==> s[best as int] < s[j],
        decreases habits@.len() - i,
    {
        if habits[i].created < habits[best].created {
            best = i;
        }
        i = i + 1;
    }
    assert(is_first_min(s, best as int));
    Some(&habits[best])
}

} // verus!
