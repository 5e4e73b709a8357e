//! The decisions of the command-line commands: parsing horizons, days and
//! weeks, choosing teams, projects, states and labels, and what week generation
//! does with each template.

use vstd::prelude::*;
use vstd::string::*;
use crate::calendar::{
    Date, Weekday, day_in_range, parse_ymd_day, weekday_from_index, weekday_index, weekday_of_day,
};
use crate::models::{
    CreateTaskInput, DaytimeBlock, Label, Project, Task, TaskState, Team, TimeHorizon,
    UpdateTaskInput, block_name, horizon_name,
};
use crate::templates::{
    TaskTemplate, TemplateStore, all_templates, applies_on, applying_on, derefs, generated_in,
    history_view, law_applying_on, parse_weekday, weekday_from_text, weekday_project_name,
};
use crate::calendar::iso_date_text;
use crate::text::{ascii_upper_seq, lemma_upper_then_lower, first_index, lemma_first_index, lemma_first_index_step, ascii_lower_seq, eq_ignore_ascii_case, join_strings, join_with, lowercase, str_equal, string_views, to_lowercase};

verus! {

// ---------------------------------------------------------------------------
// Horizons
// ---------------------------------------------------------------------------

/// The horizon that a lower-cased word names.
pub open spec fn horizon_word(s: Seq<char>) -> Option<TimeHorizon> {
    if s == "annual"@ || s == "yearly"@ || s == "roczne"@ {
        Some(TimeHorizon::Annual)
    } else if s == "monthly"@ || s == "miesięczne"@ || s == "miesieczne"@ {
        Some(TimeHorizon::Monthly)
    } else if s == "weekly"@ || s == "tygodniowe"@ {
        Some(TimeHorizon::Weekly)
    } else if s == "daily"@ || s == "dzienne"@ {
        Some(TimeHorizon::Daily)
    } else {
        None
    }
}

/// Parses a horizon name given on the command line, ignoring case.
pub fn parse_horizon(s: &str) -> (res: Option<TimeHorizon>)
    ensures
        res == horizon_word(lowercase(s@)),
{
    let lower = to_lowercase(s);
    horizon_from_word(lower.as_str())
}

/// The horizon that an already lower-cased word names.
pub fn horizon_from_word(l: &str) -> (res: Option<TimeHorizon>)
    ensures
        res == horizon_word(l@),
{
    if str_equal(l, "annual") || str_equal(l, "yearly") || str_equal(l, "roczne") {
        Some(TimeHorizon::Annual)
    } else if str_equal(l, "monthly") || str_equal(l, "miesięczne") || str_equal(l, "miesieczne") {
        Some(TimeHorizon::Monthly)
    } else if str_equal(l, "weekly") || str_equal(l, "tygodniowe") {
        Some(TimeHorizon::Weekly)
    } else if str_equal(l, "daily") || str_equal(l, "dzienne") {
        Some(TimeHorizon::Daily)
    } else {
        None
    }
}

// ---------------------------------------------------------------------------
// Days and weeks
// ---------------------------------------------------------------------------

/// The Monday of the week of day `n`.
pub open spec fn monday_of(n: int) -> int {
    n - weekday_index(weekday_of_day(n))
}

/// The first day of the week that a `--week` argument names: "current"/"this"
/// (any case) is this week's Monday, "next" the Monday after; anything else is
/// read as a "YYYY-MM-DD" date.
pub open spec fn week_target(s: Seq<char>, today: int) -> Option<int> {
    let l = lowercase(s);
    if l == "current"@ || l == "this"@ {
        Some(monday_of(today))
    } else if l == "next"@ {
        Some(monday_of(today) + 7)
    } else {
        parse_ymd_day(s)
    }
}

/// A `--week` argument that is no week.
#[derive(Clone, Copy, Debug, PartialEq, Eq, Structural)]
pub enum WeekTargetError {
    /// Not "current", "this", "next", nor a "YYYY-MM-DD" date.
    InvalidDate,
}

/// The first day of the week to generate.
pub fn parse_week_target(s: &str, today: Date) -> (res: Result<Date, WeekTargetError>)
    requires
        lowercase(s@) == "current"@ || lowercase(s@) == "this"@ ==> day_in_range(monday_of(today@)),
        lowercase(s@) == "next"@ ==> day_in_range(monday_of(today@)) && day_in_range(
            monday_of(today@) + 7,
        ),
    ensures
        match week_target(s@, today@) {
            Some(n) => res matches Ok(d) && d@ == n,
            None => res == Err::<Date, WeekTargetError>(WeekTargetError::InvalidDate),
        },
{
    let lower = to_lowercase(s);
    let l = lower.as_str();
    let is_current = str_equal(l, "current") || str_equal(l, "this");
    let is_next = str_equal(l, "next");
    if is_current || is_next {
        let since_monday: u32 = today.weekday().num_days_from_monday();
        proof {
            lemma_weekday_index_bounds(today@);
        }
        let monday = today.add_days(-(since_monday as i64));
        if is_current {
            return Ok(monday);
        }
        return Ok(monday.add_days(7));
    }
    match Date::parse_ymd(s) {
        Some(d) => Ok(d),
        None => Err(WeekTargetError::InvalidDate),
    }
}

pub proof fn lemma_weekday_index_bounds(n: int)
    ensures
        0 <= weekday_index(weekday_of_day(n)) < 7,
        weekday_index(weekday_of_day(n)) == (n - 1) % 7,
{
    crate::calendar::lemma_weekday_index_roundtrip(weekday_of_day(n), (n - 1) % 7);
}

/// How many days from weekday `from` to the next (or same) weekday `to`.
pub open spec fn days_ahead(from: Weekday, to: Weekday) -> int {
    (weekday_index(to) - weekday_index(from) + 7) % 7
}

/// The day that a day argument names relative to `today`, if it is one of
/// those: "today" and "tomorrow" (ASCII case ignored), or a weekday name (its
/// next occurrence, today included).
pub open spec fn relative_day(s: Seq<char>, today: int) -> Option<int> {
    if ascii_lower_seq(s) == ascii_lower_seq("today"@) {
        Some(today)
    } else if ascii_lower_seq(s) == ascii_lower_seq("tomorrow"@) {
        Some(today + 1)
    } else {
        match weekday_from_text(s) {
            Some(w) => Some(today + days_ahead(weekday_of_day(today), w)),
            None => None,
        }
    }
}

/// The day that a day argument names: a day relative to `today`, or else a
/// "YYYY-MM-DD" date.
pub open spec fn day_target(s: Seq<char>, today: int) -> Option<int> {
    match relative_day(s, today) {
        Some(n) => Some(n),
        None => parse_ymd_day(s),
    }
}

/// A day argument that names no day.
#[derive(Clone, Copy, Debug, PartialEq, Eq, Structural)]
pub enum DayError {
    /// Not "today", "tomorrow", a weekday, nor a "YYYY-MM-DD" date.
    InvalidDate,
}

/// The weekday and date that a day argument names.
pub fn resolve_day(s: &str, today: Date) -> (res: Result<(Weekday, Date), DayError>)
    requires
        relative_day(s@, today@) matches Some(n) ==> day_in_range(n),
    ensures
        match day_target(s@, today@) {
            Some(n) => res matches Ok((w, d)) && d@ == n && w == weekday_of_day(n),
            None => res == Err::<(Weekday, Date), DayError>(DayError::InvalidDate),
        },
{
    if eq_ignore_ascii_case(s, "today") {
        return Ok((today.weekday(), today));
    }
    if eq_ignore_ascii_case(s, "tomorrow") {
        let tomorrow = today.add_days(1);
        return Ok((tomorrow.weekday(), tomorrow));
    }
    match parse_weekday(s) {
        Some(w) => {
            let today_weekday = today.weekday();
            let ahead: i64 = (w.num_days_from_monday() as i64 - today_weekday.num_days_from_monday()
                as i64 + 7) % 7;
            proof {
                lemma_weekday_index_bounds(today@);
                crate::calendar::lemma_weekday_index_roundtrip(w, 0);
            }
            let target = if ahead == 0 {
                today
            } else {
                today.add_days(ahead)
            };
            proof {
                lemma_weekday_after(today@, ahead as int);
            }
            Ok((w, target))
        },
        None => match Date::parse_ymd(s) {
            Some(d) => Ok((d.weekday(), d)),
            None => Err(DayError::InvalidDate),
        },
    }
}

/// The weekday `k` days after day `n`.
pub proof fn lemma_weekday_after(n: int, k: int)
    requires
        k >= 0,
    ensures
        weekday_index(weekday_of_day(n + k)) == (weekday_index(weekday_of_day(n)) + k) % 7,
{
    lemma_weekday_index_bounds(n);
    lemma_weekday_index_bounds(n + k);
    assert((n + k - 1) % 7 == ((n - 1) % 7 + k) % 7) by {
        vstd::arithmetic::div_mod::lemma_add_mod_noop(n - 1, k, 7);
        vstd::arithmetic::div_mod::lemma_mod_twice(k, 7);
        vstd::arithmetic::div_mod::lemma_add_mod_noop((n - 1) % 7, k, 7);
        vstd::arithmetic::div_mod::lemma_mod_twice(n - 1, 7);
    }
}

/// A day argument naming a weekday resolves to that weekday, within the coming
/// seven days (today included).
pub proof fn law_weekday_resolves_within_week(today: int, w: Weekday)
    ensures
        0 <= days_ahead(weekday_of_day(today), w) < 7,
        weekday_of_day(today + days_ahead(weekday_of_day(today), w)) == w,
{
    let k = days_ahead(weekday_of_day(today), w);
    lemma_weekday_index_bounds(today);
    crate::calendar::lemma_weekday_index_roundtrip(w, 0);
    lemma_weekday_after(today, k);
    crate::calendar::lemma_weekday_index_roundtrip(weekday_of_day(today + k), 0);
    assert((weekday_index(weekday_of_day(today)) + k) % 7 == weekday_index(w));
}

/// "current" names the Monday on or before today, less than a week back.
pub proof fn law_week_starts_on_monday(today: int)
    ensures
        weekday_of_day(monday_of(today)) == Weekday::Mon,
        weekday_of_day(monday_of(today) + 7) == Weekday::Mon,
        monday_of(today) <= today < monday_of(today) + 7,
{
    lemma_weekday_index_bounds(today);
    let m = monday_of(today);
    lemma_weekday_index_bounds(m);
    assert((m - 1) % 7 == 0);
    crate::calendar::law_weekday_succession(m);
}

/// The emoji shown next to a weekday (weekend days differ).
pub fn weekday_emoji(day: Weekday) -> (res: &'static str)
    ensures
        res@ == (if day == Weekday::Sat || day == Weekday::Sun {
            "🌅"@
        } else {
            "📅"@
        }),
{
    match day {
        Weekday::Mon => "📅",
        Weekday::Tue => "📅",
        Weekday::Wed => "📅",
        Weekday::Thu => "📅",
        Weekday::Fri => "📅",
        Weekday::Sat => "🌅",
        Weekday::Sun => "🌅",
    }
}

// ---------------------------------------------------------------------------
// Lookups
// ---------------------------------------------------------------------------

/// Two texts are equal when ASCII case is ignored.
pub open spec fn same_ignoring_case(a: Seq<char>, b: Seq<char>) -> bool {
    ascii_lower_seq(a) == ascii_lower_seq(b)
}

/// Index of the first team with exactly this id.
pub open spec fn team_by_id(teams: Seq<Team>, id: Seq<char>) -> Option<int>
    decreases teams.len(),
{
    if teams.len() == 0 {
        None
    } else {
        match team_by_id(teams.drop_last(), id) {
            Some(i) => Some(i),
            None => if teams.last().id@ == id {
                Some(teams.len() - 1)
            } else {
                None
            },
        }
    }
}

/// Index of the first team whose name or key matches, ignoring ASCII case.
pub open spec fn team_by_name(teams: Seq<Team>, name: Seq<char>) -> Option<int>
    decreases teams.len(),
{
    if teams.len() == 0 {
        None
    } else {
        match team_by_name(teams.drop_last(), name) {
            Some(i) => Some(i),
            None => if same_ignoring_case(teams.last().name@, name) || same_ignoring_case(
                teams.last().key@,
                name,
            ) {
                Some(teams.len() - 1)
            } else {
                None
            },
        }
    }
}

/// The id of the team that a name or id names: a team with that exact id
/// first, else the first team whose name or key matches ignoring ASCII case.
pub open spec fn team_resolution(teams: Seq<Team>, name_or_id: Seq<char>) -> Option<Seq<char>> {
    match team_by_id(teams, name_or_id) {
        Some(i) => Some(teams[i].id@),
        None => match team_by_name(teams, name_or_id) {
            Some(i) => Some(teams[i].id@),
            None => None,
        },
    }
}

pub proof fn lemma_team_by_id(teams: Seq<Team>, id: Seq<char>)
    ensures
        team_by_id(teams, id) matches Some(i) ==> 0 <= i < teams.len(),
    decreases teams.len(),
{
    if teams.len() > 0 {
        lemma_team_by_id(teams.drop_last(), id);
    }
}

pub proof fn lemma_team_by_name(teams: Seq<Team>, name: Seq<char>)
    ensures
        team_by_name(teams, name) matches Some(i) ==> 0 <= i < teams.len(),
    decreases teams.len(),
{
    if teams.len() > 0 {
        lemma_team_by_name(teams.drop_last(), name);
    }
}

/// Resolves a team name, key or id to the team's id.
pub fn resolve_team_id(teams: &Vec<Team>, name_or_id: &str) -> (res: Option<String>)
    ensures
        crate::config::opt_view(res) == team_resolution(teams@, name_or_id@),
{
    proof {
        lemma_team_by_id(teams@, name_or_id@);
        lemma_team_by_name(teams@, name_or_id@);
    }
    let mut i: usize = 0;
    while i < teams.len()
        invariant
            i <= teams@.len(),
            team_by_id(teams@.subrange(0, i as int), name_or_id@) is None,
        decreases teams.len() - i,
    {
        assert(teams@.subrange(0, i + 1).drop_last() =~= teams@.subrange(0, i as int));
        if str_equal(teams[i].id.as_str(), name_or_id) {
            proof {
                lemma_team_id_prefix(teams@, name_or_id@, i + 1);
            }
            return Some(teams[i].id.clone());
        }
        i = i + 1;
    }
    assert(teams@.subrange(0, teams@.len() as int) =~= teams@);
    let mut j: usize = 0;
    while j < teams.len()
        invariant
            j <= teams@.len(),
            team_by_id(teams@, name_or_id@) is None,
            team_by_name(teams@.subrange(0, j as int), name_or_id@) is None,
        decreases teams.len() - j,
    {
        assert(teams@.subrange(0, j + 1).drop_last() =~= teams@.subrange(0, j as int));
        if eq_ignore_ascii_case(teams[j].name.as_str(), name_or_id) || eq_ignore_ascii_case(
            teams[j].key.as_str(),
            name_or_id,
        ) {
            proof {
                lemma_team_name_prefix(teams@, name_or_id@, j + 1);
            }
            return Some(teams[j].id.clone());
        }
        j = j + 1;
    }
    assert(teams@.subrange(0, teams@.len() as int) =~= teams@);
    None
}

pub proof fn lemma_team_id_prefix(teams: Seq<Team>, id: Seq<char>, k: int)
    requires
        0 <= k <= teams.len(),
    ensures
        team_by_id(teams.subrange(0, k), id) matches Some(i) ==> team_by_id(teams, id) == Some(i),
    decreases teams.len(),
{
    if k < teams.len() {
        assert(teams.drop_last().subrange(0, k) =~= teams.subrange(0, k));
        lemma_team_id_prefix(teams.drop_last(), id, k);
    } else {
        assert(teams.subrange(0, k) =~= teams);
    }
}

pub proof fn lemma_team_name_prefix(teams: Seq<Team>, name: Seq<char>, k: int)
    requires
        0 <= k <= teams.len(),
    ensures
        team_by_name(teams.subrange(0, k), name) matches Some(i) ==> team_by_name(teams, name)
            == Some(i),
    decreases teams.len(),
{
    if k < teams.len() {
        assert(teams.drop_last().subrange(0, k) =~= teams.subrange(0, k));
        lemma_team_name_prefix(teams.drop_last(), name, k);
    } else {
        assert(teams.subrange(0, k) =~= teams);
    }
}

/// A project named `name`, ignoring ASCII case.
pub open spec fn project_named(name: Seq<char>) -> spec_fn(Project) -> bool {
    |p: Project| same_ignoring_case(p.name@, name)
}

/// A label named `name`, ignoring ASCII case.
pub open spec fn label_named(name: Seq<char>) -> spec_fn(Label) -> bool {
    |l: Label| same_ignoring_case(l.name@, name)
}

/// A task whose identifier matches `id` ignoring ASCII case, or whose id is `id`.
pub open spec fn task_named(id: Seq<char>) -> spec_fn(Task) -> bool {
    |t: Task| same_ignoring_case(t.identifier@, id) || t.id@ == id
}

/// A workflow state named `name`, ignoring ASCII case.
pub open spec fn state_named(name: Seq<char>) -> spec_fn(TaskState) -> bool {
    |s: TaskState| same_ignoring_case(s.name@, name)
}

/// A workflow state with id `id`.
pub open spec fn state_with_id(id: Seq<char>) -> spec_fn(TaskState) -> bool {
    |s: TaskState| s.id@ == id
}

/// The first project with the name (ignoring ASCII case).
pub fn find_project_named<'a>(projects: &'a Vec<Project>, name: &str) -> (res: Option<&'a Project>)
    ensures
        match first_index(projects@, project_named(name@)) {
            Some(i) => res matches Some(p) && *p == projects@[i],
            None => res is None,
        },
{
    proof {
        lemma_first_index(projects@, project_named(name@));
    }
    let mut i: usize = 0;
    while i < projects.len()
        invariant
            i <= projects@.len(),
            first_index(projects@.subrange(0, i as int), project_named(name@)) is None,
        decreases projects.len() - i,
    {
        proof {
            lemma_first_index_step(projects@, project_named(name@), i as int);
        }
        if eq_ignore_ascii_case(projects[i].name.as_str(), name) {
            return Some(&projects[i]);
        }
        i = i + 1;
    }
    assert(projects@.subrange(0, projects@.len() as int) =~= projects@);
    None
}

/// The id of the first label with the name (ignoring ASCII case).
pub fn find_label_id(labels: &Vec<Label>, name: &str) -> (res: Option<String>)
    ensures
        match first_index(labels@, label_named(name@)) {
            Some(i) => res matches Some(id) && id@ == labels@[i].id@,
            None => res is None,
        },
{
    proof {
        lemma_first_index(labels@, label_named(name@));
    }
    let mut i: usize = 0;
    while i < labels.len()
        invariant
            i <= labels@.len(),
            first_index(labels@.subrange(0, i as int), label_named(name@)) is None,
        decreases labels.len() - i,
    {
        proof {
            lemma_first_index_step(labels@, label_named(name@), i as int);
        }
        if eq_ignore_ascii_case(labels[i].name.as_str(), name) {
            return Some(labels[i].id.clone());
        }
        i = i + 1;
    }
    assert(labels@.subrange(0, labels@.len() as int) =~= labels@);
    None
}

/// The first task whose identifier (ignoring ASCII case) or id is `id`.
pub fn find_task<'a>(tasks: &'a Vec<Task>, id: &str) -> (res: Option<&'a Task>)
    ensures
        match first_index(tasks@, task_named(id@)) {
            Some(i) => res matches Some(t) && *t == tasks@[i],
            None => res is None,
        },
{
    proof {
        lemma_first_index(tasks@, task_named(id@));
    }
    let mut i: usize = 0;
    while i < tasks.len()
        invariant
            i <= tasks@.len(),
            first_index(tasks@.subrange(0, i as int), task_named(id@)) is None,
        decreases tasks.len() - i,
    {
        proof {
            lemma_first_index_step(tasks@, task_named(id@), i as int);
        }
        if eq_ignore_ascii_case(tasks[i].identifier.as_str(), id) || str_equal(
            tasks[i].id.as_str(),
            id,
        ) {
            return Some(&tasks[i]);
        }
        i = i + 1;
    }
    assert(tasks@.subrange(0, tasks@.len() as int) =~= tasks@);
    None
}

/// The id of the first workflow state with the name (ignoring ASCII case).
pub fn find_state_id(states: &Vec<TaskState>, name: &str) -> (res: Option<String>)
    ensures
        match first_index(states@, state_named(name@)) {
            Some(i) => res matches Some(id) && id@ == states@[i].id@,
            None => res is None,
        },
{
    proof {
        lemma_first_index(states@, state_named(name@));
    }
    let mut i: usize = 0;
    while i < states.len()
        invariant
            i <= states@.len(),
            first_index(states@.subrange(0, i as int), state_named(name@)) is None,
        decreases states.len() - i,
    {
        proof {
            lemma_first_index_step(states@, state_named(name@), i as int);
        }
        if eq_ignore_ascii_case(states[i].name.as_str(), name) {
            return Some(states[i].id.clone());
        }
        i = i + 1;
    }
    assert(states@.subrange(0, states@.len() as int) =~= states@);
    None
}

/// The position of the state with the id, or 0 when there is none (the
/// pre-selected entry of the status menu).
pub fn state_position(states: &Vec<TaskState>, state_id: &str) -> (res: usize)
    ensures
        res as int == (match first_index(states@, state_with_id(state_id@)) {
            Some(i) => i,
            None => 0,
        }),
{
    proof {
        lemma_first_index(states@, state_with_id(state_id@));
    }
    let mut i: usize = 0;
    while i < states.len()
        invariant
            i <= states@.len(),
            first_index(states@.subrange(0, i as int), state_with_id(state_id@)) is None,
        decreases states.len() - i,
    {
        proof {
            lemma_first_index_step(states@, state_with_id(state_id@), i as int);
        }
        if str_equal(states[i].id.as_str(), state_id) {
            return i;
        }
        i = i + 1;
    }
    assert(states@.subrange(0, states@.len() as int) =~= states@);
    0
}

/// The names of the states, as listed in an error.
pub open spec fn state_names_spec(states: Seq<TaskState>) -> Seq<Seq<char>> {
    states.map_values(|s: TaskState| s.name@)
}

/// The state names joined by ", ".
pub fn state_names(states: &Vec<TaskState>) -> (res: String)
    ensures
        res@ == join_with(state_names_spec(states@), ", "@),
{
    let mut names: Vec<String> = Vec::new();
    let mut i: usize = 0;
    while i < states.len()
        invariant
            i <= states@.len(),
            names@.len() == i,
            forall|j: int| 0 <= j < i ==> (#[trigger] names@[j])@ == states@[j].name@,
        decreases states.len() - i,
    {
        names.push(states[i].name.clone());
        i = i + 1;
    }
    assert(string_views(names@) =~= state_names_spec(states@));
    join_strings(&names, ", ")
}

/// The update that changes only a task's state.
pub fn status_update(task_id: &String, state_id: String) -> (res: UpdateTaskInput)
    ensures
        res.id == *task_id,
        res.state_id == Some(state_id),
        res.title is None,
        res.description is None,
        res.priority is None,
        res.due_date is None,
        res.label_ids is None,
        res.project_id is None,
{
    UpdateTaskInput {
        id: task_id.clone(),
        title: None,
        description: None,
        priority: None,
        due_date: None,
        state_id: Some(state_id),
        label_ids: None,
        project_id: None,
    }
}

// ---------------------------------------------------------------------------
// Week generation and task creation
// ---------------------------------------------------------------------------

/// Index of the last project whose name names the weekday (a later project of
/// the same day replaces an earlier one, as when they are collected into a map).
pub open spec fn last_project_for(projects: Seq<Project>, day: Weekday) -> Option<int>
    decreases projects.len(),
{
    if projects.len() == 0 {
        None
    } else if weekday_from_text(projects.last().name@) == Some(day) {
        Some(projects.len() - 1)
    } else {
        last_project_for(projects.drop_last(), day)
    }
}

pub proof fn lemma_last_project_for(projects: Seq<Project>, day: Weekday)
    ensures
        last_project_for(projects, day) matches Some(i) ==> 0 <= i < projects.len()
            && weekday_from_text(projects[i].name@) == Some(day),
        last_project_for(projects, day) is None ==> forall|j: int|
            0 <= j < projects.len() ==> weekday_from_text((#[trigger] projects[j]).name@) != Some(day),
    decreases projects.len(),
{
    if projects.len() > 0 {
        lemma_last_project_for(projects.drop_last(), day);
        assert forall|j: int| 0 <= j < projects.len() - 1 implies projects.drop_last()[j]
            == projects[j] by {}
    }
}

/// The id of the project of a weekday: the last project whose name names it.
pub fn project_for_weekday(projects: &Vec<Project>, day: Weekday) -> (res: Option<String>)
    ensures
        match last_project_for(projects@, day) {
            Some(i) => res matches Some(id) && id@ == projects@[i].id@,
            None => res is None,
        },
{
    proof {
        lemma_last_project_for(projects@, day);
    }
    let mut found: Option<usize> = None;
    let mut i: usize = 0;
    assert(projects@.subrange(0, 0) =~= Seq::<Project>::empty());
    while i < projects.len()
        invariant
            i <= projects@.len(),
            match found {
                Some(k) => last_project_for(projects@.subrange(0, i as int), day) == Some(k as int),
                None => last_project_for(projects@.subrange(0, i as int), day) is None,
            },
        decreases projects.len() - i,
    {
        assert(projects@.subrange(0, i + 1).drop_last() =~= projects@.subrange(0, i as int));
        assert(projects@.subrange(0, i + 1).last() == projects@[i as int]);
        match crate::templates::project_name_to_weekday(projects[i].name.as_str()) {
            Some(w) => {
                if w == day {
                    found = Some(i);
                }
            },
            None => {},
        }
        i = i + 1;
    }
    assert(projects@.subrange(0, projects@.len() as int) =~= projects@);
    match found {
        Some(k) => Some(projects[k].id.clone()),
        None => None,
    }
}

/// The labels a created task gets: the first label named after the horizon,
/// then the first label named after the block (when there is a block); a
/// missing label is left out.
pub open spec fn task_label_ids_spec(
    labels: Seq<Label>,
    horizon: TimeHorizon,
    block: Option<DaytimeBlock>,
) -> Seq<Seq<char>> {
    (match first_index(labels, label_named(horizon_name(horizon))) {
        Some(i) => seq![labels[i].id@],
        None => Seq::<Seq<char>>::empty(),
    }) + (match block {
        Some(b) => match first_index(labels, label_named(block_name(b))) {
            Some(i) => seq![labels[i].id@],
            None => Seq::<Seq<char>>::empty(),
        },
        None => Seq::<Seq<char>>::empty(),
    })
}

/// The label ids for a task of a horizon and an optional block.
pub fn task_label_ids(labels: &Vec<Label>, horizon: TimeHorizon, block: Option<DaytimeBlock>) -> (res:
    Vec<String>)
    ensures
        string_views(res@) == task_label_ids_spec(labels@, horizon, block),
{
    let mut ids: Vec<String> = Vec::new();
    match find_label_id(labels, horizon.name()) {
        Some(id) => ids.push(id),
        None => {},
    }
    match block {
        Some(b) => match find_label_id(labels, b.name()) {
            Some(id) => ids.push(id),
            None => {},
        },
        None => {},
    }
    assert(string_views(ids@) =~= task_label_ids_spec(labels@, horizon, block));
    ids
}

/// A copy of an optional string.
pub fn clone_opt_string(o: &Option<String>) -> (res: Option<String>)
    ensures
        res == *o,
{
    match o {
        Some(s) => Some(s.clone()),
        None => None,
    }
}

/// What week generation does with one template on one day.
#[derive(Clone, Debug)]
pub enum GenerationStep {
    /// The template already has a task for this date (and it is not forced): skip it.
    AlreadyGenerated,
    /// Dry run: only show the template.
    Preview,
    /// Create the task described by the input.
    Create(CreateTaskInput),
}

/// The task that generation creates from a template for a date in a project.
pub open spec fn generated_task(
    t: TaskTemplate,
    date: Date,
    team_id: Seq<char>,
    project_id: Seq<char>,
    labels: Seq<Label>,
    input: CreateTaskInput,
) -> bool {
    &&& input.title == t.title
    &&& input.description == t.description
    &&& input.team_id@ == team_id
    &&& crate::config::opt_view(input.project_id) == Some(project_id)
    &&& input.priority == t.priority
    &&& input.due_date == Some(date)
    &&& string_views(input.label_ids@) == task_label_ids_spec(labels, t.horizon, t.block)
    &&& input.assignee_id is None
}

/// Decides what generation does with a template on a date: skip it when it was
/// already generated for that date (unless forced), only show it on a dry run,
/// else create the task with the template's title, description and priority,
/// due on that date, in the day's project, with the horizon and block labels.
pub fn generation_step(
    store: &TemplateStore,
    template: &TaskTemplate,
    date: Date,
    force: bool,
    dry_run: bool,
    team_id: &str,
    project_id: &str,
    labels: &Vec<Label>,
) -> (res: GenerationStep)
    ensures
        !force && generated_in(
            history_view(store.generation_history@),
            template.id@,
            iso_date_text(date@),
        ) ==> res is AlreadyGenerated,
        (force || !generated_in(
            history_view(store.generation_history@),
            template.id@,
            iso_date_text(date@),
        )) && dry_run ==> res is Preview,
        (force || !generated_in(
            history_view(store.generation_history@),
            template.id@,
            iso_date_text(date@),
        )) && !dry_run ==> (res matches GenerationStep::Create(input) && generated_task(
            *template,
            date,
            team_id@,
            project_id@,
            labels@,
            input,
        )),
{
    if !force && store.was_generated(template.id.as_str(), &date) {
        return GenerationStep::AlreadyGenerated;
    }
    if dry_run {
        return GenerationStep::Preview;
    }
    let label_ids = task_label_ids(labels, template.horizon, template.block);
    GenerationStep::Create(
        CreateTaskInput {
            title: template.title.clone(),
            description: clone_opt_string(&template.description),
            team_id: String::from_str(team_id),
            project_id: Some(String::from_str(project_id)),
            priority: template.priority,
            due_date: Some(date),
            label_ids,
            assignee_id: None,
        },
    )
}

/// The date of day `offset` of the week that starts on `week_start`.
pub fn week_day(week_start: Date, offset: u32) -> (res: Date)
    requires
        day_in_range(week_start@ + offset),
    ensures
        res@ == week_start@ + offset,
{
    week_start.add_days(offset as i64)
}

/// The templates generated on a weekday: weekly ones, then monthly, then annual.
pub open spec fn day_templates(s: TemplateStore, day: Weekday) -> Seq<TaskTemplate> {
    applying_on(s.weekly@, day) + applying_on(s.monthly@, day) + applying_on(s.annual@, day)
}

/// The id of the project of a weekday, if the team has one.
pub open spec fn project_of_day(projects: Seq<Project>, day: Weekday) -> Option<Seq<char>> {
    match last_project_for(projects, day) {
        Some(i) => Some(projects[i].id@),
        None => None,
    }
}

/// What week generation does on one day of the week.
pub struct DayPlan<'a> {
    pub date: Date,
    pub weekday: Weekday,
    /// The day's project; without one the day is skipped.
    pub project_id: Option<String>,
    /// The templates to generate on the day, in order.
    pub templates: Vec<&'a TaskTemplate>,
}

/// `plan` is day `i` of the week that starts on day `start`.
pub open spec fn day_planned(
    plan: DayPlan,
    s: TemplateStore,
    projects: Seq<Project>,
    start: int,
    i: int,
) -> bool {
    &&& plan.date@ == start + i
    &&& plan.weekday == weekday_of_day(start + i)
    &&& crate::config::opt_view(plan.project_id) == project_of_day(projects, plan.weekday)
    &&& derefs(plan.templates@) == day_templates(s, plan.weekday)
}

/// Plans the generation of a week: for each of its seven days, in order, the
/// date, the weekday, the day's project and the templates to generate.
pub fn plan_week<'a>(store: &'a TemplateStore, week_start: Date, projects: &Vec<Project>) -> (res:
    Vec<DayPlan<'a>>)
    requires
        day_in_range(week_start@ + 6),
    ensures
        res@.len() == 7,
        forall|i: int| 0 <= i < 7 ==> day_planned(#[trigger] res@[i], *store, projects@, week_start@, i),
        forall|i: int, k: int|
            0 <= i < 7 && 0 <= k < res@[i].templates@.len() ==> (#[trigger] res@[i].templates@[k]).active
                && (res@[i].templates@[k].days@.len() == 0 || res@[i].templates@[k].days@.contains(
                res@[i].weekday,
            )),
{
    let first: i32 = week_start.day_number();
    let mut plan: Vec<DayPlan<'a>> = Vec::new();
    let mut i: u32 = 0;
    while i < 7
        invariant
            first == week_start@,
            day_in_range(first as int),
            day_in_range(week_start@ + 6),
            i <= 7,
            plan@.len() == i,
            forall|k: int| 0 <= k < i ==> day_planned(#[trigger] plan@[k], *store, projects@, week_start@, k),
            forall|k: int, j: int|
                0 <= k < i && 0 <= j < plan@[k].templates@.len() ==> (#[trigger] plan@[k].templates@[j]).active
                    && (plan@[k].templates@[j].days@.len() == 0 || plan@[k].templates@[j].days@.contains(
                    plan@[k].weekday,
                )),
        decreases 7 - i,
    {
        let date = week_day(week_start, i);
        let weekday = date.weekday();
        let project_id = project_for_weekday(projects, weekday);
        let templates = store.templates_for_day(weekday);
        plan.push(DayPlan { date, weekday, project_id, templates });
        i = i + 1;
    }
    plan
}

/// Records the outcome of creating a template's task for a date: a created task
/// is recorded as generated for that date; a failed creation records nothing
/// (and generation goes on with the next template).
pub fn record_creation(store: &mut TemplateStore, template_id: &str, date: &Date, created: bool)
    ensures
        created ==> history_view(final(store).generation_history@) == crate::templates::history_marked(
            history_view(old(store).generation_history@),
            template_id@,
            iso_date_text(date@),
        ),
        !created ==> final(store).generation_history == old(store).generation_history,
        final(store).annual == old(store).annual,
        final(store).monthly == old(store).monthly,
        final(store).weekly == old(store).weekly,
        crate::templates::dates_unique(history_view(old(store).generation_history@))
            ==> crate::templates::dates_unique(history_view(final(store).generation_history@)),
{
    if created {
        store.mark_generated(template_id, date);
    }
}

/// Week generation gives each template to exactly the days of the week it is
/// meant for: on each of the seven days, a template is generated when it is in
/// the store, active, and has that weekday among its days (or has no days).
/// When the week starts on a Monday its days run Monday to Sunday.
pub proof fn law_week_generation_days(s: TemplateStore, start: int, i: int, t: TaskTemplate)
    requires
        0 <= i < 7,
    ensures
        day_templates(s, weekday_of_day(start + i)).contains(t) <==> all_templates(s).contains(t)
            && applies_on(t, weekday_of_day(start + i)),
        weekday_of_day(start) == Weekday::Mon ==> weekday_index(weekday_of_day(start + i)) == i,
{
    let day = weekday_of_day(start + i);
    law_applying_on(s.weekly@, day);
    law_applying_on(s.monthly@, day);
    law_applying_on(s.annual@, day);
    let w = applying_on(s.weekly@, day);
    let m = applying_on(s.monthly@, day);
    let a = applying_on(s.annual@, day);
    lemma_contains_concat3(w, m, a, t);
    lemma_contains_concat3(s.annual@, s.monthly@, s.weekly@, t);
    lemma_weekday_after(start, i);
    lemma_weekday_index_bounds(start);
}

/// A sequence of three parts holds an item exactly when one of the parts does.
pub proof fn lemma_contains_concat3<T>(a: Seq<T>, b: Seq<T>, c: Seq<T>, x: T)
    ensures
        (a + b + c).contains(x) <==> a.contains(x) || b.contains(x) || c.contains(x),
{
    let all = a + b + c;
    if all.contains(x) {
        let j = choose|j: int| 0 <= j < all.len() && all[j] == x;
        if j < a.len() {
            assert(a[j] == x);
        } else if j < a.len() + b.len() {
            assert(b[j - a.len()] == x);
        } else {
            assert(c[j - a.len() - b.len()] == x);
        }
    }
    if a.contains(x) {
        let j = choose|j: int| 0 <= j < a.len() && a[j] == x;
        assert(all[j] == x);
    }
    if b.contains(x) {
        let j = choose|j: int| 0 <= j < b.len() && b[j] == x;
        assert(all[a.len() + j] == x);
    }
    if c.contains(x) {
        let j = choose|j: int| 0 <= j < c.len() && c[j] == x;
        assert(all[a.len() + b.len() + j] == x);
    }
}

/// A due date argument that is no date.
#[derive(Clone, Copy, Debug, PartialEq, Eq, Structural)]
pub enum DueDateError {
    /// Not a "YYYY-MM-DD" date.
    InvalidDate,
}

/// The task that `add` creates: the Daily horizon label and the block's label
/// (when the block text names a block), due on the given date or else on the
/// day it is added to.
pub fn add_task_input(
    title: &str,
    team_id: &str,
    project_id: &str,
    block: Option<&str>,
    priority: Option<i32>,
    due: Option<&str>,
    date: Date,
    labels: &Vec<Label>,
) -> (res: Result<CreateTaskInput, DueDateError>)
    ensures
        match due {
            Some(d) => parse_ymd_day(d@) is None <==> res is Err,
            None => res is Ok,
        },
        res matches Ok(input) ==> {
            &&& input.title@ == title@
            &&& input.description is None
            &&& input.team_id@ == team_id@
            &&& crate::config::opt_view(input.project_id) == Some(project_id@)
            &&& input.priority == priority
            &&& match due {
                Some(d) => input.due_date matches Some(x) && parse_ymd_day(d@) == Some(x@),
                None => input.due_date == Some(date),
            }
            &&& string_views(input.label_ids@) == task_label_ids_spec(
                labels@,
                TimeHorizon::Daily,
                match block {
                    Some(b) => crate::models::block_from_text(b@),
                    None => None,
                },
            )
            &&& input.assignee_id is None
        },
{
    let block_enum = match block {
        Some(b) => DaytimeBlock::from_str(b),
        None => None,
    };
    let label_ids = task_label_ids(labels, TimeHorizon::Daily, block_enum);
    let due_date = match due {
        Some(d) => match Date::parse_ymd(d) {
            Some(x) => x,
            None => {
                return Err(DueDateError::InvalidDate);
            },
        },
        None => date,
    };
    Ok(
        CreateTaskInput {
            title: String::from_str(title),
            description: None,
            team_id: String::from_str(team_id),
            project_id: Some(String::from_str(project_id)),
            priority,
            due_date: Some(due_date),
            label_ids,
            assignee_id: None,
        },
    )
}

/// A new template from the arguments of `templates add`: `None` when the
/// horizon text names no horizon. Days are parsed from a comma-separated list
/// (none given: any day); a block text that names no block gives no block.
pub fn template_from_args(
    title: String,
    horizon: &str,
    days: Option<String>,
    block: Option<String>,
    priority: Option<i32>,
    description: Option<String>,
) -> (res: Option<TaskTemplate>)
    ensures
        horizon_word(lowercase(horizon@)) is None <==> res is None,
        res matches Some(t) ==> {
            &&& Some(t.horizon) == horizon_word(lowercase(horizon@))
            &&& t.title == title
            &&& t.description == description
            &&& t.priority == priority
            &&& t.block == (match block {
                Some(b) => crate::models::block_from_text(b@),
                None => None,
            })
            &&& t.days@ == (match days {
                Some(d) => crate::templates::weekdays_of_pieces(crate::text::split_on(d@, ',')),
                None => Seq::<Weekday>::empty(),
            })
            &&& t.active
            &&& t.id@.len() == 8
            &&& forall|i: int| 0 <= i < 8 ==> crate::templates::lower_hex_digit(#[trigger] t.id@[i])
        },
{
    let horizon_enum = match parse_horizon(horizon) {
        Some(h) => h,
        None => {
            return None;
        },
    };
    let days_vec = match days {
        Some(d) => crate::templates::parse_weekdays(d.as_str()),
        None => Vec::new(),
    };
    let block_enum = match block {
        Some(b) => DaytimeBlock::from_str(b.as_str()),
        None => None,
    };
    let mut template = TaskTemplate::new(title, horizon_enum, block_enum, days_vec);
    template.priority = priority;
    template.description = description;
    Some(template)
}

// ---------------------------------------------------------------------------
// Show, dashboard and configuration views
// ---------------------------------------------------------------------------

/// `show week` and `show all` list the whole week (ASCII case ignored).
pub fn is_whole_week(day: &str) -> (res: bool)
    ensures
        res == (same_ignoring_case(day@, "week"@) || same_ignoring_case(day@, "all"@)),
{
    eq_ignore_ascii_case(day, "week") || eq_ignore_ascii_case(day, "all")
}

/// A team with id `id`.
pub open spec fn team_with_id(id: Seq<char>) -> spec_fn(Team) -> bool {
    |t: Team| t.id@ == id
}

/// The name of the team with the id, or "Unknown".
pub fn team_name<'a>(teams: &'a Vec<Team>, id: &str) -> (res: &'a str)
    ensures
        res@ == (match first_index(teams@, team_with_id(id@)) {
            Some(i) => teams@[i].name@,
            None => "Unknown"@,
        }),
{
    proof {
        lemma_first_index(teams@, team_with_id(id@));
    }
    let mut i: usize = 0;
    while i < teams.len()
        invariant
            i <= teams@.len(),
            first_index(teams@.subrange(0, i as int), team_with_id(id@)) is None,
        decreases teams.len() - i,
    {
        proof {
            lemma_first_index_step(teams@, team_with_id(id@), i as int);
        }
        if str_equal(teams[i].id.as_str(), id) {
            return teams[i].name.as_str();
        }
        i = i + 1;
    }
    assert(teams@.subrange(0, teams@.len() as int) =~= teams@);
    "Unknown"
}

/// An active task in the project of the weekday (project name compared ignoring ASCII case).
pub open spec fn active_on_day(t: Task, day: Weekday) -> bool {
    &&& t.project matches Some(p) && same_ignoring_case(p.name@, weekday_project_name(day))
    &&& crate::models::task_active(t)
}

/// The active tasks in the project of the weekday, in order.
pub open spec fn active_on_day_all(tasks: Seq<Task>, day: Weekday) -> Seq<Task>
    decreases tasks.len(),
{
    if tasks.len() == 0 {
        tasks
    } else {
        let prev = active_on_day_all(tasks.drop_last(), day);
        if active_on_day(tasks.last(), day) {
            prev.push(tasks.last())
        } else {
            prev
        }
    }
}

/// The tasks listed for a weekday are exactly the tasks, in order of the list,
/// that are in the weekday's project (its name compared ignoring ASCII case) and
/// are neither completed nor canceled.
pub proof fn law_day_tasks_are_active(tasks: Seq<Task>, day: Weekday)
    ensures
        forall|t: Task|
            #[trigger] active_on_day_all(tasks, day).contains(t) <==> tasks.contains(t)
                && t.state.state_type@ != "completed"@ && t.state.state_type@ != "canceled"@
                && (t.project matches Some(p) && ascii_lower_seq(p.name@) == ascii_lower_seq(
                weekday_project_name(day),
            )),
    decreases tasks.len(),
{
    if tasks.len() > 0 {
        let d = tasks.drop_last();
        law_day_tasks_are_active(d, day);
        let prev = active_on_day_all(d, day);
        let res = active_on_day_all(tasks, day);
        assert forall|t: Task| #[trigger] res.contains(t) <==> tasks.contains(t)
            && t.state.state_type@ != "completed"@ && t.state.state_type@ != "canceled"@
            && (t.project matches Some(p) && ascii_lower_seq(p.name@) == ascii_lower_seq(
            weekday_project_name(day),
        )) by {
            assert(prev.contains(t) <==> d.contains(t) && active_on_day(t, day));
            if tasks.contains(t) {
                let j = choose|j: int| 0 <= j < tasks.len() && tasks[j] == t;
                if j < tasks.len() - 1 {
                    assert(d[j] == t);
                }
            }
            if d.contains(t) {
                let j = choose|j: int| 0 <= j < d.len() && d[j] == t;
                assert(tasks[j] == t);
            }
            if active_on_day(tasks.last(), day) {
                assert(res == prev.push(tasks.last()));
                if res.contains(t) {
                    let j = choose|j: int| 0 <= j < res.len() && res[j] == t;
                    if j < prev.len() {
                        assert(prev[j] == t);
                    }
                }
                if prev.contains(t) {
                    let j = choose|j: int| 0 <= j < prev.len() && prev[j] == t;
                    assert(res[j] == t);
                }
                assert(res[prev.len() as int] == tasks.last());
            }
        }
    } else {
        assert forall|t: Task| #[trigger] active_on_day_all(tasks, day).contains(t) implies false by {}
    }
}

/// The tasks that references point to.
pub open spec fn task_derefs(rs: Seq<&Task>) -> Seq<Task> {
    rs.map_values(|r: &Task| *r)
}

/// The dashboard's list of today's tasks: the first five active tasks in the
/// project of the weekday.
pub fn todays_tasks<'a>(tasks: &'a Vec<Task>, day: Weekday) -> (res: Vec<&'a Task>)
    ensures
        res@.len() <= 5,
        forall|i: int|
            0 <= i < res@.len() ==> tasks@.contains(*(#[trigger] res@[i]))
                && res@[i].state.state_type@ != "completed"@ && res@[i].state.state_type@
                != "canceled"@ && (res@[i].project matches Some(p) && ascii_lower_seq(p.name@)
                == ascii_lower_seq(weekday_project_name(day))),
        task_derefs(res@) == active_on_day_all(tasks@, day).take(
            if active_on_day_all(tasks@, day).len() < 5 {
                active_on_day_all(tasks@, day).len() as int
            } else {
                5
            },
        ),
{
    let project_name = crate::templates::weekday_to_project_name(day);
    let mut res: Vec<&Task> = Vec::new();
    let mut i: usize = 0;
    assert(task_derefs(res@) =~= active_on_day_all(tasks@.subrange(0, 0), day));
    while i < tasks.len() && res.len() < 5
        invariant
            project_name@ == weekday_project_name(day),
            i <= tasks@.len(),
            res@.len() <= 5,
            task_derefs(res@) == active_on_day_all(tasks@.subrange(0, i as int), day),
        decreases tasks.len() - i,
    {
        assert(tasks@.subrange(0, i + 1).drop_last() =~= tasks@.subrange(0, i as int));
        let t = &tasks[i];
        let on_day = match &t.project {
            Some(p) => eq_ignore_ascii_case(p.name.as_str(), project_name),
            None => false,
        };
        let ghost before = res@;
        if on_day && t.is_active() {
            res.push(t);
            assert(task_derefs(res@) =~= task_derefs(before).push(*t));
        }
        i = i + 1;
    }
    proof {
        lemma_active_on_day_prefix(tasks@, day, i as int);
        if i == tasks@.len() {
            assert(tasks@.subrange(0, i as int) =~= tasks@);
        }
    }
    assert(task_derefs(res@) =~= active_on_day_all(tasks@, day).take(
        if active_on_day_all(tasks@, day).len() < 5 {
            active_on_day_all(tasks@, day).len() as int
        } else {
            5
        },
    ));
    proof {
        law_day_tasks_are_active(tasks@, day);
        let all = active_on_day_all(tasks@, day);
        assert forall|i: int| 0 <= i < res@.len() implies tasks@.contains(*(#[trigger] res@[i]))
            && res@[i].state.state_type@ != "completed"@ && res@[i].state.state_type@
            != "canceled"@ && (res@[i].project matches Some(p) && ascii_lower_seq(p.name@)
            == ascii_lower_seq(weekday_project_name(day))) by {
            assert(task_derefs(res@)[i] == *res@[i]);
            assert(all[i] == *res@[i]);
            assert(all.contains(*res@[i]));
        }
    }
    res
}

/// The tasks that a prefix keeps are the first ones that the whole list keeps.
pub proof fn lemma_active_on_day_prefix(tasks: Seq<Task>, day: Weekday, k: int)
    requires
        0 <= k <= tasks.len(),
    ensures
        active_on_day_all(tasks.subrange(0, k), day).len() <= active_on_day_all(tasks, day).len(),
        active_on_day_all(tasks.subrange(0, k), day) == active_on_day_all(tasks, day).take(
            active_on_day_all(tasks.subrange(0, k), day).len() as int,
        ),
    decreases tasks.len(),
{
    if k < tasks.len() {
        assert(tasks.drop_last().subrange(0, k) =~= tasks.subrange(0, k));
        lemma_active_on_day_prefix(tasks.drop_last(), day, k);
        let whole = active_on_day_all(tasks, day);
        let prev = active_on_day_all(tasks.drop_last(), day);
        let part = active_on_day_all(tasks.subrange(0, k), day);
        if active_on_day(tasks.last(), day) {
            assert(prev.push(tasks.last()).take(part.len() as int) =~= prev.take(part.len() as int));
        }
    } else {
        assert(tasks.subrange(0, k) =~= tasks);
        assert(active_on_day_all(tasks, day).take(active_on_day_all(tasks, day).len() as int)
            =~= active_on_day_all(tasks, day));
    }
}

/// How `config show` shows the default team: its name, or "Not set".
pub fn default_team_display(config: &crate::models::AppConfig) -> (res: &str)
    ensures
        res@ == (match config.default_team_name {
            Some(n) => n@,
            None => "Not set"@,
        }),
{
    match &config.default_team_name {
        Some(n) => n.as_str(),
        None => "Not set",
    }
}

// ---------------------------------------------------------------------------
// Interactive mode
// ---------------------------------------------------------------------------

/// The entries of the interactive main menu.
#[derive(Clone, Copy, Debug, PartialEq, Eq, Structural)]
pub enum MenuAction {
    ShowToday,
    ShowWeek,
    AddTask,
    ChangeStatus,
    ManageTemplates,
    GenerateWeek,
    Dashboard,
    Exit,
}

/// The main-menu entry at a position (none past the last entry).
pub open spec fn menu_action_at(i: int) -> Option<MenuAction> {
    if i == 0 {
        Some(MenuAction::ShowToday)
    } else if i == 1 {
        Some(MenuAction::ShowWeek)
    } else if i == 2 {
        Some(MenuAction::AddTask)
    } else if i == 3 {
        Some(MenuAction::ChangeStatus)
    } else if i == 4 {
        Some(MenuAction::ManageTemplates)
    } else if i == 5 {
        Some(MenuAction::GenerateWeek)
    } else if i == 6 {
        Some(MenuAction::Dashboard)
    } else if i == 7 {
        Some(MenuAction::Exit)
    } else {
        None
    }
}

/// The main-menu entry chosen.
pub fn menu_action(selection: usize) -> (res: Option<MenuAction>)
    ensures
        res == menu_action_at(selection as int),
{
    if selection == 0 {
        Some(MenuAction::ShowToday)
    } else if selection == 1 {
        Some(MenuAction::ShowWeek)
    } else if selection == 2 {
        Some(MenuAction::AddTask)
    } else if selection == 3 {
        Some(MenuAction::ChangeStatus)
    } else if selection == 4 {
        Some(MenuAction::ManageTemplates)
    } else if selection == 5 {
        Some(MenuAction::GenerateWeek)
    } else if selection == 6 {
        Some(MenuAction::Dashboard)
    } else if selection == 7 {
        Some(MenuAction::Exit)
    } else {
        None
    }
}

/// The day argument of the day chosen when adding a task interactively.
pub open spec fn interactive_day_at(i: int) -> Seq<char> {
    if i == 0 {
        "today"@
    } else if i == 1 {
        "tomorrow"@
    } else if i == 2 {
        "monday"@
    } else if i == 3 {
        "tuesday"@
    } else if i == 4 {
        "wednesday"@
    } else if i == 5 {
        "thursday"@
    } else if i == 6 {
        "friday"@
    } else if i == 7 {
        "saturday"@
    } else {
        "sunday"@
    }
}

/// The day menu lists Today, Tomorrow, then Monday to Sunday: its first entry
/// names today, its second tomorrow, and entry `i` from the third on names the
/// weekday `i - 2` days after Monday.
pub proof fn law_interactive_day_names(i: int)
    requires
        0 <= i < 9,
    ensures
        i == 0 ==> same_ignoring_case(interactive_day_at(i), "today"@),
        i == 1 ==> same_ignoring_case(interactive_day_at(i), "tomorrow"@),
        i >= 2 ==> weekday_from_text(interactive_day_at(i)) == Some(weekday_from_index(i - 2)),
{
    if i >= 2 {
        let d = weekday_from_index(i - 2);
        crate::templates::law_weekday_names_parse(d);
        reveal_strlit("monday");
        reveal_strlit("tuesday");
        reveal_strlit("wednesday");
        reveal_strlit("thursday");
        reveal_strlit("friday");
        reveal_strlit("saturday");
        reveal_strlit("sunday");
        reveal_strlit("Monday");
        reveal_strlit("Tuesday");
        reveal_strlit("Wednesday");
        reveal_strlit("Thursday");
        reveal_strlit("Friday");
        reveal_strlit("Saturday");
        reveal_strlit("Sunday");
        let name = weekday_project_name(d);
        let word = interactive_day_at(i);
        assert(ascii_lower_seq(name) =~= word);
        assert(ascii_lower_seq(word) =~= word);
        assert(lowercase(word) == lowercase(name));
    }
}

/// The (lower-cased) day argument for the chosen entry of the day menu
/// (Today, Tomorrow, Monday ... Sunday).
pub fn interactive_day(selection: usize) -> (res: &'static str)
    requires
        selection < 9,
    ensures
        res@ == interactive_day_at(selection as int),
        selection == 0 ==> same_ignoring_case(res@, "today"@),
        selection == 1 ==> same_ignoring_case(res@, "tomorrow"@),
        selection >= 2 ==> weekday_from_text(res@) == Some(weekday_from_index(selection - 2)),
{
    proof {
        law_interactive_day_names(selection as int);
    }
    if selection == 0 {
        "today"
    } else if selection == 1 {
        "tomorrow"
    } else if selection == 2 {
        "monday"
    } else if selection == 3 {
        "tuesday"
    } else if selection == 4 {
        "wednesday"
    } else if selection == 5 {
        "thursday"
    } else if selection == 6 {
        "friday"
    } else if selection == 7 {
        "saturday"
    } else {
        "sunday"
    }
}

/// The block name for the chosen entry of a block menu whose first entry is
/// "None" (Morning, Work, Afternoon, Evening follow).
pub open spec fn interactive_block_at(i: int) -> Option<Seq<char>> {
    if i == 1 {
        Some("Morning"@)
    } else if i == 2 {
        Some("Work"@)
    } else if i == 3 {
        Some("Afternoon"@)
    } else if i == 4 {
        Some("Evening"@)
    } else {
        None
    }
}

/// The block name chosen in a block menu, if any.
pub fn interactive_block(selection: usize) -> (res: Option<&'static str>)
    ensures
        match res {
            Some(b) => interactive_block_at(selection as int) == Some(b@),
            None => interactive_block_at(selection as int) is None,
        },
        selection == 0 || selection > 4 <==> res is None,
        1 <= selection <= 4 ==> (res matches Some(b) && crate::models::block_from_text(b@) == Some(
            seq![DaytimeBlock::Morning, DaytimeBlock::Work, DaytimeBlock::Afternoon, DaytimeBlock::Evening][selection - 1],
        )),
{
    proof {
        if 1 <= selection <= 4 {
            let b = seq![DaytimeBlock::Morning, DaytimeBlock::Work, DaytimeBlock::Afternoon, DaytimeBlock::Evening][selection - 1];
            crate::models::law_block_names_any_case(b, Seq::empty(), Seq::empty());
        }
    }
    if selection == 1 {
        Some("Morning")
    } else if selection == 2 {
        Some("Work")
    } else if selection == 3 {
        Some("Afternoon")
    } else if selection == 4 {
        Some("Evening")
    } else {
        None
    }
}

/// The entries of the interactive template menu.
#[derive(Clone, Copy, Debug, PartialEq, Eq, Structural)]
pub enum TemplateMenuAction {
    List,
    Add,
    Edit,
    Remove,
    Back,
}

/// The template-menu entry chosen; any position past "Remove" goes back.
pub fn template_menu_action(selection: usize) -> (res: TemplateMenuAction)
    ensures
        selection == 0 ==> res == TemplateMenuAction::List,
        selection == 1 ==> res == TemplateMenuAction::Add,
        selection == 2 ==> res == TemplateMenuAction::Edit,
        selection == 3 ==> res == TemplateMenuAction::Remove,
        selection > 3 ==> res == TemplateMenuAction::Back,
{
    if selection == 0 {
        TemplateMenuAction::List
    } else if selection == 1 {
        TemplateMenuAction::Add
    } else if selection == 2 {
        TemplateMenuAction::Edit
    } else if selection == 3 {
        TemplateMenuAction::Remove
    } else {
        TemplateMenuAction::Back
    }
}

/// The horizon argument for the chosen entry of the horizon menu (Annual,
/// Monthly, Weekly), lower-cased.
pub fn interactive_horizon(selection: usize) -> (res: &'static str)
    requires
        selection < 3,
    ensures
        res@ == (if selection == 0 {
            "annual"@
        } else if selection == 1 {
            "monthly"@
        } else {
            "weekly"@
        }),
        horizon_word(lowercase(res@)) == Some(
            seq![TimeHorizon::Annual, TimeHorizon::Monthly, TimeHorizon::Weekly][selection as int],
        ),
{
    proof {
        let h = seq![TimeHorizon::Annual, TimeHorizon::Monthly, TimeHorizon::Weekly][selection as int];
        law_horizon_name_parses(h);
        reveal_strlit("Annual");
        reveal_strlit("Monthly");
        reveal_strlit("Weekly");
        reveal_strlit("annual");
        reveal_strlit("monthly");
        reveal_strlit("weekly");
        assert(ascii_lower_seq(horizon_name(h)) =~= (if selection == 0 {
            "annual"@
        } else if selection == 1 {
            "monthly"@
        } else {
            "weekly"@
        }));
        assert(ascii_lower_seq(ascii_lower_seq(horizon_name(h))) =~= ascii_lower_seq(horizon_name(h)));
    }
    if selection == 0 {
        "annual"
    } else if selection == 1 {
        "monthly"
    } else {
        "weekly"
    }
}

/// The three-letter names offered by the day multi-select, Monday first.
pub open spec fn day_option(i: int) -> Seq<char> {
    crate::templates::weekday_short_name(weekday_from_index(i))
}

/// The days argument for the days ticked in the multi-select: none when none
/// were ticked, else their three-letter names joined by ",".
pub fn selected_days(selected: &Vec<usize>) -> (res: Option<String>)
    requires
        forall|i: int| 0 <= i < selected@.len() ==> selected@[i] < 7,
    ensures
        selected@.len() == 0 ==> res is None,
        selected@.len() > 0 ==> (res matches Some(s) && s@ == join_with(
            selected@.map_values(|i: usize| day_option(i as int)),
            ","@,
        )),
{
    if selected.len() == 0 {
        return None;
    }
    let mut names: Vec<String> = Vec::new();
    let mut k: usize = 0;
    while k < selected.len()
        invariant
            forall|i: int| 0 <= i < selected@.len() ==> selected@[i] < 7,
            k <= selected@.len(),
            names@.len() == k,
            forall|j: int| 0 <= j < k ==> (#[trigger] names@[j])@ == day_option(selected@[j] as int),
        decreases selected.len() - k,
    {
        let day = match selected[k] {
            0 => Weekday::Mon,
            1 => Weekday::Tue,
            2 => Weekday::Wed,
            3 => Weekday::Thu,
            4 => Weekday::Fri,
            5 => Weekday::Sat,
            _ => Weekday::Sun,
        };
        names.push(String::from_str(crate::templates::weekday_short(day)));
        k = k + 1;
    }
    assert(string_views(names@) =~= selected@.map_values(|i: usize| day_option(i as int)));
    Some(join_strings(&names, ","))
}

/// The days ticked in the day picker are, in order, the days that the template
/// made from the picker's answer gets.
pub proof fn law_picked_days_read_back(selected: Seq<usize>)
    requires
        selected.len() > 0,
        forall|i: int| 0 <= i < selected.len() ==> selected[i] < 7,
    ensures
        crate::templates::weekdays_of_pieces(
            crate::text::split_on(
                join_with(selected.map_values(|i: usize| day_option(i as int)), ","@),
                ',',
            ),
        ) == selected.map_values(|i: usize| weekday_from_index(i as int)),
{
    let days = selected.map_values(|i: usize| weekday_from_index(i as int));
    assert(crate::templates::short_names(days) =~= selected.map_values(
        |i: usize| day_option(i as int),
    ));
    crate::templates::law_day_list_reads_back(days);
}

/// The week argument for the chosen entry of the week menu.
pub fn interactive_week(selection: usize) -> (res: &'static str)
    ensures
        res@ == (if selection == 0 {
            "current"@
        } else {
            "next"@
        }),
{
    if selection == 0 {
        "current"
    } else {
        "next"
    }
}

/// The new title typed when editing interactively: none when left empty.
pub fn optional_text(input: String) -> (res: Option<String>)
    ensures
        input@.len() == 0 ==> res is None,
        input@.len() > 0 ==> res == Some(input),
{
    if input.as_str().is_empty() {
        None
    } else {
        Some(input)
    }
}

/// A horizon's display name, given back on the command line, names that horizon.
pub proof fn law_horizon_name_parses(h: TimeHorizon)
    ensures
        horizon_word(lowercase(horizon_name(h))) == Some(h),
{
    reveal_strlit("annual");
    reveal_strlit("yearly");
    reveal_strlit("roczne");
    reveal_strlit("monthly");
    reveal_strlit("miesięczne");
    reveal_strlit("miesieczne");
    reveal_strlit("weekly");
    reveal_strlit("tygodniowe");
    reveal_strlit("daily");
    reveal_strlit("dzienne");
    reveal_strlit("Annual");
    reveal_strlit("Monthly");
    reveal_strlit("Weekly");
    reveal_strlit("Daily");
    match h {
        TimeHorizon::Annual => {
            assert(ascii_lower_seq("Annual"@) =~= "annual"@);
        },
        TimeHorizon::Monthly => {
            assert(ascii_lower_seq("Monthly"@) =~= "monthly"@);
        },
        TimeHorizon::Weekly => {
            assert(ascii_lower_seq("Weekly"@) =~= "weekly"@);
            assert("weekly"@[0] != "annual"@[0]);
            assert("weekly"@[0] != "yearly"@[0]);
            assert("weekly"@[0] != "roczne"@[0]);
        },
        TimeHorizon::Daily => {
            assert(ascii_lower_seq("Daily"@) =~= "daily"@);
        },
    }
}

/// Horizon names are read ignoring case: texts with the same lower-case form
/// name the same horizon, a horizon's name in capitals names it, the aliases
/// name their horizons, and a word that is no horizon names none.
pub proof fn law_horizon_names_any_case(h: TimeHorizon, s: Seq<char>, t: Seq<char>)
    ensures
        lowercase(s) == lowercase(t) ==> horizon_word(lowercase(s)) == horizon_word(lowercase(t)),
        horizon_word(lowercase(ascii_upper_seq(horizon_name(h)))) == Some(h),
        horizon_word(lowercase("yearly"@)) == Some(TimeHorizon::Annual),
        horizon_word(lowercase("YEARLY"@)) == Some(TimeHorizon::Annual),
        horizon_word(lowercase("miesieczne"@)) == Some(TimeHorizon::Monthly),
        horizon_word(lowercase("quarterly"@)) is None,
{
    law_horizon_name_parses(h);
    reveal_strlit("Annual");
    reveal_strlit("Monthly");
    reveal_strlit("Weekly");
    reveal_strlit("Daily");
    lemma_upper_then_lower(horizon_name(h));
    reveal_strlit("annual");
    reveal_strlit("yearly");
    reveal_strlit("YEARLY");
    reveal_strlit("roczne");
    reveal_strlit("monthly");
    reveal_strlit("miesięczne");
    reveal_strlit("miesieczne");
    reveal_strlit("weekly");
    reveal_strlit("tygodniowe");
    reveal_strlit("daily");
    reveal_strlit("dzienne");
    reveal_strlit("quarterly");
    assert(ascii_lower_seq("yearly"@) =~= "yearly"@);
    assert(ascii_lower_seq("YEARLY"@) =~= "yearly"@);
    assert(ascii_lower_seq("miesieczne"@) =~= "miesieczne"@);
    assert("yearly"@[0] != "annual"@[0]);
    assert("miesieczne"@[5] != "miesięczne"@[5]);
    assert(ascii_lower_seq("quarterly"@) =~= "quarterly"@);
}

} // verus!
