//! Data model: time horizons, daytime blocks, priorities, and the Linear
//! objects (tasks, states, labels, projects, teams, users) with their rules.

use vstd::prelude::*;
use vstd::string::*;
use crate::calendar::{Date, Timestamp};
use crate::text::{ascii_lower_seq, ascii_upper_seq, lemma_upper_then_lower, lowercase, str_equal, to_lowercase};

verus! {

// ---------------------------------------------------------------------------
// Time horizons
// ---------------------------------------------------------------------------

/// Time horizon for task planning.
#[derive(Clone, Copy, Debug, PartialEq, Eq, Structural)]
pub enum TimeHorizon {
    Annual,
    Monthly,
    Weekly,
    Daily,
}

/// The display name of a horizon (also the name of its Linear label).
pub open spec fn horizon_name(h: TimeHorizon) -> Seq<char> {
    match h {
        TimeHorizon::Annual => "Annual"@,
        TimeHorizon::Monthly => "Monthly"@,
        TimeHorizon::Weekly => "Weekly"@,
        TimeHorizon::Daily => "Daily"@,
    }
}

/// The emoji of a horizon.
pub open spec fn horizon_emoji(h: TimeHorizon) -> Seq<char> {
    match h {
        TimeHorizon::Annual => "🎯"@,
        TimeHorizon::Monthly => "📅"@,
        TimeHorizon::Weekly => "📆"@,
        TimeHorizon::Daily => "📌"@,
    }
}

/// The label color of a horizon.
pub open spec fn horizon_color(h: TimeHorizon) -> Seq<char> {
    match h {
        TimeHorizon::Annual => "#f2c94c"@,
        TimeHorizon::Monthly => "#26b5ce"@,
        TimeHorizon::Weekly => "#4cb782"@,
        TimeHorizon::Daily => "#f2994a"@,
    }
}

impl TimeHorizon {
    /// All horizons, from the longest to the shortest.
    pub fn all() -> (res: Vec<TimeHorizon>)
        ensures
            res@ == seq![
                TimeHorizon::Annual,
                TimeHorizon::Monthly,
                TimeHorizon::Weekly,
                TimeHorizon::Daily,
            ],
    {
        vec![TimeHorizon::Annual, TimeHorizon::Monthly, TimeHorizon::Weekly, TimeHorizon::Daily]
    }

    pub fn emoji(&self) -> (res: &'static str)
        ensures
            res@ == horizon_emoji(*self),
    {
        match self {
            TimeHorizon::Annual => "🎯",
            TimeHorizon::Monthly => "📅",
            TimeHorizon::Weekly => "📆",
            TimeHorizon::Daily => "📌",
        }
    }

    pub fn color(&self) -> (res: &'static str)
        ensures
            res@ == horizon_color(*self),
    {
        match self {
            TimeHorizon::Annual => "#f2c94c",
            TimeHorizon::Monthly => "#26b5ce",
            TimeHorizon::Weekly => "#4cb782",
            TimeHorizon::Daily => "#f2994a",
        }
    }

    /// The display name.
    pub fn name(&self) -> (res: &'static str)
        ensures
            res@ == horizon_name(*self),
    {
        match self {
            TimeHorizon::Annual => "Annual",
            TimeHorizon::Monthly => "Monthly",
            TimeHorizon::Weekly => "Weekly",
            TimeHorizon::Daily => "Daily",
        }
    }

    /// The display name as an owned string.
    pub fn to_display_string(&self) -> (res: String)
        ensures
            res@ == horizon_name(*self),
    {
        String::from_str(self.name())
    }
}

// ---------------------------------------------------------------------------
// Daytime blocks
// ---------------------------------------------------------------------------

/// Daytime blocks for organizing tasks within a day.
#[derive(Clone, Copy, Debug, PartialEq, Eq, Structural, PartialOrd, Ord)]
pub enum DaytimeBlock {
    Morning,
    Work,
    Afternoon,
    Evening,
}

/// The display name of a block (also the name of its Linear label).
pub open spec fn block_name(b: DaytimeBlock) -> Seq<char> {
    match b {
        DaytimeBlock::Morning => "Morning"@,
        DaytimeBlock::Work => "Work"@,
        DaytimeBlock::Afternoon => "Afternoon"@,
        DaytimeBlock::Evening => "Evening"@,
    }
}

pub open spec fn block_emoji(b: DaytimeBlock) -> Seq<char> {
    match b {
        DaytimeBlock::Morning => "🌅"@,
        DaytimeBlock::Work => "💼"@,
        DaytimeBlock::Afternoon => "☀️"@,
        DaytimeBlock::Evening => "🌙"@,
    }
}

pub open spec fn block_color(b: DaytimeBlock) -> Seq<char> {
    match b {
        DaytimeBlock::Morning => "#f5a623"@,
        DaytimeBlock::Work => "#4a90d9"@,
        DaytimeBlock::Afternoon => "#7ed321"@,
        DaytimeBlock::Evening => "#9013fe"@,
    }
}

pub open spec fn block_time_range(b: DaytimeBlock) -> Seq<char> {
    match b {
        DaytimeBlock::Morning => "06:00 - 09:00"@,
        DaytimeBlock::Work => "09:00 - 17:00"@,
        DaytimeBlock::Afternoon => "17:00 - 20:00"@,
        DaytimeBlock::Evening => "20:00 - 23:00"@,
    }
}

/// The block that an already lower-cased word names, if any.
pub open spec fn block_from_lower(s: Seq<char>) -> Option<DaytimeBlock> {
    if s == "morning"@ || s == "rano"@ || s == "🌅"@ {
        Some(DaytimeBlock::Morning)
    } else if s == "work"@ || s == "praca"@ || s == "💼"@ {
        Some(DaytimeBlock::Work)
    } else if s == "afternoon"@ || s == "popołudnie"@ || s == "☀️"@ {
        Some(DaytimeBlock::Afternoon)
    } else if s == "evening"@ || s == "wieczór"@ || s == "wieczor"@ || s == "🌙"@ {
        Some(DaytimeBlock::Evening)
    } else {
        None
    }
}

/// The block that a word names, compared after Unicode lower-casing.
pub open spec fn block_from_text(s: Seq<char>) -> Option<DaytimeBlock> {
    block_from_lower(lowercase(s))
}

impl DaytimeBlock {
    /// All blocks in the order of the day.
    pub fn all() -> (res: Vec<DaytimeBlock>)
        ensures
            res@ == seq![
                DaytimeBlock::Morning,
                DaytimeBlock::Work,
                DaytimeBlock::Afternoon,
                DaytimeBlock::Evening,
            ],
    {
        vec![DaytimeBlock::Morning, DaytimeBlock::Work, DaytimeBlock::Afternoon, DaytimeBlock::Evening]
    }

    pub fn emoji(&self) -> (res: &'static str)
        ensures
            res@ == block_emoji(*self),
    {
        match self {
            DaytimeBlock::Morning => "🌅",
            DaytimeBlock::Work => "💼",
            DaytimeBlock::Afternoon => "☀️",
            DaytimeBlock::Evening => "🌙",
        }
    }

    pub fn color(&self) -> (res: &'static str)
        ensures
            res@ == block_color(*self),
    {
        match self {
            DaytimeBlock::Morning => "#f5a623",
            DaytimeBlock::Work => "#4a90d9",
            DaytimeBlock::Afternoon => "#7ed321",
            DaytimeBlock::Evening => "#9013fe",
        }
    }

    pub fn time_range(&self) -> (res: &'static str)
        ensures
            res@ == block_time_range(*self),
    {
        match self {
            DaytimeBlock::Morning => "06:00 - 09:00",
            DaytimeBlock::Work => "09:00 - 17:00",
            DaytimeBlock::Afternoon => "17:00 - 20:00",
            DaytimeBlock::Evening => "20:00 - 23:00",
        }
    }

    /// The display name.
    pub fn name(&self) -> (res: &'static str)
        ensures
            res@ == block_name(*self),
    {
        match self {
            DaytimeBlock::Morning => "Morning",
            DaytimeBlock::Work => "Work",
            DaytimeBlock::Afternoon => "Afternoon",
            DaytimeBlock::Evening => "Evening",
        }
    }

    /// The display name as an owned string.
    pub fn to_display_string(&self) -> (res: String)
        ensures
            res@ == block_name(*self),
    {
        String::from_str(self.name())
    }

    /// The block that an already lower-cased word names.
    pub fn from_lower(s: &str) -> (res: Option<DaytimeBlock>)
        ensures
            res == block_from_lower(s@),
    {
        if str_equal(s, "morning") || str_equal(s, "rano") || str_equal(s, "🌅") {
            Some(DaytimeBlock::Morning)
        } else if str_equal(s, "work") || str_equal(s, "praca") || str_equal(s, "💼") {
            Some(DaytimeBlock::Work)
        } else if str_equal(s, "afternoon") || str_equal(s, "popołudnie") || str_equal(s, "☀️") {
            Some(DaytimeBlock::Afternoon)
        } else if str_equal(s, "evening") || str_equal(s, "wieczór") || str_equal(s, "wieczor")
            || str_equal(s, "🌙") {
            Some(DaytimeBlock::Evening)
        } else {
            None
        }
    }

    /// Parses a block name (English, Polish or emoji), ignoring case.
    pub fn from_str(s: &str) -> (res: Option<DaytimeBlock>)
        ensures
            res == block_from_text(s@),
    {
        let lower = to_lowercase(s);
        DaytimeBlock::from_lower(lower.as_str())
    }
}

} // verus!

verus! {

// ---------------------------------------------------------------------------
// Priorities
// ---------------------------------------------------------------------------

/// Task priority levels matching Linear (0 = none, 1 = urgent ... 4 = low).
#[derive(Clone, Copy, Debug, PartialEq, Eq, Structural)]
pub enum Priority {
    NoPriority,
    Urgent,
    High,
    Normal,
    Low,
}

/// Linear's number for a priority.
pub open spec fn priority_value(p: Priority) -> i32 {
    match p {
        Priority::NoPriority => 0,
        Priority::Urgent => 1,
        Priority::High => 2,
        Priority::Normal => 3,
        Priority::Low => 4,
    }
}

/// The priority that Linear's number stands for; unknown numbers mean no priority.
pub open spec fn priority_of(v: i32) -> Priority {
    if v == 1 {
        Priority::Urgent
    } else if v == 2 {
        Priority::High
    } else if v == 3 {
        Priority::Normal
    } else if v == 4 {
        Priority::Low
    } else {
        Priority::NoPriority
    }
}

/// The display text of a priority.
pub open spec fn priority_text(p: Priority) -> Seq<char> {
    match p {
        Priority::NoPriority => "—"@,
        Priority::Urgent => "🔴 Urgent"@,
        Priority::High => "🟠 High"@,
        Priority::Normal => "🟡 Normal"@,
        Priority::Low => "🟢 Low"@,
    }
}

impl Priority {
    /// Linear's number for this priority.
    pub fn value(&self) -> (res: i32)
        ensures
            res == priority_value(*self),
    {
        match self {
            Priority::NoPriority => 0,
            Priority::Urgent => 1,
            Priority::High => 2,
            Priority::Normal => 3,
            Priority::Low => 4,
        }
    }

    /// The display text.
    pub fn label(&self) -> (res: &'static str)
        ensures
            res@ == priority_text(*self),
    {
        match self {
            Priority::NoPriority => "—",
            Priority::Urgent => "🔴 Urgent",
            Priority::High => "🟠 High",
            Priority::Normal => "🟡 Normal",
            Priority::Low => "🟢 Low",
        }
    }
}

impl From<i32> for Priority {
    fn from(value: i32) -> (res: Priority) {
        if value == 1 {
            Priority::Urgent
        } else if value == 2 {
            Priority::High
        } else if value == 3 {
            Priority::Normal
        } else if value == 4 {
            Priority::Low
        } else {
            Priority::NoPriority
        }
    }
}

impl vstd::std_specs::convert::FromSpecImpl<i32> for Priority {
    open spec fn obeys_from_spec() -> bool {
        true
    }

    open spec fn from_spec(v: i32) -> Priority {
        priority_of(v)
    }
}

// ---------------------------------------------------------------------------
// Linear objects
// ---------------------------------------------------------------------------

/// The emoji of a workflow state type.
pub open spec fn state_type_emoji(t: Seq<char>) -> Seq<char> {
    if t == "backlog"@ {
        "📥"@
    } else if t == "unstarted"@ {
        "⚪"@
    } else if t == "started"@ {
        "🔵"@
    } else if t == "completed"@ {
        "✅"@
    } else if t == "canceled"@ {
        "❌"@
    } else {
        "❓"@
    }
}

/// Task (workflow) state.
#[derive(Clone, Debug)]
pub struct TaskState {
    pub id: String,
    pub name: String,
    pub state_type: String,
    pub color: Option<String>,
}

impl TaskState {
    pub fn emoji(&self) -> (res: &'static str)
        ensures
            res@ == state_type_emoji(self.state_type@),
    {
        let t = self.state_type.as_str();
        if str_equal(t, "backlog") {
            "📥"
        } else if str_equal(t, "unstarted") {
            "⚪"
        } else if str_equal(t, "started") {
            "🔵"
        } else if str_equal(t, "completed") {
            "✅"
        } else if str_equal(t, "canceled") {
            "❌"
        } else {
            "❓"
        }
    }
}

/// Label attached to a task.
#[derive(Clone, Debug)]
pub struct Label {
    pub id: String,
    pub name: String,
    pub color: Option<String>,
}

/// Project in Linear.
#[derive(Clone, Debug)]
pub struct Project {
    pub id: String,
    pub name: String,
    pub description: Option<String>,
    pub icon: Option<String>,
    pub color: Option<String>,
    pub start_date: Option<Date>,
    pub target_date: Option<Date>,
}

/// Team in Linear.
#[derive(Clone, Debug)]
pub struct Team {
    pub id: String,
    pub name: String,
    pub key: String,
    pub icon: Option<String>,
}

/// User in Linear.
#[derive(Clone, Debug)]
pub struct User {
    pub id: String,
    pub name: String,
    pub email: Option<String>,
}

/// A task (issue) in Linear.
#[derive(Clone, Debug)]
pub struct Task {
    pub id: String,
    pub identifier: String,
    pub title: String,
    pub description: Option<String>,
    pub priority: i32,
    pub due_date: Option<Date>,
    pub state: TaskState,
    pub labels: Vec<Label>,
    pub project: Option<Project>,
    pub assignee: Option<User>,
    pub created_at: Timestamp,
    pub updated_at: Timestamp,
    pub url: String,
}

/// The horizon that an already lower-cased label name stands for.
pub open spec fn horizon_from_lower(s: Seq<char>) -> Option<TimeHorizon> {
    if s == "annual"@ || s == "yearly"@ || s == "roczne"@ {
        Some(TimeHorizon::Annual)
    } else if s == "monthly"@ || s == "miesięczne"@ {
        Some(TimeHorizon::Monthly)
    } else if s == "weekly"@ || s == "tygodniowe"@ {
        Some(TimeHorizon::Weekly)
    } else if s == "daily"@ || s == "dzienne"@ {
        Some(TimeHorizon::Daily)
    } else {
        None
    }
}

/// The horizon of the first label (in order) whose name stands for one.
pub open spec fn labels_horizon(labels: Seq<Label>) -> Option<TimeHorizon>
    decreases labels.len(),
{
    if labels.len() == 0 {
        None
    } else {
        match horizon_from_lower(lowercase(labels[0].name@)) {
            Some(h) => Some(h),
            None => labels_horizon(labels.drop_first()),
        }
    }
}

/// The block of the first label (in order) whose name stands for one.
pub open spec fn labels_block(labels: Seq<Label>) -> Option<DaytimeBlock>
    decreases labels.len(),
{
    if labels.len() == 0 {
        None
    } else {
        match block_from_text(labels[0].name@) {
            Some(b) => Some(b),
            None => labels_block(labels.drop_first()),
        }
    }
}

/// The task is completed.
pub open spec fn task_completed(t: Task) -> bool {
    t.state.state_type@ == "completed"@
}

/// The task is canceled.
pub open spec fn task_canceled(t: Task) -> bool {
    t.state.state_type@ == "canceled"@
}

/// The task is neither completed nor canceled.
pub open spec fn task_active(t: Task) -> bool {
    !task_completed(t) && !task_canceled(t)
}

/// The horizon that a lower-cased label name stands for.
pub fn horizon_from_lower_label(s: &str) -> (res: Option<TimeHorizon>)
    ensures
        res == horizon_from_lower(s@),
{
    if str_equal(s, "annual") || str_equal(s, "yearly") || str_equal(s, "roczne") {
        Some(TimeHorizon::Annual)
    } else if str_equal(s, "monthly") || str_equal(s, "miesięczne") {
        Some(TimeHorizon::Monthly)
    } else if str_equal(s, "weekly") || str_equal(s, "tygodniowe") {
        Some(TimeHorizon::Weekly)
    } else if str_equal(s, "daily") || str_equal(s, "dzienne") {
        Some(TimeHorizon::Daily)
    } else {
        None
    }
}

impl Task {
    pub fn priority_enum(&self) -> (res: Priority)
        ensures
            res == priority_of(self.priority),
    {
        Priority::from(self.priority)
    }

    /// Determines the time horizon from the task's labels.
    pub fn time_horizon(&self) -> (res: Option<TimeHorizon>)
        ensures
            res == labels_horizon(self.labels@),
    {
        let mut i: usize = 0;
        assert(self.labels@.subrange(0, self.labels@.len() as int) =~= self.labels@);
        while i < self.labels.len()
            invariant
                i <= self.labels@.len(),
                labels_horizon(self.labels@) == labels_horizon(
                    self.labels@.subrange(i as int, self.labels@.len() as int),
                ),
            decreases self.labels.len() - i,
        {
            let ghost rest = self.labels@.subrange(i as int, self.labels@.len() as int);
            assert(rest[0] == self.labels@[i as int]);
            assert(rest.drop_first() =~= self.labels@.subrange(i + 1, self.labels@.len() as int));
            let lower = to_lowercase(self.labels[i].name.as_str());
            match horizon_from_lower_label(lower.as_str()) {
                Some(h) => {
                    return Some(h);
                },
                None => {},
            }
            i = i + 1;
        }
        None
    }

    /// Determines the daytime block from the task's labels.
    pub fn daytime_block(&self) -> (res: Option<DaytimeBlock>)
        ensures
            res == labels_block(self.labels@),
    {
        let mut i: usize = 0;
        assert(self.labels@.subrange(0, self.labels@.len() as int) =~= self.labels@);
        while i < self.labels.len()
            invariant
                i <= self.labels@.len(),
                labels_block(self.labels@) == labels_block(
                    self.labels@.subrange(i as int, self.labels@.len() as int),
                ),
            decreases self.labels.len() - i,
        {
            let ghost rest = self.labels@.subrange(i as int, self.labels@.len() as int);
            assert(rest[0] == self.labels@[i as int]);
            assert(rest.drop_first() =~= self.labels@.subrange(i + 1, self.labels@.len() as int));
            match DaytimeBlock::from_str(self.labels[i].name.as_str()) {
                Some(b) => {
                    return Some(b);
                },
                None => {},
            }
            i = i + 1;
        }
        None
    }

    pub fn is_completed(&self) -> (res: bool)
        ensures
            res == task_completed(*self),
    {
        str_equal(self.state.state_type.as_str(), "completed")
    }

    pub fn is_canceled(&self) -> (res: bool)
        ensures
            res == task_canceled(*self),
    {
        str_equal(self.state.state_type.as_str(), "canceled")
    }

    pub fn is_active(&self) -> (res: bool)
        ensures
            res == task_active(*self),
    {
        !self.is_completed() && !self.is_canceled()
    }
}

/// Input for creating a new task.
#[derive(Clone, Debug)]
pub struct CreateTaskInput {
    pub title: String,
    pub description: Option<String>,
    pub team_id: String,
    pub project_id: Option<String>,
    pub priority: Option<i32>,
    pub due_date: Option<Date>,
    pub label_ids: Vec<String>,
    pub assignee_id: Option<String>,
}

/// Input for updating a task.
#[derive(Clone, Debug)]
pub struct UpdateTaskInput {
    pub id: String,
    pub title: Option<String>,
    pub description: Option<String>,
    pub priority: Option<i32>,
    pub due_date: Option<Date>,
    pub state_id: Option<String>,
    pub label_ids: Option<Vec<String>>,
    pub project_id: Option<String>,
}

// ---------------------------------------------------------------------------
// Configuration
// ---------------------------------------------------------------------------

/// Application configuration.
#[derive(Clone, Debug)]
pub struct AppConfig {
    pub linear_api_key: String,
    pub default_team_id: Option<String>,
    pub default_team_name: Option<String>,
    pub time_horizon_labels: TimeHorizonLabels,
    pub daytime_block_labels: DaytimeBlockLabels,
}

/// Names of the time horizon labels.
#[derive(Clone, Debug)]
pub struct TimeHorizonLabels {
    pub annual: String,
    pub monthly: String,
    pub weekly: String,
    pub daily: String,
}

/// The default horizon label names: the horizons' display names.
pub open spec fn default_horizon_labels(l: TimeHorizonLabels) -> bool {
    &&& l.annual@ == "Annual"@
    &&& l.monthly@ == "Monthly"@
    &&& l.weekly@ == "Weekly"@
    &&& l.daily@ == "Daily"@
}

impl Default for TimeHorizonLabels {
    fn default() -> (res: Self)
        ensures
            default_horizon_labels(res),
    {
        TimeHorizonLabels {
            annual: String::from_str("Annual"),
            monthly: String::from_str("Monthly"),
            weekly: String::from_str("Weekly"),
            daily: String::from_str("Daily"),
        }
    }
}

/// Names of the daytime block labels.
#[derive(Clone, Debug)]
pub struct DaytimeBlockLabels {
    pub morning: String,
    pub work: String,
    pub afternoon: String,
    pub evening: String,
}

/// The default block label names: the blocks' display names.
pub open spec fn default_block_labels(l: DaytimeBlockLabels) -> bool {
    &&& l.morning@ == "Morning"@
    &&& l.work@ == "Work"@
    &&& l.afternoon@ == "Afternoon"@
    &&& l.evening@ == "Evening"@
}

impl Default for DaytimeBlockLabels {
    fn default() -> (res: Self)
        ensures
            default_block_labels(res),
    {
        DaytimeBlockLabels {
            morning: String::from_str("Morning"),
            work: String::from_str("Work"),
            afternoon: String::from_str("Afternoon"),
            evening: String::from_str("Evening"),
        }
    }
}

/// The default configuration: no key, no team, default label names.
pub open spec fn default_config(c: AppConfig) -> bool {
    &&& c.linear_api_key@ == Seq::<char>::empty()
    &&& c.default_team_id is None
    &&& c.default_team_name is None
    &&& default_horizon_labels(c.time_horizon_labels)
    &&& default_block_labels(c.daytime_block_labels)
}

impl Default for AppConfig {
    fn default() -> (res: Self)
        ensures
            default_config(res),
    {
        AppConfig {
            linear_api_key: String::new(),
            default_team_id: None,
            default_team_name: None,
            time_horizon_labels: TimeHorizonLabels::default(),
            daytime_block_labels: DaytimeBlockLabels::default(),
        }
    }
}

/// A label named after a horizon (as the generated tasks' labels are) reads back as
/// that horizon, and a task whose first label is such a label has that horizon.
pub proof fn law_horizon_label_reads_back(x: TimeHorizon)
    ensures
        horizon_from_lower(lowercase(horizon_name(x))) == Some(x),
        forall|labels: Seq<Label>|
            labels.len() > 0 && (#[trigger] labels[0]).name@ == horizon_name(x) ==> labels_horizon(labels) == Some(x),
{
    reveal_strlit("annual");
    reveal_strlit("yearly");
    reveal_strlit("roczne");
    reveal_strlit("monthly");
    reveal_strlit("miesięczne");
    reveal_strlit("weekly");
    reveal_strlit("tygodniowe");
    reveal_strlit("daily");
    reveal_strlit("dzienne");
    reveal_strlit("Annual");
    reveal_strlit("Monthly");
    reveal_strlit("Weekly");
    reveal_strlit("Daily");
    match x {
        TimeHorizon::Annual => {
            assert(ascii_lower_seq("Annual"@) =~= "annual"@);
        },
        TimeHorizon::Monthly => {
            assert(ascii_lower_seq("Monthly"@) =~= "monthly"@);
        },
        TimeHorizon::Weekly => {
            assert(ascii_lower_seq("Weekly"@) =~= "weekly"@);
            assert("weekly"@[0] != "annual"@[0]);
            assert("weekly"@[0] != "yearly"@[0]);
            assert("weekly"@[0] != "roczne"@[0]);
        },
        TimeHorizon::Daily => {
            assert(ascii_lower_seq("Daily"@) =~= "daily"@);
        },
    }
}

/// A label named after a daytime block reads back as that block, and a task whose
/// first label is such a label is in that block.
pub proof fn law_block_label_reads_back(x: DaytimeBlock)
    ensures
        block_from_lower(lowercase(block_name(x))) == Some(x),
        forall|labels: Seq<Label>|
            labels.len() > 0 && (#[trigger] labels[0]).name@ == block_name(x) ==> labels_block(labels) == Some(x),
{
    reveal_strlit("morning");
    reveal_strlit("rano");
    reveal_strlit("🌅");
    reveal_strlit("work");
    reveal_strlit("praca");
    reveal_strlit("💼");
    reveal_strlit("afternoon");
    reveal_strlit("popołudnie");
    reveal_strlit("☀️");
    reveal_strlit("evening");
    reveal_strlit("wieczór");
    reveal_strlit("wieczor");
    reveal_strlit("🌙");
    reveal_strlit("Morning");
    reveal_strlit("Work");
    reveal_strlit("Afternoon");
    reveal_strlit("Evening");
    match x {
        DaytimeBlock::Morning => {
            assert(ascii_lower_seq("Morning"@) =~= "morning"@);
        },
        DaytimeBlock::Work => {
            assert(ascii_lower_seq("Work"@) =~= "work"@);
            assert("work"@[0] != "rano"@[0]);
        },
        DaytimeBlock::Afternoon => {
            assert(ascii_lower_seq("Afternoon"@) =~= "afternoon"@);
        },
        DaytimeBlock::Evening => {
            assert(ascii_lower_seq("Evening"@) =~= "evening"@);
            assert("evening"@[0] != "morning"@[0]);
        },
    }
}

/// Block names are read ignoring case: texts with the same lower-case form name
/// the same block, and a block's name as written or in capitals names it. A
/// block's emoji, taken as its own lower-case form, names it too.
pub proof fn law_block_names_any_case(b: DaytimeBlock, s: Seq<char>, t: Seq<char>)
    ensures
        lowercase(s) == lowercase(t) ==> block_from_text(s) == block_from_text(t),
        block_from_text(block_name(b)) == Some(b),
        block_from_text(ascii_upper_seq(block_name(b))) == Some(b),
        block_from_lower(block_emoji(b)) == Some(b),
{
    law_block_label_reads_back(b);
    reveal_strlit("Morning");
    reveal_strlit("Work");
    reveal_strlit("Afternoon");
    reveal_strlit("Evening");
    lemma_upper_then_lower(block_name(b));
    reveal_strlit("morning");
    reveal_strlit("rano");
    reveal_strlit("🌅");
    reveal_strlit("work");
    reveal_strlit("praca");
    reveal_strlit("💼");
    reveal_strlit("afternoon");
    reveal_strlit("popołudnie");
    reveal_strlit("☀️");
    reveal_strlit("evening");
    reveal_strlit("wieczór");
    reveal_strlit("wieczor");
    reveal_strlit("🌙");
    match b {
        DaytimeBlock::Morning => {},
        DaytimeBlock::Work => {
            assert("💼"@[0] != "🌅"@[0]);
        },
        DaytimeBlock::Afternoon => {
            assert("☀️"@[0] != "🌅"@[0]);
            assert("☀️"@[0] != "💼"@[0]);
        },
        DaytimeBlock::Evening => {
            assert("🌙"@[0] != "🌅"@[0]);
            assert("🌙"@[0] != "💼"@[0]);
        },
    }
}

/// A priority survives the trip through Linear's number, and every number that
/// names no priority level reads as no priority.
pub proof fn law_priority_roundtrip(p: Priority, v: i32)
    ensures
        priority_of(priority_value(p)) == p,
        !(1 <= v <= 4) ==> priority_of(v) == Priority::NoPriority,
        1 <= v <= 4 ==> priority_value(priority_of(v)) == v,
{
}

} // verus!
