//! What the terminal views show, computed apart from printing: truncated
//! text, priority and state labels, due-date urgency, label lists, the
//! grouping of tasks by horizon and daytime block, and dashboard statistics.

use vstd::prelude::*;
use vstd::string::*;
use vstd::utf8::{decode_utf8, encode_utf8, is_char_boundary, valid_utf8};
use crate::calendar::{Date, iso_date_text};
use crate::models::{
    DaytimeBlock, Label, Task, TaskState, TimeHorizon, block_emoji, block_name,
    labels_block, labels_horizon, priority_of, priority_text, state_type_emoji, task_active,
    task_completed,
};
use crate::text::{count, keep, lemma_count_bound, lemma_count_disjoint, lemma_count_implies, join_strings, join_with, string_views, str_equal};

verus! {

// ---------------------------------------------------------------------------
// Text
// ---------------------------------------------------------------------------

/// The last character boundary of `bytes` at or before byte `k`.
pub open spec fn boundary_at_or_before(bytes: Seq<u8>, k: nat) -> nat
    decreases k,
{
    if k == 0 || is_char_boundary(bytes, k as int) {
        k
    } else {
        boundary_at_or_before(bytes, (k - 1) as nat)
    }
}

/// `s` cut to at most `max` bytes of UTF-8: unchanged when it fits, `max` dots
/// when `max` is at most 3, else the characters that fit in its first `max - 3`
/// bytes (cut at the last character boundary there) followed by "...".
pub open spec fn truncated(chars: Seq<char>, max: int) -> Seq<char> {
    let bytes = encode_utf8(chars);
    if bytes.len() <= max {
        chars
    } else if max <= 3 {
        Seq::new(max as nat, |i: int| '.')
    } else {
        decode_utf8(bytes.subrange(0, boundary_at_or_before(bytes, (max - 3) as nat) as int))
            + "..."@
    }
}

/// Cuts text to a width in bytes, marking the cut with "...".
pub fn truncate(s: &str, max_width: usize) -> (res: String)
    requires
        encode_utf8(s@).len() <= usize::MAX,
    ensures
        res@ == truncated(s@, max_width as int),
{
    assert(s.spec_bytes() == encode_utf8(s@));
    if s.len() <= max_width {
        return String::from_str(s);
    }
    if max_width <= 3 {
        let mut dots = String::new();
        let mut i: usize = 0;
        while i < max_width
            invariant
                i <= max_width,
                dots@ == Seq::new(i as nat, |k: int| '.'),
            decreases max_width - i,
        {
            proof {
                reveal_strlit(".");
            }
            dots.append(".");
            assert(dots@ =~= Seq::new((i + 1) as nat, |k: int| '.'));
            i = i + 1;
        }
        return dots;
    }
    let ghost bytes = encode_utf8(s@);
    let mut cut: usize = max_width - 3;
    while cut > 0 && !s.is_char_boundary(cut)
        invariant
            bytes == s.spec_bytes(),
            cut <= max_width - 3,
            max_width - 3 < bytes.len(),
            boundary_at_or_before(bytes, (max_width - 3) as nat) == boundary_at_or_before(
                bytes,
                cut as nat,
            ),
        decreases cut,
    {
        cut = cut - 1;
    }
    proof {
        vstd::utf8::encode_utf8_valid_utf8(s@);
        vstd::utf8::is_char_boundary_start_end_of_seq(bytes);
    }
    let (head, _tail) = s.split_at(cut);
    let mut res = head.to_owned();
    proof {
        vstd::utf8::encode_utf8_decode_utf8(head@);
    }
    res.append("...");
    res
}

/// The cut lies on a character boundary at or before the limit.
proof fn lemma_boundary_at_or_before(bytes: Seq<u8>, k: nat)
    requires
        valid_utf8(bytes),
    ensures
        boundary_at_or_before(bytes, k) <= k,
        is_char_boundary(bytes, boundary_at_or_before(bytes, k) as int),
    decreases k,
{
    vstd::utf8::is_char_boundary_start_end_of_seq(bytes);
    if k > 0 && !is_char_boundary(bytes, k as int) {
        lemma_boundary_at_or_before(bytes, (k - 1) as nat);
    }
}

/// UTF-8 length of a run of dots.
proof fn lemma_dots_bytes(n: nat)
    ensures
        encode_utf8(Seq::new(n, |i: int| '.')).len() == n,
{
    if n > 0 {
        let d = Seq::new(n, |i: int| '.');
        assert(vstd::utf8::is_ascii_chars(d));
        vstd::utf8::is_ascii_chars_encode_utf8(d);
    }
}

/// UTF-8 length of a concatenation.
proof fn lemma_encode_concat(a: Seq<char>, b: Seq<char>)
    ensures
        encode_utf8(a + b) == encode_utf8(a) + encode_utf8(b),
    decreases a.len(),
{
    if a.len() > 0 {
        assert((a + b).drop_first() =~= a.drop_first() + b);
        lemma_encode_concat(a.drop_first(), b);
        assert((a + b)[0] == a[0]);
        assert(encode_utf8(a + b) =~= encode_utf8(a) + encode_utf8(b));
    } else {
        assert(a + b =~= b);
        assert(encode_utf8(a) + encode_utf8(b) =~= encode_utf8(b));
    }
}

/// Truncated text never takes more than the width, in bytes of UTF-8; text
/// that is cut keeps a prefix of the original characters, followed by "...".
pub proof fn law_truncate_fits(chars: Seq<char>, max: nat)
    ensures
        encode_utf8(truncated(chars, max as int)).len() <= max,
        encode_utf8(chars).len() > max > 3 ==> {
            let t = truncated(chars, max as int);
            &&& t.len() >= 3
            &&& t.subrange(t.len() - 3, t.len() as int) == "..."@
            &&& chars.take(t.len() - 3) == t.take(t.len() - 3)
        },
{
    let bytes = encode_utf8(chars);
    if bytes.len() <= max {
    } else if max <= 3 {
        lemma_dots_bytes(max);
    } else {
        vstd::utf8::encode_utf8_valid_utf8(chars);
        let b = boundary_at_or_before(bytes, (max - 3) as nat);
        lemma_boundary_at_or_before(bytes, (max - 3) as nat);
        let prefix = bytes.subrange(0, b as int);
        vstd::utf8::valid_utf8_split(bytes, b as int);
        vstd::utf8::decode_utf8_encode_utf8(prefix);
        lemma_encode_concat(decode_utf8(prefix), "..."@);
        reveal_strlit("...");
        vstd::utf8::char_u32_cast('.', 46);
        assert(encode_utf8("..."@).len() == 3) by {
            assert(vstd::utf8::is_ascii_chars("..."@));
            vstd::utf8::is_ascii_chars_encode_utf8("..."@);
        }
        vstd::utf8::decode_utf8_split(bytes, b as int);
        vstd::utf8::encode_utf8_decode_utf8(chars);
        let head = decode_utf8(prefix);
        let t = head + "..."@;
        assert(t.subrange(t.len() - 3, t.len() as int) =~= "..."@);
        assert(t.take(t.len() - 3) =~= head);
        assert(chars.take(head.len() as int) =~= head);
    }
}

// ---------------------------------------------------------------------------
// Labels of values
// ---------------------------------------------------------------------------

/// The priority column of a task: the label of the priority its number stands for.
pub fn format_priority(priority: i32) -> (res: &'static str)
    ensures
        res@ == priority_text(priority_of(priority)),
{
    if priority == 1 {
        "🔴 Urgent"
    } else if priority == 2 {
        "🟠 High"
    } else if priority == 3 {
        "🟡 Normal"
    } else if priority == 4 {
        "🟢 Low"
    } else {
        "—"
    }
}

/// The priority of a template (none shows as "—").
pub fn format_template_priority(priority: Option<i32>) -> (res: &'static str)
    ensures
        res@ == (match priority {
            Some(p) => priority_text(priority_of(p)),
            None => "—"@,
        }),
{
    match priority {
        Some(p) => format_priority(p),
        None => "—",
    }
}

/// A workflow state as shown: its emoji, a space, its name.
pub fn format_state(state: &TaskState) -> (res: String)
    ensures
        res@ == state_type_emoji(state.state_type@) + " "@ + state.name@,
{
    let mut res = String::from_str(state.emoji());
    res.append(" ");
    res.append(state.name.as_str());
    res
}

/// A block as shown in the template table: its emoji and name, or "—".
pub fn format_block(block: Option<DaytimeBlock>) -> (res: String)
    ensures
        res@ == (match block {
            Some(b) => block_emoji(b) + " "@ + block_name(b),
            None => "—"@,
        }),
{
    match block {
        Some(b) => {
            let mut res = String::from_str(b.emoji());
            res.append(" ");
            res.append(b.name());
            res
        },
        None => String::from_str("—"),
    }
}

/// The active column of the template table.
pub fn format_active(active: bool) -> (res: &'static str)
    ensures
        res@ == (if active {
            "✅"@
        } else {
            "❌"@
        }),
{
    if active {
        "✅"
    } else {
        "❌"
    }
}

/// The names of labels in brackets.
pub open spec fn bracketed_names(labels: Seq<Label>) -> Seq<Seq<char>> {
    labels.map_values(|l: Label| "["@ + l.name@ + "]"@)
}

/// Labels as shown: "—" when there are none, else each name in brackets,
/// separated by spaces.
pub fn format_labels(labels: &Vec<Label>) -> (res: String)
    ensures
        res@ == (if labels@.len() == 0 {
            "—"@
        } else {
            join_with(bracketed_names(labels@), " "@)
        }),
{
    if labels.len() == 0 {
        return String::from_str("—");
    }
    let mut parts: Vec<String> = Vec::new();
    let mut i: usize = 0;
    while i < labels.len()
        invariant
            i <= labels@.len(),
            parts@.len() == i,
            forall|j: int| 0 <= j < i ==> (#[trigger] parts@[j])@ == "["@ + labels@[j].name@ + "]"@,
        decreases labels.len() - i,
    {
        let mut p = String::from_str("[");
        p.append(labels[i].name.as_str());
        p.append("]");
        parts.push(p);
        i = i + 1;
    }
    assert(string_views(parts@) =~= bracketed_names(labels@));
    join_strings(&parts, " ")
}

/// The state marker of the compact task line.
pub fn compact_state_marker(state_type: &str) -> (res: &'static str)
    ensures
        res@ == (if state_type@ == "completed"@ {
            "✅"@
        } else if state_type@ == "canceled"@ {
            "❌"@
        } else if state_type@ == "started"@ {
            "🔵"@
        } else {
            "⚪"@
        }),
{
    if str_equal(state_type, "completed") {
        "✅"
    } else if str_equal(state_type, "canceled") {
        "❌"
    } else if str_equal(state_type, "started") {
        "🔵"
    } else {
        "⚪"
    }
}

/// The priority marks of the compact task line.
pub fn priority_marks(priority: i32) -> (res: &'static str)
    ensures
        res@ == (if priority == 1 {
            "!!!"@
        } else if priority == 2 {
            "!!"@
        } else if priority == 3 {
            "!"@
        } else {
            " "@
        }),
{
    if priority == 1 {
        "!!!"
    } else if priority == 2 {
        "!!"
    } else if priority == 3 {
        "!"
    } else {
        " "
    }
}

/// How urgent a due date is.
#[derive(Clone, Copy, Debug, PartialEq, Eq, Structural)]
pub enum DueUrgency {
    /// No due date.
    NoDate,
    /// Before today.
    Overdue,
    /// Today.
    Today,
    /// Within the next three days; how many days away.
    Soon(i64),
    /// Later than that.
    Later,
}

/// The urgency of a due date as seen on `today`.
pub open spec fn urgency(due: Option<Date>, today: Date) -> DueUrgency {
    match due {
        None => DueUrgency::NoDate,
        Some(d) => {
            let days = d@ - today@;
            if days < 0 {
                DueUrgency::Overdue
            } else if days == 0 {
                DueUrgency::Today
            } else if days <= 3 {
                DueUrgency::Soon(days as i64)
            } else {
                DueUrgency::Later
            }
        },
    }
}

/// Classifies a due date relative to today.
pub fn due_urgency(due: Option<Date>, today: Date) -> (res: DueUrgency)
    ensures
        res == urgency(due, today),
{
    match due {
        None => DueUrgency::NoDate,
        Some(d) => {
            let days = today.days_until(&d);
            if days < 0 {
                DueUrgency::Overdue
            } else if days == 0 {
                DueUrgency::Today
            } else if days <= 3 {
                DueUrgency::Soon(days)
            } else {
                DueUrgency::Later
            }
        },
    }
}

/// The digit of a number of days from 1 to 3.
pub open spec fn small_count_text(k: i64) -> Seq<char> {
    if k == 1 {
        "1"@
    } else if k == 2 {
        "2"@
    } else {
        "3"@
    }
}

/// The due-date column: "—" without a date, else the date as "YYYY-MM-DD",
/// marked when it is overdue, today, or within three days.
pub open spec fn due_text(due: Option<Date>, today: Date) -> Seq<char> {
    match due {
        None => "—"@,
        Some(d) => {
            let f = iso_date_text(d@);
            match urgency(due, today) {
                DueUrgency::Overdue => "⚠️  "@ + f + " (overdue)"@,
                DueUrgency::Today => "🔥 "@ + f + " (today)"@,
                DueUrgency::Soon(k) => "⏰ "@ + f + " ("@ + small_count_text(k) + "d)"@,
                _ => f,
            }
        },
    }
}

/// Formats a due date with its urgency (chrono's "%Y-%m-%d" and its `Display`
/// print a date alike).
pub fn format_due_date(due: Option<Date>, today: Date) -> (res: String)
    ensures
        res@ == due_text(due, today),
{
    match due {
        None => String::from_str("—"),
        Some(d) => {
            let f = d.to_iso_string();
            match due_urgency(due, today) {
                DueUrgency::Overdue => {
                    let mut res = String::from_str("⚠️  ");
                    res.append(f.as_str());
                    res.append(" (overdue)");
                    res
                },
                DueUrgency::Today => {
                    let mut res = String::from_str("🔥 ");
                    res.append(f.as_str());
                    res.append(" (today)");
                    res
                },
                DueUrgency::Soon(k) => {
                    let mut res = String::from_str("⏰ ");
                    res.append(f.as_str());
                    res.append(" (");
                    if k == 1 {
                        res.append("1");
                    } else if k == 2 {
                        res.append("2");
                    } else {
                        res.append("3");
                    }
                    res.append("d)");
                    res
                },
                _ => f,
            }
        },
    }
}

/// Which template sections are listed for a horizon filter: all three without
/// a filter, else only the filtered one (a daily filter lists none).
pub fn template_sections(filter: Option<TimeHorizon>) -> (res: (bool, bool, bool))
    ensures
        res.0 == (filter is None || filter == Some(TimeHorizon::Annual)),
        res.1 == (filter is None || filter == Some(TimeHorizon::Monthly)),
        res.2 == (filter is None || filter == Some(TimeHorizon::Weekly)),
{
    match filter {
        None => (true, true, true),
        Some(TimeHorizon::Annual) => (true, false, false),
        Some(TimeHorizon::Monthly) => (false, true, false),
        Some(TimeHorizon::Weekly) => (false, false, true),
        Some(TimeHorizon::Daily) => (false, false, false),
    }
}

// ---------------------------------------------------------------------------
// Grouping
// ---------------------------------------------------------------------------

/// The tasks that references point to.
pub open spec fn tasks_of(rs: Seq<&Task>) -> Seq<Task> {
    rs.map_values(|r: &Task| *r)
}

/// A task whose labels give this horizon (or none).
pub open spec fn has_horizon(h: Option<TimeHorizon>) -> spec_fn(Task) -> bool {
    |t: Task| labels_horizon(t.labels@) == h
}

/// A task whose labels give this block (or none).
pub open spec fn has_block(b: Option<DaytimeBlock>) -> spec_fn(Task) -> bool {
    |t: Task| labels_block(t.labels@) == b
}

/// Tasks grouped by time horizon; `other` holds those with no horizon label.
pub struct HorizonGroups<'a> {
    pub annual: Vec<&'a Task>,
    pub monthly: Vec<&'a Task>,
    pub weekly: Vec<&'a Task>,
    pub daily: Vec<&'a Task>,
    pub other: Vec<&'a Task>,
}

/// Tasks grouped by daytime block; `unscheduled` holds those with no block label.
pub struct BlockGroups<'a> {
    pub morning: Vec<&'a Task>,
    pub work: Vec<&'a Task>,
    pub afternoon: Vec<&'a Task>,
    pub evening: Vec<&'a Task>,
    pub unscheduled: Vec<&'a Task>,
}

/// Groups tasks by the horizon their labels give, keeping their order.
pub fn group_by_horizon<'a>(tasks: &'a Vec<Task>) -> (res: HorizonGroups<'a>)
    ensures
        tasks_of(res.annual@) == keep(tasks@, has_horizon(Some(TimeHorizon::Annual))),
        tasks_of(res.monthly@) == keep(tasks@, has_horizon(Some(TimeHorizon::Monthly))),
        tasks_of(res.weekly@) == keep(tasks@, has_horizon(Some(TimeHorizon::Weekly))),
        tasks_of(res.daily@) == keep(tasks@, has_horizon(Some(TimeHorizon::Daily))),
        tasks_of(res.other@) == keep(tasks@, has_horizon(None)),
{
    let mut g = HorizonGroups {
        annual: Vec::new(),
        monthly: Vec::new(),
        weekly: Vec::new(),
        daily: Vec::new(),
        other: Vec::new(),
    };
    let mut i: usize = 0;
    assert(tasks@.subrange(0, 0) =~= Seq::<Task>::empty());
    assert(tasks_of(g.annual@) =~= Seq::<Task>::empty());
    assert(tasks_of(g.monthly@) =~= Seq::<Task>::empty());
    assert(tasks_of(g.weekly@) =~= Seq::<Task>::empty());
    assert(tasks_of(g.daily@) =~= Seq::<Task>::empty());
    assert(tasks_of(g.other@) =~= Seq::<Task>::empty());
    while i < tasks.len()
        invariant
            i <= tasks@.len(),
            tasks_of(g.annual@) == keep(tasks@.subrange(0, i as int), has_horizon(Some(TimeHorizon::Annual))),
            tasks_of(g.monthly@) == keep(tasks@.subrange(0, i as int), has_horizon(Some(TimeHorizon::Monthly))),
            tasks_of(g.weekly@) == keep(tasks@.subrange(0, i as int), has_horizon(Some(TimeHorizon::Weekly))),
            tasks_of(g.daily@) == keep(tasks@.subrange(0, i as int), has_horizon(Some(TimeHorizon::Daily))),
            tasks_of(g.other@) == keep(tasks@.subrange(0, i as int), has_horizon(None)),
        decreases tasks.len() - i,
    {
        let ghost pre = tasks@.subrange(0, i + 1);
        assert(pre.drop_last() =~= tasks@.subrange(0, i as int));
        assert(pre.last() == tasks@[i as int]);
        let t = &tasks[i];
        let ghost (a, m, w, d, o) = (g.annual@, g.monthly@, g.weekly@, g.daily@, g.other@);
        match t.time_horizon() {
            Some(TimeHorizon::Annual) => g.annual.push(t),
            Some(TimeHorizon::Monthly) => g.monthly.push(t),
            Some(TimeHorizon::Weekly) => g.weekly.push(t),
            Some(TimeHorizon::Daily) => g.daily.push(t),
            None => g.other.push(t),
        }
        assert(tasks_of(g.annual@) =~= keep(pre, has_horizon(Some(TimeHorizon::Annual))));
        assert(tasks_of(g.monthly@) =~= keep(pre, has_horizon(Some(TimeHorizon::Monthly))));
        assert(tasks_of(g.weekly@) =~= keep(pre, has_horizon(Some(TimeHorizon::Weekly))));
        assert(tasks_of(g.daily@) =~= keep(pre, has_horizon(Some(TimeHorizon::Daily))));
        assert(tasks_of(g.other@) =~= keep(pre, has_horizon(None)));
        i = i + 1;
    }
    assert(tasks@.subrange(0, tasks@.len() as int) =~= tasks@);
    g
}

/// Groups tasks by the daytime block their labels give, keeping their order.
pub fn group_by_block<'a>(tasks: &Vec<&'a Task>) -> (res: BlockGroups<'a>)
    ensures
        tasks_of(res.morning@) == keep(tasks_of(tasks@), has_block(Some(DaytimeBlock::Morning))),
        tasks_of(res.work@) == keep(tasks_of(tasks@), has_block(Some(DaytimeBlock::Work))),
        tasks_of(res.afternoon@) == keep(tasks_of(tasks@), has_block(Some(DaytimeBlock::Afternoon))),
        tasks_of(res.evening@) == keep(tasks_of(tasks@), has_block(Some(DaytimeBlock::Evening))),
        tasks_of(res.unscheduled@) == keep(tasks_of(tasks@), has_block(None)),
{
    let ghost all = tasks_of(tasks@);
    let mut g = BlockGroups {
        morning: Vec::new(),
        work: Vec::new(),
        afternoon: Vec::new(),
        evening: Vec::new(),
        unscheduled: Vec::new(),
    };
    let mut i: usize = 0;
    assert(all.subrange(0, 0) =~= Seq::<Task>::empty());
    assert(tasks_of(g.morning@) =~= Seq::<Task>::empty());
    assert(tasks_of(g.work@) =~= Seq::<Task>::empty());
    assert(tasks_of(g.afternoon@) =~= Seq::<Task>::empty());
    assert(tasks_of(g.evening@) =~= Seq::<Task>::empty());
    assert(tasks_of(g.unscheduled@) =~= Seq::<Task>::empty());
    while i < tasks.len()
        invariant
            all == tasks_of(tasks@),
            i <= tasks@.len(),
            tasks_of(g.morning@) == keep(all.subrange(0, i as int), has_block(Some(DaytimeBlock::Morning))),
            tasks_of(g.work@) == keep(all.subrange(0, i as int), has_block(Some(DaytimeBlock::Work))),
            tasks_of(g.afternoon@) == keep(all.subrange(0, i as int), has_block(Some(DaytimeBlock::Afternoon))),
            tasks_of(g.evening@) == keep(all.subrange(0, i as int), has_block(Some(DaytimeBlock::Evening))),
            tasks_of(g.unscheduled@) == keep(all.subrange(0, i as int), has_block(None)),
        decreases tasks.len() - i,
    {
        let ghost pre = all.subrange(0, i + 1);
        assert(pre.drop_last() =~= all.subrange(0, i as int));
        assert(pre.last() == *tasks@[i as int]);
        let t: &'a Task = tasks[i];
        match t.daytime_block() {
            Some(DaytimeBlock::Morning) => g.morning.push(t),
            Some(DaytimeBlock::Work) => g.work.push(t),
            Some(DaytimeBlock::Afternoon) => g.afternoon.push(t),
            Some(DaytimeBlock::Evening) => g.evening.push(t),
            None => g.unscheduled.push(t),
        }
        assert(tasks_of(g.morning@) =~= keep(pre, has_block(Some(DaytimeBlock::Morning))));
        assert(tasks_of(g.work@) =~= keep(pre, has_block(Some(DaytimeBlock::Work))));
        assert(tasks_of(g.afternoon@) =~= keep(pre, has_block(Some(DaytimeBlock::Afternoon))));
        assert(tasks_of(g.evening@) =~= keep(pre, has_block(Some(DaytimeBlock::Evening))));
        assert(tasks_of(g.unscheduled@) =~= keep(pre, has_block(None)));
        i = i + 1;
    }
    assert(all.subrange(0, all.len() as int) =~= all);
    g
}

// ---------------------------------------------------------------------------
// Dashboard
// ---------------------------------------------------------------------------

/// The task is completed.
pub open spec fn is_completed_task() -> spec_fn(Task) -> bool {
    |t: Task| task_completed(t)
}

/// The task is active.
pub open spec fn is_active_task() -> spec_fn(Task) -> bool {
    |t: Task| task_active(t)
}

/// The task is active and due before `today`.
pub open spec fn is_overdue(today: Date) -> spec_fn(Task) -> bool {
    |t: Task| task_active(t) && (t.due_date matches Some(d) && d@ < today@)
}

/// The task is active and due on `today`.
pub open spec fn is_due_today(today: Date) -> spec_fn(Task) -> bool {
    |t: Task| task_active(t) && (t.due_date matches Some(d) && d@ == today@)
}

/// The task is active and urgent (priority 1).
pub open spec fn is_urgent() -> spec_fn(Task) -> bool {
    |t: Task| task_active(t) && t.priority == 1
}

/// The task is active and its labels give the horizon.
pub open spec fn is_active_in(h: TimeHorizon) -> spec_fn(Task) -> bool {
    |t: Task| labels_horizon(t.labels@) == Some(h) && task_active(t)
}

/// The figures that the dashboard shows.
#[derive(Clone, Copy, Debug)]
pub struct DashboardStats {
    pub total: usize,
    pub completed: usize,
    pub active: usize,
    pub overdue: usize,
    pub due_today: usize,
    pub urgent: usize,
    pub annual: usize,
    pub monthly: usize,
    pub weekly: usize,
    pub daily: usize,
}

/// The dashboard figures of a task list as seen on `today`.
pub open spec fn dashboard_of(tasks: Seq<Task>, today: Date, s: DashboardStats) -> bool {
    &&& s.total == tasks.len()
    &&& s.completed == count(tasks, is_completed_task())
    &&& s.active == count(tasks, is_active_task())
    &&& s.overdue == count(tasks, is_overdue(today))
    &&& s.due_today == count(tasks, is_due_today(today))
    &&& s.urgent == count(tasks, is_urgent())
    &&& s.annual == count(tasks, is_active_in(TimeHorizon::Annual))
    &&& s.monthly == count(tasks, is_active_in(TimeHorizon::Monthly))
    &&& s.weekly == count(tasks, is_active_in(TimeHorizon::Weekly))
    &&& s.daily == count(tasks, is_active_in(TimeHorizon::Daily))
}

/// Computes the dashboard figures.
pub fn dashboard_stats(tasks: &Vec<Task>, today: Date) -> (res: DashboardStats)
    ensures
        dashboard_of(tasks@, today, res),
{
    let mut s = DashboardStats {
        total: tasks.len(),
        completed: 0,
        active: 0,
        overdue: 0,
        due_today: 0,
        urgent: 0,
        annual: 0,
        monthly: 0,
        weekly: 0,
        daily: 0,
    };
    let mut i: usize = 0;
    while i < tasks.len()
        invariant
            i <= tasks@.len(),
            s.total == tasks@.len(),
            s.completed == count(tasks@.subrange(0, i as int), is_completed_task()),
            s.active == count(tasks@.subrange(0, i as int), is_active_task()),
            s.overdue == count(tasks@.subrange(0, i as int), is_overdue(today)),
            s.due_today == count(tasks@.subrange(0, i as int), is_due_today(today)),
            s.urgent == count(tasks@.subrange(0, i as int), is_urgent()),
            s.annual == count(tasks@.subrange(0, i as int), is_active_in(TimeHorizon::Annual)),
            s.monthly == count(tasks@.subrange(0, i as int), is_active_in(TimeHorizon::Monthly)),
            s.weekly == count(tasks@.subrange(0, i as int), is_active_in(TimeHorizon::Weekly)),
            s.daily == count(tasks@.subrange(0, i as int), is_active_in(TimeHorizon::Daily)),
        decreases tasks.len() - i,
    {
        let ghost pre = tasks@.subrange(0, i + 1);
        assert(pre.drop_last() =~= tasks@.subrange(0, i as int));
        assert(pre.last() == tasks@[i as int]);
        proof {
            lemma_count_bound(tasks@.subrange(0, i as int), is_completed_task());
            lemma_count_bound(tasks@.subrange(0, i as int), is_active_task());
            lemma_count_bound(tasks@.subrange(0, i as int), is_overdue(today));
            lemma_count_bound(tasks@.subrange(0, i as int), is_due_today(today));
            lemma_count_bound(tasks@.subrange(0, i as int), is_urgent());
            lemma_count_bound(tasks@.subrange(0, i as int), is_active_in(TimeHorizon::Annual));
            lemma_count_bound(tasks@.subrange(0, i as int), is_active_in(TimeHorizon::Monthly));
            lemma_count_bound(tasks@.subrange(0, i as int), is_active_in(TimeHorizon::Weekly));
            lemma_count_bound(tasks@.subrange(0, i as int), is_active_in(TimeHorizon::Daily));
        }
        let t = &tasks[i];
        let completed = t.is_completed();
        let active = t.is_active();
        if completed {
            s.completed = s.completed + 1;
        }
        if active {
            s.active = s.active + 1;
            match t.due_date {
                Some(d) => {
                    let until = today.days_until(&d);
                    if until < 0 {
                        s.overdue = s.overdue + 1;
                    }
                    if until == 0 {
                        s.due_today = s.due_today + 1;
                    }
                },
                None => {},
            }
            if t.priority == 1 {
                s.urgent = s.urgent + 1;
            }
            match t.time_horizon() {
                Some(TimeHorizon::Annual) => s.annual = s.annual + 1,
                Some(TimeHorizon::Monthly) => s.monthly = s.monthly + 1,
                Some(TimeHorizon::Weekly) => s.weekly = s.weekly + 1,
                Some(TimeHorizon::Daily) => s.daily = s.daily + 1,
                None => {},
            }
        }
        i = i + 1;
    }
    assert(tasks@.subrange(0, tasks@.len() as int) =~= tasks@);
    s
}

/// What each dashboard figure counts, whatever else a task holds: completed
/// tasks (state type "completed"); active tasks (neither "completed" nor
/// "canceled"); active tasks due before today; active tasks due today; active
/// tasks of priority 1 (urgent), with or without a due date; and active tasks
/// per horizon label.
pub proof fn law_dashboard_counts(tasks: Seq<Task>, today: Date, s: DashboardStats)
    requires
        dashboard_of(tasks, today, s),
    ensures
        s.total == tasks.len(),
        s.completed == count(tasks, |t: Task| t.state.state_type@ == "completed"@),
        s.active == count(
            tasks,
            |t: Task| t.state.state_type@ != "completed"@ && t.state.state_type@ != "canceled"@,
        ),
        s.overdue == count(
            tasks,
            |t: Task|
                t.state.state_type@ != "completed"@ && t.state.state_type@ != "canceled"@ && (
                t.due_date matches Some(d) && d@ < today@),
        ),
        s.due_today == count(
            tasks,
            |t: Task|
                t.state.state_type@ != "completed"@ && t.state.state_type@ != "canceled"@ && (
                t.due_date matches Some(d) && d@ == today@),
        ),
        s.urgent == count(
            tasks,
            |t: Task|
                t.state.state_type@ != "completed"@ && t.state.state_type@ != "canceled"@
                    && t.priority == 1,
        ),
        s.annual == count(
            tasks,
            |t: Task|
                t.state.state_type@ != "completed"@ && t.state.state_type@ != "canceled"@
                    && labels_horizon(t.labels@) == Some(TimeHorizon::Annual),
        ),
        s.monthly == count(
            tasks,
            |t: Task|
                t.state.state_type@ != "completed"@ && t.state.state_type@ != "canceled"@
                    && labels_horizon(t.labels@) == Some(TimeHorizon::Monthly),
        ),
        s.weekly == count(
            tasks,
            |t: Task|
                t.state.state_type@ != "completed"@ && t.state.state_type@ != "canceled"@
                    && labels_horizon(t.labels@) == Some(TimeHorizon::Weekly),
        ),
        s.daily == count(
            tasks,
            |t: Task|
                t.state.state_type@ != "completed"@ && t.state.state_type@ != "canceled"@
                    && labels_horizon(t.labels@) == Some(TimeHorizon::Daily),
        ),
{
    assert(is_completed_task() =~= |t: Task| t.state.state_type@ == "completed"@);
    assert(is_active_task() =~= |t: Task|
        t.state.state_type@ != "completed"@ && t.state.state_type@ != "canceled"@);
    assert(is_overdue(today) =~= |t: Task|
        t.state.state_type@ != "completed"@ && t.state.state_type@ != "canceled"@ && (
        t.due_date matches Some(d) && d@ < today@));
    assert(is_due_today(today) =~= |t: Task|
        t.state.state_type@ != "completed"@ && t.state.state_type@ != "canceled"@ && (
        t.due_date matches Some(d) && d@ == today@));
    assert(is_urgent() =~= |t: Task|
        t.state.state_type@ != "completed"@ && t.state.state_type@ != "canceled"@ && t.priority
            == 1);
    assert(is_active_in(TimeHorizon::Annual) =~= |t: Task|
        t.state.state_type@ != "completed"@ && t.state.state_type@ != "canceled"@ && labels_horizon(
            t.labels@,
        ) == Some(TimeHorizon::Annual));
    assert(is_active_in(TimeHorizon::Monthly) =~= |t: Task|
        t.state.state_type@ != "completed"@ && t.state.state_type@ != "canceled"@ && labels_horizon(
            t.labels@,
        ) == Some(TimeHorizon::Monthly));
    assert(is_active_in(TimeHorizon::Weekly) =~= |t: Task|
        t.state.state_type@ != "completed"@ && t.state.state_type@ != "canceled"@ && labels_horizon(
            t.labels@,
        ) == Some(TimeHorizon::Weekly));
    assert(is_active_in(TimeHorizon::Daily) =~= |t: Task|
        t.state.state_type@ != "completed"@ && t.state.state_type@ != "canceled"@ && labels_horizon(
            t.labels@,
        ) == Some(TimeHorizon::Daily));
}

/// How urgent a due date is, by how many days it lies after today: no date,
/// overdue when it is before today (however long ago), today, "soon" with the
/// number of days for one to three days ahead, and later beyond that.
pub proof fn law_due_urgency(due: Option<Date>, today: Date)
    ensures
        due is None ==> urgency(due, today) == DueUrgency::NoDate,
        due matches Some(d) && d@ < today@ ==> urgency(due, today) == DueUrgency::Overdue,
        due matches Some(d) && d@ == today@ ==> urgency(due, today) == DueUrgency::Today,
        due matches Some(d) ==> (today@ < d@ <= today@ + 3 ==> urgency(due, today)
            == DueUrgency::Soon((d@ - today@) as i64)),
        due matches Some(d) && d@ > today@ + 3 ==> urgency(due, today) == DueUrgency::Later,
{
}

/// Dashboard figures are consistent: completed and active tasks never exceed
/// the total, and overdue, due-today, urgent and per-horizon tasks are all
/// among the active ones.
pub proof fn law_dashboard_consistent(tasks: Seq<Task>, today: Date, s: DashboardStats)
    requires
        dashboard_of(tasks, today, s),
    ensures
        s.completed + s.active <= s.total,
        s.overdue + s.due_today <= s.active,
        s.urgent <= s.active,
        s.annual + s.monthly + s.weekly + s.daily <= s.active,
{
    lemma_count_disjoint(tasks, is_completed_task(), is_active_task());
    lemma_count_split(tasks, is_overdue(today), is_due_today(today), is_active_task());
    lemma_count_implies(tasks, is_urgent(), is_active_task());
    lemma_count_split(tasks, is_active_in(TimeHorizon::Annual), is_active_in(TimeHorizon::Monthly), is_active_task());
    lemma_count_split4(tasks, today);
}

/// Two disjoint predicates that each imply a third are counted together at most as often.
proof fn lemma_count_split(s: Seq<Task>, p: spec_fn(Task) -> bool, q: spec_fn(Task) -> bool, r: spec_fn(Task) -> bool)
    requires
        forall|x: Task| !(#[trigger] p(x) && q(x)),
        forall|x: Task| #[trigger] p(x) ==> r(x),
        forall|x: Task| #[trigger] q(x) ==> r(x),
    ensures
        count(s, p) + count(s, q) <= count(s, r),
    decreases s.len(),
{
    if s.len() > 0 {
        lemma_count_split(s.drop_last(), p, q, r);
        assert(p(s.last()) ==> r(s.last()));
        assert(q(s.last()) ==> r(s.last()));
        assert(!(p(s.last()) && q(s.last())));
    }
}

/// The four horizon counts together are at most the active count.
proof fn lemma_count_split4(s: Seq<Task>, today: Date)
    ensures
        count(s, is_active_in(TimeHorizon::Annual)) + count(s, is_active_in(TimeHorizon::Monthly))
            + count(s, is_active_in(TimeHorizon::Weekly)) + count(s, is_active_in(TimeHorizon::Daily))
            <= count(s, is_active_task()),
    decreases s.len(),
{
    if s.len() > 0 {
        lemma_count_split4(s.drop_last(), today);
    }
}

/// Grouping by horizon puts every task into exactly one group.
pub proof fn law_horizon_groups_partition(tasks: Seq<Task>)
    ensures
        count(tasks, has_horizon(Some(TimeHorizon::Annual))) + count(tasks, has_horizon(Some(TimeHorizon::Monthly)))
            + count(tasks, has_horizon(Some(TimeHorizon::Weekly))) + count(tasks, has_horizon(Some(TimeHorizon::Daily)))
            + count(tasks, has_horizon(None)) == tasks.len(),
    decreases tasks.len(),
{
    if tasks.len() > 0 {
        law_horizon_groups_partition(tasks.drop_last());
        let h = labels_horizon(tasks.last().labels@);
        assert(h == Some(TimeHorizon::Annual) || h == Some(TimeHorizon::Monthly) || h == Some(
            TimeHorizon::Weekly,
        ) || h == Some(TimeHorizon::Daily) || h is None);
    }
}

/// Grouping by daytime block puts every task into exactly one group.
pub proof fn law_block_groups_partition(tasks: Seq<Task>)
    ensures
        count(tasks, has_block(Some(DaytimeBlock::Morning))) + count(tasks, has_block(Some(DaytimeBlock::Work)))
            + count(tasks, has_block(Some(DaytimeBlock::Afternoon))) + count(tasks, has_block(Some(DaytimeBlock::Evening)))
            + count(tasks, has_block(None)) == tasks.len(),
    decreases tasks.len(),
{
    if tasks.len() > 0 {
        law_block_groups_partition(tasks.drop_last());
        let b = labels_block(tasks.last().labels@);
        assert(b == Some(DaytimeBlock::Morning) || b == Some(DaytimeBlock::Work) || b == Some(
            DaytimeBlock::Afternoon,
        ) || b == Some(DaytimeBlock::Evening) || b is None);
    }
}

} // verus!
