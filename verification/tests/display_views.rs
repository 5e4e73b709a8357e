use linear_tasks::calendar::{Date, Timestamp};
use linear_tasks::display::{
    compact_state_marker, dashboard_stats, due_urgency, format_due_date, format_active, format_block,
    format_labels, format_priority, format_state, format_template_priority, group_by_block,
    group_by_horizon, priority_marks, template_sections, truncate, DueUrgency,
};
use linear_tasks::models::{DaytimeBlock, Label, Task, TaskState, TimeHorizon};

// 2024-01-01 is day 738886 counted from 0001-01-01 = day 1.
fn jan(day: i32) -> Date {
    Date::from_day_number(738885 + day).unwrap()
}

fn label(name: &str) -> Label {
    Label { id: format!("id-{}", name), name: name.to_string(), color: None }
}

fn state(name: &str, state_type: &str) -> TaskState {
    TaskState { id: "s".to_string(), name: name.to_string(), state_type: state_type.to_string(), color: None }
}

fn task(id: &str, labels: &[&str], state_type: &str, priority: i32, due: Option<Date>) -> Task {
    Task {
        id: id.to_string(),
        identifier: format!("ENG-{}", id),
        title: "t".to_string(),
        description: None,
        priority,
        due_date: due,
        state: state("S", state_type),
        labels: labels.iter().map(|n| label(n)).collect(),
        project: None,
        assignee: None,
        created_at: Timestamp { secs: 0, nanos: 0 },
        updated_at: Timestamp { secs: 0, nanos: 0 },
        url: String::new(),
    }
}

fn ids(ts: &[&Task]) -> Vec<String> {
    ts.iter().map(|t| t.id.clone()).collect()
}

#[test]
fn truncation_by_bytes() {
    assert_eq!(truncate("short", 10), "short");
    assert_eq!(truncate("exactly10!", 10), "exactly10!");
    assert_eq!(truncate("a longer title", 10), "a longe...");
    assert_eq!(truncate("abcdef", 3), "...");
    assert_eq!(truncate("abcdef", 2), "..");
    assert_eq!(truncate("abcdef", 0), "");
    assert_eq!(truncate("zażółć gęślą", 9), "zażó...");
    assert_eq!(truncate("zażółć", 6), "za...");
    assert_eq!(truncate("żółw", 5), "ż...");
    assert_eq!(truncate("żółw", 4), "...");
    for (s, w) in [("a longer title", 10usize), ("abcdef", 2), ("zażółć gęślą", 9), ("zażółć", 6), ("żółw", 5)] {
        assert!(truncate(s, w).len() <= w);
    }
}

#[test]
fn priority_and_state_labels() {
    assert_eq!(format_priority(1), "🔴 Urgent");
    assert_eq!(format_priority(2), "🟠 High");
    assert_eq!(format_priority(3), "🟡 Normal");
    assert_eq!(format_priority(4), "🟢 Low");
    assert_eq!(format_priority(0), "—");
    assert_eq!(format_priority(9), "—");
    assert_eq!(format_template_priority(Some(2)), "🟠 High");
    assert_eq!(format_template_priority(None), "—");
    assert_eq!(format_state(&state("In Progress", "started")), "🔵 In Progress");
    assert_eq!(format_state(&state("Odd", "triage")), "❓ Odd");
    assert_eq!(format_block(Some(DaytimeBlock::Morning)), "🌅 Morning");
    assert_eq!(format_block(None), "—");
    assert_eq!(format_active(true), "✅");
    assert_eq!(format_active(false), "❌");
}

#[test]
fn label_lists() {
    assert_eq!(format_labels(&vec![]), "—");
    assert_eq!(format_labels(&vec![label("Daily"), label("Work")]), "[Daily] [Work]");
}

#[test]
fn compact_line_markers() {
    assert_eq!(compact_state_marker("completed"), "✅");
    assert_eq!(compact_state_marker("canceled"), "❌");
    assert_eq!(compact_state_marker("started"), "🔵");
    assert_eq!(compact_state_marker("backlog"), "⚪");
    assert_eq!(priority_marks(1), "!!!");
    assert_eq!(priority_marks(2), "!!");
    assert_eq!(priority_marks(3), "!");
    assert_eq!(priority_marks(4), " ");
    assert_eq!(priority_marks(0), " ");
}

#[test]
fn due_dates_by_urgency() {
    let today = jan(10);
    assert_eq!(due_urgency(None, today), DueUrgency::NoDate);
    assert_eq!(due_urgency(Some(jan(9)), today), DueUrgency::Overdue);
    assert_eq!(due_urgency(Some(jan(10)), today), DueUrgency::Today);
    assert_eq!(due_urgency(Some(jan(11)), today), DueUrgency::Soon(1));
    assert_eq!(due_urgency(Some(jan(13)), today), DueUrgency::Soon(3));
    assert_eq!(due_urgency(Some(jan(14)), today), DueUrgency::Later);
}

#[test]
fn template_section_filters() {
    assert_eq!(template_sections(None), (true, true, true));
    assert_eq!(template_sections(Some(TimeHorizon::Monthly)), (false, true, false));
    assert_eq!(template_sections(Some(TimeHorizon::Daily)), (false, false, false));
}

#[test]
fn grouping_partitions_tasks() {
    let tasks = vec![
        task("1", &["Daily", "Morning"], "started", 0, None),
        task("2", &["Weekly"], "started", 0, None),
        task("3", &["Bug"], "started", 0, None),
        task("4", &["Annual", "Evening"], "started", 0, None),
        task("5", &["Daily", "Evening"], "started", 0, None),
    ];
    let h = group_by_horizon(&tasks);
    assert_eq!(ids(&h.annual), vec!["4"]);
    assert!(h.monthly.is_empty());
    assert_eq!(ids(&h.weekly), vec!["2"]);
    assert_eq!(ids(&h.daily), vec!["1", "5"]);
    assert_eq!(ids(&h.other), vec!["3"]);
    let refs: Vec<&Task> = tasks.iter().collect();
    let b = group_by_block(&refs);
    assert_eq!(ids(&b.morning), vec!["1"]);
    assert!(b.work.is_empty() && b.afternoon.is_empty());
    assert_eq!(ids(&b.evening), vec!["4", "5"]);
    assert_eq!(ids(&b.unscheduled), vec!["2", "3"]);
}

#[test]
fn dashboard_figures() {
    let today = jan(10);
    let tasks = vec![
        task("1", &["Daily"], "started", 1, Some(jan(9))),
        task("2", &["Daily"], "completed", 1, Some(jan(9))),
        task("3", &["Weekly"], "unstarted", 2, Some(jan(10))),
        task("4", &["Annual"], "canceled", 1, Some(jan(10))),
        task("5", &["Monthly"], "backlog", 3, None),
        task("6", &[], "started", 1, Some(jan(20))),
    ];
    let s = dashboard_stats(&tasks, today);
    assert_eq!(s.total, 6);
    assert_eq!(s.completed, 1);
    assert_eq!(s.active, 4);
    assert_eq!(s.overdue, 1);
    assert_eq!(s.due_today, 1);
    assert_eq!(s.urgent, 2);
    assert_eq!((s.annual, s.monthly, s.weekly, s.daily), (0, 1, 1, 1));
    let empty = dashboard_stats(&vec![], today);
    assert_eq!(empty.total, 0);
    assert_eq!(empty.active, 0);
}

#[test]
fn due_date_column() {
    let today = jan(10);
    assert_eq!(format_due_date(None, today), "—");
    assert_eq!(format_due_date(Some(jan(9)), today), "⚠️  2024-01-09 (overdue)");
    assert_eq!(format_due_date(Some(jan(10)), today), "🔥 2024-01-10 (today)");
    assert_eq!(format_due_date(Some(jan(12)), today), "⏰ 2024-01-12 (2d)");
    assert_eq!(format_due_date(Some(jan(20)), today), "2024-01-20");
}
