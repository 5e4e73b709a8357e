use chrono::Datelike;
use linear_tasks::api::{project_from_node, task_from_node, IssueNode, ProjectNode};
use linear_tasks::calendar::{Date, Timestamp, Weekday, MAX_DAY, MIN_DAY};
use linear_tasks::commands::{parse_week_target, WeekTargetError};
use linear_tasks::models::TaskState;
use linear_tasks::templates::TemplateStore;

fn date(y: i32, m: u32, d: u32) -> Date {
    Date::from_day_number(chrono::NaiveDate::from_ymd_opt(y, m, d).unwrap().num_days_from_ce()).unwrap()
}

#[test]
fn day_numbers_follow_chrono() {
    assert_eq!(date(1, 1, 1).day_number(), 1);
    assert_eq!(date(2024, 1, 1).day_number(), 738886);
    assert_eq!(
        chrono::NaiveDate::MIN.num_days_from_ce(),
        MIN_DAY
    );
    assert_eq!(chrono::NaiveDate::MAX.num_days_from_ce(), MAX_DAY);
}

#[test]
fn day_number_range_is_checked() {
    assert!(Date::from_day_number(MIN_DAY).is_some());
    assert!(Date::from_day_number(MAX_DAY).is_some());
    assert!(Date::from_day_number(MIN_DAY - 1).is_none());
    assert!(Date::from_day_number(MAX_DAY + 1).is_none());
}

#[test]
fn weekdays_match_chrono() {
    assert_eq!(date(1, 1, 1).weekday(), Weekday::Mon);
    assert_eq!(date(2024, 1, 1).weekday(), Weekday::Mon);
    assert_eq!(date(2024, 1, 3).weekday(), Weekday::Wed);
    assert_eq!(date(2024, 2, 1).weekday(), Weekday::Thu);
    for n in [-95746129, -1000, -1, 0, 1, 2, 700000, 95745399] {
        let d = Date::from_day_number(n).unwrap();
        let c = chrono::NaiveDate::from_num_days_from_ce_opt(n).unwrap();
        assert_eq!(d.weekday().num_days_from_monday(), c.weekday().num_days_from_monday());
    }
}

#[test]
fn seven_consecutive_days_cover_the_week() {
    let start = date(2024, 5, 15);
    let mut seen: Vec<u32> = (0..7).map(|k| start.add_days(k).weekday().num_days_from_monday()).collect();
    seen.sort();
    assert_eq!(seen, vec![0, 1, 2, 3, 4, 5, 6]);
    assert_eq!(start.add_days(7).weekday(), start.weekday());
}

#[test]
fn day_arithmetic() {
    let d = date(2024, 1, 31);
    assert_eq!(d.add_days(1), date(2024, 2, 1));
    assert_eq!(d.add_days(-31), date(2023, 12, 31));
    assert_eq!(d.days_until(&date(2024, 2, 3)), 3);
    assert_eq!(date(2024, 2, 3).days_until(&d), -3);
}

#[test]
fn weekday_list_and_offsets() {
    let all = Weekday::all();
    assert_eq!(all.len(), 7);
    assert_eq!(all[0], Weekday::Mon);
    assert_eq!(all[6], Weekday::Sun);
    assert_eq!(Weekday::Sun.num_days_from_monday(), 6);
}

#[test]
fn ymd_text_is_read_through_week_targets() {
    let today = date(2024, 1, 3);
    assert_eq!(parse_week_target("2024-02-01", today), Ok(date(2024, 2, 1)));
    assert_eq!(parse_week_target("2024-13-01", today), Err(WeekTargetError::InvalidDate));
    assert_eq!(parse_week_target("2024-02-30", today), Err(WeekTargetError::InvalidDate));
    assert_eq!(parse_week_target("foo", today), Err(WeekTargetError::InvalidDate));
}

fn project_starting(start: &str) -> ProjectNode {
    ProjectNode {
        id: "p".to_string(),
        name: "Monday".to_string(),
        description: None,
        icon: None,
        color: None,
        start_date: Some(start.to_string()),
        target_date: None,
    }
}

#[test]
fn project_dates_use_the_lenient_date_syntax() {
    assert_eq!(project_from_node(project_starting("2015-09-18")).start_date, Some(date(2015, 9, 18)));
    assert_eq!(project_from_node(project_starting("+12345-6-7")).start_date, Some(date(12345, 6, 7)));
    assert_eq!(project_from_node(project_starting("foo")).start_date, None);
}

#[test]
fn history_keys_are_iso_dates() {
    let mut store = TemplateStore::default();
    store.mark_generated("a", &date(2024, 2, 1));
    store.mark_generated("a", &date(0, 1, 1));
    store.mark_generated("a", &date(10000, 12, 31));
    let keys: Vec<&str> = store.generation_history.iter().map(|r| r.date.as_str()).collect();
    assert_eq!(keys, vec!["2024-02-01", "0000-01-01", "+10000-12-31"]);
}

fn issue_created(at: &str) -> IssueNode {
    IssueNode {
        id: "i".to_string(),
        identifier: "ENG-1".to_string(),
        title: "t".to_string(),
        description: None,
        priority: 0,
        due_date: None,
        state: TaskState { id: "s".to_string(), name: "Todo".to_string(), state_type: "unstarted".to_string(), color: None },
        labels: vec![],
        project: None,
        assignee: None,
        created_at: at.to_string(),
        updated_at: at.to_string(),
        url: String::new(),
    }
}

#[test]
fn issue_times_are_read_as_instants() {
    let now = Timestamp { secs: 7, nanos: 0 };
    assert_eq!(
        task_from_node(issue_created("2024-01-02T03:04:05Z"), now).created_at,
        Timestamp { secs: 1704164645, nanos: 0 }
    );
    assert_eq!(
        task_from_node(issue_created("2024-01-02T04:04:05.5+01:00"), now).updated_at,
        Timestamp { secs: 1704164645, nanos: 500_000_000 }
    );
    assert_eq!(task_from_node(issue_created("yesterday"), now).created_at, now);
}
