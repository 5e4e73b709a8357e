use linear_tasks::commands::horizon_from_word;
use linear_tasks::calendar::{Date, Timestamp, Weekday};
use linear_tasks::commands::{
    add_task_input, default_team_display, find_label_id, find_project_named, find_state_id,
    find_task, generation_step, interactive_block, interactive_day, interactive_horizon,
    interactive_week, is_whole_week, menu_action, optional_text, parse_horizon,
    parse_week_target, project_for_weekday, resolve_day, resolve_team_id, selected_days,
    state_names, state_position, status_update, task_label_ids, team_name,
    template_from_args, template_menu_action, todays_tasks, week_day, weekday_emoji, DayError,
    DueDateError, GenerationStep, MenuAction, TemplateMenuAction, WeekTargetError,
};
use linear_tasks::models::{
    AppConfig, DaytimeBlock, Label, Project, Task, TaskState, Team, TimeHorizon,
};
use linear_tasks::templates::{TaskTemplate, TemplateStore};

// 2024-01-01 (a Monday) is day 738886 counted from 0001-01-01 = day 1.
fn jan(day: i32) -> Date {
    Date::from_day_number(738885 + day).unwrap()
}

fn team(id: &str, name: &str, key: &str) -> Team {
    Team { id: id.to_string(), name: name.to_string(), key: key.to_string(), icon: None }
}

fn project(id: &str, name: &str) -> Project {
    Project {
        id: id.to_string(),
        name: name.to_string(),
        description: None,
        icon: None,
        color: None,
        start_date: None,
        target_date: None,
    }
}

fn label(id: &str, name: &str) -> Label {
    Label { id: id.to_string(), name: name.to_string(), color: None }
}

fn state(id: &str, name: &str, state_type: &str) -> TaskState {
    TaskState { id: id.to_string(), name: name.to_string(), state_type: state_type.to_string(), color: None }
}

fn task(id: &str, identifier: &str, project_name: Option<&str>, state_type: &str) -> Task {
    Task {
        id: id.to_string(),
        identifier: identifier.to_string(),
        title: format!("Task {}", identifier),
        description: None,
        priority: 0,
        due_date: None,
        state: state("s", "State", state_type),
        labels: vec![],
        project: project_name.map(|n| project("p", n)),
        assignee: None,
        created_at: Timestamp { secs: 0, nanos: 0 },
        updated_at: Timestamp { secs: 0, nanos: 0 },
        url: String::new(),
    }
}

fn labels() -> Vec<Label> {
    vec![
        label("l-a", "Annual"),
        label("l-d", "daily"),
        label("l-d2", "Daily"),
        label("l-m", "Morning"),
        label("l-e", "Evening"),
    ]
}

fn template(id: &str, horizon: TimeHorizon, block: Option<DaytimeBlock>) -> TaskTemplate {
    TaskTemplate {
        id: id.to_string(),
        title: "Plan the week".to_string(),
        description: Some("Look at the list".to_string()),
        horizon,
        block,
        priority: Some(3),
        days: vec![],
        active: true,
        created_at: String::new(),
    }
}

#[test]
fn horizons_parse_in_both_languages() {
    assert_eq!(parse_horizon("Annual"), Some(TimeHorizon::Annual));
    assert_eq!(parse_horizon("YEARLY"), Some(TimeHorizon::Annual));
    assert_eq!(parse_horizon("miesieczne"), Some(TimeHorizon::Monthly));
    assert_eq!(parse_horizon("Miesięczne"), Some(TimeHorizon::Monthly));
    assert_eq!(parse_horizon("tygodniowe"), Some(TimeHorizon::Weekly));
    assert_eq!(parse_horizon("Dzienne"), Some(TimeHorizon::Daily));
    assert_eq!(parse_horizon("hourly"), None);
}

#[test]
fn week_targets() {
    let wed = jan(3);
    assert_eq!(parse_week_target("current", wed), Ok(jan(1)));
    assert_eq!(parse_week_target("THIS", wed), Ok(jan(1)));
    assert_eq!(parse_week_target("next", wed), Ok(jan(8)));
    assert_eq!(parse_week_target("current", jan(7)), Ok(jan(1)));
    assert_eq!(parse_week_target("current", jan(8)), Ok(jan(8)));
    assert_eq!(parse_week_target("2024-01-17", wed), Ok(jan(17)));
    assert_eq!(parse_week_target("someday", wed), Err(WeekTargetError::InvalidDate));
}

#[test]
fn day_arguments() {
    let wed = jan(3);
    assert_eq!(resolve_day("today", wed), Ok((Weekday::Wed, wed)));
    assert_eq!(resolve_day("Tomorrow", wed), Ok((Weekday::Thu, jan(4))));
    assert_eq!(resolve_day("wednesday", wed), Ok((Weekday::Wed, wed)));
    assert_eq!(resolve_day("mon", wed), Ok((Weekday::Mon, jan(8))));
    assert_eq!(resolve_day("Piątek", wed), Ok((Weekday::Fri, jan(5))));
    assert_eq!(resolve_day("2024-01-20", wed), Ok((Weekday::Sat, jan(20))));
    assert_eq!(resolve_day("later", wed), Err(DayError::InvalidDate));
}

#[test]
fn weekday_emojis() {
    assert_eq!(weekday_emoji(Weekday::Mon), "📅");
    assert_eq!(weekday_emoji(Weekday::Sat), "🌅");
    assert_eq!(weekday_emoji(Weekday::Sun), "🌅");
}

#[test]
fn teams_resolve_by_id_then_name_or_key() {
    let teams = vec![team("t1", "Engineering", "ENG"), team("ENG", "Other", "OTH")];
    assert_eq!(resolve_team_id(&teams, "ENG"), Some("ENG".to_string()));
    assert_eq!(resolve_team_id(&teams, "engineering"), Some("t1".to_string()));
    assert_eq!(resolve_team_id(&teams, "oth"), Some("ENG".to_string()));
    assert_eq!(resolve_team_id(&teams, "Design"), None);
    assert_eq!(team_name(&teams, "t1"), "Engineering");
    assert_eq!(team_name(&teams, "zz"), "Unknown");
}

#[test]
fn lookups_ignore_ascii_case() {
    let projects = vec![project("p1", "Monday"), project("p2", "monday")];
    assert_eq!(find_project_named(&projects, "MONDAY").map(|p| p.id.clone()), Some("p1".to_string()));
    assert!(find_project_named(&projects, "Tuesday").is_none());
    assert_eq!(find_label_id(&labels(), "DAILY"), Some("l-d".to_string()));
    assert_eq!(find_label_id(&labels(), "Weekly"), None);
    let tasks = vec![task("uuid-1", "ENG-1", None, "started"), task("uuid-2", "ENG-2", None, "started")];
    assert_eq!(find_task(&tasks, "eng-2").map(|t| t.id.clone()), Some("uuid-2".to_string()));
    assert_eq!(find_task(&tasks, "uuid-1").map(|t| t.id.clone()), Some("uuid-1".to_string()));
    assert!(find_task(&tasks, "ENG-3").is_none());
}

#[test]
fn states_by_name_and_position() {
    let states = vec![state("s1", "Todo", "unstarted"), state("s2", "In Progress", "started"), state("s3", "Done", "completed")];
    assert_eq!(find_state_id(&states, "done"), Some("s3".to_string()));
    assert_eq!(find_state_id(&states, "Blocked"), None);
    assert_eq!(state_position(&states, "s2"), 1);
    assert_eq!(state_position(&states, "zz"), 0);
    assert_eq!(state_names(&states), "Todo, In Progress, Done");
    let u = status_update(&"uuid-1".to_string(), "s3".to_string());
    assert_eq!(u.id, "uuid-1");
    assert_eq!(u.state_id, Some("s3".to_string()));
    assert!(u.title.is_none() && u.label_ids.is_none() && u.priority.is_none());
}

#[test]
fn weekday_projects_last_one_wins() {
    let projects = vec![project("p1", "Monday"), project("p2", "Misc"), project("p3", "poniedziałek"), project("p4", "Friday")];
    assert_eq!(project_for_weekday(&projects, Weekday::Mon), Some("p3".to_string()));
    assert_eq!(project_for_weekday(&projects, Weekday::Fri), Some("p4".to_string()));
    assert_eq!(project_for_weekday(&projects, Weekday::Sun), None);
}

#[test]
fn created_tasks_get_horizon_and_block_labels() {
    assert_eq!(task_label_ids(&labels(), TimeHorizon::Daily, Some(DaytimeBlock::Evening)), vec!["l-d", "l-e"]);
    assert_eq!(task_label_ids(&labels(), TimeHorizon::Weekly, Some(DaytimeBlock::Morning)), vec!["l-m"]);
    assert_eq!(task_label_ids(&labels(), TimeHorizon::Annual, None), vec!["l-a"]);
    assert!(task_label_ids(&vec![], TimeHorizon::Annual, Some(DaytimeBlock::Work)).is_empty());
}

#[test]
fn generation_skips_what_was_generated() {
    let mut store = TemplateStore::default();
    let t = template("w1", TimeHorizon::Weekly, Some(DaytimeBlock::Morning));
    let d = jan(9);
    match generation_step(&store, &t, d, false, false, "team", "proj", &labels()) {
        GenerationStep::Create(input) => {
            assert_eq!(input.title, "Plan the week");
            assert_eq!(input.description, Some("Look at the list".to_string()));
            assert_eq!(input.team_id, "team");
            assert_eq!(input.project_id, Some("proj".to_string()));
            assert_eq!(input.priority, Some(3));
            assert_eq!(input.due_date, Some(d));
            assert_eq!(input.label_ids, vec!["l-m"]);
            assert!(input.assignee_id.is_none());
        }
        other => panic!("unexpected {:?}", other),
    }
    assert!(matches!(generation_step(&store, &t, d, false, true, "team", "proj", &labels()), GenerationStep::Preview));
    store.mark_generated("w1", &d);
    assert!(matches!(generation_step(&store, &t, d, false, false, "team", "proj", &labels()), GenerationStep::AlreadyGenerated));
    assert!(matches!(generation_step(&store, &t, d, false, true, "team", "proj", &labels()), GenerationStep::AlreadyGenerated));
    assert!(matches!(generation_step(&store, &t, d, true, false, "team", "proj", &labels()), GenerationStep::Create(_)));
    assert!(matches!(generation_step(&store, &t, jan(10), false, false, "team", "proj", &labels()), GenerationStep::Create(_)));
}

#[test]
fn week_days_follow_the_start() {
    assert_eq!(week_day(jan(1), 0), jan(1));
    assert_eq!(week_day(jan(29), 6), Date::from_day_number(738886 + 34).unwrap());
    assert_eq!(week_day(jan(29), 3).day_number(), 738886 + 31);
}

#[test]
fn added_tasks() {
    let input = add_task_input("Call mom", "team", "proj", Some("wieczór"), Some(1), None, jan(3), &labels()).unwrap();
    assert_eq!(input.title, "Call mom");
    assert_eq!(input.due_date, Some(jan(3)));
    assert_eq!(input.label_ids, vec!["l-d", "l-e"]);
    assert_eq!(input.priority, Some(1));
    assert_eq!(input.project_id, Some("proj".to_string()));
    let input = add_task_input("x", "team", "proj", None, None, Some("2024-01-31"), jan(3), &labels()).unwrap();
    assert_eq!(input.due_date, Some(jan(31)));
    assert_eq!(input.label_ids, vec!["l-d"]);
    let err = add_task_input("x", "team", "proj", None, None, Some("31/01/2024"), jan(3), &labels()).unwrap_err();
    assert_eq!(err, DueDateError::InvalidDate);
}

#[test]
fn templates_from_arguments() {
    let t = template_from_args(
        "Plan".to_string(),
        "Weekly",
        Some("mon,fri".to_string()),
        Some("work".to_string()),
        Some(2),
        Some("desc".to_string()),
    )
    .unwrap();
    assert_eq!(t.horizon, TimeHorizon::Weekly);
    assert_eq!(t.days, vec![Weekday::Mon, Weekday::Fri]);
    assert_eq!(t.block, Some(DaytimeBlock::Work));
    assert_eq!(t.priority, Some(2));
    assert_eq!(t.description, Some("desc".to_string()));
    assert_eq!(t.id.len(), 8);
    assert!(t.active);
    let t = template_from_args("Plan".to_string(), "roczne", None, None, None, None).unwrap();
    assert_eq!(t.horizon, TimeHorizon::Annual);
    assert!(t.days.is_empty() && t.block.is_none());
    assert!(template_from_args("Plan".to_string(), "sometimes", None, None, None, None).is_none());
}

#[test]
fn show_arguments_and_views() {
    assert!(is_whole_week("week"));
    assert!(is_whole_week("ALL"));
    assert!(!is_whole_week("today"));
    let mut c = AppConfig::default();
    assert_eq!(default_team_display(&c), "Not set");
    c.default_team_name = Some("Ops".to_string());
    assert_eq!(default_team_display(&c), "Ops");
}

#[test]
fn dashboard_lists_first_five_active_tasks_of_the_day() {
    let mut tasks = vec![
        task("1", "A-1", Some("Monday"), "started"),
        task("2", "A-2", Some("monday"), "completed"),
        task("3", "A-3", Some("Tuesday"), "started"),
        task("4", "A-4", None, "started"),
    ];
    for k in 5..12 {
        tasks.push(task(&k.to_string(), &format!("A-{}", k), Some("MONDAY"), "unstarted"));
    }
    let today = todays_tasks(&tasks, Weekday::Mon);
    assert_eq!(today.iter().map(|t| t.id.as_str()).collect::<Vec<_>>(), vec!["1", "5", "6", "7", "8"]);
    assert_eq!(todays_tasks(&tasks, Weekday::Tue).len(), 1);
    assert!(todays_tasks(&tasks, Weekday::Sun).is_empty());
}

#[test]
fn interactive_menus() {
    assert_eq!(menu_action(0), Some(MenuAction::ShowToday));
    assert_eq!(menu_action(5), Some(MenuAction::GenerateWeek));
    assert_eq!(menu_action(7), Some(MenuAction::Exit));
    assert_eq!(menu_action(8), None);
    assert_eq!(interactive_day(0), "today");
    assert_eq!(interactive_day(2), "monday");
    assert_eq!(interactive_day(8), "sunday");
    assert_eq!(interactive_block(0), None);
    assert_eq!(interactive_block(2), Some("Work"));
    assert_eq!(interactive_block(4), Some("Evening"));
    assert_eq!(template_menu_action(2), TemplateMenuAction::Edit);
    assert_eq!(template_menu_action(9), TemplateMenuAction::Back);
    assert_eq!(interactive_horizon(1), "monthly");
    assert_eq!(interactive_week(0), "current");
    assert_eq!(interactive_week(1), "next");
    assert_eq!(selected_days(&vec![]), None);
    assert_eq!(selected_days(&vec![0, 2, 6]), Some("Mon,Wed,Sun".to_string()));
    assert_eq!(optional_text(String::new()), None);
    assert_eq!(optional_text("New".to_string()), Some("New".to_string()));
}

#[test]
fn picked_days_become_template_days() {
    let picked = selected_days(&vec![4, 0, 5]).unwrap();
    let t = template_from_args("Swim".to_string(), "weekly", Some(picked), None, None, None).unwrap();
    assert_eq!(t.days, vec![Weekday::Fri, Weekday::Mon, Weekday::Sat]);
}

#[test]
fn horizon_words_are_matched_as_given() {
    assert_eq!(horizon_from_word("miesięczne"), Some(TimeHorizon::Monthly));
    assert_eq!(horizon_from_word("dzienne"), Some(TimeHorizon::Daily));
    assert_eq!(horizon_from_word("Weekly"), None);
}

#[test]
fn week_plan_follows_the_templates_days() {
    let mut store = TemplateStore::default();
    let mut weekly = template("w1", TimeHorizon::Weekly, None);
    weekly.days = vec![Weekday::Mon, Weekday::Thu];
    store.add(weekly);
    let mut monthly = template("m1", TimeHorizon::Monthly, None);
    monthly.days = vec![Weekday::Thu];
    store.add(monthly);
    store.add(template("y1", TimeHorizon::Annual, None));
    let projects = vec![project("p-mon", "Monday"), project("p-thu", "Thursday")];
    let plan = linear_tasks::commands::plan_week(&store, jan(1), &projects);
    assert_eq!(plan.len(), 7);
    let days: Vec<Weekday> = plan.iter().map(|d| d.weekday).collect();
    assert_eq!(days, Weekday::all());
    assert_eq!(plan[3].date, jan(4));
    assert_eq!(plan[0].project_id, Some("p-mon".to_string()));
    assert_eq!(plan[1].project_id, None);
    let ids = |k: usize| plan[k].templates.iter().map(|t| t.id.clone()).collect::<Vec<_>>();
    assert_eq!(ids(0), vec!["w1", "y1"]);
    assert_eq!(ids(1), vec!["y1"]);
    assert_eq!(ids(3), vec!["w1", "m1", "y1"]);
}

#[test]
fn names_parse_in_capitals() {
    assert_eq!(parse_horizon("WEEKLY"), Some(TimeHorizon::Weekly));
    assert_eq!(parse_horizon("quarterly"), None);
    assert_eq!(linear_tasks::templates::project_name_to_weekday("SATURDAY"), Some(Weekday::Sat));
    assert_eq!(DaytimeBlock::from_str("AFTERNOON"), Some(DaytimeBlock::Afternoon));
    assert_eq!(DaytimeBlock::from_str("☀️"), Some(DaytimeBlock::Afternoon));
    assert_eq!(DaytimeBlock::from_str("💼"), Some(DaytimeBlock::Work));
}

#[test]
fn only_created_tasks_are_recorded() {
    let mut store = TemplateStore::default();
    linear_tasks::commands::record_creation(&mut store, "w1", &jan(2), false);
    assert!(store.generation_history.is_empty());
    linear_tasks::commands::record_creation(&mut store, "w1", &jan(2), true);
    assert!(store.was_generated("w1", &jan(2)));
    linear_tasks::commands::record_creation(&mut store, "w2", &jan(2), false);
    assert!(!store.was_generated("w2", &jan(2)));
    assert_eq!(store.generation_history.len(), 1);
    let t = template_from_args("Plan".to_string(), "daily", None, None, None, None).unwrap();
    assert!(t.id.chars().all(|c| c.is_ascii_digit() || ('a'..='f').contains(&c)));
}
