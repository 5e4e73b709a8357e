use linear_tasks::calendar::{Date, Weekday};
use linear_tasks::models::{DaytimeBlock, TimeHorizon};
use linear_tasks::templates::{
    parse_weekday, parse_weekdays, project_name_to_weekday, weekday_short,
    weekday_to_project_name, GenerationRecord, Slot, TaskTemplate, TemplateEdit, TemplateStore,
};

fn template(id: &str, horizon: TimeHorizon, days: Vec<Weekday>, active: bool) -> TaskTemplate {
    TaskTemplate {
        id: id.to_string(),
        title: format!("Task {}", id),
        description: None,
        horizon,
        block: None,
        priority: None,
        days,
        active,
        created_at: "2024-01-01T00:00:00+00:00".to_string(),
    }
}

fn ids(ts: &[&TaskTemplate]) -> Vec<String> {
    ts.iter().map(|t| t.id.clone()).collect()
}

// 2024-01-01 is day 738886 counted from 0001-01-01 = day 1.
fn jan(day: i32) -> Date {
    Date::from_day_number(738885 + day).unwrap()
}

#[test]
fn weekday_words_in_both_languages() {
    assert_eq!(parse_weekday("Mon"), Some(Weekday::Mon));
    assert_eq!(parse_weekday("TUESDAY"), Some(Weekday::Tue));
    assert_eq!(parse_weekday("Środa"), Some(Weekday::Wed));
    assert_eq!(parse_weekday("sroda"), Some(Weekday::Wed));
    assert_eq!(parse_weekday("piątek"), Some(Weekday::Fri));
    assert_eq!(parse_weekday("Niedziela"), Some(Weekday::Sun));
    assert_eq!(parse_weekday("weekend"), None);
    assert_eq!(parse_weekday(" mon"), None);
}

#[test]
fn weekday_lists_skip_unknown_pieces() {
    assert_eq!(parse_weekdays("mon, wed,fri"), vec![Weekday::Mon, Weekday::Wed, Weekday::Fri]);
    assert_eq!(parse_weekdays("mon,xyz,,sun"), vec![Weekday::Mon, Weekday::Sun]);
    assert_eq!(parse_weekdays(""), Vec::<Weekday>::new());
    assert_eq!(parse_weekdays("wtorek , czwartek"), vec![Weekday::Tue, Weekday::Thu]);
}

#[test]
fn weekday_project_names() {
    assert_eq!(weekday_to_project_name(Weekday::Wed), "Wednesday");
    assert_eq!(project_name_to_weekday("Wednesday"), Some(Weekday::Wed));
    assert_eq!(project_name_to_weekday("Backlog"), None);
    assert_eq!(weekday_short(Weekday::Sat), "Sat");
    for d in Weekday::all() {
        assert_eq!(project_name_to_weekday(weekday_to_project_name(d)), Some(d));
        assert_eq!(parse_weekday(weekday_short(d)), Some(d));
    }
}

#[test]
fn new_template_gets_a_short_hex_id() {
    let t = TaskTemplate::new("Gym".to_string(), TimeHorizon::Weekly, Some(DaytimeBlock::Morning), vec![Weekday::Mon]);
    assert_eq!(t.id.len(), 8);
    assert!(t.id.chars().all(|c| c.is_ascii_digit() || ('a'..='f').contains(&c)));
    assert_eq!(t.title, "Gym");
    assert!(t.active);
    assert_eq!(t.priority, None);
    assert_eq!(t.block, Some(DaytimeBlock::Morning));
    assert_eq!(t.days, vec![Weekday::Mon]);
    assert!(chrono::DateTime::parse_from_rfc3339(&t.created_at).is_ok());
    let other = TaskTemplate::new("Gym".to_string(), TimeHorizon::Weekly, None, vec![]);
    assert_ne!(t.id, other.id);
}

#[test]
fn days_are_displayed() {
    assert_eq!(template("a", TimeHorizon::Weekly, vec![], true).days_display(), "Any day");
    assert_eq!(
        template("a", TimeHorizon::Weekly, vec![Weekday::Mon, Weekday::Thu], true).days_display(),
        "Mon, Thu"
    );
}

#[test]
fn edits_replace_given_fields() {
    let mut t = template("a", TimeHorizon::Weekly, vec![Weekday::Mon], true);
    t.apply_edit(TemplateEdit {
        title: Some("Run".to_string()),
        days: Some("tue, sat".to_string()),
        block: Some("Wieczór".to_string()),
        priority: Some(2),
        toggle_active: true,
    });
    assert_eq!(t.title, "Run");
    assert_eq!(t.days, vec![Weekday::Tue, Weekday::Sat]);
    assert_eq!(t.block, Some(DaytimeBlock::Evening));
    assert_eq!(t.priority, Some(2));
    assert!(!t.active);
    assert_eq!(t.id, "a");
    t.apply_edit(TemplateEdit { title: None, days: None, block: Some("noon".to_string()), priority: None, toggle_active: false });
    assert_eq!(t.title, "Run");
    assert_eq!(t.block, None);
    assert!(!t.active);
}

#[test]
fn add_find_and_remove() {
    let mut store = TemplateStore::default();
    assert_eq!(store.add(template("y1", TimeHorizon::Annual, vec![], true)), "y1");
    store.add(template("m1", TimeHorizon::Monthly, vec![], true));
    store.add(template("w1", TimeHorizon::Weekly, vec![Weekday::Mon], true));
    store.add(template("d1", TimeHorizon::Daily, vec![], true));
    assert_eq!(store.annual.len(), 1);
    assert_eq!(store.monthly.len(), 1);
    assert_eq!(store.weekly.len(), 2);
    assert_eq!(store.find("m1").map(|t| t.title.clone()), Some("Task m1".to_string()));
    assert!(store.find("zz").is_none());
    assert_eq!(store.locate("w1"), Some(Slot::Weekly(0)));
    assert_eq!(store.locate("d1"), Some(Slot::Weekly(1)));
    assert_eq!(store.at(Slot::Monthly(0)).id, "m1");
    assert_eq!(store.by_horizon(TimeHorizon::Daily).len(), 2);
    assert_eq!(store.by_horizon(TimeHorizon::Annual)[0].id, "y1");
    if let Some(t) = store.find_mut("w1") {
        t.title = "Changed".to_string();
    }
    assert_eq!(store.weekly[0].title, "Changed");
    assert!(store.remove("m1"));
    assert!(store.find("m1").is_none());
    assert!(!store.remove("m1"));
    assert_eq!(store.monthly.len(), 0);
}

#[test]
fn templates_for_a_day_come_weekly_first() {
    let mut store = TemplateStore::default();
    store.add(template("y1", TimeHorizon::Annual, vec![], true));
    store.add(template("m1", TimeHorizon::Monthly, vec![Weekday::Fri], true));
    store.add(template("w1", TimeHorizon::Weekly, vec![Weekday::Mon, Weekday::Wed], true));
    store.add(template("w2", TimeHorizon::Weekly, vec![], false));
    store.add(template("w3", TimeHorizon::Weekly, vec![], true));
    assert_eq!(ids(&store.templates_for_day(Weekday::Mon)), vec!["w1", "w3", "y1"]);
    assert_eq!(ids(&store.templates_for_day(Weekday::Fri)), vec!["w3", "m1", "y1"]);
    assert_eq!(ids(&store.templates_for_day(Weekday::Tue)), vec!["w3", "y1"]);
    assert_eq!(ids(&store.all_active()), vec!["y1", "m1", "w1", "w3"]);
    assert_eq!(store.counts(), (1, 1, 2));
}

#[test]
fn import_appends_templates() {
    let mut store = TemplateStore::default();
    store.add(template("a", TimeHorizon::Weekly, vec![], true));
    let mut other = TemplateStore::default();
    other.add(template("b", TimeHorizon::Weekly, vec![], true));
    other.add(template("c", TimeHorizon::Annual, vec![], true));
    other.generation_history.push(GenerationRecord { date: "2024-01-01".to_string(), template_ids: vec!["b".to_string()] });
    assert_eq!(store.import(other), 2);
    assert_eq!(store.weekly.iter().map(|t| t.id.as_str()).collect::<Vec<_>>(), vec!["a", "b"]);
    assert_eq!(store.annual[0].id, "c");
    assert!(store.generation_history.is_empty());
}

#[test]
fn generation_history_records_dates() {
    let mut store = TemplateStore::default();
    let d = jan(8);
    assert!(!store.was_generated("w1", &d));
    store.mark_generated("w1", &d);
    assert!(store.was_generated("w1", &d));
    assert!(!store.was_generated("w2", &d));
    assert!(!store.was_generated("w1", &jan(9)));
    store.mark_generated("w2", &d);
    store.mark_generated("w1", &jan(9));
    assert_eq!(store.generation_history.len(), 2);
    assert_eq!(store.generation_history[0].date, "2024-01-08");
    assert_eq!(store.generation_history[0].template_ids, vec!["w1", "w2"]);
    assert_eq!(store.generation_history[1].date, "2024-01-09");
}

#[test]
fn shown_days_read_back() {
    let days = vec![Weekday::Tue, Weekday::Sun, Weekday::Tue];
    let t = template("a", TimeHorizon::Weekly, days.clone(), true);
    assert_eq!(parse_weekdays(&t.days_display()), days);
}

#[test]
fn history_by_date_key() {
    let mut store = TemplateStore::default();
    store.mark_generated_for_key("w1", "2024-03-04");
    assert!(store.generated_for_key("w1", "2024-03-04"));
    assert!(!store.generated_for_key("w1", "2024-03-05"));
    assert!(!store.generated_for_key("w2", "2024-03-04"));
    let monday = Date::from_day_number(738886 + 63).unwrap();
    assert!(store.was_generated("w1", &monday));
    store.mark_generated("w2", &monday);
    assert_eq!(store.generation_history.len(), 1);
    assert_eq!(store.generation_history[0].template_ids, vec!["w1", "w2"]);
}

#[test]
fn find_and_find_mut_agree_on_the_first_template() {
    let mut store = TemplateStore::default();
    store.add(template("dup", TimeHorizon::Weekly, vec![], true));
    store.add(template("dup", TimeHorizon::Monthly, vec![], false));
    let before = store.clone();
    assert_eq!(store.find("dup").map(|t| t.horizon), Some(TimeHorizon::Monthly));
    assert_eq!(store.find_mut("dup").map(|t| t.horizon), Some(TimeHorizon::Monthly));
    assert_eq!(store.monthly.len(), before.monthly.len());
    assert_eq!(store.weekly[0].id, before.weekly[0].id);
    assert!(store.find_mut("nope").is_none());
    assert!(store.find("nope").is_none());
}

#[test]
fn marking_one_date_leaves_other_dates() {
    let mut store = TemplateStore::default();
    store.mark_generated("a", &jan(8));
    store.mark_generated("b", &jan(9));
    store.mark_generated("a", &jan(8));
    assert_eq!(store.generation_history.len(), 2);
    assert!(!store.was_generated("a", &jan(9)));
    assert!(store.was_generated("b", &jan(9)));
}
