use linear_tasks::calendar::Timestamp;
use linear_tasks::models::{
    horizon_from_lower_label, AppConfig, DaytimeBlock, DaytimeBlockLabels, Label, Priority, Task,
    TaskState, TimeHorizon, TimeHorizonLabels,
};

fn state(state_type: &str) -> TaskState {
    TaskState {
        id: "s1".to_string(),
        name: "State".to_string(),
        state_type: state_type.to_string(),
        color: None,
    }
}

fn label(name: &str) -> Label {
    Label { id: format!("id-{}", name), name: name.to_string(), color: None }
}

fn task(state_type: &str, labels: &[&str], priority: i32) -> Task {
    Task {
        id: "t1".to_string(),
        identifier: "ENG-1".to_string(),
        title: "Write report".to_string(),
        description: None,
        priority,
        due_date: None,
        state: state(state_type),
        labels: labels.iter().map(|n| label(n)).collect(),
        project: None,
        assignee: None,
        created_at: Timestamp { secs: 0, nanos: 0 },
        updated_at: Timestamp { secs: 0, nanos: 0 },
        url: "https://linear.app/x/issue/ENG-1".to_string(),
    }
}

#[test]
fn horizon_metadata() {
    assert_eq!(
        TimeHorizon::all(),
        vec![TimeHorizon::Annual, TimeHorizon::Monthly, TimeHorizon::Weekly, TimeHorizon::Daily]
    );
    assert_eq!(TimeHorizon::Annual.emoji(), "🎯");
    assert_eq!(TimeHorizon::Daily.emoji(), "📌");
    assert_eq!(TimeHorizon::Monthly.color(), "#26b5ce");
    assert_eq!(TimeHorizon::Weekly.to_display_string(), "Weekly");
    assert_eq!(TimeHorizon::Weekly.name(), "Weekly");
}

#[test]
fn block_metadata() {
    assert_eq!(
        DaytimeBlock::all(),
        vec![DaytimeBlock::Morning, DaytimeBlock::Work, DaytimeBlock::Afternoon, DaytimeBlock::Evening]
    );
    assert_eq!(DaytimeBlock::Morning.time_range(), "06:00 - 09:00");
    assert_eq!(DaytimeBlock::Evening.time_range(), "20:00 - 23:00");
    assert_eq!(DaytimeBlock::Work.emoji(), "💼");
    assert_eq!(DaytimeBlock::Afternoon.color(), "#7ed321");
    assert_eq!(DaytimeBlock::Afternoon.to_display_string(), "Afternoon");
}

#[test]
fn block_names_parse_in_both_languages() {
    assert_eq!(DaytimeBlock::from_str("Morning"), Some(DaytimeBlock::Morning));
    assert_eq!(DaytimeBlock::from_str("RANO"), Some(DaytimeBlock::Morning));
    assert_eq!(DaytimeBlock::from_str("praca"), Some(DaytimeBlock::Work));
    assert_eq!(DaytimeBlock::from_str("Popołudnie"), Some(DaytimeBlock::Afternoon));
    assert_eq!(DaytimeBlock::from_str("WIECZÓR"), Some(DaytimeBlock::Evening));
    assert_eq!(DaytimeBlock::from_str("wieczor"), Some(DaytimeBlock::Evening));
    assert_eq!(DaytimeBlock::from_str("🌙"), Some(DaytimeBlock::Evening));
    assert_eq!(DaytimeBlock::from_str("night"), None);
    assert_eq!(DaytimeBlock::from_lower("Morning"), None);
}

#[test]
fn priorities_round_trip() {
    for v in 0..=4 {
        assert_eq!(Priority::from(v).value(), v);
    }
    assert_eq!(Priority::from(7), Priority::NoPriority);
    assert_eq!(Priority::from(-1), Priority::NoPriority);
    assert_eq!(Priority::Urgent.label(), "🔴 Urgent");
    assert_eq!(Priority::NoPriority.label(), "—");
    assert_eq!(Priority::Low.label(), "🟢 Low");
}

#[test]
fn state_emojis() {
    assert_eq!(state("backlog").emoji(), "📥");
    assert_eq!(state("unstarted").emoji(), "⚪");
    assert_eq!(state("started").emoji(), "🔵");
    assert_eq!(state("completed").emoji(), "✅");
    assert_eq!(state("canceled").emoji(), "❌");
    assert_eq!(state("triage").emoji(), "❓");
}

#[test]
fn horizon_comes_from_first_matching_label() {
    assert_eq!(task("started", &["Bug", "Weekly", "Daily"], 0).time_horizon(), Some(TimeHorizon::Weekly));
    assert_eq!(task("started", &["ROCZNE"], 0).time_horizon(), Some(TimeHorizon::Annual));
    assert_eq!(task("started", &["Miesięczne"], 0).time_horizon(), Some(TimeHorizon::Monthly));
    assert_eq!(task("started", &["Bug"], 0).time_horizon(), None);
    assert_eq!(task("started", &[], 0).time_horizon(), None);
    assert_eq!(horizon_from_lower_label("yearly"), Some(TimeHorizon::Annual));
    assert_eq!(horizon_from_lower_label("Yearly"), None);
}

#[test]
fn block_comes_from_first_matching_label() {
    assert_eq!(task("started", &["Daily", "Evening", "Morning"], 0).daytime_block(), Some(DaytimeBlock::Evening));
    assert_eq!(task("started", &["Daily"], 0).daytime_block(), None);
}

#[test]
fn task_status_predicates() {
    let done = task("completed", &[], 2);
    assert!(done.is_completed() && !done.is_canceled() && !done.is_active());
    let dropped = task("canceled", &[], 2);
    assert!(!dropped.is_completed() && dropped.is_canceled() && !dropped.is_active());
    let open = task("started", &[], 2);
    assert!(open.is_active());
    assert_eq!(open.priority_enum(), Priority::High);
}

#[test]
fn default_configuration() {
    let c = AppConfig::default();
    assert_eq!(c.linear_api_key, "");
    assert!(c.default_team_id.is_none() && c.default_team_name.is_none());
    assert_eq!(c.time_horizon_labels.annual, "Annual");
    assert_eq!(c.time_horizon_labels.daily, "Daily");
    assert_eq!(c.daytime_block_labels.morning, "Morning");
    assert_eq!(c.daytime_block_labels.evening, "Evening");
    let h = TimeHorizonLabels::default();
    assert_eq!(h.monthly, "Monthly");
    let b = DaytimeBlockLabels::default();
    assert_eq!(b.work, "Work");
}
