use linear_tasks::api::{
    check_response, clone_strings, create_issue_fields, issue_filter, label_create_fields,
    mutation_result, mutation_succeeded, project_from_node, task_from_node, update_issue_fields,
    ApiError, InputField, InputValue, IssueNode, ProjectNode,
};
use linear_tasks::calendar::{Date, Timestamp};
use linear_tasks::models::{CreateTaskInput, Label, TaskState, UpdateTaskInput, User};

// 2024-01-01 is day 738886 counted from 0001-01-01 = day 1.
fn jan(day: i32) -> Date {
    Date::from_day_number(738885 + day).unwrap()
}

fn show(fields: &[InputField]) -> Vec<String> {
    fields
        .iter()
        .map(|f| match &f.value {
            InputValue::Text(s) => format!("{}={}", f.key, s),
            InputValue::Number(n) => format!("{}#{}", f.key, n),
            InputValue::TextList(v) => format!("{}[{}]", f.key, v.join(",")),
        })
        .collect()
}

fn node(project: Option<ProjectNode>) -> IssueNode {
    IssueNode {
        id: "uuid-1".to_string(),
        identifier: "ENG-7".to_string(),
        title: "Fix".to_string(),
        description: Some("d".to_string()),
        priority: 2,
        due_date: Some("2024-01-05".to_string()),
        state: TaskState { id: "s".to_string(), name: "Todo".to_string(), state_type: "unstarted".to_string(), color: None },
        labels: vec![Label { id: "l".to_string(), name: "Daily".to_string(), color: Some("#fff".to_string()) }],
        project,
        assignee: Some(User { id: "u".to_string(), name: "Ann".to_string(), email: None }),
        created_at: "2024-01-02T03:04:05.000Z".to_string(),
        updated_at: "not a time".to_string(),
        url: "https://linear.app/t/issue/ENG-7".to_string(),
    }
}

fn project_node() -> ProjectNode {
    ProjectNode {
        id: "p".to_string(),
        name: "Monday".to_string(),
        description: None,
        icon: None,
        color: Some("#000".to_string()),
        start_date: Some("2024-01-01".to_string()),
        target_date: Some("soon".to_string()),
    }
}

#[test]
fn create_fields_leave_out_missing_values() {
    let input = CreateTaskInput {
        title: "Call".to_string(),
        description: None,
        team_id: "team".to_string(),
        project_id: Some("proj".to_string()),
        priority: Some(2),
        due_date: Some(jan(31)),
        label_ids: vec!["a".to_string(), "b".to_string()],
        assignee_id: None,
    };
    assert_eq!(
        show(&create_issue_fields(&input)),
        vec!["title=Call", "teamId=team", "projectId=proj", "priority#2", "dueDate=2024-01-31", "labelIds[a,b]"]
    );
    let bare = CreateTaskInput {
        title: "x".to_string(),
        description: Some("why".to_string()),
        team_id: "t".to_string(),
        project_id: None,
        priority: None,
        due_date: None,
        label_ids: vec![],
        assignee_id: Some("u".to_string()),
    };
    assert_eq!(show(&create_issue_fields(&bare)), vec!["title=x", "teamId=t", "description=why", "assigneeId=u"]);
}

#[test]
fn update_fields_carry_given_values() {
    let mut u = UpdateTaskInput {
        id: "i".to_string(),
        title: None,
        description: None,
        priority: None,
        due_date: None,
        state_id: Some("s3".to_string()),
        label_ids: None,
        project_id: None,
    };
    assert_eq!(show(&update_issue_fields(&u)), vec!["stateId=s3"]);
    u.label_ids = Some(vec![]);
    u.title = Some("T".to_string());
    assert_eq!(show(&update_issue_fields(&u)), vec!["title=T", "stateId=s3", "labelIds[]"]);
}

#[test]
fn label_fields() {
    assert_eq!(show(&label_create_fields("Daily", "#f2994a", Some("team"))), vec!["name=Daily", "color=#f2994a", "teamId=team"]);
    assert_eq!(show(&label_create_fields("Daily", "#f2994a", None)), vec!["name=Daily", "color=#f2994a"]);
    assert_eq!(clone_strings(&vec!["a".to_string()]), vec!["a".to_string()]);
}

#[test]
fn filters() {
    let f = issue_filter(Some("team"), None, Some("daily"), false);
    assert_eq!(f.excluded_state_types, vec!["completed", "canceled"]);
    assert_eq!(f.team_id, Some("team".to_string()));
    assert_eq!(f.project_id, None);
    assert_eq!(f.label_contains, Some("daily".to_string()));
    assert!(issue_filter(None, None, None, true).excluded_state_types.is_empty());
}

#[test]
fn responses_are_judged() {
    assert!(check_response(None, true).is_ok());
    assert!(matches!(check_response(None, false), Err(ApiError::NoData)));
    match check_response(Some(vec!["bad id".to_string(), "no access".to_string()]), true) {
        Err(ApiError::GraphQl(m)) => assert_eq!(m, "bad id, no access"),
        other => panic!("unexpected {:?}", other),
    }
    assert!(matches!(mutation_result(false, Some(1)), Err(ApiError::Unsuccessful)));
    assert!(matches!(mutation_result::<i32>(true, None), Err(ApiError::NothingReturned)));
    assert!(matches!(mutation_result(true, Some(5)), Ok(5)));
    assert!(mutation_succeeded(true).is_ok());
    assert!(matches!(mutation_succeeded(false), Err(ApiError::Unsuccessful)));
}

#[test]
fn nodes_become_values() {
    let p = project_from_node(project_node());
    assert_eq!(p.start_date, Some(jan(1)));
    assert_eq!(p.target_date, None);
    assert_eq!(p.color, Some("#000".to_string()));
    let now = Timestamp { secs: 42, nanos: 0 };
    let t = task_from_node(node(Some(project_node())), now);
    assert_eq!(t.id, "uuid-1");
    assert_eq!(t.identifier, "ENG-7");
    assert_eq!(t.priority, 2);
    assert_eq!(t.due_date, Some(jan(5)));
    assert_eq!(t.created_at, Timestamp { secs: 1704164645, nanos: 0 });
    assert_eq!(t.updated_at, now);
    assert_eq!(t.labels[0].name, "Daily");
    assert_eq!(t.project.as_ref().map(|p| p.name.clone()), Some("Monday".to_string()));
    assert_eq!(t.assignee.as_ref().map(|u| u.name.clone()), Some("Ann".to_string()));
    let t = task_from_node(node(None), now);
    assert!(t.project.is_none());
}
