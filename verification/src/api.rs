//! The rules around Linear's GraphQL API: which fields a request carries, how a
//! response is judged, and how the returned nodes become library values.

use vstd::prelude::*;
use vstd::string::*;
use crate::calendar::{Date, Timestamp, from_str_day, iso_date_text, utc_from_str};
use crate::models::{CreateTaskInput, Label, Project, Task, TaskState, UpdateTaskInput, User};
use crate::text::{join_strings, join_with, string_views};

verus! {

/// A value of a GraphQL input field.
#[derive(Clone, Debug)]
pub enum InputValue {
    Text(String),
    Number(i32),
    TextList(Vec<String>),
}

/// One field of a GraphQL input object.
#[derive(Clone, Debug)]
pub struct InputField {
    pub key: String,
    pub value: InputValue,
}

/// A field as plain values.
pub enum FieldView {
    Text(Seq<char>, Seq<char>),
    Number(Seq<char>, i32),
    TextList(Seq<char>, Seq<Seq<char>>),
}

pub open spec fn field_view(f: InputField) -> FieldView {
    match f.value {
        InputValue::Text(s) => FieldView::Text(f.key@, s@),
        InputValue::Number(n) => FieldView::Number(f.key@, n),
        InputValue::TextList(v) => FieldView::TextList(f.key@, string_views(v@)),
    }
}

pub open spec fn fields_view(fs: Seq<InputField>) -> Seq<FieldView> {
    fs.map_values(|f: InputField| field_view(f))
}

/// An optional text field: present only when the value is.
pub open spec fn opt_text_field(key: Seq<char>, v: Option<String>) -> Seq<FieldView> {
    match v {
        Some(s) => seq![FieldView::Text(key, s@)],
        None => Seq::<FieldView>::empty(),
    }
}

/// An optional number field.
pub open spec fn opt_number_field(key: Seq<char>, v: Option<i32>) -> Seq<FieldView> {
    match v {
        Some(n) => seq![FieldView::Number(key, n)],
        None => Seq::<FieldView>::empty(),
    }
}

/// An optional date field, written as "YYYY-MM-DD".
pub open spec fn opt_date_field(key: Seq<char>, v: Option<Date>) -> Seq<FieldView> {
    match v {
        Some(d) => seq![FieldView::Text(key, iso_date_text(d@))],
        None => Seq::<FieldView>::empty(),
    }
}

/// The fields of an `IssueCreateInput`: title and team always; description,
/// project, priority, due date, labels (when there are any) and assignee when given.
pub open spec fn create_issue_fields_spec(i: CreateTaskInput) -> Seq<FieldView> {
    seq![FieldView::Text("title"@, i.title@), FieldView::Text("teamId"@, i.team_id@)]
        + opt_text_field("description"@, i.description)
        + opt_text_field("projectId"@, i.project_id)
        + opt_number_field("priority"@, i.priority)
        + opt_date_field("dueDate"@, i.due_date)
        + (if i.label_ids@.len() == 0 {
        Seq::<FieldView>::empty()
    } else {
        seq![FieldView::TextList("labelIds"@, string_views(i.label_ids@))]
    })
        + opt_text_field("assigneeId"@, i.assignee_id)
}

/// The fields of an `IssueUpdateInput`: each value that is given.
pub open spec fn update_issue_fields_spec(i: UpdateTaskInput) -> Seq<FieldView> {
    opt_text_field("title"@, i.title)
        + opt_text_field("description"@, i.description)
        + opt_number_field("priority"@, i.priority)
        + opt_date_field("dueDate"@, i.due_date)
        + opt_text_field("stateId"@, i.state_id)
        + (match i.label_ids {
        Some(v) => seq![FieldView::TextList("labelIds"@, string_views(v@))],
        None => Seq::<FieldView>::empty(),
    })
        + opt_text_field("projectId"@, i.project_id)
}

fn push_text(fields: &mut Vec<InputField>, key: &str, value: String)
    ensures
        fields_view(final(fields)@) == fields_view(old(fields)@).push(FieldView::Text(key@, value@)),
{
    let ghost before = fields@;
    fields.push(InputField { key: String::from_str(key), value: InputValue::Text(value) });
    assert(fields_view(fields@) =~= fields_view(before).push(FieldView::Text(key@, value@)));
}

fn push_opt_text(fields: &mut Vec<InputField>, key: &str, value: &Option<String>)
    ensures
        fields_view(final(fields)@) == fields_view(old(fields)@) + opt_text_field(key@, *value),
{
    match value {
        Some(v) => {
            push_text(fields, key, v.clone());
            assert(fields_view(old(fields)@).push(FieldView::Text(key@, v@)) =~= fields_view(
                old(fields)@,
            ) + opt_text_field(key@, *value));
        },
        None => {
            assert(fields_view(fields@) =~= fields_view(fields@) + opt_text_field(key@, *value));
        },
    }
}

fn push_opt_number(fields: &mut Vec<InputField>, key: &str, value: Option<i32>)
    ensures
        fields_view(final(fields)@) == fields_view(old(fields)@) + opt_number_field(key@, value),
{
    let ghost before = fields@;
    match value {
        Some(n) => {
            fields.push(InputField { key: String::from_str(key), value: InputValue::Number(n) });
            assert(fields_view(fields@) =~= fields_view(before) + opt_number_field(key@, value));
        },
        None => {
            assert(fields_view(fields@) =~= fields_view(before) + opt_number_field(key@, value));
        },
    }
}

fn push_opt_date(fields: &mut Vec<InputField>, key: &str, value: Option<Date>)
    ensures
        fields_view(final(fields)@) == fields_view(old(fields)@) + opt_date_field(key@, value),
{
    let ghost before = fields@;
    match value {
        Some(d) => {
            push_text(fields, key, d.to_iso_string());
            assert(fields_view(fields@) =~= fields_view(before) + opt_date_field(key@, value));
        },
        None => {
            assert(fields_view(fields@) =~= fields_view(before) + opt_date_field(key@, value));
        },
    }
}

fn push_text_list(fields: &mut Vec<InputField>, key: &str, value: &Vec<String>)
    ensures
        fields_view(final(fields)@) == fields_view(old(fields)@).push(
            FieldView::TextList(key@, string_views(value@)),
        ),
{
    let ghost before = fields@;
    let copy = clone_strings(value);
    fields.push(InputField { key: String::from_str(key), value: InputValue::TextList(copy) });
    assert(fields_view(fields@) =~= fields_view(before).push(
        FieldView::TextList(key@, string_views(value@)),
    ));
}

/// A copy of a list of strings.
pub fn clone_strings(v: &Vec<String>) -> (res: Vec<String>)
    ensures
        string_views(res@) == string_views(v@),
{
    let mut res: Vec<String> = Vec::new();
    let mut i: usize = 0;
    while i < v.len()
        invariant
            i <= v@.len(),
            res@.len() == i,
            forall|j: int| 0 <= j < i ==> (#[trigger] res@[j])@ == v@[j]@,
        decreases v.len() - i,
    {
        res.push(v[i].clone());
        i = i + 1;
    }
    assert(string_views(res@) =~= string_views(v@));
    res
}

/// The fields of the input object of `issueCreate`.
pub fn create_issue_fields(input: &CreateTaskInput) -> (res: Vec<InputField>)
    ensures
        fields_view(res@) == create_issue_fields_spec(*input),
{
    let mut fields: Vec<InputField> = Vec::new();
    assert(fields_view(fields@) =~= Seq::<FieldView>::empty());
    push_text(&mut fields, "title", input.title.clone());
    push_text(&mut fields, "teamId", input.team_id.clone());
    push_opt_text(&mut fields, "description", &input.description);
    push_opt_text(&mut fields, "projectId", &input.project_id);
    push_opt_number(&mut fields, "priority", input.priority);
    push_opt_date(&mut fields, "dueDate", input.due_date);
    let ghost mid = fields_view(fields@);
    if input.label_ids.len() > 0 {
        push_text_list(&mut fields, "labelIds", &input.label_ids);
    }
    assert(fields_view(fields@) =~= mid + (if input.label_ids@.len() == 0 {
        Seq::<FieldView>::empty()
    } else {
        seq![FieldView::TextList("labelIds"@, string_views(input.label_ids@))]
    }));
    push_opt_text(&mut fields, "assigneeId", &input.assignee_id);
    assert(fields_view(fields@) =~= create_issue_fields_spec(*input));
    fields
}

/// The fields of the input object of `issueUpdate`.
pub fn update_issue_fields(input: &UpdateTaskInput) -> (res: Vec<InputField>)
    ensures
        fields_view(res@) == update_issue_fields_spec(*input),
{
    let mut fields: Vec<InputField> = Vec::new();
    assert(fields_view(fields@) =~= Seq::<FieldView>::empty());
    push_opt_text(&mut fields, "title", &input.title);
    push_opt_text(&mut fields, "description", &input.description);
    push_opt_number(&mut fields, "priority", input.priority);
    push_opt_date(&mut fields, "dueDate", input.due_date);
    push_opt_text(&mut fields, "stateId", &input.state_id);
    let ghost mid = fields_view(fields@);
    match &input.label_ids {
        Some(v) => {
            push_text_list(&mut fields, "labelIds", v);
        },
        None => {},
    }
    assert(fields_view(fields@) =~= mid + (match input.label_ids {
        Some(v) => seq![FieldView::TextList("labelIds"@, string_views(v@))],
        None => Seq::<FieldView>::empty(),
    }));
    push_opt_text(&mut fields, "projectId", &input.project_id);
    assert(fields_view(fields@) =~= update_issue_fields_spec(*input));
    fields
}

/// The fields of the input object of `issueLabelCreate`: name, color, and the
/// team when one is given.
pub fn label_create_fields(name: &str, color: &str, team_id: Option<&str>) -> (res: Vec<InputField>)
    ensures
        fields_view(res@) == seq![FieldView::Text("name"@, name@), FieldView::Text("color"@, color@)]
            + (match team_id {
            Some(t) => seq![FieldView::Text("teamId"@, t@)],
            None => Seq::<FieldView>::empty(),
        }),
{
    let mut fields: Vec<InputField> = Vec::new();
    push_text(&mut fields, "name", String::from_str(name));
    push_text(&mut fields, "color", String::from_str(color));
    match team_id {
        Some(t) => {
            push_text(&mut fields, "teamId", String::from_str(t));
        },
        None => {},
    }
    assert(fields_view(fields@) =~= seq![FieldView::Text("name"@, name@), FieldView::Text("color"@, color@)]
        + (match team_id {
        Some(t) => seq![FieldView::Text("teamId"@, t@)],
        None => Seq::<FieldView>::empty(),
    }));
    fields
}

/// The filter of an issue query.
#[derive(Clone, Debug)]
pub struct IssueFilter {
    /// The workflow state types of issues to leave out (none: every state).
    pub excluded_state_types: Vec<String>,
    pub team_id: Option<String>,
    pub project_id: Option<String>,
    /// Only issues with a label whose name contains this text (ignoring case).
    pub label_contains: Option<String>,
}

/// The state types that listing leaves out: completed and canceled issues,
/// unless completed ones are asked for too.
pub open spec fn closed_state_types(include_completed: bool) -> Seq<Seq<char>> {
    if include_completed {
        Seq::<Seq<char>>::empty()
    } else {
        seq!["completed"@, "canceled"@]
    }
}

/// The filter for listing tasks.
pub fn issue_filter(
    team_id: Option<&str>,
    project_id: Option<&str>,
    label_name: Option<&str>,
    include_completed: bool,
) -> (res: IssueFilter)
    ensures
        string_views(res.excluded_state_types@) == closed_state_types(include_completed),
        crate::config::opt_view(res.team_id) == (match team_id {
            Some(t) => Some(t@),
            None => None,
        }),
        crate::config::opt_view(res.project_id) == (match project_id {
            Some(t) => Some(t@),
            None => None,
        }),
        crate::config::opt_view(res.label_contains) == (match label_name {
            Some(t) => Some(t@),
            None => None,
        }),
{
    let mut excluded: Vec<String> = Vec::new();
    if !include_completed {
        excluded.push(String::from_str("completed"));
        excluded.push(String::from_str("canceled"));
    }
    assert(string_views(excluded@) =~= closed_state_types(include_completed));
    IssueFilter {
        excluded_state_types: excluded,
        team_id: match team_id {
            Some(t) => Some(String::from_str(t)),
            None => None,
        },
        project_id: match project_id {
            Some(t) => Some(String::from_str(t)),
            None => None,
        },
        label_contains: match label_name {
            Some(t) => Some(String::from_str(t)),
            None => None,
        },
    }
}

/// Why a response or a mutation is not accepted.
#[derive(Clone, Debug)]
pub enum ApiError {
    /// The response lists GraphQL errors; their messages joined by ", ".
    GraphQl(String),
    /// The response has no data.
    NoData,
    /// The mutation reports no success.
    Unsuccessful,
    /// The mutation succeeded but returned no object.
    NothingReturned,
}

/// Judges a parsed GraphQL response (after a successful HTTP status): any GraphQL
/// errors first, then missing data.
pub fn check_response(errors: Option<Vec<String>>, has_data: bool) -> (res: Result<(), ApiError>)
    ensures
        errors is Some ==> (res matches Err(ApiError::GraphQl(m)) && m@ == join_with(
            string_views(errors->0@),
            ", "@,
        )),
        errors is None && !has_data ==> res matches Err(ApiError::NoData),
        errors is None && has_data ==> res is Ok,
{
    match errors {
        Some(messages) => Err(ApiError::GraphQl(join_strings(&messages, ", "))),
        None => if has_data {
            Ok(())
        } else {
            Err(ApiError::NoData)
        },
    }
}

/// Judges the payload of a mutation: it must report success and carry the object.
pub fn mutation_result<T>(success: bool, returned: Option<T>) -> (res: Result<T, ApiError>)
    ensures
        !success ==> res matches Err(ApiError::Unsuccessful),
        success && returned is None ==> res matches Err(ApiError::NothingReturned),
        success && returned is Some ==> res == Ok::<T, ApiError>(returned->0),
{
    if !success {
        return Err(ApiError::Unsuccessful);
    }
    match returned {
        Some(x) => Ok(x),
        None => Err(ApiError::NothingReturned),
    }
}

/// Judges the payload of a mutation that returns nothing: it must report success.
pub fn mutation_succeeded(success: bool) -> (res: Result<(), ApiError>)
    ensures
        success <==> res is Ok,
        !success ==> res matches Err(ApiError::Unsuccessful),
{
    if success {
        Ok(())
    } else {
        Err(ApiError::Unsuccessful)
    }
}

/// A project as the API returns it (dates as text).
#[derive(Clone, Debug)]
pub struct ProjectNode {
    pub id: String,
    pub name: String,
    pub description: Option<String>,
    pub icon: Option<String>,
    pub color: Option<String>,
    pub start_date: Option<String>,
    pub target_date: Option<String>,
}

/// An issue as the API returns it (dates and times as text).
#[derive(Clone, Debug)]
pub struct IssueNode {
    pub id: String,
    pub identifier: String,
    pub title: String,
    pub description: Option<String>,
    pub priority: i32,
    pub due_date: Option<String>,
    pub state: TaskState,
    pub labels: Vec<Label>,
    pub project: Option<ProjectNode>,
    pub assignee: Option<User>,
    pub created_at: String,
    pub updated_at: String,
    pub url: String,
}

/// The day number of an optional date.
pub open spec fn opt_day(d: Option<Date>) -> Option<int> {
    match d {
        Some(x) => Some(x@),
        None => None,
    }
}

/// The day number that an optional date text parses to (chrono's `FromStr`);
/// text that does not parse gives no date.
pub open spec fn parsed_day(s: Option<String>) -> Option<int> {
    match s {
        Some(t) => from_str_day(t@),
        None => None,
    }
}

/// The instant that a time text parses to, or `now` when it does not parse.
pub open spec fn parsed_time_or(s: Seq<char>, now: Timestamp) -> Timestamp {
    match utc_from_str(s) {
        Some(t) => t,
        None => now,
    }
}

fn parse_opt_date(s: &Option<String>) -> (res: Option<Date>)
    ensures
        opt_day(res) == parsed_day(*s),
{
    match s {
        Some(t) => Date::parse(t.as_str()),
        None => None,
    }
}

fn parse_time_or(s: &str, now: Timestamp) -> (res: Timestamp)
    ensures
        res == parsed_time_or(s@, now),
{
    match Timestamp::parse(s) {
        Some(t) => t,
        None => now,
    }
}

/// The project that a project node describes: its dates parsed where they parse.
pub fn project_from_node(node: ProjectNode) -> (res: Project)
    ensures
        res.id == node.id,
        res.name == node.name,
        res.description == node.description,
        res.icon == node.icon,
        res.color == node.color,
        opt_day(res.start_date) == parsed_day(node.start_date),
        opt_day(res.target_date) == parsed_day(node.target_date),
{
    let start_date = parse_opt_date(&node.start_date);
    let target_date = parse_opt_date(&node.target_date);
    Project {
        id: node.id,
        name: node.name,
        description: node.description,
        icon: node.icon,
        color: node.color,
        start_date,
        target_date,
    }
}

/// The task that an issue node describes: its due date parsed where it parses,
/// and its creation and update times parsed, or `now` where they do not parse.
pub fn task_from_node(node: IssueNode, now: Timestamp) -> (res: Task)
    ensures
        res.id == node.id,
        res.identifier == node.identifier,
        res.title == node.title,
        res.description == node.description,
        res.priority == node.priority,
        opt_day(res.due_date) == parsed_day(node.due_date),
        res.state == node.state,
        res.labels == node.labels,
        res.project is Some == node.project is Some,
        res.project matches Some(p) ==> (node.project matches Some(n) && p.id == n.id && p.name
            == n.name && p.description == n.description && p.icon == n.icon && p.color == n.color
            && opt_day(p.start_date) == parsed_day(n.start_date) && opt_day(p.target_date)
            == parsed_day(n.target_date)),
        res.assignee == node.assignee,
        res.created_at == parsed_time_or(node.created_at@, now),
        res.updated_at == parsed_time_or(node.updated_at@, now),
        res.url == node.url,
{
    let due_date = parse_opt_date(&node.due_date);
    let created_at = parse_time_or(node.created_at.as_str(), now);
    let updated_at = parse_time_or(node.updated_at.as_str(), now);
    let project = match node.project {
        Some(p) => Some(project_from_node(p)),
        None => None,
    };
    Task {
        id: node.id,
        identifier: node.identifier,
        title: node.title,
        description: node.description,
        priority: node.priority,
        due_date,
        state: node.state,
        labels: node.labels,
        project,
        assignee: node.assignee,
        created_at,
        updated_at,
        url: node.url,
    }
}

} // verus!
