//! Task templates kept locally, the store that groups them by horizon, and the
//! record of which templates were already generated for which dates.

use vstd::prelude::*;
use vstd::string::*;
use crate::calendar::{Date, Weekday, day_in_range, iso_date_text, utc_now_rfc3339};
use crate::models::{DaytimeBlock, TimeHorizon};
use crate::text::{
    all_ascii, ascii_lower_seq, ascii_upper_seq, lemma_upper_then_lower, char_vec_views, chars_of, contains_string, free_of, join_strings, join_with,
    lemma_split_join, lemma_trim_padded, lowercase, split_chars, split_on, str_equal,
    string_from_chars, string_views, to_lowercase, trim_chars, trim_spec, unicode_whitespace,
};

verus! {

// ---------------------------------------------------------------------------
// Weekday names
// ---------------------------------------------------------------------------

/// The weekday that an already lower-cased word names (English or Polish, full or short).
pub open spec fn weekday_from_lower(s: Seq<char>) -> Option<Weekday> {
    if s == "mon"@ || s == "monday"@ || s == "poniedziałek"@ || s == "poniedzialek"@ {
        Some(Weekday::Mon)
    } else if s == "tue"@ || s == "tuesday"@ || s == "wtorek"@ {
        Some(Weekday::Tue)
    } else if s == "wed"@ || s == "wednesday"@ || s == "środa"@ || s == "sroda"@ {
        Some(Weekday::Wed)
    } else if s == "thu"@ || s == "thursday"@ || s == "czwartek"@ {
        Some(Weekday::Thu)
    } else if s == "fri"@ || s == "friday"@ || s == "piątek"@ || s == "piatek"@ {
        Some(Weekday::Fri)
    } else if s == "sat"@ || s == "saturday"@ || s == "sobota"@ {
        Some(Weekday::Sat)
    } else if s == "sun"@ || s == "sunday"@ || s == "niedziela"@ {
        Some(Weekday::Sun)
    } else {
        None
    }
}

/// The weekday that a word names, compared after Unicode lower-casing.
pub open spec fn weekday_from_text(s: Seq<char>) -> Option<Weekday> {
    weekday_from_lower(lowercase(s))
}

/// The three-letter name of a weekday.
pub open spec fn weekday_short_name(d: Weekday) -> Seq<char> {
    match d {
        Weekday::Mon => "Mon"@,
        Weekday::Tue => "Tue"@,
        Weekday::Wed => "Wed"@,
        Weekday::Thu => "Thu"@,
        Weekday::Fri => "Fri"@,
        Weekday::Sat => "Sat"@,
        Weekday::Sun => "Sun"@,
    }
}

/// The Linear project name of a weekday.
pub open spec fn weekday_project_name(d: Weekday) -> Seq<char> {
    match d {
        Weekday::Mon => "Monday"@,
        Weekday::Tue => "Tuesday"@,
        Weekday::Wed => "Wednesday"@,
        Weekday::Thu => "Thursday"@,
        Weekday::Fri => "Friday"@,
        Weekday::Sat => "Saturday"@,
        Weekday::Sun => "Sunday"@,
    }
}

/// The weekday that an already lower-cased word names.
pub fn weekday_from_lower_word(s: &str) -> (res: Option<Weekday>)
    ensures
        res == weekday_from_lower(s@),
{
    if str_equal(s, "mon") || str_equal(s, "monday") || str_equal(s, "poniedziałek")
        || str_equal(s, "poniedzialek") {
        Some(Weekday::Mon)
    } else if str_equal(s, "tue") || str_equal(s, "tuesday") || str_equal(s, "wtorek") {
        Some(Weekday::Tue)
    } else if str_equal(s, "wed") || str_equal(s, "wednesday") || str_equal(s, "środa")
        || str_equal(s, "sroda") {
        Some(Weekday::Wed)
    } else if str_equal(s, "thu") || str_equal(s, "thursday") || str_equal(s, "czwartek") {
        Some(Weekday::Thu)
    } else if str_equal(s, "fri") || str_equal(s, "friday") || str_equal(s, "piątek")
        || str_equal(s, "piatek") {
        Some(Weekday::Fri)
    } else if str_equal(s, "sat") || str_equal(s, "saturday") || str_equal(s, "sobota") {
        Some(Weekday::Sat)
    } else if str_equal(s, "sun") || str_equal(s, "sunday") || str_equal(s, "niedziela") {
        Some(Weekday::Sun)
    } else {
        None
    }
}

/// Parses a weekday from a word, ignoring case.
pub fn parse_weekday(s: &str) -> (res: Option<Weekday>)
    ensures
        res == weekday_from_text(s@),
{
    let lower = to_lowercase(s);
    weekday_from_lower_word(lower.as_str())
}

/// The weekdays named by comma-separated pieces, each trimmed; pieces that name
/// no weekday are skipped.
pub open spec fn weekdays_of_pieces(pieces: Seq<Seq<char>>) -> Seq<Weekday>
    decreases pieces.len(),
{
    if pieces.len() == 0 {
        Seq::<Weekday>::empty()
    } else {
        let prev = weekdays_of_pieces(pieces.drop_last());
        match weekday_from_text(trim_spec(pieces.last())) {
            Some(d) => prev.push(d),
            None => prev,
        }
    }
}

/// Parses several weekdays from a comma-separated list.
pub fn parse_weekdays(s: &str) -> (res: Vec<Weekday>)
    ensures
        res@ == weekdays_of_pieces(split_on(s@, ',')),
{
    let cs = chars_of(s);
    let pieces = split_chars(&cs, ',');
    let ghost views = char_vec_views(pieces@);
    let mut res: Vec<Weekday> = Vec::new();
    let mut i: usize = 0;
    while i < pieces.len()
        invariant
            views == char_vec_views(pieces@),
            views == split_on(s@, ','),
            i <= pieces@.len(),
            res@ == weekdays_of_pieces(views.subrange(0, i as int)),
        decreases pieces.len() - i,
    {
        assert(views.subrange(0, i + 1).drop_last() =~= views.subrange(0, i as int));
        let trimmed = trim_chars(&pieces[i]);
        let word = string_from_chars(&trimmed);
        match parse_weekday(word.as_str()) {
            Some(d) => res.push(d),
            None => {},
        }
        i = i + 1;
    }
    assert(views.subrange(0, views.len() as int) =~= views);
    res
}

/// The Linear project name of a weekday.
pub fn weekday_to_project_name(day: Weekday) -> (res: &'static str)
    ensures
        res@ == weekday_project_name(day),
{
    match day {
        Weekday::Mon => "Monday",
        Weekday::Tue => "Tuesday",
        Weekday::Wed => "Wednesday",
        Weekday::Thu => "Thursday",
        Weekday::Fri => "Friday",
        Weekday::Sat => "Saturday",
        Weekday::Sun => "Sunday",
    }
}

/// The weekday of a Linear project name.
pub fn project_name_to_weekday(name: &str) -> (res: Option<Weekday>)
    ensures
        res == weekday_from_text(name@),
{
    parse_weekday(name)
}

/// The three-letter name of a weekday.
pub fn weekday_short(day: Weekday) -> (res: &'static str)
    ensures
        res@ == weekday_short_name(day),
{
    match day {
        Weekday::Mon => "Mon",
        Weekday::Tue => "Tue",
        Weekday::Wed => "Wed",
        Weekday::Thu => "Thu",
        Weekday::Fri => "Fri",
        Weekday::Sat => "Sat",
        Weekday::Sun => "Sun",
    }
}

} // verus!

verus! {

// ---------------------------------------------------------------------------
// Templates
// ---------------------------------------------------------------------------

#[verifier::external_type_specification]
#[verifier::external_body]
pub struct ExUuid(uuid::Uuid);

/// A lower-case hexadecimal digit.
pub open spec fn lower_hex_digit(c: char) -> bool {
    ('0' <= c && c <= '9') || ('a' <= c && c <= 'f')
}

/// The hyphenated lower-case form of a UUID: 36 characters, hyphens at
/// positions 8, 13, 18 and 23, lower-case hexadecimal digits elsewhere.
pub open spec fn hyphenated_uuid_text(s: Seq<char>) -> bool {
    &&& s.len() == 36
    &&& forall|i: int|
        0 <= i < 36 ==> if i == 8 || i == 13 || i == 18 || i == 23 {
            s[i] == '-'
        } else {
            lower_hex_digit(s[i])
        }
}

/// Calls `uuid::Uuid::new_v4`. Nothing is claimed of the value: it is random.
#[verifier::external_body]
fn random_uuid() -> (res: uuid::Uuid) {
    uuid::Uuid::new_v4()
}

/// Calls `ToString` on a `uuid::Uuid`, whose `Display` writes the hyphenated
/// lower-case form. Claimed: the text has that form (`hyphenated_uuid_text`);
/// which digits it holds is not stated.
#[verifier::external_body]
fn uuid_text(u: &uuid::Uuid) -> (res: String)
    ensures
        hyphenated_uuid_text(res@),
{
    u.to_string()
}

/// A task template stored locally.
#[derive(Clone, Debug)]
pub struct TaskTemplate {
    pub id: String,
    pub title: String,
    pub description: Option<String>,
    pub horizon: TimeHorizon,
    pub block: Option<DaytimeBlock>,
    pub priority: Option<i32>,
    /// For weekly tasks: which day(s) of the week; for monthly/annual: preferred
    /// days, or none for "any day".
    pub days: Vec<Weekday>,
    /// Whether this template is active.
    pub active: bool,
    /// Created timestamp (RFC 3339).
    pub created_at: String,
}

/// The weekday names of a template's days, in order.
pub open spec fn short_names(days: Seq<Weekday>) -> Seq<Seq<char>> {
    days.map_values(|d: Weekday| weekday_short_name(d))
}

/// How a template's days are shown: "Any day" when there are none, else the
/// three-letter names joined by ", ".
pub open spec fn days_text(days: Seq<Weekday>) -> Seq<char> {
    if days.len() == 0 {
        "Any day"@
    } else {
        join_with(short_names(days), ", "@)
    }
}

/// One edit of a template, as the edit command gives it.
#[derive(Clone, Debug)]
pub struct TemplateEdit {
    pub title: Option<String>,
    /// Replacement days, as a comma-separated list.
    pub days: Option<String>,
    /// Replacement block name; a name that is no block clears the block.
    pub block: Option<String>,
    pub priority: Option<i32>,
    pub toggle_active: bool,
}

/// The template after an edit.
pub open spec fn edited(t: TaskTemplate, e: TemplateEdit, after: TaskTemplate) -> bool {
    &&& after.id == t.id
    &&& after.description == t.description
    &&& after.horizon == t.horizon
    &&& after.created_at == t.created_at
    &&& after.title@ == (match e.title {
        Some(x) => x@,
        None => t.title@,
    })
    &&& after.days@ == (match e.days {
        Some(d) => weekdays_of_pieces(split_on(d@, ',')),
        None => t.days@,
    })
    &&& after.block == (match e.block {
        Some(b) => crate::models::block_from_text(b@),
        None => t.block,
    })
    &&& after.priority == (match e.priority {
        Some(p) => Some(p),
        None => t.priority,
    })
    &&& after.active == (t.active != e.toggle_active)
}

impl TaskTemplate {
    /// A new active template with a fresh 8-character id (the first characters
    /// of a random UUID) and the current time as creation time.
    pub fn new(
        title: String,
        horizon: TimeHorizon,
        block: Option<DaytimeBlock>,
        days: Vec<Weekday>,
    ) -> (res: TaskTemplate)
        ensures
            res.id@.len() == 8,
            forall|i: int| 0 <= i < 8 ==> lower_hex_digit(#[trigger] res.id@[i]),
            res.title == title,
            res.description is None,
            res.horizon == horizon,
            res.block == block,
            res.priority is None,
            res.days == days,
            res.active,
    {
        let u = random_uuid();
        let text = uuid_text(&u);
        let cs = chars_of(text.as_str());
        let mut short: Vec<char> = Vec::new();
        let mut i: usize = 0;
        while i < 8
            invariant
                cs@ == text@,
                hyphenated_uuid_text(text@),
                i <= 8,
                short@ == cs@.subrange(0, i as int),
            decreases 8 - i,
        {
            short.push(cs[i]);
            i = i + 1;
        }
        let id = string_from_chars(&short);
        assert forall|k: int| 0 <= k < 8 implies lower_hex_digit(#[trigger] id@[k]) by {
            assert(id@[k] == text@[k]);
        }
        TaskTemplate {
            id,
            title,
            description: None,
            horizon,
            block,
            priority: None,
            days,
            active: true,
            created_at: utc_now_rfc3339(),
        }
    }

    /// The days of the template as text.
    pub fn days_display(&self) -> (res: String)
        ensures
            res@ == days_text(self.days@),
    {
        if self.days.len() == 0 {
            return String::from_str("Any day");
        }
        let mut names: Vec<String> = Vec::new();
        let mut i: usize = 0;
        while i < self.days.len()
            invariant
                i <= self.days@.len(),
                names@.len() == i,
                forall|j: int| 0 <= j < i ==> (#[trigger] names@[j])@ == weekday_short_name(self.days@[j]),
            decreases self.days.len() - i,
        {
            let name = String::from_str(weekday_short(self.days[i]));
            names.push(name);
            i = i + 1;
        }
        assert(string_views(names@) =~= short_names(self.days@));
        join_strings(&names, ", ")
    }

    /// Applies an edit: replaces what it gives and flips `active` when asked.
    pub fn apply_edit(&mut self, edit: TemplateEdit)
        ensures
            edited(*old(self), edit, *final(self)),
    {
        let ghost e = edit;
        let TemplateEdit { title, days, block, priority, toggle_active } = edit;
        match title {
            Some(t) => {
                self.title = t;
            },
            None => {},
        }
        match days {
            Some(d) => {
                self.days = parse_weekdays(d.as_str());
            },
            None => {},
        }
        match block {
            Some(b) => {
                self.block = DaytimeBlock::from_str(b.as_str());
            },
            None => {},
        }
        match priority {
            Some(p) => {
                self.priority = Some(p);
            },
            None => {},
        }
        if toggle_active {
            self.active = !self.active;
        }
    }
}

} // verus!

verus! {

// ---------------------------------------------------------------------------
// Template store
// ---------------------------------------------------------------------------

/// Which templates were generated for one date ("YYYY-MM-DD").
#[derive(Clone, Debug)]
pub struct GenerationRecord {
    pub date: String,
    pub template_ids: Vec<String>,
}

/// All templates stored locally.
#[derive(Clone, Debug)]
pub struct TemplateStore {
    pub annual: Vec<TaskTemplate>,
    pub monthly: Vec<TaskTemplate>,
    pub weekly: Vec<TaskTemplate>,
    /// Which templates were generated for which dates.
    pub generation_history: Vec<GenerationRecord>,
}

impl Default for TemplateStore {
    fn default() -> (res: Self)
        ensures
            res.annual@.len() == 0,
            res.monthly@.len() == 0,
            res.weekly@.len() == 0,
            res.generation_history@.len() == 0,
            dates_unique(history_view(res.generation_history@)),
    {
        TemplateStore {
            annual: Vec::new(),
            monthly: Vec::new(),
            weekly: Vec::new(),
            generation_history: Vec::new(),
        }
    }
}

/// The templates of a store: annual, then monthly, then weekly.
pub open spec fn all_templates(s: TemplateStore) -> Seq<TaskTemplate> {
    s.annual@ + s.monthly@ + s.weekly@
}

/// The list of a store that holds templates of a horizon (daily ones go with the weekly).
pub open spec fn horizon_list(s: TemplateStore, h: TimeHorizon) -> Seq<TaskTemplate> {
    match h {
        TimeHorizon::Annual => s.annual@,
        TimeHorizon::Monthly => s.monthly@,
        TimeHorizon::Weekly | TimeHorizon::Daily => s.weekly@,
    }
}

/// Index of the first template with the id.
pub open spec fn first_with_id(ts: Seq<TaskTemplate>, id: Seq<char>) -> Option<int>
    decreases ts.len(),
{
    if ts.len() == 0 {
        None
    } else {
        match first_with_id(ts.drop_last(), id) {
            Some(i) => Some(i),
            None => if ts.last().id@ == id {
                Some(ts.len() - 1)
            } else {
                None
            },
        }
    }
}

/// Some template has the id.
pub open spec fn has_id(ts: Seq<TaskTemplate>, id: Seq<char>) -> bool {
    exists|j: int| 0 <= j < ts.len() && (#[trigger] ts[j]).id@ == id
}

/// The templates without those that have the id, in order.
pub open spec fn without_id(ts: Seq<TaskTemplate>, id: Seq<char>) -> Seq<TaskTemplate>
    decreases ts.len(),
{
    if ts.len() == 0 {
        ts
    } else {
        let prev = without_id(ts.drop_last(), id);
        if ts.last().id@ == id {
            prev
        } else {
            prev.push(ts.last())
        }
    }
}

/// A template is generated on a weekday: it is active and either names no
/// days ("any day") or names that day.
pub open spec fn applies_on(t: TaskTemplate, day: Weekday) -> bool {
    t.active && (t.days@.len() == 0 || t.days@.contains(day))
}

/// The templates that are generated on a weekday, in order.
pub open spec fn applying_on(ts: Seq<TaskTemplate>, day: Weekday) -> Seq<TaskTemplate>
    decreases ts.len(),
{
    if ts.len() == 0 {
        ts
    } else {
        let prev = applying_on(ts.drop_last(), day);
        if applies_on(ts.last(), day) {
            prev.push(ts.last())
        } else {
            prev
        }
    }
}

/// The active templates, in order.
pub open spec fn active_only(ts: Seq<TaskTemplate>) -> Seq<TaskTemplate>
    decreases ts.len(),
{
    if ts.len() == 0 {
        ts
    } else {
        let prev = active_only(ts.drop_last());
        if ts.last().active {
            prev.push(ts.last())
        } else {
            prev
        }
    }
}

/// The templates that references point to.
pub open spec fn derefs(rs: Seq<&TaskTemplate>) -> Seq<TaskTemplate> {
    rs.map_values(|r: &TaskTemplate| *r)
}

/// A generation record as plain values: the date key and the template ids.
pub open spec fn record_view(r: GenerationRecord) -> (Seq<char>, Seq<Seq<char>>) {
    (r.date@, string_views(r.template_ids@))
}

/// The generation history as plain values.
pub open spec fn history_view(h: Seq<GenerationRecord>) -> Seq<(Seq<char>, Seq<Seq<char>>)> {
    h.map_values(|r: GenerationRecord| record_view(r))
}

/// Index of the first record for a date key.
pub open spec fn record_index(h: Seq<(Seq<char>, Seq<Seq<char>>)>, key: Seq<char>) -> Option<int>
    decreases h.len(),
{
    if h.len() == 0 {
        None
    } else {
        match record_index(h.drop_last(), key) {
            Some(i) => Some(i),
            None => if h.last().0 == key {
                Some(h.len() - 1)
            } else {
                None
            },
        }
    }
}

/// The history records that the template was generated for the date key.
pub open spec fn generated_in(
    h: Seq<(Seq<char>, Seq<Seq<char>>)>,
    template_id: Seq<char>,
    key: Seq<char>,
) -> bool {
    match record_index(h, key) {
        Some(i) => h[i].1.contains(template_id),
        None => false,
    }
}

/// The history after recording one generation of a template for a date key.
pub open spec fn history_marked(
    h: Seq<(Seq<char>, Seq<Seq<char>>)>,
    template_id: Seq<char>,
    key: Seq<char>,
) -> Seq<(Seq<char>, Seq<Seq<char>>)> {
    match record_index(h, key) {
        Some(i) => h.update(i, (key, h[i].1.push(template_id))),
        None => h.push((key, seq![template_id])),
    }
}

/// The number of active templates.
pub open spec fn active_count(ts: Seq<TaskTemplate>) -> nat {
    active_only(ts).len()
}

pub proof fn lemma_first_with_id(ts: Seq<TaskTemplate>, id: Seq<char>)
    ensures
        first_with_id(ts, id) matches Some(i) ==> 0 <= i < ts.len() && ts[i].id@ == id && forall|
            j: int,
        |
            0 <= j < i ==> (#[trigger] ts[j]).id@ != id,
        first_with_id(ts, id) is None <==> !has_id(ts, id),
    decreases ts.len(),
{
    if ts.len() > 0 {
        lemma_first_with_id(ts.drop_last(), id);
        if first_with_id(ts.drop_last(), id) is None {
            if has_id(ts, id) {
                let j = choose|j: int| 0 <= j < ts.len() && (#[trigger] ts[j]).id@ == id;
                if j < ts.len() - 1 {
                    assert(ts.drop_last()[j] == ts[j]);
                }
            }
        } else {
            assert(has_id(ts.drop_last(), id));
            let j = choose|j: int|
                0 <= j < ts.drop_last().len() && (#[trigger] ts.drop_last()[j]).id@ == id;
            assert(ts[j] == ts.drop_last()[j]);
        }
        assert forall|j: int| 0 <= j < ts.len() - 1 implies ts.drop_last()[j] == ts[j] by {}
    }
}

pub proof fn lemma_first_prefix(ts: Seq<TaskTemplate>, id: Seq<char>, k: int)
    requires
        0 <= k <= ts.len(),
    ensures
        first_with_id(ts.subrange(0, k), id) matches Some(i) ==> first_with_id(ts, id) == Some(i),
    decreases ts.len(),
{
    if k < ts.len() {
        assert(ts.drop_last().subrange(0, k) =~= ts.subrange(0, k));
        lemma_first_prefix(ts.drop_last(), id, k);
    } else {
        assert(ts.subrange(0, k) =~= ts);
    }
}

pub proof fn lemma_record_index(h: Seq<(Seq<char>, Seq<Seq<char>>)>, key: Seq<char>)
    ensures
        record_index(h, key) matches Some(i) ==> 0 <= i < h.len() && h[i].0 == key && forall|
            j: int,
        |
            0 <= j < i ==> (#[trigger] h[j]).0 != key,
        record_index(h, key) is None ==> forall|j: int| 0 <= j < h.len() ==> (#[trigger] h[j]).0 != key,
    decreases h.len(),
{
    if h.len() > 0 {
        lemma_record_index(h.drop_last(), key);
        assert forall|j: int| 0 <= j < h.len() - 1 implies h.drop_last()[j] == h[j] by {}
    }
}

/// A record index is determined by the keys alone.
pub proof fn lemma_record_index_keys(
    h: Seq<(Seq<char>, Seq<Seq<char>>)>,
    g: Seq<(Seq<char>, Seq<Seq<char>>)>,
    key: Seq<char>,
)
    requires
        h.len() == g.len(),
        forall|j: int| 0 <= j < h.len() ==> (#[trigger] h[j]).0 == g[j].0,
    ensures
        record_index(h, key) == record_index(g, key),
    decreases h.len(),
{
    if h.len() > 0 {
        assert forall|j: int| 0 <= j < h.len() - 1 implies (#[trigger] h.drop_last()[j]).0
            == g.drop_last()[j].0 by {
            assert(h.drop_last()[j] == h[j]);
            assert(g.drop_last()[j] == g[j]);
        }
        lemma_record_index_keys(h.drop_last(), g.drop_last(), key);
    }
}

} // verus!

verus! {

/// Removes the templates with the id from a list; tells whether there was one.
fn remove_with_id(v: &mut Vec<TaskTemplate>, id: &str) -> (found: bool)
    ensures
        final(v)@ == without_id(old(v)@, id@),
        found == has_id(old(v)@, id@),
{
    let ghost orig = v@;
    let mut i: usize = 0;
    let ghost mut k: int = 0;
    let mut found = false;
    assert(orig.subrange(0, 0) =~= Seq::<TaskTemplate>::empty());
    assert(v@.subrange(0, v@.len() as int) =~= orig);
    while i < v.len()
        invariant
            0 <= i <= k <= orig.len(),
            v@.len() - i == orig.len() - k,
            v@.subrange(0, i as int) == without_id(orig.subrange(0, k), id@),
            v@.subrange(i as int, v@.len() as int) == orig.subrange(k, orig.len() as int),
            found == has_id(orig.subrange(0, k), id@),
        decreases v.len() - i,
    {
        let ghost pre = orig.subrange(0, k + 1);
        assert(pre.drop_last() =~= orig.subrange(0, k));
        assert(pre.last() == orig[k]);
        assert(v@[i as int] == orig[k]) by {
            assert(v@.subrange(i as int, v@.len() as int)[0] == v@[i as int]);
        }
        if str_equal(v[i].id.as_str(), id) {
            let ghost before = v@;
            v.remove(i);
            assert(v@.subrange(0, i as int) =~= before.subrange(0, i as int));
            assert(v@.subrange(i as int, v@.len() as int) =~= orig.subrange(k + 1, orig.len() as int))
                by {
                assert forall|j: int| 0 <= j < v@.len() - i implies v@.subrange(i as int, v@.len() as int)[j]
                    == orig.subrange(k + 1, orig.len() as int)[j] by {
                    assert(before.subrange(i as int, before.len() as int)[j + 1] == orig.subrange(k, orig.len() as int)[j + 1]);
                }
            }
            assert(has_id(pre, id@)) by {
                assert(pre[k].id@ == id@);
            }
            found = true;
        } else {
            assert(v@.subrange(0, i + 1) =~= v@.subrange(0, i as int).push(orig[k]));
            assert(v@.subrange(i + 1, v@.len() as int) =~= orig.subrange(k + 1, orig.len() as int))
                by {
                assert forall|j: int| 0 <= j < v@.len() - i - 1 implies #[trigger] v@.subrange(i + 1, v@.len() as int)[j]
                    == orig.subrange(k + 1, orig.len() as int)[j] by {
                    assert(v@.subrange(i as int, v@.len() as int)[j + 1] == orig.subrange(k, orig.len() as int)[j + 1]);
                }
            }
            assert(has_id(pre, id@) == has_id(orig.subrange(0, k), id@)) by {
                if has_id(pre, id@) {
                    let j = choose|j: int| 0 <= j < pre.len() && (#[trigger] pre[j]).id@ == id@;
                    assert(orig.subrange(0, k)[j] == pre[j]);
                }
                if has_id(orig.subrange(0, k), id@) {
                    let j = choose|j: int| 0 <= j < k && (#[trigger] orig.subrange(0, k)[j]).id@ == id@;
                    assert(pre[j] == orig.subrange(0, k)[j]);
                }
            }
            i = i + 1;
        }
        proof {
            k = k + 1;
        }
    }
    assert(orig.subrange(0, orig.len() as int) =~= orig);
    assert(v@.subrange(0, i as int) =~= v@);
    found
}

/// Counts the active templates of a list.
fn count_active(v: &Vec<TaskTemplate>) -> (res: usize)
    ensures
        res == active_count(v@),
{
    let mut n: usize = 0;
    let mut i: usize = 0;
    while i < v.len()
        invariant
            i <= v@.len(),
            n == active_count(v@.subrange(0, i as int)),
            n <= i,
        decreases v.len() - i,
    {
        assert(v@.subrange(0, i + 1).drop_last() =~= v@.subrange(0, i as int));
        if v[i].active {
            n = n + 1;
        }
        i = i + 1;
    }
    assert(v@.subrange(0, v@.len() as int) =~= v@);
    n
}

/// Appends to `out` the templates of `v` that are generated on `day`.
fn push_applying<'a>(out: &mut Vec<&'a TaskTemplate>, v: &'a Vec<TaskTemplate>, day: Weekday)
    ensures
        derefs(final(out)@) == derefs(old(out)@) + applying_on(v@, day),
{
    let ghost start = derefs(out@);
    let mut i: usize = 0;
    assert(start + applying_on(v@.subrange(0, 0), day) =~= start);
    while i < v.len()
        invariant
            i <= v@.len(),
            derefs(out@) == start + applying_on(v@.subrange(0, i as int), day),
        decreases v.len() - i,
    {
        assert(v@.subrange(0, i + 1).drop_last() =~= v@.subrange(0, i as int));
        let t = &v[i];
        let mut applies = false;
        if t.active {
            if t.days.len() == 0 {
                applies = true;
            } else {
                let mut j: usize = 0;
                while j < t.days.len()
                    invariant
                        j <= t.days@.len(),
                        applies == (exists|m: int| 0 <= m < j && t.days@[m] == day),
                    decreases t.days.len() - j,
                {
                    if t.days[j] == day {
                        applies = true;
                    }
                    j = j + 1;
                }
                assert(applies == t.days@.contains(day));
            }
        }
        let ghost before = out@;
        if applies {
            out.push(t);
            assert(derefs(out@) =~= derefs(before).push(*t));
        }
        i = i + 1;
    }
    assert(v@.subrange(0, v@.len() as int) =~= v@);
}

/// Appends to `out` the active templates of `v`.
fn push_active<'a>(out: &mut Vec<&'a TaskTemplate>, v: &'a Vec<TaskTemplate>)
    ensures
        derefs(final(out)@) == derefs(old(out)@) + active_only(v@),
{
    let ghost start = derefs(out@);
    let mut i: usize = 0;
    assert(start + active_only(v@.subrange(0, 0)) =~= start);
    while i < v.len()
        invariant
            i <= v@.len(),
            derefs(out@) == start + active_only(v@.subrange(0, i as int)),
        decreases v.len() - i,
    {
        assert(v@.subrange(0, i + 1).drop_last() =~= v@.subrange(0, i as int));
        let t = &v[i];
        let ghost before = out@;
        if t.active {
            out.push(t);
            assert(derefs(out@) =~= derefs(before).push(*t));
        }
        i = i + 1;
    }
    assert(v@.subrange(0, v@.len() as int) =~= v@);
}

/// Where a template sits in a store: which list, and the index in it.
#[derive(Clone, Copy, Debug, PartialEq, Eq, Structural)]
pub enum Slot {
    Annual(usize),
    Monthly(usize),
    Weekly(usize),
}

/// The position of a slot in `all_templates`.
pub open spec fn slot_position(s: TemplateStore, slot: Slot) -> int {
    match slot {
        Slot::Annual(i) => i as int,
        Slot::Monthly(i) => s.annual@.len() + i,
        Slot::Weekly(i) => s.annual@.len() + s.monthly@.len() + i,
    }
}

/// The slot lies inside its list.
pub open spec fn slot_valid(s: TemplateStore, slot: Slot) -> bool {
    match slot {
        Slot::Annual(i) => i < s.annual@.len(),
        Slot::Monthly(i) => i < s.monthly@.len(),
        Slot::Weekly(i) => i < s.weekly@.len(),
    }
}

/// Searches one list of the store, which sits at `offset` in `all`.
fn search_list(v: &Vec<TaskTemplate>, id: &str, Ghost(all): Ghost<Seq<TaskTemplate>>, Ghost(offset): Ghost<int>) -> (res: Option<usize>)
    requires
        0 <= offset,
        offset + v@.len() <= all.len(),
        all.subrange(offset, offset + v@.len()) == v@,
        first_with_id(all.subrange(0, offset), id@) is None,
    ensures
        match res {
            Some(i) => i < v@.len() && first_with_id(all, id@) == Some(offset + i),
            None => first_with_id(all.subrange(0, offset + v@.len()), id@) is None,
        },
{
    let mut i: usize = 0;
    while i < v.len()
        invariant
            0 <= offset,
            offset + v@.len() <= all.len(),
            all.subrange(offset, offset + v@.len()) == v@,
            i <= v@.len(),
            first_with_id(all.subrange(0, offset + i), id@) is None,
        decreases v.len() - i,
    {
        assert(all.subrange(0, offset + i + 1).drop_last() =~= all.subrange(0, offset + i));
        assert(all[offset + i] == v@[i as int]) by {
            assert(all.subrange(offset, offset + v@.len())[i as int] == all[offset + i]);
        }
        if str_equal(v[i].id.as_str(), id) {
            proof {
                lemma_first_prefix(all, id@, offset + i + 1);
            }
            return Some(i);
        }
        i = i + 1;
    }
    None
}

impl TemplateStore {
    /// The template in a slot.
    pub fn at(&self, slot: Slot) -> (res: &TaskTemplate)
        requires
            slot_valid(*self, slot),
        ensures
            *res == all_templates(*self)[slot_position(*self, slot)],
    {
        match slot {
            Slot::Annual(i) => &self.annual[i],
            Slot::Monthly(i) => &self.monthly[i],
            Slot::Weekly(i) => &self.weekly[i],
        }
    }

    /// The slot of the first template (annual, then monthly, then weekly) with the id.
    pub fn locate(&self, id: &str) -> (res: Option<Slot>)
        ensures
            match res {
                Some(slot) => slot_valid(*self, slot) && first_with_id(all_templates(*self), id@)
                    == Some(slot_position(*self, slot)),
                None => first_with_id(all_templates(*self), id@) is None,
            },
    {
        let ghost all = all_templates(*self);
        let ghost a = self.annual@.len() as int;
        let ghost m = self.monthly@.len() as int;
        assert(all.subrange(0, 0) =~= Seq::<TaskTemplate>::empty());
        assert(all.subrange(0, a) =~= self.annual@);
        match search_list(&self.annual, id, Ghost(all), Ghost(0)) {
            Some(i) => {
                return Some(Slot::Annual(i));
            },
            None => {},
        }
        assert(all.subrange(a, a + m) =~= self.monthly@);
        match search_list(&self.monthly, id, Ghost(all), Ghost(a)) {
            Some(i) => {
                return Some(Slot::Monthly(i));
            },
            None => {},
        }
        assert(all.subrange(a + m, all.len() as int) =~= self.weekly@);
        match search_list(&self.weekly, id, Ghost(all), Ghost(a + m)) {
            Some(i) => {
                return Some(Slot::Weekly(i));
            },
            None => {},
        }
        assert(all.subrange(0, all.len() as int) =~= all);
        None
    }
}

impl TemplateStore {
    /// The first template (annual, then monthly, then weekly) with the id.
    pub fn find(&self, id: &str) -> (res: Option<&TaskTemplate>)
        ensures
            match res {
                Some(t) => first_with_id(all_templates(*self), id@) matches Some(p) && *t
                    == all_templates(*self)[p],
                None => first_with_id(all_templates(*self), id@) is None,
            },
    {
        match self.locate(id) {
            Some(slot) => Some(self.at(slot)),
            None => None,
        }
    }

    /// The first template with the id, for editing in place.
    pub fn find_mut(&mut self, id: &str) -> (res: Option<&mut TaskTemplate>)
        ensures
            match res {
                Some(r) => first_with_id(all_templates(*old(self)), id@) matches Some(p) && *r
                    == all_templates(*old(self))[p] && replaced_at(*old(self), p, *final(r), *final(self)),
                None => first_with_id(all_templates(*old(self)), id@) is None && *final(self)
                    == *old(self),
            },
    {
        match self.locate(id) {
            Some(Slot::Annual(i)) => Some(&mut self.annual[i]),
            Some(Slot::Monthly(i)) => Some(&mut self.monthly[i]),
            Some(Slot::Weekly(i)) => Some(&mut self.weekly[i]),
            None => None,
        }
    }
}

impl TemplateStore {
    /// The list that holds templates of a horizon (daily ones are kept with the weekly).
    pub fn by_horizon(&self, horizon: TimeHorizon) -> (res: &[TaskTemplate])
        ensures
            res@ == horizon_list(*self, horizon),
    {
        match horizon {
            TimeHorizon::Annual => self.annual.as_slice(),
            TimeHorizon::Monthly => self.monthly.as_slice(),
            TimeHorizon::Weekly | TimeHorizon::Daily => self.weekly.as_slice(),
        }
    }

    /// Adds a template to the list of its horizon; returns its id.
    pub fn add(&mut self, template: TaskTemplate) -> (res: String)
        ensures
            res@ == template.id@,
            template_added(*old(self), template, *final(self)),
    {
        let id = template.id.clone();
        match template.horizon {
            TimeHorizon::Annual => self.annual.push(template),
            TimeHorizon::Monthly => self.monthly.push(template),
            TimeHorizon::Weekly | TimeHorizon::Daily => self.weekly.push(template),
        }
        id
    }

    /// Removes every template with the id; tells whether there was one.
    pub fn remove(&mut self, id: &str) -> (found: bool)
        ensures
            found == has_id(all_templates(*old(self)), id@),
            final(self).annual@ == without_id(old(self).annual@, id@),
            final(self).monthly@ == without_id(old(self).monthly@, id@),
            final(self).weekly@ == without_id(old(self).weekly@, id@),
            final(self).generation_history == old(self).generation_history,
    {
        let a = remove_with_id(&mut self.annual, id);
        let m = remove_with_id(&mut self.monthly, id);
        let w = remove_with_id(&mut self.weekly, id);
        proof {
            lemma_has_id_concat(old(self).annual@, old(self).monthly@, old(self).weekly@, id@);
        }
        a || m || w
    }

    /// The templates generated on a weekday: weekly ones, then monthly, then annual.
    pub fn templates_for_day(&self, day: Weekday) -> (res: Vec<&TaskTemplate>)
        ensures
            derefs(res@) == applying_on(self.weekly@, day) + applying_on(self.monthly@, day)
                + applying_on(self.annual@, day),
            forall|i: int|
                0 <= i < res@.len() ==> (#[trigger] res@[i]).active && (res@[i].days@.len() == 0
                    || res@[i].days@.contains(day)),
    {
        let mut res: Vec<&TaskTemplate> = Vec::new();
        assert(derefs(res@) =~= Seq::<TaskTemplate>::empty());
        push_applying(&mut res, &self.weekly, day);
        push_applying(&mut res, &self.monthly, day);
        push_applying(&mut res, &self.annual, day);
        proof {
            law_generated_templates_are_active(self.weekly@, day);
            law_generated_templates_are_active(self.monthly@, day);
            law_generated_templates_are_active(self.annual@, day);
            let w = applying_on(self.weekly@, day);
            let m = applying_on(self.monthly@, day);
            let a = applying_on(self.annual@, day);
            assert forall|i: int| 0 <= i < res@.len() implies (#[trigger] res@[i]).active && (
            res@[i].days@.len() == 0 || res@[i].days@.contains(day)) by {
                let t = *res@[i];
                assert(derefs(res@)[i] == t);
                assert((w + m + a).contains(t));
                crate::commands::lemma_contains_concat3(w, m, a, t);
            }
        }
        res
    }

    /// The active templates: annual, then monthly, then weekly.
    pub fn all_active(&self) -> (res: Vec<&TaskTemplate>)
        ensures
            derefs(res@) == active_only(self.annual@) + active_only(self.monthly@) + active_only(
                self.weekly@,
            ),
    {
        let mut res: Vec<&TaskTemplate> = Vec::new();
        assert(derefs(res@) =~= Seq::<TaskTemplate>::empty());
        push_active(&mut res, &self.annual);
        push_active(&mut res, &self.monthly);
        push_active(&mut res, &self.weekly);
        res
    }

    /// The numbers of active annual, monthly and weekly templates.
    pub fn counts(&self) -> (res: (usize, usize, usize))
        ensures
            res.0 == active_count(self.annual@),
            res.1 == active_count(self.monthly@),
            res.2 == active_count(self.weekly@),
    {
        (count_active(&self.annual), count_active(&self.monthly), count_active(&self.weekly))
    }

    /// Moves the templates of another store into this one (its generation
    /// history is not taken); returns how many were moved.
    pub fn import(&mut self, imported: TemplateStore) -> (res: usize)
        requires
            imported.annual@.len() + imported.monthly@.len() + imported.weekly@.len() <= usize::MAX,
        ensures
            res == imported.annual@.len() + imported.monthly@.len() + imported.weekly@.len(),
            final(self).annual@ == old(self).annual@ + imported.annual@,
            final(self).monthly@ == old(self).monthly@ + imported.monthly@,
            final(self).weekly@ == old(self).weekly@ + imported.weekly@,
            final(self).generation_history == old(self).generation_history,
    {
        let TemplateStore { annual, monthly, weekly, generation_history: _ } = imported;
        let mut annual = annual;
        let mut monthly = monthly;
        let mut weekly = weekly;
        let count = annual.len() + monthly.len() + weekly.len();
        self.annual.append(&mut annual);
        self.monthly.append(&mut monthly);
        self.weekly.append(&mut weekly);
        count
    }
}

/// Some template of three lists has the id exactly when one of the lists has one.
pub proof fn lemma_has_id_concat(
    a: Seq<TaskTemplate>,
    m: Seq<TaskTemplate>,
    w: Seq<TaskTemplate>,
    id: Seq<char>,
)
    ensures
        has_id(a + m + w, id) == (has_id(a, id) || has_id(m, id) || has_id(w, id)),
{
    let all = a + m + w;
    if has_id(all, id) {
        let j = choose|j: int| 0 <= j < all.len() && (#[trigger] all[j]).id@ == id;
        if j < a.len() {
            assert(a[j] == all[j]);
        } else if j < a.len() + m.len() {
            assert(m[j - a.len()] == all[j]);
        } else {
            assert(w[j - a.len() - m.len()] == all[j]);
        }
    }
    if has_id(a, id) {
        let j = choose|j: int| 0 <= j < a.len() && (#[trigger] a[j]).id@ == id;
        assert(all[j] == a[j]);
    }
    if has_id(m, id) {
        let j = choose|j: int| 0 <= j < m.len() && (#[trigger] m[j]).id@ == id;
        assert(all[a.len() + j] == m[j]);
    }
    if has_id(w, id) {
        let j = choose|j: int| 0 <= j < w.len() && (#[trigger] w[j]).id@ == id;
        assert(all[a.len() + m.len() + j] == w[j]);
    }
}

/// `after` is `before` with the template at position `p` of `all_templates`
/// replaced by `t`, and nothing else changed.
pub open spec fn replaced_at(before: TemplateStore, p: int, t: TaskTemplate, after: TemplateStore) -> bool {
    &&& all_templates(after) =~= all_templates(before).update(p, t)
    &&& after.annual@.len() == before.annual@.len()
    &&& after.monthly@.len() == before.monthly@.len()
    &&& after.weekly@.len() == before.weekly@.len()
    &&& after.generation_history == before.generation_history
}

/// A lookup by id (`find`, and `find_mut` alike) gives the first template with
/// that id, annual templates first, then monthly, then weekly; it gives none
/// exactly when no template has the id.
pub proof fn law_find_is_first(s: TemplateStore, id: Seq<char>)
    ensures
        first_with_id(all_templates(s), id) matches Some(p) ==> {
            &&& 0 <= p < all_templates(s).len()
            &&& all_templates(s)[p].id@ == id
            &&& forall|q: int| 0 <= q < p ==> (#[trigger] all_templates(s)[q]).id@ != id
        },
        first_with_id(all_templates(s), id) is None <==> forall|t: TaskTemplate|
            #[trigger] all_templates(s).contains(t) ==> t.id@ != id,
{
    let all = all_templates(s);
    lemma_first_with_id(all, id);
    if first_with_id(all, id) is None {
        assert forall|t: TaskTemplate| #[trigger] all.contains(t) implies t.id@ != id by {
            let j = choose|j: int| 0 <= j < all.len() && all[j] == t;
            if t.id@ == id {
                assert(has_id(all, id));
            }
        }
    } else {
        let p = first_with_id(all, id)->0;
        assert(all.contains(all[p]));
    }
}

/// Taking a template for editing and writing nothing back leaves the store as it was.
pub proof fn law_find_mut_unwritten(before: TemplateStore, p: int, after: TemplateStore)
    requires
        0 <= p < all_templates(before).len(),
        replaced_at(before, p, all_templates(before)[p], after),
    ensures
        after.annual@ == before.annual@,
        after.monthly@ == before.monthly@,
        after.weekly@ == before.weekly@,
        after.generation_history == before.generation_history,
{
    let a = before.annual@.len() as int;
    let m = before.monthly@.len() as int;
    let all = all_templates(before);
    assert(all.update(p, all[p]) =~= all);
    let all2 = all_templates(after);
    assert(after.annual@ =~= all2.subrange(0, a));
    assert(before.annual@ =~= all.subrange(0, a));
    assert(after.monthly@ =~= all2.subrange(a, a + m));
    assert(before.monthly@ =~= all.subrange(a, a + m));
    assert(after.weekly@ =~= all2.subrange(a + m, all2.len() as int));
    assert(before.weekly@ =~= all.subrange(a + m, all.len() as int));
}

/// Position of the first record for a date key.
fn find_record(h: &Vec<GenerationRecord>, key: &str) -> (res: Option<usize>)
    ensures
        match res {
            Some(i) => record_index(history_view(h@), key@) == Some(i as int),
            None => record_index(history_view(h@), key@) is None,
        },
{
    let ghost hv = history_view(h@);
    let mut i: usize = 0;
    assert(hv.subrange(0, 0) =~= Seq::<(Seq<char>, Seq<Seq<char>>)>::empty());
    while i < h.len()
        invariant
            hv == history_view(h@),
            i <= h@.len(),
            record_index(hv.subrange(0, i as int), key@) is None,
        decreases h.len() - i,
    {
        assert(hv.subrange(0, i + 1).drop_last() =~= hv.subrange(0, i as int));
        if str_equal(h[i].date.as_str(), key) {
            proof {
                lemma_record_prefix(hv, key@, i + 1);
            }
            return Some(i);
        }
        i = i + 1;
    }
    assert(hv.subrange(0, h@.len() as int) =~= hv);
    None
}

pub proof fn lemma_record_prefix(h: Seq<(Seq<char>, Seq<Seq<char>>)>, key: Seq<char>, k: int)
    requires
        0 <= k <= h.len(),
    ensures
        record_index(h.subrange(0, k), key) matches Some(i) ==> record_index(h, key) == Some(i),
    decreases h.len(),
{
    if k < h.len() {
        assert(h.drop_last().subrange(0, k) =~= h.subrange(0, k));
        lemma_record_prefix(h.drop_last(), key, k);
    } else {
        assert(h.subrange(0, k) =~= h);
    }
}

impl TemplateStore {
    /// Whether the template was already generated for the date.
    pub fn was_generated(&self, template_id: &str, date: &Date) -> (res: bool)
        ensures
            res == generated_in(
                history_view(self.generation_history@),
                template_id@,
                iso_date_text(date@),
            ),
    {
        let key = date.to_iso_string();
        self.generated_for_key(template_id, key.as_str())
    }

    /// Whether the template was already generated for the date written as `key`.
    pub fn generated_for_key(&self, template_id: &str, key: &str) -> (res: bool)
        ensures
            res == generated_in(history_view(self.generation_history@), template_id@, key@),
    {
        match find_record(&self.generation_history, key) {
            Some(i) => {
                proof {
                    lemma_record_index(history_view(self.generation_history@), key@);
                }
                contains_string(&self.generation_history[i].template_ids, template_id)
            },
            None => false,
        }
    }

    /// Records that the template was generated for the date.
    pub fn mark_generated(&mut self, template_id: &str, date: &Date)
        ensures
            history_view(final(self).generation_history@) == history_marked(
                history_view(old(self).generation_history@),
                template_id@,
                iso_date_text(date@),
            ),
            final(self).annual == old(self).annual,
            final(self).monthly == old(self).monthly,
            final(self).weekly == old(self).weekly,
            dates_unique(history_view(old(self).generation_history@)) ==> dates_unique(
                history_view(final(self).generation_history@),
            ),
            forall|m: int, other_id: Seq<char>|
                day_in_range(m) && m != date@ ==> #[trigger] generated_in(
                    history_view(final(self).generation_history@),
                    other_id,
                    iso_date_text(m),
                ) == generated_in(history_view(old(self).generation_history@), other_id, iso_date_text(m)),
    {
        let key = date.to_iso_string();
        self.mark_generated_for_key(template_id, key.as_str());
        proof {
            if dates_unique(history_view(old(self).generation_history@)) {
                law_marking_keeps_dates_unique(
                    history_view(old(self).generation_history@),
                    template_id@,
                    key@,
                );
            }
            assert forall|m: int, other_id: Seq<char>|
                day_in_range(m) && m != date@ implies #[trigger] generated_in(
                    history_view(self.generation_history@),
                    other_id,
                    iso_date_text(m),
                ) == generated_in(history_view(old(self).generation_history@), other_id, iso_date_text(m)) by {
                assert(iso_date_text(m) != key@);
                law_mark_frame(
                    history_view(old(self).generation_history@),
                    template_id@,
                    key@,
                    other_id,
                    iso_date_text(m),
                );
            }
        }
    }

    /// Records that the template was generated for the date written as `key`.
    pub fn mark_generated_for_key(&mut self, template_id: &str, key: &str)
        ensures
            history_view(final(self).generation_history@) == history_marked(
                history_view(old(self).generation_history@),
                template_id@,
                key@,
            ),
            final(self).annual == old(self).annual,
            final(self).monthly == old(self).monthly,
            final(self).weekly == old(self).weekly,
            dates_unique(history_view(old(self).generation_history@)) ==> dates_unique(
                history_view(final(self).generation_history@),
            ),
    {
        let ghost hv = history_view(self.generation_history@);
        proof {
            if dates_unique(hv) {
                law_marking_keeps_dates_unique(hv, template_id@, key@);
            }
        }
        proof {
            lemma_record_index(hv, key@);
        }
        match find_record(&self.generation_history, key) {
            Some(i) => {
                let ghost before = self.generation_history@;
                let id = String::from_str(template_id);
                self.generation_history[i].template_ids.push(id);
                assert(history_view(self.generation_history@) =~= hv.update(
                    i as int,
                    (key@, hv[i as int].1.push(template_id@)),
                )) by {
                    assert(string_views(self.generation_history@[i as int].template_ids@)
                        =~= string_views(before[i as int].template_ids@).push(template_id@));
                }
            },
            None => {
                let mut ids: Vec<String> = Vec::new();
                ids.push(String::from_str(template_id));
                self.generation_history.push(GenerationRecord { date: String::from_str(key), template_ids: ids });
                assert(history_view(self.generation_history@) =~= hv.push(
                    (key@, seq![template_id@]),
                )) by {
                    assert(string_views(ids@) =~= seq![template_id@]);
                }
            },
        }
    }
}

/// `after` is `before` with `t` added to the list of its horizon.
pub open spec fn template_added(before: TemplateStore, t: TaskTemplate, after: TemplateStore) -> bool {
    &&& after.annual@ == (if t.horizon == TimeHorizon::Annual {
        before.annual@.push(t)
    } else {
        before.annual@
    })
    &&& after.monthly@ == (if t.horizon == TimeHorizon::Monthly {
        before.monthly@.push(t)
    } else {
        before.monthly@
    })
    &&& after.weekly@ == (if t.horizon == TimeHorizon::Weekly || t.horizon == TimeHorizon::Daily {
        before.weekly@.push(t)
    } else {
        before.weekly@
    })
    &&& after.generation_history == before.generation_history
}

/// `after` is `before` without the templates that have the id.
pub open spec fn template_removed(before: TemplateStore, id: Seq<char>, after: TemplateStore) -> bool {
    &&& after.annual@ == without_id(before.annual@, id)
    &&& after.monthly@ == without_id(before.monthly@, id)
    &&& after.weekly@ == without_id(before.weekly@, id)
    &&& after.generation_history == before.generation_history
}

pub proof fn lemma_without_id_concat(x: Seq<TaskTemplate>, y: Seq<TaskTemplate>, id: Seq<char>)
    ensures
        without_id(x + y, id) == without_id(x, id) + without_id(y, id),
    decreases y.len(),
{
    if y.len() == 0 {
        assert(x + y =~= x);
        assert(without_id(x, id) + without_id(y, id) =~= without_id(x, id));
    } else {
        assert((x + y).drop_last() =~= x + y.drop_last());
        lemma_without_id_concat(x, y.drop_last(), id);
        if y.last().id@ != id {
            assert(without_id(x, id) + without_id(y.drop_last(), id).push(y.last())
                =~= (without_id(x, id) + without_id(y.drop_last(), id)).push(y.last()));
        }
    }
}

pub proof fn lemma_without_id_has_none(ts: Seq<TaskTemplate>, id: Seq<char>)
    ensures
        !has_id(without_id(ts, id), id),
        forall|t: TaskTemplate| #[trigger] without_id(ts, id).contains(t) <==> ts.contains(t) && t.id@ != id,
    decreases ts.len(),
{
    if ts.len() > 0 {
        let d = ts.drop_last();
        lemma_without_id_has_none(d, id);
        let prev = without_id(d, id);
        let res = without_id(ts, id);
        assert forall|t: TaskTemplate| #[trigger] res.contains(t) <==> ts.contains(t) && t.id@ != id by {
            assert(prev.contains(t) <==> d.contains(t) && t.id@ != id);
            if ts.contains(t) && t.id@ != id {
                let j = choose|j: int| 0 <= j < ts.len() && ts[j] == t;
                if j < ts.len() - 1 {
                    assert(d[j] == t);
                    assert(d.contains(t));
                    let k = choose|k: int| 0 <= k < prev.len() && prev[k] == t;
                    assert(res[k] == t);
                } else {
                    assert(res == prev.push(t));
                    assert(res[prev.len() as int] == t);
                }
            }
            if res.contains(t) {
                let j = choose|j: int| 0 <= j < res.len() && res[j] == t;
                if j < prev.len() {
                    assert(prev[j] == t);
                    assert(prev.contains(t));
                    let k = choose|k: int| 0 <= k < d.len() && d[k] == t;
                    assert(ts[k] == t);
                } else {
                    assert(t == ts.last());
                    assert(ts[ts.len() - 1] == t);
                }
            }
        }
        if has_id(res, id) {
            let j = choose|j: int| 0 <= j < res.len() && (#[trigger] res[j]).id@ == id;
            assert(res.contains(res[j]));
        }
    }
}

/// What was added is found again: after adding a template, looking its id up
/// finds a template with that id, and finds the added template itself when no
/// template had that id before.
pub proof fn law_find_after_add(before: TemplateStore, t: TaskTemplate, after: TemplateStore)
    requires
        template_added(before, t, after),
    ensures
        first_with_id(all_templates(after), t.id@) matches Some(p) && all_templates(after)[p].id@
            == t.id@,
        !has_id(all_templates(before), t.id@) ==> (first_with_id(all_templates(after), t.id@)
            matches Some(p) && all_templates(after)[p] == t),
{
    let all_b = all_templates(before);
    let all_a = all_templates(after);
    lemma_first_with_id(all_a, t.id@);
    lemma_first_with_id(all_b, t.id@);
    let pos: int = if t.horizon == TimeHorizon::Annual {
        before.annual@.len() as int
    } else if t.horizon == TimeHorizon::Monthly {
        (before.annual@.len() + before.monthly@.len()) as int
    } else {
        all_b.len() as int
    };
    assert(all_a[pos] == t);
    assert(has_id(all_a, t.id@));
    if !has_id(all_b, t.id@) {
        let p = first_with_id(all_a, t.id@)->0;
        if p != pos {
            // every other template of `after` comes from `before`
            if t.horizon == TimeHorizon::Annual {
                if p < pos {
                    assert(all_a[p] == all_b[p]);
                } else {
                    assert(all_a[p] == all_b[p - 1]);
                }
            } else if t.horizon == TimeHorizon::Monthly {
                if p < pos {
                    assert(all_a[p] == all_b[p]);
                } else {
                    assert(all_a[p] == all_b[p - 1]);
                }
            } else {
                assert(all_a[p] == all_b[p]);
            }
        }
    }
}

/// Removal leaves no template with the id, keeps every other template, and
/// reports a removal exactly when there was a template with the id.
pub proof fn law_find_after_remove(before: TemplateStore, id: Seq<char>, after: TemplateStore)
    requires
        template_removed(before, id, after),
    ensures
        first_with_id(all_templates(after), id) is None,
        all_templates(after) == without_id(all_templates(before), id),
        forall|t: TaskTemplate|
            #[trigger] all_templates(after).contains(t) <==> all_templates(before).contains(t)
                && t.id@ != id,
{
    lemma_without_id_concat(before.annual@, before.monthly@, id);
    lemma_without_id_concat(before.annual@ + before.monthly@, before.weekly@, id);
    lemma_without_id_has_none(all_templates(before), id);
    lemma_first_with_id(all_templates(after), id);
}

/// The history after a generation is recorded holds that generation.
pub proof fn law_generated_after_mark(
    h: Seq<(Seq<char>, Seq<Seq<char>>)>,
    template_id: Seq<char>,
    key: Seq<char>,
)
    ensures
        generated_in(history_marked(h, template_id, key), template_id, key),
{
    lemma_record_index(h, key);
    let after = history_marked(h, template_id, key);
    match record_index(h, key) {
        Some(i) => {
            lemma_record_index_keys(h, after, key);
            assert(after[i].1 == h[i].1.push(template_id));
            assert(after[i].1[h[i].1.len() as int] == template_id);
        },
        None => {
            assert(after.drop_last() =~= h);
            assert(after[h.len() as int].1 =~= seq![template_id]);
            assert(after[h.len() as int].1[0] == template_id);
        },
    }
}

/// No two records of a history are for the same date key (the history maps each
/// date to the templates generated for it).
pub open spec fn dates_unique(h: Seq<(Seq<char>, Seq<Seq<char>>)>) -> bool {
    forall|i: int, j: int| 0 <= i < j < h.len() ==> (#[trigger] h[i]).0 != (#[trigger] h[j]).0
}

/// Recording a generation keeps one record per date.
pub proof fn law_marking_keeps_dates_unique(
    h: Seq<(Seq<char>, Seq<Seq<char>>)>,
    template_id: Seq<char>,
    key: Seq<char>,
)
    requires
        dates_unique(h),
    ensures
        dates_unique(history_marked(h, template_id, key)),
{
    lemma_record_index(h, key);
    let after = history_marked(h, template_id, key);
    match record_index(h, key) {
        Some(k) => {
            assert forall|i: int, j: int| 0 <= i < j < after.len() implies (#[trigger] after[i]).0
                != (#[trigger] after[j]).0 by {
                assert(after[i].0 == h[i].0);
                assert(after[j].0 == h[j].0);
            }
        },
        None => {
            assert forall|i: int, j: int| 0 <= i < j < after.len() implies (#[trigger] after[i]).0
                != (#[trigger] after[j]).0 by {
                assert(after[i] == h[i]);
                if j < h.len() {
                    assert(after[j] == h[j]);
                }
            }
        },
    }
}

/// Recording a generation changes nothing about other templates or other dates.
pub proof fn law_mark_frame(
    h: Seq<(Seq<char>, Seq<Seq<char>>)>,
    template_id: Seq<char>,
    key: Seq<char>,
    other_id: Seq<char>,
    other_key: Seq<char>,
)
    requires
        other_id != template_id || other_key != key,
    ensures
        generated_in(history_marked(h, template_id, key), other_id, other_key) == generated_in(
            h,
            other_id,
            other_key,
        ),
{
    lemma_record_index(h, key);
    lemma_record_index(h, other_key);
    let after = history_marked(h, template_id, key);
    match record_index(h, key) {
        Some(i) => {
            lemma_record_index_keys(h, after, other_key);
            if record_index(h, other_key) == Some(i) {
                assert(other_key == key);
                let ids = h[i].1;
                assert(after[i].1 == ids.push(template_id));
                if ids.push(template_id).contains(other_id) {
                    let j = choose|j: int| 0 <= j < ids.push(template_id).len() && ids.push(template_id)[j] == other_id;
                    assert(j < ids.len());
                    assert(ids[j] == other_id);
                }
                if ids.contains(other_id) {
                    let j = choose|j: int| 0 <= j < ids.len() && ids[j] == other_id;
                    assert(ids.push(template_id)[j] == other_id);
                }
            }
        },
        None => {
            assert(after.drop_last() =~= h);
            if other_key != key {
                assert(record_index(after, other_key) == record_index(h, other_key));
            } else {
                assert(record_index(after, other_key) == Some(h.len() as int));
                assert(after[h.len() as int].1 =~= seq![template_id]);
                if seq![template_id].contains(other_id) {
                    let j = choose|j: int| 0 <= j < 1 && seq![template_id][j] == other_id;
                }
            }
        },
    }
}

/// A deactivated template is never generated: a template is generated on a
/// weekday exactly when it is in the list, active, and either has no days or
/// lists that weekday.
pub proof fn law_generated_templates_are_active(ts: Seq<TaskTemplate>, day: Weekday)
    ensures
        forall|t: TaskTemplate|
            #[trigger] applying_on(ts, day).contains(t) <==> ts.contains(t) && t.active && (
            t.days@.len() == 0 || t.days@.contains(day)),
{
    law_applying_on(ts, day);
}

/// Each template that a weekday gets is active and meant for that day, and every
/// such template of the list is among them.
pub proof fn law_applying_on(ts: Seq<TaskTemplate>, day: Weekday)
    ensures
        forall|t: TaskTemplate|
            #[trigger] applying_on(ts, day).contains(t) <==> ts.contains(t) && applies_on(t, day),
    decreases ts.len(),
{
    if ts.len() > 0 {
        let d = ts.drop_last();
        law_applying_on(d, day);
        let prev = applying_on(d, day);
        let res = applying_on(ts, day);
        assert forall|t: TaskTemplate| #[trigger] res.contains(t) <==> ts.contains(t) && applies_on(t, day) by {
            assert(prev.contains(t) <==> d.contains(t) && applies_on(t, day));
            if ts.contains(t) && applies_on(t, day) {
                let j = choose|j: int| 0 <= j < ts.len() && ts[j] == t;
                if j < ts.len() - 1 {
                    assert(d[j] == t);
                    assert(d.contains(t));
                    let k = choose|k: int| 0 <= k < prev.len() && prev[k] == t;
                    assert(res[k] == t);
                } else {
                    assert(res == prev.push(t));
                    assert(res[prev.len() as int] == t);
                }
            }
            if res.contains(t) {
                let j = choose|j: int| 0 <= j < res.len() && res[j] == t;
                if j < prev.len() {
                    assert(prev[j] == t);
                    assert(prev.contains(t));
                    let k = choose|k: int| 0 <= k < d.len() && d[k] == t;
                    assert(ts[k] == t);
                } else {
                    assert(t == ts.last());
                    assert(ts[ts.len() - 1] == t);
                }
            }
        }
    }
}

/// The template counts add up to the number of active templates.
pub proof fn law_counts_match_active(s: TemplateStore)
    ensures
        active_count(s.annual@) + active_count(s.monthly@) + active_count(s.weekly@) == (
        active_only(s.annual@) + active_only(s.monthly@) + active_only(s.weekly@)).len(),
{
}

/// The names that the library writes for a weekday read back as that weekday:
/// its three-letter name (used in template day lists) and its project name.
pub proof fn law_weekday_names_parse(d: Weekday)
    ensures
        weekday_from_text(weekday_short_name(d)) == Some(d),
        weekday_from_text(weekday_project_name(d)) == Some(d),
{
    reveal_strlit("mon");
    reveal_strlit("monday");
    reveal_strlit("poniedziałek");
    reveal_strlit("poniedzialek");
    reveal_strlit("tue");
    reveal_strlit("tuesday");
    reveal_strlit("wtorek");
    reveal_strlit("wed");
    reveal_strlit("wednesday");
    reveal_strlit("środa");
    reveal_strlit("sroda");
    reveal_strlit("thu");
    reveal_strlit("thursday");
    reveal_strlit("czwartek");
    reveal_strlit("fri");
    reveal_strlit("friday");
    reveal_strlit("piątek");
    reveal_strlit("piatek");
    reveal_strlit("sat");
    reveal_strlit("saturday");
    reveal_strlit("sobota");
    reveal_strlit("sun");
    reveal_strlit("sunday");
    reveal_strlit("niedziela");
    reveal_strlit("Mon");
    reveal_strlit("Tue");
    reveal_strlit("Wed");
    reveal_strlit("Thu");
    reveal_strlit("Fri");
    reveal_strlit("Sat");
    reveal_strlit("Sun");
    reveal_strlit("Monday");
    reveal_strlit("Tuesday");
    reveal_strlit("Wednesday");
    reveal_strlit("Thursday");
    reveal_strlit("Friday");
    reveal_strlit("Saturday");
    reveal_strlit("Sunday");
    match d {
        Weekday::Mon => {
            assert(ascii_lower_seq("Mon"@) =~= "mon"@);
            assert(ascii_lower_seq("Monday"@) =~= "monday"@);
        },
        Weekday::Tue => {
            assert(ascii_lower_seq("Tue"@) =~= "tue"@);
            assert(ascii_lower_seq("Tuesday"@) =~= "tuesday"@);
            assert("tue"@[0] != "mon"@[0]);
        },
        Weekday::Wed => {
            assert(ascii_lower_seq("Wed"@) =~= "wed"@);
            assert(ascii_lower_seq("Wednesday"@) =~= "wednesday"@);
            assert("wed"@[0] != "mon"@[0]);
            assert("wed"@[0] != "tue"@[0]);
        },
        Weekday::Thu => {
            assert(ascii_lower_seq("Thu"@) =~= "thu"@);
            assert(ascii_lower_seq("Thursday"@) =~= "thursday"@);
            assert("thu"@[0] != "mon"@[0]);
            assert("thu"@[1] != "tue"@[1]);
            assert("thu"@[0] != "wed"@[0]);
        },
        Weekday::Fri => {
            assert(ascii_lower_seq("Fri"@) =~= "fri"@);
            assert(ascii_lower_seq("Friday"@) =~= "friday"@);
            assert("fri"@[0] != "mon"@[0]);
            assert("fri"@[0] != "tue"@[0]);
            assert("fri"@[0] != "wed"@[0]);
            assert("fri"@[0] != "thu"@[0]);
            assert("friday"@[0] != "monday"@[0]);
            assert("friday"@[0] != "wtorek"@[0]);
        },
        Weekday::Sat => {
            assert(ascii_lower_seq("Sat"@) =~= "sat"@);
            assert(ascii_lower_seq("Saturday"@) =~= "saturday"@);
            assert("sat"@[0] != "mon"@[0]);
            assert("sat"@[0] != "tue"@[0]);
            assert("sat"@[0] != "wed"@[0]);
            assert("sat"@[0] != "thu"@[0]);
            assert("sat"@[0] != "fri"@[0]);
            assert("saturday"@[0] != "thursday"@[0]);
            assert("saturday"@[0] != "czwartek"@[0]);
        },
        Weekday::Sun => {
            assert(ascii_lower_seq("Sun"@) =~= "sun"@);
            assert(ascii_lower_seq("Sunday"@) =~= "sunday"@);
            assert("sun"@[0] != "mon"@[0]);
            assert("sun"@[0] != "tue"@[0]);
            assert("sun"@[0] != "wed"@[0]);
            assert("sun"@[0] != "thu"@[0]);
            assert("sun"@[0] != "fri"@[0]);
            assert("sun"@[1] != "sat"@[1]);
            assert("sunday"@[0] != "monday"@[0]);
            assert("sunday"@[0] != "wtorek"@[0]);
            assert("sunday"@[0] != "friday"@[0]);
            assert("sunday"@[0] != "piątek"@[0]);
            assert("sunday"@[0] != "piatek"@[0]);
            assert("sunday"@[1] != "sobota"@[1]);
        },
    }
}

} // verus!

verus! {

/// A three-letter day name neither starts nor ends with whitespace, and holds no comma.
proof fn lemma_short_name_shape(d: Weekday)
    ensures
        weekday_short_name(d).len() == 3,
        !unicode_whitespace(weekday_short_name(d)[0]),
        !unicode_whitespace(weekday_short_name(d)[2]),
        free_of(weekday_short_name(d), ','),
{
    reveal_strlit("Mon");
    reveal_strlit("Tue");
    reveal_strlit("Wed");
    reveal_strlit("Thu");
    reveal_strlit("Fri");
    reveal_strlit("Sat");
    reveal_strlit("Sun");
    let w = weekday_short_name(d);
    assert forall|i: int| 0 <= i < w.len() implies w[i] != ',' by {
        assert(w[i] != ',');
    }
}

/// The pieces of a day list whose first name stands alone and whose later names
/// are preceded by `pad`.
pub open spec fn padded_names(days: Seq<Weekday>, pad: Seq<char>) -> Seq<Seq<char>> {
    Seq::new(
        days.len(),
        |i: int|
            if i == 0 {
                weekday_short_name(days[0])
            } else {
                pad + weekday_short_name(days[i])
            },
    )
}

proof fn lemma_padded_names_read_back(days: Seq<Weekday>, pad: Seq<char>)
    requires
        days.len() > 0,
        forall|i: int| 0 <= i < pad.len() ==> unicode_whitespace(#[trigger] pad[i]),
    ensures
        weekdays_of_pieces(padded_names(days, pad)) == days,
    decreases days.len(),
{
    let pieces = padded_names(days, pad);
    let d = days.last();
    lemma_short_name_shape(d);
    law_weekday_names_parse(d);
    if days.len() == 1 {
        assert(pieces.drop_last() =~= Seq::<Seq<char>>::empty());
        lemma_trim_padded(Seq::<char>::empty(), weekday_short_name(d));
        assert(Seq::<char>::empty() + weekday_short_name(d) =~= weekday_short_name(d));
        assert(pieces.last() == weekday_short_name(d));
        assert(weekday_from_text(trim_spec(pieces.last())) == Some(d));
        assert(weekdays_of_pieces(pieces.drop_last()) =~= Seq::<Weekday>::empty());
        assert(weekdays_of_pieces(pieces) == Seq::<Weekday>::empty().push(d));
        assert(seq![d] =~= days);
    } else {
        lemma_padded_names_read_back(days.drop_last(), pad);
        assert(pieces.drop_last() =~= padded_names(days.drop_last(), pad));
        lemma_trim_padded(pad, weekday_short_name(d));
        assert(pieces.last() == pad + weekday_short_name(d));
        assert(weekday_from_text(trim_spec(pieces.last())) == Some(d));
        assert(weekdays_of_pieces(pieces) == days.drop_last().push(d));
        assert(days.drop_last().push(d) =~= days);
    }
}

/// A list of days written as three-letter names, separated by "," (as the day
/// picker writes it) or by ", " (as a template's days are shown), reads back as
/// the same days.
pub proof fn law_day_list_reads_back(days: Seq<Weekday>)
    requires
        days.len() > 0,
    ensures
        weekdays_of_pieces(split_on(join_with(short_names(days), ","@), ',')) == days,
        weekdays_of_pieces(split_on(days_text(days), ',')) == days,
{
    reveal_strlit(",");
    reveal_strlit(", ");
    reveal_strlit(" ");
    let names = short_names(days);
    assert forall|i: int| 0 <= i < names.len() implies free_of(#[trigger] names[i], ',') by {
        lemma_short_name_shape(days[i]);
    }
    let none = Seq::<char>::empty();
    assert(free_of(none, ','));
    assert(","@ =~= seq![','] + none);
    lemma_split_join(names, ',', none);
    assert(split_on(join_with(names, ","@), ',') =~= padded_names(days, none)) by {
        assert forall|i: int| 0 < i < days.len() implies none + names[i] == names[i] by {
            assert(none + names[i] =~= names[i]);
        }
    }
    lemma_padded_names_read_back(days, none);
    let space = " "@;
    assert(free_of(space, ','));
    assert(", "@ =~= seq![','] + space);
    assert(unicode_whitespace(space[0]));
    lemma_split_join(names, ',', space);
    assert(split_on(join_with(names, ", "@), ',') =~= padded_names(days, space));
    lemma_padded_names_read_back(days, space);
}

} // verus!

verus! {

/// The names the library writes for a weekday are plain ASCII.
proof fn lemma_weekday_names_ascii(d: Weekday)
    ensures
        all_ascii(weekday_short_name(d)),
        all_ascii(weekday_project_name(d)),
{
    reveal_strlit("Mon");
    reveal_strlit("Tue");
    reveal_strlit("Wed");
    reveal_strlit("Thu");
    reveal_strlit("Fri");
    reveal_strlit("Sat");
    reveal_strlit("Sun");
    reveal_strlit("Monday");
    reveal_strlit("Tuesday");
    reveal_strlit("Wednesday");
    reveal_strlit("Thursday");
    reveal_strlit("Friday");
    reveal_strlit("Saturday");
    reveal_strlit("Sunday");
}

/// Weekday names are read ignoring case: texts with the same lower-case form
/// name the same weekday, and a weekday's project name or three-letter name in
/// capitals (as well as as written) names that weekday.
pub proof fn law_weekday_names_any_case(d: Weekday, s: Seq<char>, t: Seq<char>)
    ensures
        lowercase(s) == lowercase(t) ==> weekday_from_text(s) == weekday_from_text(t),
        weekday_from_text(weekday_project_name(d)) == Some(d),
        weekday_from_text(ascii_upper_seq(weekday_project_name(d))) == Some(d),
        weekday_from_text(ascii_upper_seq(weekday_short_name(d))) == Some(d),
{
    law_weekday_names_parse(d);
    lemma_weekday_names_ascii(d);
    lemma_upper_then_lower(weekday_project_name(d));
    lemma_upper_then_lower(weekday_short_name(d));
}

} // verus!
