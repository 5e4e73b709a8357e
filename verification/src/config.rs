//! Configuration rules: where the configuration file lives, which API key
//! wins, what the setup wizard and `config set` store, and which Linear labels
//! still have to be created.

use vstd::prelude::*;
use vstd::string::*;
use crate::models::{
    AppConfig, DaytimeBlock, DaytimeBlockLabels, Label, TimeHorizon, TimeHorizonLabels,
    block_name, default_block_labels, default_horizon_labels, horizon_name,
};
use crate::text::{chars_of, contains_string, lowercase, str_equal, string_views, to_lowercase};

verus! {

/// A relative path `name` placed inside directory `dir` ("/" between them
/// unless `dir` is empty or already ends with "/"); an absolute `name` stands alone.
pub open spec fn joined_path(dir: Seq<char>, name: Seq<char>) -> Seq<char> {
    if name.len() > 0 && name[0] == '/' {
        name
    } else if dir.len() == 0 {
        name
    } else if dir.last() == '/' {
        dir + name
    } else {
        dir + "/"@ + name
    }
}

/// Joins a file name onto a directory path (Unix separators).
pub fn join_path(dir: &str, name: &str) -> (res: String)
    ensures
        res@ == joined_path(dir@, name@),
{
    let dc = chars_of(dir);
    let nc = chars_of(name);
    if nc.len() > 0 && nc[0] == '/' {
        return String::from_str(name);
    }
    if dc.len() == 0 {
        return String::from_str(name);
    }
    let mut res = String::from_str(dir);
    if dc[dc.len() - 1] != '/' {
        res.append("/");
    }
    res.append(name);
    res
}

/// The configuration file inside the configuration directory.
pub fn config_path(config_dir: &str) -> (res: String)
    ensures
        res@ == joined_path(config_dir@, "config.toml"@),
{
    join_path(config_dir, "config.toml")
}

/// The templates file inside the configuration directory.
pub fn templates_path(config_dir: &str) -> (res: String)
    ensures
        res@ == joined_path(config_dir@, "templates.json"@),
{
    join_path(config_dir, "templates.json")
}

/// The API key to use: the one from the environment when there is one, else
/// the configured key unless it is empty.
pub open spec fn chosen_api_key(env_key: Option<Seq<char>>, configured: Seq<char>) -> Option<
    Seq<char>,
> {
    match env_key {
        Some(k) => Some(k),
        None => if configured.len() == 0 {
            None
        } else {
            Some(configured)
        },
    }
}

/// The view of an optional string.
pub open spec fn opt_view(o: Option<String>) -> Option<Seq<char>> {
    match o {
        Some(s) => Some(s@),
        None => None,
    }
}

/// Picks the API key: the environment's `LINEAR_API_KEY` (as read by the caller)
/// takes priority over the configuration file.
pub fn get_api_key(env_key: Option<String>, config: &AppConfig) -> (res: Option<String>)
    ensures
        opt_view(res) == chosen_api_key(opt_view(env_key), config.linear_api_key@),
{
    match env_key {
        Some(k) => Some(k),
        None => {
            if config.linear_api_key.as_str().is_empty() {
                None
            } else {
                Some(config.linear_api_key.clone())
            }
        },
    }
}

/// The configuration that the setup wizard saves: the key entered, and the team
/// name entered unless it was left empty.
pub fn config_from_wizard(api_key: String, default_team: String) -> (res: AppConfig)
    ensures
        res.linear_api_key == api_key,
        res.default_team_id is None,
        default_team@.len() == 0 ==> res.default_team_name is None,
        default_team@.len() > 0 ==> res.default_team_name == Some(default_team),
        default_horizon_labels(res.time_horizon_labels),
        default_block_labels(res.daytime_block_labels),
{
    let team = if default_team.as_str().is_empty() {
        None
    } else {
        Some(default_team)
    };
    AppConfig {
        linear_api_key: api_key,
        default_team_id: None,
        default_team_name: team,
        time_horizon_labels: TimeHorizonLabels::default(),
        daytime_block_labels: DaytimeBlockLabels::default(),
    }
}

/// A configuration key that `config set` does not know.
#[derive(Clone, Debug)]
pub struct UnknownConfigKey {
    pub key: String,
}

/// The configuration after `config set key value`, or `None` for an unknown key.
pub open spec fn config_set(c: AppConfig, key: Seq<char>, value: String) -> Option<AppConfig> {
    if key == "api_key"@ {
        Some(AppConfig { linear_api_key: value, ..c })
    } else if key == "default_team"@ {
        Some(AppConfig { default_team_name: Some(value), ..c })
    } else {
        None
    }
}

impl AppConfig {
    /// Sets one configuration value by key ("api_key" or "default_team").
    pub fn set_value(&mut self, key: &str, value: String) -> (res: Result<(), UnknownConfigKey>)
        ensures
            match config_set(*old(self), key@, value) {
                Some(c) => res is Ok && *final(self) == c,
                None => res matches Err(e) && e.key@ == key@ && *final(self) == *old(self),
            },
    {
        if str_equal(key, "api_key") {
            self.linear_api_key = value;
            Ok(())
        } else if str_equal(key, "default_team") {
            self.default_team_name = Some(value);
            Ok(())
        } else {
            Err(UnknownConfigKey { key: String::from_str(key) })
        }
    }

    /// How `config show` shows the key: masked when set.
    pub fn api_key_display(&self) -> (res: &'static str)
        ensures
            res@ == (if self.linear_api_key@.len() == 0 {
                "Not set"@
            } else {
                "********"@
            }),
    {
        if self.linear_api_key.as_str().is_empty() {
            "Not set"
        } else {
            "********"
        }
    }
}

/// The lower-cased names of labels.
pub open spec fn lower_label_names(labels: Seq<Label>) -> Seq<Seq<char>> {
    labels.map_values(|l: Label| lowercase(l.name@))
}

/// The horizons, in order, whose lower-cased name is not among `names`.
pub open spec fn horizons_missing(hs: Seq<TimeHorizon>, names: Seq<Seq<char>>) -> Seq<TimeHorizon>
    decreases hs.len(),
{
    if hs.len() == 0 {
        hs
    } else {
        let prev = horizons_missing(hs.drop_last(), names);
        if names.contains(lowercase(horizon_name(hs.last()))) {
            prev
        } else {
            prev.push(hs.last())
        }
    }
}

/// The blocks, in order, whose lower-cased name is not among `names`.
pub open spec fn blocks_missing(bs: Seq<DaytimeBlock>, names: Seq<Seq<char>>) -> Seq<DaytimeBlock>
    decreases bs.len(),
{
    if bs.len() == 0 {
        bs
    } else {
        let prev = blocks_missing(bs.drop_last(), names);
        if names.contains(lowercase(block_name(bs.last()))) {
            prev
        } else {
            prev.push(bs.last())
        }
    }
}

/// The lower-cased names of labels.
fn lowered_names(labels: &Vec<Label>) -> (res: Vec<String>)
    ensures
        string_views(res@) == lower_label_names(labels@),
{
    let mut res: Vec<String> = Vec::new();
    let mut i: usize = 0;
    while i < labels.len()
        invariant
            i <= labels@.len(),
            res@.len() == i,
            forall|j: int| 0 <= j < i ==> (#[trigger] res@[j])@ == lowercase(labels@[j].name@),
        decreases labels.len() - i,
    {
        res.push(to_lowercase(labels[i].name.as_str()));
        i = i + 1;
    }
    assert(string_views(res@) =~= lower_label_names(labels@));
    res
}

/// The horizons whose lower-cased names are not among `names` (label names,
/// already lower-cased), in the order their labels are created.
pub fn horizons_missing_among(names: &Vec<String>) -> (res: Vec<TimeHorizon>)
    ensures
        res@ == horizons_missing(
            seq![TimeHorizon::Annual, TimeHorizon::Monthly, TimeHorizon::Weekly, TimeHorizon::Daily],
            string_views(names@),
        ),
{
    let all = TimeHorizon::all();
    let mut res: Vec<TimeHorizon> = Vec::new();
    let mut i: usize = 0;
    while i < all.len()
        invariant
            i <= all@.len(),
            res@ == horizons_missing(all@.subrange(0, i as int), string_views(names@)),
        decreases all.len() - i,
    {
        assert(all@.subrange(0, i + 1).drop_last() =~= all@.subrange(0, i as int));
        let h = all[i];
        let lower = to_lowercase(h.name());
        if !contains_string(names, lower.as_str()) {
            res.push(h);
        }
        i = i + 1;
    }
    assert(all@.subrange(0, all@.len() as int) =~= all@);
    res
}

/// The time horizon labels that the team does not have yet (names compared
/// after lower-casing), in the order they are created.
pub fn missing_horizon_labels(existing: &Vec<Label>) -> (res: Vec<TimeHorizon>)
    ensures
        res@ == horizons_missing(
            seq![TimeHorizon::Annual, TimeHorizon::Monthly, TimeHorizon::Weekly, TimeHorizon::Daily],
            lower_label_names(existing@),
        ),
{
    let names = lowered_names(existing);
    horizons_missing_among(&names)
}

/// The daytime blocks whose lower-cased names are not among `names` (label
/// names, already lower-cased), in the order their labels are created.
pub fn blocks_missing_among(names: &Vec<String>) -> (res: Vec<DaytimeBlock>)
    ensures
        res@ == blocks_missing(
            seq![DaytimeBlock::Morning, DaytimeBlock::Work, DaytimeBlock::Afternoon, DaytimeBlock::Evening],
            string_views(names@),
        ),
{
    let all = DaytimeBlock::all();
    let mut res: Vec<DaytimeBlock> = Vec::new();
    let mut i: usize = 0;
    while i < all.len()
        invariant
            i <= all@.len(),
            res@ == blocks_missing(all@.subrange(0, i as int), string_views(names@)),
        decreases all.len() - i,
    {
        assert(all@.subrange(0, i + 1).drop_last() =~= all@.subrange(0, i as int));
        let b = all[i];
        let lower = to_lowercase(b.name());
        if !contains_string(names, lower.as_str()) {
            res.push(b);
        }
        i = i + 1;
    }
    assert(all@.subrange(0, all@.len() as int) =~= all@);
    res
}

/// The daytime block labels that the team does not have yet (names compared
/// after lower-casing), in the order they are created.
pub fn missing_block_labels(existing: &Vec<Label>) -> (res: Vec<DaytimeBlock>)
    ensures
        res@ == blocks_missing(
            seq![DaytimeBlock::Morning, DaytimeBlock::Work, DaytimeBlock::Afternoon, DaytimeBlock::Evening],
            lower_label_names(existing@),
        ),
{
    let names = lowered_names(existing);
    blocks_missing_among(&names)
}

proof fn lemma_horizon_missing_covered(hs: Seq<TimeHorizon>, names: Seq<Seq<char>>, names2: Seq<Seq<char>>)
    requires
        forall|x: Seq<char>| #[trigger] names.contains(x) ==> names2.contains(x),
        forall|h: TimeHorizon| #[trigger] horizons_missing(hs, names).contains(h) ==> names2.contains(lowercase(horizon_name(h))),
    ensures
        horizons_missing(hs, names2).len() == 0,
    decreases hs.len(),
{
    if hs.len() > 0 {
        let d = hs.drop_last();
        let h = hs.last();
        assert forall|x: TimeHorizon| #[trigger] horizons_missing(d, names).contains(x) implies names2.contains(lowercase(horizon_name(x))) by {
            let j = choose|j: int| 0 <= j < horizons_missing(d, names).len() && horizons_missing(d, names)[j] == x;
            if !names.contains(lowercase(horizon_name(h))) {
                assert(horizons_missing(hs, names)[j] == x);
            }
            assert(horizons_missing(hs, names).contains(x));
        }
        lemma_horizon_missing_covered(d, names, names2);
        if !names.contains(lowercase(horizon_name(h))) {
            let m = horizons_missing(d, names);
            assert(horizons_missing(hs, names) == m.push(h));
            assert(m.push(h)[m.len() as int] == h);
            assert(horizons_missing(hs, names).contains(h));
        }
        assert(names2.contains(lowercase(horizon_name(h))));
    }
}

/// A key stored with `config set api_key` is the key used when the environment
/// gives none (unless it is empty), while a key from the environment still wins;
/// a team stored with `config set default_team` is the default team.
pub proof fn law_config_set_reads_back(c: AppConfig, value: String, env_key: Seq<char>)
    ensures
        config_set(c, "api_key"@, value) matches Some(after) && after.linear_api_key == value
            && (value@.len() > 0 ==> chosen_api_key(None, after.linear_api_key@) == Some(value@))
            && chosen_api_key(Some(env_key), after.linear_api_key@) == Some(env_key),
        config_set(c, "default_team"@, value) matches Some(after) && after.default_team_name
            == Some(value) && after.linear_api_key == c.linear_api_key,
{
    reveal_strlit("api_key");
    reveal_strlit("default_team");
    assert("default_team"@[0] != "api_key"@[0]);
}

/// Setting up labels settles them: once a label named after each missing horizon
/// is created, no horizon label is missing any more (a second run creates none).
pub proof fn law_horizon_labels_settled(existing: Seq<Label>, created: Seq<Label>, all: Seq<TimeHorizon>)
    requires
        created.len() == horizons_missing(all, lower_label_names(existing)).len(),
        forall|i: int|
            0 <= i < created.len() ==> (#[trigger] created[i]).name@ == horizon_name(
                horizons_missing(all, lower_label_names(existing))[i],
            ),
    ensures
        horizons_missing(all, lower_label_names(existing + created)).len() == 0,
{
    let names = lower_label_names(existing);
    let names2 = lower_label_names(existing + created);
    let miss = horizons_missing(all, names);
    assert forall|x: Seq<char>| #[trigger] names.contains(x) implies names2.contains(x) by {
        let j = choose|j: int| 0 <= j < names.len() && names[j] == x;
        assert((existing + created)[j] == existing[j]);
        assert(names2[j] == x);
    }
    assert forall|h: TimeHorizon| #[trigger] miss.contains(h) implies names2.contains(lowercase(horizon_name(h))) by {
        let i = choose|i: int| 0 <= i < miss.len() && miss[i] == h;
        assert((existing + created)[existing.len() + i] == created[i]);
        assert(names2[existing.len() + i] == lowercase(created[i].name@));
    }
    lemma_horizon_missing_covered(all, names, names2);
}

proof fn lemma_block_missing_covered(hs: Seq<DaytimeBlock>, names: Seq<Seq<char>>, names2: Seq<Seq<char>>)
    requires
        forall|x: Seq<char>| #[trigger] names.contains(x) ==> names2.contains(x),
        forall|h: DaytimeBlock| #[trigger] blocks_missing(hs, names).contains(h) ==> names2.contains(lowercase(block_name(h))),
    ensures
        blocks_missing(hs, names2).len() == 0,
    decreases hs.len(),
{
    if hs.len() > 0 {
        let d = hs.drop_last();
        let h = hs.last();
        assert forall|x: DaytimeBlock| #[trigger] blocks_missing(d, names).contains(x) implies names2.contains(lowercase(block_name(x))) by {
            let j = choose|j: int| 0 <= j < blocks_missing(d, names).len() && blocks_missing(d, names)[j] == x;
            if !names.contains(lowercase(block_name(h))) {
                assert(blocks_missing(hs, names)[j] == x);
            }
            assert(blocks_missing(hs, names).contains(x));
        }
        lemma_block_missing_covered(d, names, names2);
        if !names.contains(lowercase(block_name(h))) {
            let m = blocks_missing(d, names);
            assert(blocks_missing(hs, names) == m.push(h));
            assert(m.push(h)[m.len() as int] == h);
            assert(blocks_missing(hs, names).contains(h));
        }
        assert(names2.contains(lowercase(block_name(h))));
    }
}

/// Setting up labels settles them: once a label named after each missing daytime
/// block is created, no block label is missing any more (a second run creates none).
pub proof fn law_block_labels_settled(existing: Seq<Label>, created: Seq<Label>, all: Seq<DaytimeBlock>)
    requires
        created.len() == blocks_missing(all, lower_label_names(existing)).len(),
        forall|i: int|
            0 <= i < created.len() ==> (#[trigger] created[i]).name@ == block_name(
                blocks_missing(all, lower_label_names(existing))[i],
            ),
    ensures
        blocks_missing(all, lower_label_names(existing + created)).len() == 0,
{
    let names = lower_label_names(existing);
    let names2 = lower_label_names(existing + created);
    let miss = blocks_missing(all, names);
    assert forall|x: Seq<char>| #[trigger] names.contains(x) implies names2.contains(x) by {
        let j = choose|j: int| 0 <= j < names.len() && names[j] == x;
        assert((existing + created)[j] == existing[j]);
        assert(names2[j] == x);
    }
    assert forall|h: DaytimeBlock| #[trigger] miss.contains(h) implies names2.contains(lowercase(block_name(h))) by {
        let i = choose|i: int| 0 <= i < miss.len() && miss[i] == h;
        assert((existing + created)[existing.len() + i] == created[i]);
        assert(names2[existing.len() + i] == lowercase(created[i].name@));
    }
    lemma_block_missing_covered(all, names, names2);
}

} // verus!
