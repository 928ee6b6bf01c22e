//! The configuration store: the one configuration of the running
//! application, loaded from a file that may be missing, damaged or out of
//! date, and never failing to load.

use vstd::prelude::*;
use vstd::string::StringExecFns;
use crate::config::{
    config_document, default_config, lemma_config_lookups, lemma_read_schema_document,
    lemma_schema_lookups, lemma_scraper_lookups, lemma_update_lookups,
    lemma_update_schema_lookups, lemma_window_lookups, read_config,
    schema_document, scraper_document, text_record_document, update_document,
    update_schema_document, window_document, AppConfig, AppInfo, CacheConfig, ConfigView,
    DatabaseConfig, ScraperConfig, UpdateConfig, UpdateView, WindowConfig, APP_VERSION,
};
use crate::json::{
    entries_view, find_entry, lemma_lookup_at, lemma_view_unfold, lookup, parsed_json,
    pretty_json, Json, JsonEntry, JsonValue,
};
use crate::merge::{
    at_path, lemma_at_path_push, lemma_merge_flat, lemma_merge_keeps_stored_value, merge,
    merge_member,
};
use crate::timestamp::{utc_timestamp, Timestamp};

verus! {

/// `c` with the version of the running application in place of its own.
pub open spec fn with_running_version(c: ConfigView) -> ConfigView {
    ConfigView { version: APP_VERSION@, ..c }
}

/// The configuration that comes of the stored document `loaded` and the
/// default configuration `default`: the stored document is merged into the
/// document of the default that has every key of the schema, and the result
/// is read as a configuration. Where it cannot be read, the default stands,
/// whole. Either way the version is that of the running application.
pub open spec fn merged_config(loaded: Json, default: ConfigView) -> ConfigView {
    with_running_version(
        match read_config(merge(loaded, schema_document(default))) {
            Some(c) => c,
            None => default,
        },
    )
}

/// The configuration after loading. `content` is the text of the
/// configuration file, or nothing where the file is missing or cannot be
/// read, or its place is not known.
pub open spec fn loaded_config(content: Option<Seq<char>>) -> ConfigView {
    match content {
        Some(text) => match parsed_json(text) {
            Some(doc) => merged_config(doc, default_config()),
            None => default_config(),
        },
        None => default_config(),
    }
}

/// Holds the configuration of the running application.
pub struct ConfigManager {
    config: AppConfig,
}

impl View for ConfigManager {
    type V = ConfigView;

    closed spec fn view(&self) -> ConfigView {
        self.config@
    }
}

impl DatabaseConfig {
    /// A copy of the section.
    pub fn duplicate(&self) -> (r: Self)
        ensures
            r@ == self@,
    {
        DatabaseConfig { name: self.name.clone() }
    }
}

impl CacheConfig {
    /// A copy of the section.
    pub fn duplicate(&self) -> (r: Self)
        ensures
            r@ == self@,
    {
        CacheConfig { dir_name: self.dir_name.clone() }
    }
}

impl ScraperConfig {
    /// A copy of the section.
    pub fn duplicate(&self) -> (r: Self)
        ensures
            r@ == self@,
    {
        ScraperConfig {
            request_interval_ms: self.request_interval_ms,
            user_agent: self.user_agent.clone(),
        }
    }
}

impl AppInfo {
    /// A copy of the section.
    pub fn duplicate(&self) -> (r: Self)
        ensures
            r@ == self@,
    {
        AppInfo { version: self.version.clone() }
    }
}

impl UpdateConfig {
    /// A copy of the section.
    pub fn duplicate(&self) -> (r: Self)
        ensures
            r@ == self@,
    {
        UpdateConfig {
            check_on_startup: self.check_on_startup,
            update_url: self.update_url.clone(),
            last_check_time: match &self.last_check_time {
                Some(t) => Some(t.duplicate()),
                None => None,
            },
            ignored_version: match &self.ignored_version {
                Some(v) => Some(v.clone()),
                None => None,
            },
        }
    }
}

impl AppConfig {
    /// A copy of the configuration.
    pub fn duplicate(&self) -> (r: Self)
        ensures
            r@ == self@,
    {
        AppConfig {
            database: self.database.duplicate(),
            cache: self.cache.duplicate(),
            scraper: self.scraper.duplicate(),
            app: self.app.duplicate(),
            update: self.update.duplicate(),
            window: self.window,
        }
    }
}

impl ConfigManager {
    /// A store that holds the default configuration.
    pub fn new() -> (r: Self)
        ensures
            r@ == default_config(),
    {
        ConfigManager { config: AppConfig::default() }
    }

    /// Merges the document `loaded` into the document `default`.
    pub fn merge_json_values(loaded: &JsonValue, default: &JsonValue) -> (merged: JsonValue)
        ensures
            merged@ == merge(loaded@, default@),
        decreases default,
    {
        match (loaded, default) {
            (JsonValue::Object(l), JsonValue::Object(d)) => {
                let mut out: Vec<JsonEntry> = Vec::new();
                let mut i: usize = 0;
                while i < d.len()
                    invariant
                        *default == JsonValue::Object(*d),
                        i <= d.len(),
                        out@.len() == i,
                        forall|j: int|
                            0 <= j < i ==> #[trigger] entries_view(out@)[j] == merge_member(
                                entries_view(l@),
                                entries_view(d@)[j],
                            ),
                    decreases d.len() - i,
                {
                    let key = d[i].key.clone();
                    let value = match find_entry(l, d[i].key.as_str()) {
                        Some(k) => {
                            assert(decreases_to!(*default => default->Object_0));
                            assert(decreases_to!(default->Object_0 => default->Object_0[i as int]));
                            assert(decreases_to!(default->Object_0[i as int] => default->Object_0[i as int].value));
                            Self::merge_json_values(&l[k].value, &d[i].value)
                        },
                        None => d[i].value.duplicate(),
                    };
                    let ghost before = out@;
                    out.push(JsonEntry { key, value });
                    assert forall|j: int| 0 <= j < i + 1 implies #[trigger] entries_view(out@)[j]
                        == merge_member(entries_view(l@), entries_view(d@)[j]) by {
                        if j < i {
                            assert(entries_view(before)[j] == entries_view(out@)[j]);
                        }
                    }
                    i += 1;
                }
                let merged = JsonValue::Object(out);
                proof {
                    lemma_view_unfold(*loaded);
                    lemma_view_unfold(*default);
                    lemma_view_unfold(merged);
                    assert(merged@->Object_0 =~= merge(loaded@, default@)->Object_0);
                }
                merged
            },
            _ => loaded.duplicate(),
        }
    }

    /// Brings a stored document up to date against `default_config`: what
    /// the user has set is kept, what is new gets its default, what the
    /// configuration no longer knows is dropped.
    pub fn merge_config(loaded: &JsonValue, default_config: &AppConfig) -> (r: AppConfig)
        ensures
            r@ == merged_config(loaded@, default_config@),
    {
        let default_value = default_config.to_schema_json();
        let merged_value = Self::merge_json_values(loaded, &default_value);
        let mut config = match AppConfig::from_json(&merged_value) {
            Some(config) => config,
            None => default_config.duplicate(),
        };
        config.app.version = String::from_str(APP_VERSION);
        config
    }

    /// Loads the configuration from the text of the configuration file.
    /// `content` is nothing where the file is missing or cannot be read, or
    /// its place is not known. Loading never fails: whatever cannot be used
    /// gives way to the defaults.
    pub fn load(&mut self, content: Option<&str>) -> (r: Result<(), String>)
        ensures
            r is Ok,
            final(self)@ == loaded_config(
                match content {
                    Some(text) => Some(text@),
                    None => None,
                },
            ),
    {
        let default_config = AppConfig::default();
        self.config = match content {
            Some(text) => match JsonValue::parse(text) {
                Some(loaded_value) => Self::merge_config(&loaded_value, &default_config),
                None => default_config,
            },
            None => default_config,
        };
        Ok(())
    }

    /// The text of the configuration file for the configuration as it is
    /// now: the document of the configuration, pretty-printed.
    pub fn save(&self) -> (r: Result<String, String>)
        ensures
            r matches Ok(text) ==> pretty_json(config_document(self@)) == Some(text@),
            r is Err ==> pretty_json(config_document(self@)) is None,
    {
        match self.config.to_json().to_pretty_text() {
            Some(text) => Ok(text),
            None => Err(String::from_str("failed to serialize the configuration")),
        }
    }

    /// A copy of the configuration.
    pub fn get(&self) -> (r: AppConfig)
        ensures
            r@ == self@,
    {
        self.config.duplicate()
    }

    /// Puts `new_config` in place of the configuration, and gives the text
    /// to store.
    pub fn update(&mut self, new_config: AppConfig) -> (r: Result<String, String>)
        ensures
            final(self)@ == new_config@,
            r matches Ok(text) ==> pretty_json(config_document(new_config@)) == Some(text@),
            r is Err ==> pretty_json(config_document(new_config@)) is None,
    {
        self.config = new_config;
        self.save()
    }

    /// Records when updates were last looked for, and gives the text to
    /// store.
    pub fn update_last_check_time(&mut self, time: Timestamp) -> (r: Result<String, String>)
        ensures
            final(self)@ == (ConfigView {
                update: UpdateView { last_check_time: Some(time@), ..old(self)@.update },
                ..old(self)@
            }),
            r matches Ok(text) ==> pretty_json(config_document(final(self)@)) == Some(text@),
            r is Err ==> pretty_json(config_document(final(self)@)) is None,
    {
        self.config.update.last_check_time = Some(time);
        self.save()
    }

    /// Records the version that the user does not want to be offered, and
    /// gives the text to store.
    pub fn update_ignored_version(&mut self, version: String) -> (r: Result<String, String>)
        ensures
            final(self)@ == (ConfigView {
                update: UpdateView { ignored_version: Some(version@), ..old(self)@.update },
                ..old(self)@
            }),
            r matches Ok(text) ==> pretty_json(config_document(final(self)@)) == Some(text@),
            r is Err ==> pretty_json(config_document(final(self)@)) is None,
    {
        self.config.update.ignored_version = Some(version);
        self.save()
    }

    /// The name of the database.
    pub fn get_database_name(&self) -> (r: String)
        ensures
            r@ == self@.database_name,
    {
        self.config.database.name.clone()
    }

    /// The name of the cache directory.
    pub fn get_cache_dir_name(&self) -> (r: String)
        ensures
            r@ == self@.cache_dir_name,
    {
        self.config.cache.dir_name.clone()
    }

    /// The pause after each fetched page, in milliseconds.
    pub fn get_request_interval(&self) -> (r: u64)
        ensures
            r == self@.scraper.request_interval_ms,
    {
        self.config.scraper.request_interval_ms
    }

    /// The window section.
    pub fn get_window_config(&self) -> (r: WindowConfig)
        ensures
            r == self@.window,
    {
        self.config.window
    }

    /// Puts `window_config` in place of the window section, and gives the
    /// text to store.
    pub fn update_window_config(&mut self, window_config: WindowConfig) -> (r: Result<
        String,
        String,
    >)
        ensures
            final(self)@ == (ConfigView { window: window_config, ..old(self)@ }),
            r matches Ok(text) ==> pretty_json(config_document(final(self)@)) == Some(text@),
            r is Err ==> pretty_json(config_document(final(self)@)) is None,
    {
        self.config.window = window_config;
        self.save()
    }
}

/// Whatever the file holds, the loaded configuration carries the version of
/// the running application.
pub proof fn lemma_loaded_version(content: Option<Seq<char>>)
    ensures
        loaded_config(content).version == APP_VERSION@,
{
}

/// Without a file, loading gives the defaults.
pub proof fn lemma_load_missing_file()
    ensures
        loaded_config(None) == default_config(),
{
}

/// Merging the stored document of the configuration `c` into the schema
/// document of a default in which the time of the last check and the
/// ignored version are unset gives the schema document of `c`: every field
/// that `c` has set is kept, and the two fields that the stored document
/// leaves out while they are unset come back as unset.
pub proof fn lemma_merge_config_documents(c: ConfigView, d: ConfigView)
    requires
        d.update.last_check_time is None,
        d.update.ignored_version is None,
    ensures
        merge(config_document(c), schema_document(d)) == schema_document(c),
{
    lemma_config_lookups(c);
    lemma_window_lookups(c.window);
    lemma_update_lookups(c.update);
    lemma_scraper_lookups(c.scraper);
    lemma_lookup_at(text_record_document("version"@, c.version)->Object_0, "version"@, 0);
    lemma_lookup_at(text_record_document("dir_name"@, c.cache_dir_name)->Object_0, "dir_name"@, 0);
    lemma_lookup_at(text_record_document("name"@, c.database_name)->Object_0, "name"@, 0);
    lemma_merge_flat(
        text_record_document("version"@, c.version)->Object_0,
        text_record_document("version"@, d.version)->Object_0,
        text_record_document("version"@, c.version)->Object_0,
    );
    lemma_merge_flat(
        text_record_document("dir_name"@, c.cache_dir_name)->Object_0,
        text_record_document("dir_name"@, d.cache_dir_name)->Object_0,
        text_record_document("dir_name"@, c.cache_dir_name)->Object_0,
    );
    lemma_merge_flat(
        text_record_document("name"@, c.database_name)->Object_0,
        text_record_document("name"@, d.database_name)->Object_0,
        text_record_document("name"@, c.database_name)->Object_0,
    );
    lemma_merge_flat(
        scraper_document(c.scraper)->Object_0,
        scraper_document(d.scraper)->Object_0,
        scraper_document(c.scraper)->Object_0,
    );
    lemma_merge_flat(
        update_document(c.update)->Object_0,
        update_schema_document(d.update)->Object_0,
        update_schema_document(c.update)->Object_0,
    );
    lemma_merge_flat(
        window_document(c.window)->Object_0,
        window_document(d.window)->Object_0,
        window_document(c.window)->Object_0,
    );
    let merged = merge(config_document(c), schema_document(d));
    assert(merged matches Json::Object(m) && m =~= schema_document(c)->Object_0) by {
        let m = merged->Object_0;
        let l = config_document(c)->Object_0;
        let e = schema_document(d)->Object_0;
        assert(m.len() == 6);
        assert(m[0] == merge_member(l, e[0]));
        assert(m[1] == merge_member(l, e[1]));
        assert(m[2] == merge_member(l, e[2]));
        assert(m[3] == merge_member(l, e[3]));
        assert(m[4] == merge_member(l, e[4]));
        assert(m[5] == merge_member(l, e[5]));
    }
}

/// Loading the stored document of a configuration brings the configuration
/// back, the ignored version and the time of the last check with it; only
/// the version is that of the running application. The time of the last
/// check, where it is set, is taken to be in the form in which instants are
/// written.
pub proof fn lemma_load_saved_document(c: ConfigView)
    requires
        c.update.last_check_time matches Some(t) ==> utc_timestamp(t) == Some(t),
    ensures
        merged_config(config_document(c), default_config()) == with_running_version(c),
{
    lemma_merge_config_documents(c, default_config());
    lemma_read_schema_document(c);
}

/// A stored ignored version is kept by the merge, whatever else the stored
/// document holds in its update section, provided that the section is an
/// object and the merged document reads as a configuration.
pub proof fn lemma_stored_ignored_version_is_kept(
    loaded: Json,
    default: ConfigView,
    version: Seq<char>,
)
    requires
        at_path(loaded, seq!["update"@, "ignored_version"@]) == Some(Json::Str(version)),
        read_config(merge(loaded, schema_document(default))) is Some,
    ensures
        merged_config(loaded, default).update.ignored_version == Some(version),
{
    let path = seq!["update"@, "ignored_version"@];
    let first = seq!["update"@];
    let none = Seq::<Seq<char>>::empty();
    let schema = schema_document(default);
    assert(first =~= none.push("update"@));
    assert(path =~= first.push("ignored_version"@));
    lemma_schema_lookups(default);
    lemma_update_schema_lookups(default.update);
    lemma_at_path_push(schema, none, "update"@);
    lemma_at_path_push(schema, first, "ignored_version"@);
    assert(at_path(schema, path) is Some);
    lemma_merge_keeps_stored_value(loaded, schema, path);
    let merged = merge(loaded, schema);
    lemma_at_path_push(merged, none, "update"@);
    lemma_at_path_push(merged, first, "ignored_version"@);
}

/// A stored time of the last check is kept by the merge, read as an instant
/// in UTC, provided that the update section of the stored document is an
/// object and the merged document reads as a configuration.
pub proof fn lemma_stored_last_check_is_kept(loaded: Json, default: ConfigView, text: Seq<char>)
    requires
        at_path(loaded, seq!["update"@, "last_check_time"@]) == Some(Json::Str(text)),
        read_config(merge(loaded, schema_document(default))) is Some,
    ensures
        merged_config(loaded, default).update.last_check_time == utc_timestamp(text),
        utc_timestamp(text) is Some,
{
    let path = seq!["update"@, "last_check_time"@];
    let first = seq!["update"@];
    let none = Seq::<Seq<char>>::empty();
    let schema = schema_document(default);
    assert(first =~= none.push("update"@));
    assert(path =~= first.push("last_check_time"@));
    lemma_schema_lookups(default);
    lemma_update_schema_lookups(default.update);
    lemma_at_path_push(schema, none, "update"@);
    lemma_at_path_push(schema, first, "last_check_time"@);
    assert(at_path(schema, path) is Some);
    lemma_merge_keeps_stored_value(loaded, schema, path);
    let merged = merge(loaded, schema);
    lemma_at_path_push(merged, none, "update"@);
    lemma_at_path_push(merged, first, "last_check_time"@);
}

} // verus!
