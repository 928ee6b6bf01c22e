//! The typed configuration, its default values, and its form as a
//! document.

use vstd::prelude::*;
use vstd::string::StringExecFns;
use crate::json::{
    entries_view, lemma_lookup_at, lemma_lookup_none, lemma_view_unfold, lookup, Json,
    JsonEntry, JsonNumber, JsonValue, Member, Number,
};
use crate::schema::{
    as_bool, as_i32, as_text, as_timestamp, as_u32, as_u64, can_hold_record, defaulted, field,
    get_field, holds_record, is_null, is_object, nullable, optional, read_bool, read_i32,
    read_text, read_timestamp, read_u32, read_u64, required, FieldRef,
};
use crate::text::optional_text;
use crate::timestamp::{utc_timestamp, Timestamp};

verus! {

/// The version of the running application.
pub const APP_VERSION: &'static str = "0.1.0";

/// How the local database is named.
#[derive(Clone, Debug, PartialEq, Eq)]
pub struct DatabaseConfig {
    pub name: String,
}

/// Where cached files are kept.
#[derive(Clone, Debug, PartialEq, Eq)]
pub struct CacheConfig {
    pub dir_name: String,
}

/// How the harvester paces its requests and names itself.
#[derive(Clone, Debug, PartialEq, Eq)]
pub struct ScraperConfig {
    /// The pause after each fetched page, in milliseconds.
    pub request_interval_ms: u64,
    pub user_agent: String,
}

/// What the application knows of its own build.
#[derive(Clone, Debug, PartialEq, Eq)]
pub struct AppInfo {
    pub version: String,
}

/// How updates are looked for.
#[derive(Clone, Debug, PartialEq, Eq)]
pub struct UpdateConfig {
    pub check_on_startup: bool,
    pub update_url: String,
    pub last_check_time: Option<Timestamp>,
    pub ignored_version: Option<String>,
}

/// Size and place of the main window.
#[derive(Clone, Copy, Debug, PartialEq, Eq, Structural)]
pub struct WindowConfig {
    pub width: u32,
    pub height: u32,
    pub x: Option<i32>,
    pub y: Option<i32>,
    pub min_width: u32,
    pub min_height: u32,
    pub max_width: Option<u32>,
    pub max_height: Option<u32>,
    pub resizable: bool,
}

/// The whole configuration.
#[derive(Clone, Debug, PartialEq, Eq)]
pub struct AppConfig {
    pub database: DatabaseConfig,
    pub cache: CacheConfig,
    pub scraper: ScraperConfig,
    pub app: AppInfo,
    pub update: UpdateConfig,
    pub window: WindowConfig,
}

/// `ScraperConfig`, as mathematics sees it.
pub struct ScraperView {
    pub request_interval_ms: u64,
    pub user_agent: Seq<char>,
}

/// `UpdateConfig`, as mathematics sees it.
pub struct UpdateView {
    pub check_on_startup: bool,
    pub update_url: Seq<char>,
    pub last_check_time: Option<Seq<char>>,
    pub ignored_version: Option<Seq<char>>,
}

/// `AppConfig`, as mathematics sees it.
pub struct ConfigView {
    pub database_name: Seq<char>,
    pub cache_dir_name: Seq<char>,
    pub scraper: ScraperView,
    pub version: Seq<char>,
    pub update: UpdateView,
    pub window: WindowConfig,
}

impl View for DatabaseConfig {
    type V = Seq<char>;

    open spec fn view(&self) -> Seq<char> {
        self.name@
    }
}

impl View for CacheConfig {
    type V = Seq<char>;

    open spec fn view(&self) -> Seq<char> {
        self.dir_name@
    }
}

impl View for ScraperConfig {
    type V = ScraperView;

    open spec fn view(&self) -> ScraperView {
        ScraperView { request_interval_ms: self.request_interval_ms, user_agent: self.user_agent@ }
    }
}

impl View for AppInfo {
    type V = Seq<char>;

    open spec fn view(&self) -> Seq<char> {
        self.version@
    }
}

/// The text of an optional instant.
pub open spec fn instant_of(t: Option<Timestamp>) -> Option<Seq<char>> {
    match t {
        Some(t) => Some(t@),
        None => None,
    }
}

impl View for UpdateConfig {
    type V = UpdateView;

    open spec fn view(&self) -> UpdateView {
        UpdateView {
            check_on_startup: self.check_on_startup,
            update_url: self.update_url@,
            last_check_time: instant_of(self.last_check_time),
            ignored_version: optional_text(self.ignored_version),
        }
    }
}

impl View for AppConfig {
    type V = ConfigView;

    open spec fn view(&self) -> ConfigView {
        ConfigView {
            database_name: self.database@,
            cache_dir_name: self.cache@,
            scraper: self.scraper@,
            version: self.app@,
            update: self.update@,
            window: self.window,
        }
    }
}

/// The window of a fresh installation: 1600 by 900, at least 800 by 600,
/// with no upper limit, resizable, and placed by the system.
pub open spec fn default_window() -> WindowConfig {
    WindowConfig {
        width: 1600,
        height: 900,
        x: None,
        y: None,
        min_width: 800,
        min_height: 600,
        max_width: None,
        max_height: None,
        resizable: true,
    }
}

/// The configuration of a fresh installation.
pub open spec fn default_config() -> ConfigView {
    ConfigView {
        database_name: "filmtrack.db"@,
        cache_dir_name: "cache"@,
        scraper: ScraperView {
            request_interval_ms: 1500,
            user_agent: "Mozilla/5.0 (Windows NT 10.0; Win64; x64) AppleWebKit/537.36 (KHTML, like Gecko) Chrome/91.0.4472.124 Safari/537.36"@,
        },
        version: APP_VERSION@,
        update: UpdateView {
            check_on_startup: true,
            update_url: "https://gitee.com/faithsx/faithsx/raw/master/filmtrack_update.json"@,
            last_check_time: None,
            ignored_version: None,
        },
        window: default_window(),
    }
}

/// The stand-in for a missing `resizable`.
pub fn default_resizable() -> (r: bool)
    ensures
        r,
{
    true
}

/// The stand-in for a missing `check_on_startup`.
pub fn default_check_on_startup() -> (r: bool)
    ensures
        r,
{
    true
}

impl WindowConfig {
    /// The window of a fresh installation.
    pub fn initial() -> (r: Self)
        ensures
            r == default_window(),
    {
        WindowConfig {
            width: 1600,
            height: 900,
            x: None,
            y: None,
            min_width: 800,
            min_height: 600,
            max_width: None,
            max_height: None,
            resizable: true,
        }
    }
}

impl Default for AppConfig {
    fn default() -> (r: Self)
        ensures
            r@ == default_config(),
    {
        AppConfig {
            database: DatabaseConfig { name: String::from_str("filmtrack.db") },
            cache: CacheConfig { dir_name: String::from_str("cache") },
            scraper: ScraperConfig {
                request_interval_ms: 1500,
                user_agent: String::from_str(
                    "Mozilla/5.0 (Windows NT 10.0; Win64; x64) AppleWebKit/537.36 (KHTML, like Gecko) Chrome/91.0.4472.124 Safari/537.36",
                ),
            },
            app: AppInfo { version: String::from_str(APP_VERSION) },
            update: UpdateConfig {
                check_on_startup: true,
                update_url: String::from_str(
                    "https://gitee.com/faithsx/faithsx/raw/master/filmtrack_update.json",
                ),
                last_check_time: None,
                ignored_version: None,
            },
            window: WindowConfig::initial(),
        }
    }
}

/// An entry of an object.
pub open spec fn member(key: Seq<char>, value: Json) -> Member {
    Member { key, value }
}

/// The document of a whole number.
pub open spec fn int_document(n: int) -> Json {
    Json::Number(Number::Int(n))
}

/// The document of an optional unsigned number: null where there is none.
pub open spec fn optional_u32_document(n: Option<u32>) -> Json {
    match n {
        Some(n) => int_document(n as int),
        None => Json::Null,
    }
}

/// The document of an optional signed number: null where there is none.
pub open spec fn optional_i32_document(n: Option<i32>) -> Json {
    match n {
        Some(n) => int_document(n as int),
        None => Json::Null,
    }
}

/// The document of the window section.
pub open spec fn window_document(w: WindowConfig) -> Json {
    Json::Object(
        seq![
            member("height"@, int_document(w.height as int)),
            member("max_height"@, optional_u32_document(w.max_height)),
            member("max_width"@, optional_u32_document(w.max_width)),
            member("min_height"@, int_document(w.min_height as int)),
            member("min_width"@, int_document(w.min_width as int)),
            member("resizable"@, Json::Bool(w.resizable)),
            member("width"@, int_document(w.width as int)),
            member("x"@, optional_i32_document(w.x)),
            member("y"@, optional_i32_document(w.y)),
        ],
    )
}

/// The entry of an optional text: none where there is no text.
pub open spec fn optional_text_member(key: Seq<char>, text: Option<Seq<char>>) -> Seq<Member> {
    match text {
        Some(t) => seq![member(key, Json::Str(t))],
        None => Seq::empty(),
    }
}

/// The document of the update section, as it is stored. The time of the
/// last check and the ignored version have an entry only where they are
/// set.
pub open spec fn update_document(u: UpdateView) -> Json {
    Json::Object(
        seq![member("check_on_startup"@, Json::Bool(u.check_on_startup))] + optional_text_member(
            "ignored_version"@,
            u.ignored_version,
        ) + optional_text_member("last_check_time"@, u.last_check_time) + seq![
            member("update_url"@, Json::Str(u.update_url)),
        ],
    )
}

/// The document of the harvester section.
pub open spec fn scraper_document(s: ScraperView) -> Json {
    Json::Object(
        seq![
            member("request_interval_ms"@, int_document(s.request_interval_ms as int)),
            member("user_agent"@, Json::Str(s.user_agent)),
        ],
    )
}

/// The document of a section with one text field.
pub open spec fn text_record_document(key: Seq<char>, text: Seq<char>) -> Json {
    Json::Object(seq![member(key, Json::Str(text))])
}

/// The document of a configuration, as it is stored: an object of its six
/// sections, each an object of its fields, every object with its keys in
/// ascending order.
pub open spec fn config_document(c: ConfigView) -> Json {
    Json::Object(
        seq![
            member("app"@, text_record_document("version"@, c.version)),
            member("cache"@, text_record_document("dir_name"@, c.cache_dir_name)),
            member("database"@, text_record_document("name"@, c.database_name)),
            member("scraper"@, scraper_document(c.scraper)),
            member("update"@, update_document(c.update)),
            member("window"@, window_document(c.window)),
        ],
    )
}

/// The document of an optional text: null where there is none.
pub open spec fn optional_text_document(text: Option<Seq<char>>) -> Json {
    match text {
        Some(t) => Json::Str(t),
        None => Json::Null,
    }
}

/// The update section with every key of the schema: the time of the last
/// check and the ignored version are null where they are unset.
pub open spec fn update_schema_document(u: UpdateView) -> Json {
    Json::Object(
        seq![
            member("check_on_startup"@, Json::Bool(u.check_on_startup)),
            member("ignored_version"@, optional_text_document(u.ignored_version)),
            member("last_check_time"@, optional_text_document(u.last_check_time)),
            member("update_url"@, Json::Str(u.update_url)),
        ],
    )
}

/// The configuration with every key of the schema: the document that a
/// stored one is merged into. It is the document of the configuration, but
/// for the fields of the update section that the latter leaves out while
/// they are unset: here they are null.
pub open spec fn schema_document(c: ConfigView) -> Json {
    Json::Object(
        seq![
            member("app"@, text_record_document("version"@, c.version)),
            member("cache"@, text_record_document("dir_name"@, c.cache_dir_name)),
            member("database"@, text_record_document("name"@, c.database_name)),
            member("scraper"@, scraper_document(c.scraper)),
            member("update"@, update_schema_document(c.update)),
            member("window"@, window_document(c.window)),
        ],
    )
}

/// An entry with the key `key`.
fn entry(key: &str, value: JsonValue) -> (r: JsonEntry)
    ensures
        r.key@ == key@,
        r.value == value,
{
    JsonEntry { key: String::from_str(key), value }
}

/// The object of `entries`.
fn object(entries: Vec<JsonEntry>) -> (r: JsonValue)
    ensures
        r@ == Json::Object(entries_view(entries@)),
{
    let r = JsonValue::Object(entries);
    proof {
        lemma_view_unfold(r);
    }
    r
}

/// The document of a text.
fn text_value(text: &String) -> (r: JsonValue)
    ensures
        r@ == Json::Str(text@),
{
    JsonValue::Str(text.clone())
}

/// The document of an unsigned number.
fn unsigned_value(n: u64) -> (r: JsonValue)
    ensures
        r@ == int_document(n as int),
{
    JsonValue::Number(JsonNumber::PosInt(n))
}

/// The document of an optional unsigned number.
fn optional_u32_value(n: Option<u32>) -> (r: JsonValue)
    ensures
        r@ == optional_u32_document(n),
{
    match n {
        Some(n) => unsigned_value(n as u64),
        None => JsonValue::Null,
    }
}

/// The document of an optional signed number.
fn optional_i32_value(n: Option<i32>) -> (r: JsonValue)
    ensures
        r@ == optional_i32_document(n),
{
    match n {
        Some(n) => if n >= 0 {
            JsonValue::Number(JsonNumber::PosInt(n as u64))
        } else {
            JsonValue::Number(JsonNumber::NegInt(n as i64))
        },
        None => JsonValue::Null,
    }
}

/// The document of a section with one text field.
fn text_record(key: &str, text: &String) -> (r: JsonValue)
    ensures
        r@ == text_record_document(key@, text@),
{
    let mut entries: Vec<JsonEntry> = Vec::new();
    entries.push(entry(key, text_value(text)));
    let r = object(entries);
    assert(r@->Object_0 =~= text_record_document(key@, text@)->Object_0);
    r
}

impl WindowConfig {
    /// The section as a document.
    pub fn to_json(&self) -> (r: JsonValue)
        ensures
            r@ == window_document(*self),
    {
        let mut entries: Vec<JsonEntry> = Vec::new();
        entries.push(entry("height", unsigned_value(self.height as u64)));
        entries.push(entry("max_height", optional_u32_value(self.max_height)));
        entries.push(entry("max_width", optional_u32_value(self.max_width)));
        entries.push(entry("min_height", unsigned_value(self.min_height as u64)));
        entries.push(entry("min_width", unsigned_value(self.min_width as u64)));
        entries.push(entry("resizable", JsonValue::Bool(self.resizable)));
        entries.push(entry("width", unsigned_value(self.width as u64)));
        entries.push(entry("x", optional_i32_value(self.x)));
        entries.push(entry("y", optional_i32_value(self.y)));
        let r = object(entries);
        assert(r@->Object_0 =~= window_document(*self)->Object_0);
        r
    }
}

impl UpdateConfig {
    /// The section as a document.
    pub fn to_json(&self) -> (r: JsonValue)
        ensures
            r@ == update_document(self@),
    {
        let mut entries: Vec<JsonEntry> = Vec::new();
        entries.push(entry("check_on_startup", JsonValue::Bool(self.check_on_startup)));
        match &self.ignored_version {
            Some(v) => {
                entries.push(entry("ignored_version", text_value(v)));
            },
            None => {},
        }
        match &self.last_check_time {
            Some(t) => {
                entries.push(entry("last_check_time", JsonValue::Str(t.to_rfc3339())));
            },
            None => {},
        }
        entries.push(entry("update_url", text_value(&self.update_url)));
        let r = object(entries);
        assert(r@->Object_0 =~= update_document(self@)->Object_0);
        r
    }
}

/// The document of an optional text.
fn optional_text_value(text: &Option<String>) -> (r: JsonValue)
    ensures
        r@ == optional_text_document(optional_text(*text)),
{
    match text {
        Some(t) => text_value(t),
        None => JsonValue::Null,
    }
}

impl UpdateConfig {
    /// The section with every key of the schema.
    pub fn to_schema_json(&self) -> (r: JsonValue)
        ensures
            r@ == update_schema_document(self@),
    {
        let mut entries: Vec<JsonEntry> = Vec::new();
        entries.push(entry("check_on_startup", JsonValue::Bool(self.check_on_startup)));
        entries.push(entry("ignored_version", optional_text_value(&self.ignored_version)));
        entries.push(
            entry(
                "last_check_time",
                match &self.last_check_time {
                    Some(t) => JsonValue::Str(t.to_rfc3339()),
                    None => JsonValue::Null,
                },
            ),
        );
        entries.push(entry("update_url", text_value(&self.update_url)));
        let r = object(entries);
        assert(r@->Object_0 =~= update_schema_document(self@)->Object_0);
        r
    }
}

impl ScraperConfig {
    /// The section as a document.
    pub fn to_json(&self) -> (r: JsonValue)
        ensures
            r@ == scraper_document(self@),
    {
        let mut entries: Vec<JsonEntry> = Vec::new();
        entries.push(entry("request_interval_ms", unsigned_value(self.request_interval_ms)));
        entries.push(entry("user_agent", text_value(&self.user_agent)));
        let r = object(entries);
        assert(r@->Object_0 =~= scraper_document(self@)->Object_0);
        r
    }
}

impl AppConfig {
    /// The configuration with every key of the schema: the document that a
    /// stored one is merged into.
    pub fn to_schema_json(&self) -> (r: JsonValue)
        ensures
            r@ == schema_document(self@),
    {
        let mut entries: Vec<JsonEntry> = Vec::new();
        entries.push(entry("app", text_record("version", &self.app.version)));
        entries.push(entry("cache", text_record("dir_name", &self.cache.dir_name)));
        entries.push(entry("database", text_record("name", &self.database.name)));
        entries.push(entry("scraper", self.scraper.to_json()));
        entries.push(entry("update", self.update.to_schema_json()));
        entries.push(entry("window", self.window.to_json()));
        let r = object(entries);
        assert(r@->Object_0 =~= schema_document(self@)->Object_0);
        r
    }

    /// The configuration as a document, as it is stored.
    pub fn to_json(&self) -> (r: JsonValue)
        ensures
            r@ == config_document(self@),
    {
        let mut entries: Vec<JsonEntry> = Vec::new();
        entries.push(entry("app", text_record("version", &self.app.version)));
        entries.push(entry("cache", text_record("dir_name", &self.cache.dir_name)));
        entries.push(entry("database", text_record("name", &self.database.name)));
        entries.push(entry("scraper", self.scraper.to_json()));
        entries.push(entry("update", self.update.to_json()));
        entries.push(entry("window", self.window.to_json()));
        let r = object(entries);
        assert(r@->Object_0 =~= config_document(self@)->Object_0);
        r
    }
}

/// The text under `key` in a section with one text field.
pub open spec fn read_text_record(doc: Json, key: Seq<char>) -> Option<Seq<char>> {
    if holds_record(doc, 1) {
        required(field(doc, key, 0), |v: Json| as_text(v))
    } else {
        None
    }
}

/// The harvester section that `doc` holds.
pub open spec fn read_scraper(doc: Json) -> Option<ScraperView> {
    if holds_record(doc, 2) {
        match (
            required(field(doc, "request_interval_ms"@, 0), |v: Json| as_u64(v)),
            required(field(doc, "user_agent"@, 1), |v: Json| as_text(v)),
        ) {
            (Some(request_interval_ms), Some(user_agent)) => Some(
                ScraperView { request_interval_ms, user_agent },
            ),
            _ => None,
        }
    } else {
        None
    }
}

/// The update section that `doc` holds. A missing `check_on_startup` counts
/// as true.
pub open spec fn read_update(doc: Json) -> Option<UpdateView> {
    if holds_record(doc, 4) {
        match (
            defaulted(field(doc, "check_on_startup"@, 0), |v: Json| as_bool(v), true),
            required(field(doc, "update_url"@, 1), |v: Json| as_text(v)),
            optional(field(doc, "last_check_time"@, 2), doc is Object, |v: Json| as_timestamp(v)),
            optional(field(doc, "ignored_version"@, 3), doc is Object, |v: Json| as_text(v)),
        ) {
            (
                Some(check_on_startup),
                Some(update_url),
                Some(last_check_time),
                Some(ignored_version),
            ) => Some(UpdateView { check_on_startup, update_url, last_check_time, ignored_version }),
            _ => None,
        }
    } else {
        None
    }
}

/// The window section that `doc` holds. A missing position counts as
/// unset, a missing `resizable` as true.
pub open spec fn read_window(doc: Json) -> Option<WindowConfig> {
    if holds_record(doc, 9) {
        match (
            required(field(doc, "width"@, 0), |v: Json| as_u32(v)),
            required(field(doc, "height"@, 1), |v: Json| as_u32(v)),
            defaulted(field(doc, "x"@, 2), |v: Json| nullable(v, |w: Json| as_i32(w)), None),
            defaulted(field(doc, "y"@, 3), |v: Json| nullable(v, |w: Json| as_i32(w)), None),
            required(field(doc, "min_width"@, 4), |v: Json| as_u32(v)),
            required(field(doc, "min_height"@, 5), |v: Json| as_u32(v)),
            optional(field(doc, "max_width"@, 6), doc is Object, |v: Json| as_u32(v)),
            optional(field(doc, "max_height"@, 7), doc is Object, |v: Json| as_u32(v)),
            defaulted(field(doc, "resizable"@, 8), |v: Json| as_bool(v), true),
        ) {
            (
                Some(width),
                Some(height),
                Some(x),
                Some(y),
                Some(min_width),
                Some(min_height),
                Some(max_width),
                Some(max_height),
                Some(resizable),
            ) => Some(
                WindowConfig {
                    width,
                    height,
                    x,
                    y,
                    min_width,
                    min_height,
                    max_width,
                    max_height,
                    resizable,
                },
            ),
            _ => None,
        }
    } else {
        None
    }
}

/// The configuration that `doc` holds, and nothing where a section or a
/// field that is needed is missing, or a value is of the wrong kind. Keys
/// that the configuration does not know are passed over.
pub open spec fn read_config(doc: Json) -> Option<ConfigView> {
    if holds_record(doc, 6) {
        match (
            required(field(doc, "database"@, 0), |v: Json| read_text_record(v, "name"@)),
            required(field(doc, "cache"@, 1), |v: Json| read_text_record(v, "dir_name"@)),
            required(field(doc, "scraper"@, 2), |v: Json| read_scraper(v)),
            required(field(doc, "app"@, 3), |v: Json| read_text_record(v, "version"@)),
            required(field(doc, "update"@, 4), |v: Json| read_update(v)),
            required(field(doc, "window"@, 5), |v: Json| read_window(v)),
        ) {
            (
                Some(database_name),
                Some(cache_dir_name),
                Some(scraper),
                Some(version),
                Some(update),
                Some(window),
            ) => Some(
                ConfigView { database_name, cache_dir_name, scraper, version, update, window },
            ),
            _ => None,
        }
    } else {
        None
    }
}

/// Reads the text under `key` from a section with one text field.
fn text_record_from(doc: &JsonValue, key: &str) -> (r: Option<String>)
    ensures
        r matches Some(s) ==> read_text_record(doc@, key@) == Some(s@),
        r is None ==> read_text_record(doc@, key@) is None,
{
    if !can_hold_record(doc, 1) {
        return None;
    }
    match get_field(doc, key, 0) {
        FieldRef::Found(v) => read_text(v),
        _ => None,
    }
}

/// Reads a field that may be null and, in an object, absent.
fn optional_u32_from(f: FieldRef, in_object: bool) -> (r: Option<Option<u32>>)
    ensures
        r == optional(f@, in_object, |v: Json| as_u32(v)),
{
    match f {
        FieldRef::Found(v) => if is_null(v) {
            Some(None)
        } else {
            match read_u32(v) {
                Some(n) => Some(Some(n)),
                None => None,
            }
        },
        FieldRef::Absent => if in_object {
            Some(None)
        } else {
            None
        },
        FieldRef::Broken => None,
    }
}

/// Reads a position that may be null or absent.
fn position_from(f: FieldRef) -> (r: Option<Option<i32>>)
    ensures
        r == defaulted(f@, |v: Json| nullable(v, |w: Json| as_i32(w)), None),
{
    match f {
        FieldRef::Found(v) => if is_null(v) {
            Some(None)
        } else {
            match read_i32(v) {
                Some(n) => Some(Some(n)),
                None => None,
            }
        },
        FieldRef::Absent => Some(None),
        FieldRef::Broken => None,
    }
}

/// Reads a truth value that has the value `default` where it is absent.
fn flag_from(f: FieldRef, default: bool) -> (r: Option<bool>)
    ensures
        r == defaulted(f@, |v: Json| as_bool(v), default),
{
    match f {
        FieldRef::Found(v) => read_bool(v),
        FieldRef::Absent => Some(default),
        FieldRef::Broken => None,
    }
}

/// Reads an unsigned number that must be there.
fn required_u32_from(f: FieldRef) -> (r: Option<u32>)
    ensures
        r == required(f@, |v: Json| as_u32(v)),
{
    match f {
        FieldRef::Found(v) => read_u32(v),
        _ => None,
    }
}

/// Reads a text that must be there.
fn required_text_from(f: FieldRef) -> (r: Option<String>)
    ensures
        r matches Some(s) ==> required(f@, |v: Json| as_text(v)) == Some(s@),
        r is None ==> required(f@, |v: Json| as_text(v)) is None,
{
    match f {
        FieldRef::Found(v) => read_text(v),
        _ => None,
    }
}

impl WindowConfig {
    /// Reads the section from a document.
    pub fn from_json(doc: &JsonValue) -> (r: Option<WindowConfig>)
        ensures
            r == read_window(doc@),
    {
        if !can_hold_record(doc, 9) {
            return None;
        }
        let in_object = is_object(doc);
        let width = required_u32_from(get_field(doc, "width", 0));
        let height = required_u32_from(get_field(doc, "height", 1));
        let x = position_from(get_field(doc, "x", 2));
        let y = position_from(get_field(doc, "y", 3));
        let min_width = required_u32_from(get_field(doc, "min_width", 4));
        let min_height = required_u32_from(get_field(doc, "min_height", 5));
        let max_width = optional_u32_from(get_field(doc, "max_width", 6), in_object);
        let max_height = optional_u32_from(get_field(doc, "max_height", 7), in_object);
        let resizable = flag_from(get_field(doc, "resizable", 8), default_resizable());
        match (width, height, x, y, min_width, min_height, max_width, max_height, resizable) {
            (
                Some(width),
                Some(height),
                Some(x),
                Some(y),
                Some(min_width),
                Some(min_height),
                Some(max_width),
                Some(max_height),
                Some(resizable),
            ) => Some(
                WindowConfig {
                    width,
                    height,
                    x,
                    y,
                    min_width,
                    min_height,
                    max_width,
                    max_height,
                    resizable,
                },
            ),
            _ => None,
        }
    }
}

impl ScraperConfig {
    /// Reads the section from a document.
    pub fn from_json(doc: &JsonValue) -> (r: Option<ScraperConfig>)
        ensures
            r matches Some(s) ==> read_scraper(doc@) == Some(s@),
            r is None ==> read_scraper(doc@) is None,
    {
        if !can_hold_record(doc, 2) {
            return None;
        }
        let request_interval_ms = match get_field(doc, "request_interval_ms", 0) {
            FieldRef::Found(v) => read_u64(v),
            _ => None,
        };
        let user_agent = required_text_from(get_field(doc, "user_agent", 1));
        match (request_interval_ms, user_agent) {
            (Some(request_interval_ms), Some(user_agent)) => Some(
                ScraperConfig { request_interval_ms, user_agent },
            ),
            _ => None,
        }
    }
}

impl UpdateConfig {
    /// Reads the section from a document.
    pub fn from_json(doc: &JsonValue) -> (r: Option<UpdateConfig>)
        ensures
            r matches Some(u) ==> read_update(doc@) == Some(u@),
            r is None ==> read_update(doc@) is None,
    {
        if !can_hold_record(doc, 4) {
            return None;
        }
        let in_object = is_object(doc);
        let check_on_startup = flag_from(get_field(doc, "check_on_startup", 0), default_check_on_startup());
        let update_url = required_text_from(get_field(doc, "update_url", 1));
        let last_check_time: Option<Option<Timestamp>> = match get_field(doc, "last_check_time", 2) {
            FieldRef::Found(v) => if is_null(v) {
                Some(None)
            } else {
                match read_timestamp(v) {
                    Some(t) => Some(Some(t)),
                    None => None,
                }
            },
            FieldRef::Absent => if in_object {
                Some(None)
            } else {
                None
            },
            FieldRef::Broken => None,
        };
        let ignored_version: Option<Option<String>> = match get_field(doc, "ignored_version", 3) {
            FieldRef::Found(v) => if is_null(v) {
                Some(None)
            } else {
                match read_text(v) {
                    Some(t) => Some(Some(t)),
                    None => None,
                }
            },
            FieldRef::Absent => if in_object {
                Some(None)
            } else {
                None
            },
            FieldRef::Broken => None,
        };
        match (check_on_startup, update_url, last_check_time, ignored_version) {
            (
                Some(check_on_startup),
                Some(update_url),
                Some(last_check_time),
                Some(ignored_version),
            ) => Some(UpdateConfig { check_on_startup, update_url, last_check_time, ignored_version }),
            _ => None,
        }
    }
}

impl AppConfig {
    /// Reads a configuration from a document.
    pub fn from_json(doc: &JsonValue) -> (r: Option<AppConfig>)
        ensures
            r matches Some(c) ==> read_config(doc@) == Some(c@),
            r is None ==> read_config(doc@) is None,
    {
        if !can_hold_record(doc, 6) {
            return None;
        }
        let database = match get_field(doc, "database", 0) {
            FieldRef::Found(v) => text_record_from(v, "name"),
            _ => None,
        };
        let cache = match get_field(doc, "cache", 1) {
            FieldRef::Found(v) => text_record_from(v, "dir_name"),
            _ => None,
        };
        let scraper = match get_field(doc, "scraper", 2) {
            FieldRef::Found(v) => ScraperConfig::from_json(v),
            _ => None,
        };
        let app = match get_field(doc, "app", 3) {
            FieldRef::Found(v) => text_record_from(v, "version"),
            _ => None,
        };
        let update = match get_field(doc, "update", 4) {
            FieldRef::Found(v) => UpdateConfig::from_json(v),
            _ => None,
        };
        let window = match get_field(doc, "window", 5) {
            FieldRef::Found(v) => WindowConfig::from_json(v),
            _ => None,
        };
        match (database, cache, scraper, app, update, window) {
            (Some(name), Some(dir_name), Some(scraper), Some(version), Some(update), Some(window)) => {
                Some(
                    AppConfig {
                        database: DatabaseConfig { name },
                        cache: CacheConfig { dir_name },
                        scraper,
                        app: AppInfo { version },
                        update,
                        window,
                    },
                )
            },
            _ => None,
        }
    }
}

/// What tells the keys of the window section apart.
proof fn lemma_window_keys()
    ensures
        "height"@.len() == 6,
        "width"@.len() == 5,
        "max_height"@.len() == 10 && "max_height"@[1] == 'a',
        "min_height"@.len() == 10 && "min_height"@[1] == 'i',
        "max_width"@.len() == 9 && "max_width"@[1] == 'a',
        "min_width"@.len() == 9 && "min_width"@[1] == 'i',
        "resizable"@.len() == 9 && "resizable"@[1] == 'e',
        "x"@.len() == 1 && "x"@[0] == 'x',
        "y"@.len() == 1 && "y"@[0] == 'y',
{
    reveal_strlit("height");
    reveal_strlit("max_height");
    reveal_strlit("max_width");
    reveal_strlit("min_height");
    reveal_strlit("min_width");
    reveal_strlit("resizable");
    reveal_strlit("width");
    reveal_strlit("x");
    reveal_strlit("y");
}

/// What tells the keys of the update section apart.
proof fn lemma_update_keys()
    ensures
        "check_on_startup"@.len() == 16,
        "ignored_version"@.len() == 15 && "ignored_version"@[0] == 'i',
        "last_check_time"@.len() == 15 && "last_check_time"@[0] == 'l',
        "update_url"@.len() == 10,
{
    reveal_strlit("check_on_startup");
    reveal_strlit("ignored_version");
    reveal_strlit("last_check_time");
    reveal_strlit("update_url");
}

/// What tells the keys of the configuration apart.
proof fn lemma_section_keys()
    ensures
        "app"@.len() == 3,
        "cache"@.len() == 5,
        "database"@.len() == 8,
        "scraper"@.len() == 7,
        "update"@.len() == 6 && "update"@[0] == 'u',
        "window"@.len() == 6 && "window"@[0] == 'w',
        "request_interval_ms"@.len() == 19,
        "user_agent"@.len() == 10,
{
    reveal_strlit("app");
    reveal_strlit("cache");
    reveal_strlit("database");
    reveal_strlit("scraper");
    reveal_strlit("update");
    reveal_strlit("window");
    reveal_strlit("request_interval_ms");
    reveal_strlit("user_agent");
}

/// Where each key of the window section stands in its document.
pub proof fn lemma_window_lookups(w: WindowConfig)
    ensures
        window_document(w) matches Json::Object(e) && {
            &&& lookup(e, "height"@) == Some(int_document(w.height as int))
            &&& lookup(e, "max_height"@) == Some(optional_u32_document(w.max_height))
            &&& lookup(e, "max_width"@) == Some(optional_u32_document(w.max_width))
            &&& lookup(e, "min_height"@) == Some(int_document(w.min_height as int))
            &&& lookup(e, "min_width"@) == Some(int_document(w.min_width as int))
            &&& lookup(e, "resizable"@) == Some(Json::Bool(w.resizable))
            &&& lookup(e, "width"@) == Some(int_document(w.width as int))
            &&& lookup(e, "x"@) == Some(optional_i32_document(w.x))
            &&& lookup(e, "y"@) == Some(optional_i32_document(w.y))
        },
{
    lemma_window_keys();
    let entries = window_document(w)->Object_0;
    lemma_lookup_at(entries, "height"@, 0);
    lemma_lookup_at(entries, "max_height"@, 1);
    lemma_lookup_at(entries, "max_width"@, 2);
    lemma_lookup_at(entries, "min_height"@, 3);
    lemma_lookup_at(entries, "min_width"@, 4);
    lemma_lookup_at(entries, "resizable"@, 5);
    lemma_lookup_at(entries, "width"@, 6);
    lemma_lookup_at(entries, "x"@, 7);
    lemma_lookup_at(entries, "y"@, 8);
}

/// Where each key of the update section stands in its document.
pub proof fn lemma_update_lookups(u: UpdateView)
    ensures
        update_document(u) matches Json::Object(e) && {
            &&& lookup(e, "check_on_startup"@) == Some(Json::Bool(u.check_on_startup))
            &&& lookup(e, "update_url"@) == Some(Json::Str(u.update_url))
            &&& lookup(e, "ignored_version"@) == (match u.ignored_version {
                Some(v) => Some(Json::Str(v)),
                None => None,
            })
            &&& lookup(e, "last_check_time"@) == (match u.last_check_time {
                Some(t) => Some(Json::Str(t)),
                None => None,
            })
        },
{
    lemma_update_keys();
    let entries = update_document(u)->Object_0;
    lemma_lookup_at(entries, "check_on_startup"@, 0);
    match (u.ignored_version, u.last_check_time) {
        (Some(_), Some(_)) => {
            lemma_lookup_at(entries, "ignored_version"@, 1);
            lemma_lookup_at(entries, "last_check_time"@, 2);
            lemma_lookup_at(entries, "update_url"@, 3);
        },
        (Some(_), None) => {
            lemma_lookup_at(entries, "ignored_version"@, 1);
            lemma_lookup_none(entries, "last_check_time"@);
            lemma_lookup_at(entries, "update_url"@, 2);
        },
        (None, Some(_)) => {
            lemma_lookup_none(entries, "ignored_version"@);
            lemma_lookup_at(entries, "last_check_time"@, 1);
            lemma_lookup_at(entries, "update_url"@, 2);
        },
        (None, None) => {
            lemma_lookup_none(entries, "ignored_version"@);
            lemma_lookup_none(entries, "last_check_time"@);
            lemma_lookup_at(entries, "update_url"@, 1);
        },
    }
}

/// Where each key of the update section stands in the document that has
/// every key of the schema.
pub proof fn lemma_update_schema_lookups(u: UpdateView)
    ensures
        update_schema_document(u) matches Json::Object(e) && {
            &&& lookup(e, "check_on_startup"@) == Some(Json::Bool(u.check_on_startup))
            &&& lookup(e, "ignored_version"@) == Some(optional_text_document(u.ignored_version))
            &&& lookup(e, "last_check_time"@) == Some(optional_text_document(u.last_check_time))
            &&& lookup(e, "update_url"@) == Some(Json::Str(u.update_url))
        },
{
    lemma_update_keys();
    let entries = update_schema_document(u)->Object_0;
    lemma_lookup_at(entries, "check_on_startup"@, 0);
    lemma_lookup_at(entries, "ignored_version"@, 1);
    lemma_lookup_at(entries, "last_check_time"@, 2);
    lemma_lookup_at(entries, "update_url"@, 3);
}

/// Where each key of the harvester section stands in its document.
pub proof fn lemma_scraper_lookups(s: ScraperView)
    ensures
        scraper_document(s) matches Json::Object(e) && {
            &&& lookup(e, "request_interval_ms"@) == Some(
                int_document(s.request_interval_ms as int),
            )
            &&& lookup(e, "user_agent"@) == Some(Json::Str(s.user_agent))
        },
{
    lemma_section_keys();
    let entries = scraper_document(s)->Object_0;
    lemma_lookup_at(entries, "request_interval_ms"@, 0);
    lemma_lookup_at(entries, "user_agent"@, 1);
}

/// Where each section stands in the document of a configuration.
pub proof fn lemma_config_lookups(c: ConfigView)
    ensures
        config_document(c) matches Json::Object(e) && {
            &&& lookup(e, "app"@) == Some(text_record_document("version"@, c.version))
            &&& lookup(e, "cache"@) == Some(text_record_document("dir_name"@, c.cache_dir_name))
            &&& lookup(e, "database"@) == Some(text_record_document("name"@, c.database_name))
            &&& lookup(e, "scraper"@) == Some(scraper_document(c.scraper))
            &&& lookup(e, "update"@) == Some(update_document(c.update))
            &&& lookup(e, "window"@) == Some(window_document(c.window))
        },
{
    lemma_section_keys();
    let entries = config_document(c)->Object_0;
    lemma_lookup_at(entries, "app"@, 0);
    lemma_lookup_at(entries, "cache"@, 1);
    lemma_lookup_at(entries, "database"@, 2);
    lemma_lookup_at(entries, "scraper"@, 3);
    lemma_lookup_at(entries, "update"@, 4);
    lemma_lookup_at(entries, "window"@, 5);
}

/// Where each section stands in the document that has every key of the
/// schema.
pub proof fn lemma_schema_lookups(c: ConfigView)
    ensures
        schema_document(c) matches Json::Object(e) && {
            &&& lookup(e, "app"@) == Some(text_record_document("version"@, c.version))
            &&& lookup(e, "cache"@) == Some(text_record_document("dir_name"@, c.cache_dir_name))
            &&& lookup(e, "database"@) == Some(text_record_document("name"@, c.database_name))
            &&& lookup(e, "scraper"@) == Some(scraper_document(c.scraper))
            &&& lookup(e, "update"@) == Some(update_schema_document(c.update))
            &&& lookup(e, "window"@) == Some(window_document(c.window))
        },
{
    lemma_section_keys();
    let entries = schema_document(c)->Object_0;
    lemma_lookup_at(entries, "app"@, 0);
    lemma_lookup_at(entries, "cache"@, 1);
    lemma_lookup_at(entries, "database"@, 2);
    lemma_lookup_at(entries, "scraper"@, 3);
    lemma_lookup_at(entries, "update"@, 4);
    lemma_lookup_at(entries, "window"@, 5);
}

/// The window section reads back from its document as it is.
pub proof fn lemma_read_window_document(w: WindowConfig)
    ensures
        read_window(window_document(w)) == Some(w),
{
    lemma_window_lookups(w);
}

/// The harvester section reads back from its document as it is.
pub proof fn lemma_read_scraper_document(s: ScraperView)
    ensures
        read_scraper(scraper_document(s)) == Some(s),
{
    lemma_scraper_lookups(s);
}

/// The update section reads back from its document as it is, provided that
/// the time of the last check, where it is set, is in the form in which
/// instants are written.
pub proof fn lemma_read_update_document(u: UpdateView)
    requires
        u.last_check_time matches Some(t) ==> utc_timestamp(t) == Some(t),
    ensures
        read_update(update_document(u)) == Some(u),
{
    lemma_update_lookups(u);
}

/// A section with one text field reads back from its document as it is.
pub proof fn lemma_read_text_record_document(key: Seq<char>, text: Seq<char>)
    ensures
        read_text_record(text_record_document(key, text), key) == Some(text),
{
    lemma_lookup_at(text_record_document(key, text)->Object_0, key, 0);
}

/// A configuration reads back from its document as it is, provided that
/// the time of the last check, where it is set, is in the form in which
/// instants are written.
pub proof fn lemma_read_config_document(c: ConfigView)
    requires
        c.update.last_check_time matches Some(t) ==> utc_timestamp(t) == Some(t),
    ensures
        read_config(config_document(c)) == Some(c),
{
    lemma_config_lookups(c);
    lemma_read_text_record_document("version"@, c.version);
    lemma_read_text_record_document("dir_name"@, c.cache_dir_name);
    lemma_read_text_record_document("name"@, c.database_name);
    lemma_read_scraper_document(c.scraper);
    lemma_read_update_document(c.update);
    lemma_read_window_document(c.window);
}

/// The update section reads back as it is from the document that has every
/// key of the schema, provided that the time of the last check, where it is
/// set, is in the form in which instants are written.
pub proof fn lemma_read_update_schema_document(u: UpdateView)
    requires
        u.last_check_time matches Some(t) ==> utc_timestamp(t) == Some(t),
    ensures
        read_update(update_schema_document(u)) == Some(u),
{
    lemma_update_schema_lookups(u);
}

/// A configuration reads back as it is from the document that has every key
/// of the schema, provided that the time of the last check, where it is
/// set, is in the form in which instants are written.
pub proof fn lemma_read_schema_document(c: ConfigView)
    requires
        c.update.last_check_time matches Some(t) ==> utc_timestamp(t) == Some(t),
    ensures
        read_config(schema_document(c)) == Some(c),
{
    lemma_schema_lookups(c);
    lemma_read_text_record_document("version"@, c.version);
    lemma_read_text_record_document("dir_name"@, c.cache_dir_name);
    lemma_read_text_record_document("name"@, c.database_name);
    lemma_read_scraper_document(c.scraper);
    lemma_read_update_schema_document(c.update);
    lemma_read_window_document(c.window);
}

} // verus!
