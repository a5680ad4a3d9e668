//! The storage root, the image files under it, and the two JSON documents
//! the library keeps: the history of stored wallpapers and the configuration
//! that may move the storage root.
//!
//! Reading and writing files is the caller's part. The functions here say
//! where each file lies, what a document read from disk holds (a document
//! that is missing or malformed counts as empty), and what to write back.
use vstd::prelude::*;
use crate::json::{Json, get, lemma_member_found, get_spec, str_spec, int_spec};
use crate::paths::{text_opt, joined, join_path, platform_picture_dir, platform_data_local_dir, platform_config_dir};

verus! {

/// The intended pixel size of an image.
#[derive(Clone, Copy, Debug, PartialEq, Eq, Structural)]
pub struct Resolution {
    pub width: u32,
    pub height: u32,
}

/// One stored image and where it came from.
#[derive(Clone, Debug)]
pub struct WallpaperRecord {
    pub id: String,
    pub prompt: String,
    pub image_path: String,
    pub created_at: i64,
    pub resolution: Resolution,
}

/// The fields of a [`WallpaperRecord`] as values.
pub struct RecordView {
    pub id: Seq<char>,
    pub prompt: Seq<char>,
    pub image_path: Seq<char>,
    pub created_at: i64,
    pub width: u32,
    pub height: u32,
}

impl View for WallpaperRecord {
    type V = RecordView;

    open spec fn view(&self) -> RecordView {
        RecordView {
            id: self.id@,
            prompt: self.prompt@,
            image_path: self.image_path@,
            created_at: self.created_at,
            width: self.resolution.width,
            height: self.resolution.height,
        }
    }
}

/// The persisted override of the storage root.
#[derive(Debug)]
pub struct AppConfig {
    pub storage_path: Option<String>,
}

impl Default for AppConfig {
    /// No override: the storage root is the platform's default.
    fn default() -> (r: AppConfig)
        ensures
            r.storage_path is None,
    {
        AppConfig { storage_path: None }
    }
}

impl AppConfig {
    pub open spec fn path(self) -> Option<Seq<char>> {
        text_opt(self.storage_path)
    }
}

/// The name of the folder the library keeps under a platform directory.
pub const APP_DIR: &'static str = "ai-wallpaper-app";

/// The configuration folder's name under the temporary directory.
pub const FALLBACK_CONFIG_DIR: &'static str = "ai-wallpaper-app-config";

/// The prompt recorded for an imported image.
pub const IMPORTED_PROMPT: &'static str = "Imported Image";

/// The resolution recorded for an imported image, whose real size is not read.
pub const IMPORTED_WIDTH: u32 = 1920;

pub const IMPORTED_HEIGHT: u32 = 1080;

// ---------------------------------------------------------------------------
// Where things lie

/// The storage root: the configured directory when there is one and it
/// exists or could be created; else the first of the pictures directory, the
/// local data directory and the temporary directory that the platform has,
/// with the library's folder under it.
pub open spec fn storage_dir(
    configured: Option<Seq<char>>,
    configured_usable: bool,
    pictures: Option<Seq<char>>,
    data_local: Option<Seq<char>>,
    temp: Seq<char>,
) -> Seq<char> {
    if configured is Some && configured_usable {
        configured->0
    } else if pictures is Some {
        joined(pictures->0, APP_DIR@)
    } else if data_local is Some {
        joined(data_local->0, APP_DIR@)
    } else {
        joined(temp, APP_DIR@)
    }
}

/// The configuration directory: the library's folder under the platform's
/// configuration directory, else a folder under the temporary directory.
pub open spec fn config_dir(platform: Option<Seq<char>>, temp: Seq<char>) -> Seq<char> {
    match platform {
        Some(c) => joined(c, APP_DIR@),
        None => joined(temp, FALLBACK_CONFIG_DIR@),
    }
}

pub open spec fn images_dir_spec(root: Seq<char>) -> Seq<char> {
    joined(root, "images"@)
}

/// Where the image with identifier `id` is stored. The extension is always
/// `.png`, whatever the bytes are.
pub open spec fn image_path_spec(root: Seq<char>, id: Seq<char>) -> Seq<char> {
    joined(images_dir_spec(root), id + ".png"@)
}

pub open spec fn history_file_spec(root: Seq<char>) -> Seq<char> {
    joined(root, "history.json"@)
}

pub open spec fn config_file_spec(dir: Seq<char>) -> Seq<char> {
    joined(dir, "config.json"@)
}

/// The storage root, from the configuration, whether its directory exists or
/// could be created, and the platform's directories.
pub fn choose_storage_dir(
    config: &AppConfig,
    configured_usable: bool,
    pictures: Option<String>,
    data_local: Option<String>,
    temp_dir: &str,
) -> (r: String)
    ensures
        r@ == storage_dir(
            config.path(),
            configured_usable,
            text_opt(pictures),
            text_opt(data_local),
            temp_dir@,
        ),
{
    match &config.storage_path {
        Some(p) => if configured_usable {
            return p.clone();
        },
        None => {},
    }
    match pictures {
        Some(p) => join_path(p.as_str(), APP_DIR),
        None => match data_local {
            Some(d) => join_path(d.as_str(), APP_DIR),
            None => join_path(temp_dir, APP_DIR),
        },
    }
}

/// The storage root, asking the platform for its pictures and local data
/// directories only when the configured directory is not used.
pub fn get_storage_dir(config: &AppConfig, configured_usable: bool, temp_dir: &str) -> (r: String)
    ensures
        exists|pictures: Option<Seq<char>>, data_local: Option<Seq<char>>|
            r@ == storage_dir(config.path(), configured_usable, pictures, data_local, temp_dir@),
{
    if configured_usable && config.storage_path.is_some() {
        let r = choose_storage_dir(config, configured_usable, None, None, temp_dir);
        assert(r@ == storage_dir(config.path(), configured_usable, None, None, temp_dir@));
        return r;
    }
    let pictures = platform_picture_dir();
    let data_local = if pictures.is_some() { None } else { platform_data_local_dir() };
    let ghost gp = text_opt(pictures);
    let ghost gd = text_opt(data_local);
    let r = choose_storage_dir(config, configured_usable, pictures, data_local, temp_dir);
    assert(r@ == storage_dir(config.path(), configured_usable, gp, gd, temp_dir@));
    r
}

/// The configuration directory, from the platform's one if it has one.
pub fn choose_config_dir(platform: Option<String>, temp_dir: &str) -> (r: String)
    ensures
        r@ == config_dir(text_opt(platform), temp_dir@),
{
    match platform {
        Some(c) => join_path(c.as_str(), APP_DIR),
        None => join_path(temp_dir, FALLBACK_CONFIG_DIR),
    }
}

/// The configuration directory, asking the platform for its own.
pub fn get_config_dir(temp_dir: &str) -> (r: String)
    ensures
        exists|platform: Option<Seq<char>>| r@ == config_dir(platform, temp_dir@),
{
    let platform = platform_config_dir();
    let ghost gc = text_opt(platform);
    let r = choose_config_dir(platform, temp_dir);
    assert(r@ == config_dir(gc, temp_dir@));
    r
}

/// The directory holding the stored images.
pub fn images_dir(root: &str) -> (r: String)
    ensures
        r@ == images_dir_spec(root@),
{
    join_path(root, "images")
}

/// Where the image with identifier `id` is stored under `root`.
pub fn image_path(root: &str, id: &str) -> (r: String)
    ensures
        r@ == image_path_spec(root@, id@),
{
    let dir = images_dir(root);
    let mut name = String::from_str(id);
    name.append(".png");
    join_path(dir.as_str(), name.as_str())
}

/// The history document under `root`.
pub fn history_file(root: &str) -> (r: String)
    ensures
        r@ == history_file_spec(root@),
{
    join_path(root, "history.json")
}

/// The configuration document in the configuration directory.
pub fn config_file(dir: &str) -> (r: String)
    ensures
        r@ == config_file_spec(dir@),
{
    join_path(dir, "config.json")
}

// ---------------------------------------------------------------------------
// The history document: `{ "records": [ record, ... ] }`, each record
// `{ "id", "prompt", "imagePath", "createdAt", "resolution": { "width", "height" } }`.

/// The integer `j`, when it is one that fits a `u32`.
pub open spec fn u32_spec(j: Option<Json>) -> Option<u32> {
    match j {
        Some(Json::Int(n)) => if 0 <= n <= u32::MAX { Some(n as u32) } else { None },
        _ => None,
    }
}

/// The record a JSON value describes, if it describes one.
pub open spec fn record_of_json(j: Json) -> Option<RecordView> {
    let id = str_spec(get_spec(j, "id"@));
    let prompt = str_spec(get_spec(j, "prompt"@));
    let image_path = str_spec(get_spec(j, "imagePath"@));
    let created_at = int_spec(get_spec(j, "createdAt"@));
    let res = get_spec(j, "resolution"@);
    if id is Some && prompt is Some && image_path is Some && created_at is Some && res is Some
        && u32_spec(get_spec(res->0, "width"@)) is Some
        && u32_spec(get_spec(res->0, "height"@)) is Some {
        Some(RecordView {
            id: id->0,
            prompt: prompt->0,
            image_path: image_path->0,
            created_at: created_at->0,
            width: u32_spec(get_spec(res->0, "width"@))->0,
            height: u32_spec(get_spec(res->0, "height"@))->0,
        })
    } else {
        None
    }
}

/// `j` is the string `t`.
pub open spec fn is_text(j: Json, t: Seq<char>) -> bool {
    match j {
        Json::Str(s) => s@ == t,
        _ => false,
    }
}

/// `j` is the integer `n`.
pub open spec fn is_int(j: Json, n: int) -> bool {
    match j {
        Json::Int(v) => v == n,
        _ => false,
    }
}

/// `j` is the object written for `r`: exactly the members `id`, `prompt`,
/// `imagePath`, `createdAt` and `resolution` (itself exactly `width` and
/// `height`), in that order.
pub open spec fn is_record_json(j: Json, r: RecordView) -> bool {
    match j {
        Json::Object(f) => {
            &&& f@.len() == 5
            &&& f@[0].0@ == "id"@ && is_text(f@[0].1, r.id)
            &&& f@[1].0@ == "prompt"@ && is_text(f@[1].1, r.prompt)
            &&& f@[2].0@ == "imagePath"@ && is_text(f@[2].1, r.image_path)
            &&& f@[3].0@ == "createdAt"@ && is_int(f@[3].1, r.created_at as int)
            &&& f@[4].0@ == "resolution"@
            &&& match f@[4].1 {
                Json::Object(g) => {
                    &&& g@.len() == 2
                    &&& g@[0].0@ == "width"@ && is_int(g@[0].1, r.width as int)
                    &&& g@[1].0@ == "height"@ && is_int(g@[1].1, r.height as int)
                },
                _ => false,
            }
        },
        _ => false,
    }
}

/// `doc` is the history document written for `records`: exactly one member,
/// `records`, an array of the records' objects in order.
pub open spec fn is_history_json(doc: Json, records: Seq<RecordView>) -> bool {
    match doc {
        Json::Object(f) => {
            &&& f@.len() == 1
            &&& f@[0].0@ == "records"@
            &&& match f@[0].1 {
                Json::Array(items) => {
                    &&& items@.len() == records.len()
                    &&& forall|i: int| 0 <= i < records.len() ==> is_record_json(#[trigger] items@[i], records[i])
                },
                _ => false,
            }
        },
        _ => false,
    }
}

/// The records a JSON array lists, if every entry describes one.
pub open spec fn records_of_json(items: Seq<Json>) -> Option<Seq<RecordView>> {
    if forall|i: int| 0 <= i < items.len() ==> (#[trigger] record_of_json(items[i])) is Some {
        Some(items.map_values(|j: Json| record_of_json(j)->0))
    } else {
        None
    }
}

/// The records a history document holds, if it is one.
pub open spec fn history_of_json(doc: Json) -> Option<Seq<RecordView>> {
    match get_spec(doc, "records"@) {
        Some(Json::Array(items)) => records_of_json(items@),
        _ => None,
    }
}

/// The history as read from disk: `stored` is the document, or `None` when
/// the file is absent or not JSON. Anything that is not a history document
/// reads as an empty history.
pub open spec fn stored_records(stored: Option<Json>) -> Seq<RecordView> {
    match stored {
        Some(doc) => match history_of_json(doc) {
            Some(records) => records,
            None => Seq::empty(),
        },
        None => Seq::empty(),
    }
}

pub open spec fn views(records: Seq<WallpaperRecord>) -> Seq<RecordView> {
    records.map_values(|r: WallpaperRecord| r@)
}

fn text_of(j: Option<&Json>) -> (r: Option<String>)
    ensures
        text_opt(r) == str_spec(match j { Some(v) => Some(*v), None => None }),
{
    match j {
        Some(Json::Str(s)) => Some(s.clone()),
        _ => None,
    }
}

fn u32_of(j: Option<&Json>) -> (r: Option<u32>)
    ensures
        r == u32_spec(match j { Some(v) => Some(*v), None => None }),
{
    match j {
        Some(Json::Int(n)) => if 0 <= *n && *n <= 0xffff_ffffi64 { Some(*n as u32) } else { None },
        _ => None,
    }
}

/// The record a JSON value describes, if it describes one.
pub fn record_from_json(j: &Json) -> (r: Option<WallpaperRecord>)
    ensures
        match r {
            Some(rec) => record_of_json(*j) == Some(rec@),
            None => record_of_json(*j) is None,
        },
{
    let id = text_of(get(j, "id"));
    let prompt = text_of(get(j, "prompt"));
    let image_path = text_of(get(j, "imagePath"));
    let created_at = match get(j, "createdAt") {
        Some(Json::Int(n)) => Some(*n),
        _ => None,
    };
    let res = get(j, "resolution");
    let (width, height) = match res {
        Some(rv) => (u32_of(get(rv, "width")), u32_of(get(rv, "height"))),
        None => (None, None),
    };
    match (id, prompt, image_path, created_at, width, height) {
        (Some(id), Some(prompt), Some(image_path), Some(created_at), Some(width), Some(height)) => {
            Some(WallpaperRecord { id, prompt, image_path, created_at, resolution: Resolution { width, height } })
        },
        _ => None,
    }
}

fn member_text(key: &str, value: Json) -> (r: (String, Json))
    ensures
        r.0@ == key@,
        r.1 == value,
{
    (String::from_str(key), value)
}

/// The JSON value describing a record.
pub fn record_to_json(rec: &WallpaperRecord) -> (r: Json)
    ensures
        is_record_json(r, rec@),
        record_of_json(r) == Some(rec@),
{
    proof {
        reveal_strlit("id");
        reveal_strlit("prompt");
        reveal_strlit("imagePath");
        reveal_strlit("createdAt");
        reveal_strlit("resolution");
        reveal_strlit("width");
        reveal_strlit("height");
    }
    let mut size: Vec<(String, Json)> = Vec::new();
    size.push(member_text("width", Json::Int(rec.resolution.width as i64)));
    size.push(member_text("height", Json::Int(rec.resolution.height as i64)));
    let mut fields: Vec<(String, Json)> = Vec::new();
    fields.push(member_text("id", Json::Str(rec.id.clone())));
    fields.push(member_text("prompt", Json::Str(rec.prompt.clone())));
    fields.push(member_text("imagePath", Json::Str(rec.image_path.clone())));
    fields.push(member_text("createdAt", Json::Int(rec.created_at)));
    fields.push(member_text("resolution", Json::Object(size)));
    let r = Json::Object(fields);
    proof {
        let f = fields@;
        let g = size@;
        assert("id"@.len() == 2);
        assert("prompt"@.len() == 6);
        assert("imagePath"@.len() == 9 && "imagePath"@[0] == 'i');
        assert("createdAt"@.len() == 9 && "createdAt"@[0] == 'c');
        assert("resolution"@.len() == 10);
        assert("width"@.len() == 5);
        assert("height"@.len() == 6);
        lemma_member_found(f, "id"@, 0);
        lemma_member_found(f, "prompt"@, 1);
        lemma_member_found(f, "imagePath"@, 2);
        lemma_member_found(f, "createdAt"@, 3);
        lemma_member_found(f, "resolution"@, 4);
        lemma_member_found(g, "width"@, 0);
        lemma_member_found(g, "height"@, 1);
    }
    r
}

/// The records a history document holds, oldest first. `stored` is the
/// document read from disk, or `None` when the file is absent or is not JSON;
/// a document that is not a history reads as an empty one.
pub fn get_history(stored: &Option<Json>) -> (r: Vec<WallpaperRecord>)
    ensures
        views(r@) == stored_records(*stored),
{
    let doc = match stored {
        Some(doc) => doc,
        None => {
            assert(views(Seq::<WallpaperRecord>::empty()) =~= Seq::<RecordView>::empty());
            return Vec::new();
        },
    };
    let items = match get(doc, "records") {
        Some(Json::Array(items)) => items,
        _ => {
            assert(views(Seq::<WallpaperRecord>::empty()) =~= Seq::<RecordView>::empty());
            return Vec::new();
        },
    };
    let mut out: Vec<WallpaperRecord> = Vec::new();
    let mut i: usize = 0;
    while i < items.len()
        invariant
            i <= items@.len(),
            out@.len() == i,
            *stored == Some(*doc),
            get_spec(*doc, "records"@) == Some(Json::Array(*items)),
            forall|k: int| 0 <= k < i ==> record_of_json(#[trigger] items@[k]) == Some(out@[k]@),
        decreases items.len() - i,
    {
        match record_from_json(&items[i]) {
            Some(rec) => {
                out.push(rec);
            },
            None => {
                assert(records_of_json(items@) is None);
                assert(views(Seq::<WallpaperRecord>::empty()) =~= Seq::<RecordView>::empty());
                return Vec::new();
            },
        }
        i = i + 1;
    }
    assert(views(out@) =~= items@.map_values(|j: Json| record_of_json(j)->0));
    out
}

/// The history document listing `records`.
pub fn history_to_json(records: &Vec<WallpaperRecord>) -> (r: Json)
    ensures
        is_history_json(r, views(records@)),
        history_of_json(r) == Some(views(records@)),
{
    let mut items: Vec<Json> = Vec::new();
    let mut i: usize = 0;
    while i < records.len()
        invariant
            i <= records@.len(),
            items@.len() == i,
            forall|k: int| 0 <= k < i ==> record_of_json(#[trigger] items@[k]) == Some(records@[k]@),
            forall|k: int| 0 <= k < i ==> is_record_json(#[trigger] items@[k], records@[k]@),
        decreases records.len() - i,
    {
        items.push(record_to_json(&records[i]));
        i = i + 1;
    }
    let ghost list = items@;
    let mut fields: Vec<(String, Json)> = Vec::new();
    fields.push(member_text("records", Json::Array(items)));
    let r = Json::Object(fields);
    proof {
        lemma_member_found(fields@, "records"@, 0);
        assert(list.map_values(|j: Json| record_of_json(j)->0) =~= views(records@));
    }
    r
}

/// The history document to write back once `record` is appended to the one
/// read from disk (`None` when the file is absent or is not JSON).
pub fn save_record(stored: &Option<Json>, record: WallpaperRecord) -> (r: Json)
    ensures
        is_history_json(r, stored_records(*stored).push(record@)),
        history_of_json(r) == Some(stored_records(*stored).push(record@)),
{
    let mut records = get_history(stored);
    let ghost before = records@;
    records.push(record);
    assert(views(records@) =~= views(before).push(record@));
    history_to_json(&records)
}

// ---------------------------------------------------------------------------
// The configuration document: `{ "storage_path": string | null }`.

/// The configured storage root a JSON value describes, if it describes a
/// configuration: an object whose `storage_path` is a string, or is null or
/// missing (no override).
pub open spec fn config_of_json(doc: Json) -> Option<Option<Seq<char>>> {
    match doc {
        Json::Object(_) => match get_spec(doc, "storage_path"@) {
            None => Some(None),
            Some(Json::Null) => Some(None),
            Some(Json::Str(p)) => Some(Some(p@)),
            _ => None,
        },
        _ => None,
    }
}

/// `doc` is the configuration document written for `path`: exactly one
/// member, `storage_path`, a string or null.
pub open spec fn is_config_json(doc: Json, path: Option<Seq<char>>) -> bool {
    match doc {
        Json::Object(f) => {
            &&& f@.len() == 1
            &&& f@[0].0@ == "storage_path"@
            &&& match path {
                Some(p) => is_text(f@[0].1, p),
                None => f@[0].1 is Null,
            }
        },
        _ => false,
    }
}

/// The configured storage root as read from disk: `stored` is the document,
/// or `None` when the file is absent or is not JSON. Anything that is not a
/// configuration reads as no override.
pub open spec fn stored_storage_path(stored: Option<Json>) -> Option<Seq<char>> {
    match stored {
        Some(doc) => match config_of_json(doc) {
            Some(path) => path,
            None => None,
        },
        None => None,
    }
}

/// The configuration read from disk (`None` when the file is absent or is
/// not JSON); anything that is not a configuration reads as the default.
pub fn load_config(stored: &Option<Json>) -> (r: AppConfig)
    ensures
        r.path() == stored_storage_path(*stored),
{
    match stored {
        Some(doc) => match doc {
            Json::Object(_) => match get(doc, "storage_path") {
                None => AppConfig { storage_path: None },
                Some(Json::Null) => AppConfig { storage_path: None },
                Some(Json::Str(p)) => AppConfig { storage_path: Some(p.clone()) },
                _ => AppConfig { storage_path: None },
            },
            _ => AppConfig { storage_path: None },
        },
        None => AppConfig { storage_path: None },
    }
}

/// The configuration document to write for `config`.
pub fn save_config(config: &AppConfig) -> (r: Json)
    ensures
        is_config_json(r, config.path()),
        config_of_json(r) == Some(config.path()),
{
    let value = match &config.storage_path {
        Some(p) => Json::Str(p.clone()),
        None => Json::Null,
    };
    let mut fields: Vec<(String, Json)> = Vec::new();
    fields.push(member_text("storage_path", value));
    let r = Json::Object(fields);
    proof {
        lemma_member_found(fields@, "storage_path"@, 0);
    }
    r
}

/// `config` with its storage root overridden by `path`. Whether `path` can be
/// written to is found out at the next write, not here.
pub fn set_custom_storage_dir(config: AppConfig, path: String) -> (r: AppConfig)
    ensures
        r.path() == Some(path@),
{
    let mut config = config;
    config.storage_path = Some(path);
    config
}

// ---------------------------------------------------------------------------
// Records

/// The record of an image generated for `prompt` at the requested size,
/// made at `created_at` (milliseconds since the Unix epoch).
pub fn generated_record(
    id: String,
    prompt: String,
    image_path: String,
    created_at: i64,
    width: u32,
    height: u32,
) -> (r: WallpaperRecord)
    ensures
        r@ == (RecordView { id: id@, prompt: prompt@, image_path: image_path@, created_at, width, height }),
{
    WallpaperRecord { id, prompt, image_path, created_at, resolution: Resolution { width, height } }
}

/// The record of an imported image, made at `created_at`: its prompt is a
/// fixed marker and its resolution a nominal one, as the image itself is not
/// decoded.
pub fn imported_record(id: String, image_path: String, created_at: i64) -> (r: WallpaperRecord)
    ensures
        r@ == (RecordView {
            id: id@,
            prompt: IMPORTED_PROMPT@,
            image_path: image_path@,
            created_at,
            width: IMPORTED_WIDTH,
            height: IMPORTED_HEIGHT,
        }),
{
    WallpaperRecord {
        id,
        prompt: String::from_str(IMPORTED_PROMPT),
        image_path,
        created_at,
        resolution: Resolution { width: IMPORTED_WIDTH, height: IMPORTED_HEIGHT },
    }
}

// ---------------------------------------------------------------------------
// Laws

/// A record appended to the history is what the next read finds at its tail,
/// after the records read before, with every field as it was.
pub proof fn lemma_append_then_read(stored: Option<Json>, written: Json, record: RecordView)
    requires
        history_of_json(written) == Some(stored_records(stored).push(record)),
    ensures
        stored_records(Some(written)) == stored_records(stored).push(record),
        stored_records(Some(written)).last() == record,
        stored_records(Some(written)).len() == stored_records(stored).len() + 1,
{
}

/// Once the cache is cleared the history file is gone, and the history reads
/// as empty.
pub proof fn lemma_cleared_history_is_empty()
    ensures
        stored_records(None) == Seq::<RecordView>::empty(),
{
}

/// A history file that holds something other than a history reads as empty,
/// as does one that is not JSON at all.
pub proof fn lemma_malformed_history_is_empty(doc: Json)
    requires
        history_of_json(doc) is None,
    ensures
        stored_records(Some(doc)) == Seq::<RecordView>::empty(),
        stored_records(None) == Seq::<RecordView>::empty(),
{
}

/// Once `path` is set as the storage root and its configuration written, the
/// storage root read back is `path` (provided its directory exists or can be
/// created), whatever the platform's directories, and images are stored under
/// it.
pub proof fn lemma_storage_override(
    written: Json,
    path: Seq<char>,
    pictures: Option<Seq<char>>,
    data_local: Option<Seq<char>>,
    temp: Seq<char>,
    id: Seq<char>,
)
    requires
        config_of_json(written) == Some(Some(path)),
    ensures
        storage_dir(stored_storage_path(Some(written)), true, pictures, data_local, temp) == path,
        image_path_spec(storage_dir(stored_storage_path(Some(written)), true, pictures, data_local, temp), id)
            == joined(joined(path, "images"@), id + ".png"@),
{
}

} // verus!
