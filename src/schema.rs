//! Configuration data: sorting rules, their conditions and the conflict policy.
use vstd::prelude::*;

verus! {

/// One test that a file must pass for a rule to apply to it.
#[derive(Clone, Debug)]
pub enum Condition {
    /// The file's extension is one of these, compared without regard to case.
    Extension(Vec<String>),
    /// The file name contains this text, compared without regard to case.
    NameContains(String),
    /// The file name matches this regular expression; a bad pattern never matches.
    NameRegex(String),
    /// The file is strictly larger than this many bytes.
    SizeGreaterThan(u64),
    /// The file is strictly smaller than this many bytes.
    SizeLessThan(u64),
}

/// Strategy applied when the computed destination of a move is already taken.
#[derive(Clone, Copy, Debug, PartialEq, Eq, Structural)]
pub enum ConflictResolution {
    Rename,
    Skip,
    Overwrite,
    Ask,
}

/// A user rule: when all of its conditions hold, a file goes to `destination_folder`.
#[derive(Clone, Debug)]
pub struct SortRule {
    pub id: String,
    pub name: String,
    pub enabled: bool,
    pub priority: i32,
    pub conditions: Vec<Condition>,
    pub destination_folder: String,
    pub is_default: bool,
}

/// The persisted settings of one watched folder.
#[derive(Clone, Debug)]
pub struct Config {
    pub watch_folder: String,
    pub destination_root: String,
    pub grace_period_seconds: u64,
    pub rules: Vec<SortRule>,
    pub run_on_startup: bool,
    pub minimize_to_tray: bool,
    pub show_notifications: bool,
    pub dark_mode: bool,
    pub conflict_resolution: ConflictResolution,
    pub history_limit: usize,
    /// All-time count of files moved; not capped by `history_limit`.
    pub total_files_moved: u64,
}

pub open spec fn str_views(v: Seq<&str>) -> Seq<Seq<char>> {
    v.map_values(|s: &str| s@)
}

pub open spec fn string_views(v: Seq<String>) -> Seq<Seq<char>> {
    v.map_values(|s: String| s@)
}

/// `c` is an extension condition whose list reads `exts`.
pub open spec fn is_extension_list(c: Condition, exts: Seq<Seq<char>>) -> bool {
    match c {
        Condition::Extension(v) => string_views(v@) == exts,
        _ => false,
    }
}

/// `r` is an enabled default rule named `name` with the single condition that the
/// extension is one of `exts`, moving files to a folder of the same name.
pub open spec fn is_default_rule(r: SortRule, name: Seq<char>, exts: Seq<Seq<char>>, priority: i32) -> bool {
    &&& r.name@ == name
    &&& r.destination_folder@ == name
    &&& r.enabled
    &&& r.is_default
    &&& r.priority == priority
    &&& r.conditions@.len() == 1
    &&& is_extension_list(r.conditions@[0], exts)
}

/// Relies on `dirs::download_dir`: the user's download folder, when the platform has one.
#[verifier::external_body]
pub fn get_default_downloads_folder() -> (r: Option<String>) {
    match dirs::download_dir() {
        Some(p) => Some(p.to_string_lossy().into_owned()),
        None => None,
    }
}

/// Relies on `uuid::Uuid::new_v4` and its `Display`, which writes the hyphenated
/// form: 32 hex digits and 4 hyphens. The value is random.
#[verifier::external_body]
pub(crate) fn new_id() -> (r: String)
    ensures
        r@.len() == 36,
{
    uuid::Uuid::new_v4().to_string()
}

fn to_strings(items: &Vec<&str>) -> (r: Vec<String>)
    ensures
        string_views(r@) == str_views(items@),
{
    let mut out: Vec<String> = Vec::new();
    let mut i: usize = 0;
    while i < items.len()
        invariant
            i <= items@.len(),
            out@.len() == i,
            forall|k: int| 0 <= k < i ==> #[trigger] out@[k]@ == items@[k]@,
        decreases items@.len() - i,
    {
        out.push(items[i].to_owned());
        i += 1;
    }
    assert(string_views(out@) =~= str_views(items@));
    out
}

impl SortRule {
    /// An enabled default rule with one extension condition and a fresh random id.
    pub fn new(name: &str, extensions: Vec<&str>, destination: &str, priority: i32) -> (r: SortRule)
        ensures
            r.name@ == name@,
            r.destination_folder@ == destination@,
            r.enabled,
            r.is_default,
            r.priority == priority,
            r.conditions@.len() == 1,
            is_extension_list(r.conditions@[0], str_views(extensions@)),
    {
        let exts = to_strings(&extensions);
        let mut conditions: Vec<Condition> = Vec::new();
        conditions.push(Condition::Extension(exts));
        SortRule {
            id: new_id(),
            name: name.to_owned(),
            enabled: true,
            priority,
            conditions,
            destination_folder: destination.to_owned(),
            is_default: true,
        }
    }
}

/// `r` is the built-in rule set: Images, Documents, Installers, Archives, Audio,
/// Video and Code, with priorities from 100 down to 40.
pub open spec fn is_default_rule_set(r: Seq<SortRule>) -> bool {
    &&& r.len() == 7
    &&& is_default_rule(r[0], "Images"@, seq!["jpg"@, "jpeg"@, "png"@, "gif"@, "webp"@, "svg"@, "bmp"@, "ico"@, "tiff"@, "raw"@, "heic"@], 100)
    &&& is_default_rule(r[1], "Documents"@, seq!["pdf"@, "doc"@, "docx"@, "xls"@, "xlsx"@, "ppt"@, "pptx"@, "txt"@, "rtf"@, "odt"@, "ods"@, "odp"@, "csv"@, "epub"@], 90)
    &&& is_default_rule(r[2], "Installers"@, seq!["exe"@, "msi"@, "dmg"@, "pkg"@, "deb"@, "rpm"@, "appimage"@, "snap"@], 80)
    &&& is_default_rule(r[3], "Archives"@, seq!["zip"@, "rar"@, "7z"@, "tar"@, "gz"@, "bz2"@, "xz"@, "tgz"@], 70)
    &&& is_default_rule(r[4], "Audio"@, seq!["mp3"@, "wav"@, "flac"@, "aac"@, "ogg"@, "m4a"@, "wma"@, "opus"@], 60)
    &&& is_default_rule(r[5], "Video"@, seq!["mp4"@, "mkv"@, "avi"@, "mov"@, "wmv"@, "webm"@, "flv"@, "m4v"@], 50)
    &&& is_default_rule(r[6], "Code"@, seq!["js"@, "ts"@, "jsx"@, "tsx"@, "py"@, "rs"@, "go"@, "java"@, "cpp"@, "c"@, "h"@, "hpp"@, "cs"@, "rb"@, "php"@, "swift"@, "kt"@], 40)
}

/// The seven built-in rules, from Images (priority 100) down to Code (priority 40).
pub fn default_rules() -> (r: Vec<SortRule>)
    ensures
        is_default_rule_set(r@),
{
    let mut r: Vec<SortRule> = Vec::new();
    let exts = vec!["jpg", "jpeg", "png", "gif", "webp", "svg", "bmp", "ico", "tiff", "raw", "heic"];
    assert(str_views(exts@) =~= seq!["jpg"@, "jpeg"@, "png"@, "gif"@, "webp"@, "svg"@, "bmp"@, "ico"@, "tiff"@, "raw"@, "heic"@]);
    r.push(SortRule::new("Images", exts, "Images", 100));
    let exts = vec!["pdf", "doc", "docx", "xls", "xlsx", "ppt", "pptx", "txt", "rtf", "odt", "ods", "odp", "csv", "epub"];
    assert(str_views(exts@) =~= seq!["pdf"@, "doc"@, "docx"@, "xls"@, "xlsx"@, "ppt"@, "pptx"@, "txt"@, "rtf"@, "odt"@, "ods"@, "odp"@, "csv"@, "epub"@]);
    r.push(SortRule::new("Documents", exts, "Documents", 90));
    let exts = vec!["exe", "msi", "dmg", "pkg", "deb", "rpm", "appimage", "snap"];
    assert(str_views(exts@) =~= seq!["exe"@, "msi"@, "dmg"@, "pkg"@, "deb"@, "rpm"@, "appimage"@, "snap"@]);
    r.push(SortRule::new("Installers", exts, "Installers", 80));
    let exts = vec!["zip", "rar", "7z", "tar", "gz", "bz2", "xz", "tgz"];
    assert(str_views(exts@) =~= seq!["zip"@, "rar"@, "7z"@, "tar"@, "gz"@, "bz2"@, "xz"@, "tgz"@]);
    r.push(SortRule::new("Archives", exts, "Archives", 70));
    let exts = vec!["mp3", "wav", "flac", "aac", "ogg", "m4a", "wma", "opus"];
    assert(str_views(exts@) =~= seq!["mp3"@, "wav"@, "flac"@, "aac"@, "ogg"@, "m4a"@, "wma"@, "opus"@]);
    r.push(SortRule::new("Audio", exts, "Audio", 60));
    let exts = vec!["mp4", "mkv", "avi", "mov", "wmv", "webm", "flv", "m4v"];
    assert(str_views(exts@) =~= seq!["mp4"@, "mkv"@, "avi"@, "mov"@, "wmv"@, "webm"@, "flv"@, "m4v"@]);
    r.push(SortRule::new("Video", exts, "Video", 50));
    let exts = vec!["js", "ts", "jsx", "tsx", "py", "rs", "go", "java", "cpp", "c", "h", "hpp", "cs", "rb", "php", "swift", "kt"];
    assert(str_views(exts@) =~= seq!["js"@, "ts"@, "jsx"@, "tsx"@, "py"@, "rs"@, "go"@, "java"@, "cpp"@, "c"@, "h"@, "hpp"@, "cs"@, "rb"@, "php"@, "swift"@, "kt"@]);
    r.push(SortRule::new("Code", exts, "Code", 40));
    r
}

impl Default for Config {
    /// Watches the download folder (or the current one), sorts into it, five
    /// seconds of grace, the built-in rules, renaming on conflict, 500 records.
    fn default() -> (r: Config)
        ensures
            r.watch_folder == r.destination_root,
            r.grace_period_seconds == 5,
            is_default_rule_set(r.rules@),
            !r.run_on_startup,
            r.minimize_to_tray,
            r.show_notifications,
            !r.dark_mode,
            r.conflict_resolution == ConflictResolution::Rename,
            r.history_limit == 500,
            r.total_files_moved == 0,
    {
        let downloads = match get_default_downloads_folder() {
            Some(d) => d,
            None => ".".to_owned(),
        };
        Config {
            watch_folder: downloads.clone(),
            destination_root: downloads,
            grace_period_seconds: 5,
            rules: default_rules(),
            run_on_startup: false,
            minimize_to_tray: true,
            show_notifications: true,
            dark_mode: false,
            conflict_resolution: ConflictResolution::Rename,
            history_limit: 500,
            total_files_moved: 0,
        }
    }
}

} // verus!
