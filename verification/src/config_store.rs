//! Where the settings live on disk and how a load recovers: the file
//! names, the directory per build profile, the one-time copy from the
//! legacy directory, the fall-back to the backup copy, and the one-shot
//! marker of a finished update.
use vstd::prelude::*;

use crate::auth::{is_v4_uuid_text, new_uuid_v4_text};
use crate::text::{concat, trim, trim_seq};

verus! {

/// Marker "the application has just been updated": a safety net for
/// Windows, where the application starts hidden after a restart and the
/// user could think it did not start.
#[derive(Debug, Clone)]
pub struct PostUpdateMarker {
    pub version: String,
    pub created_at_ms: i64,
}

impl PostUpdateMarker {
    /// The marker for an update to `version`, written at `now_ms`.
    pub fn new(version: &str, now_ms: i64) -> (m: Self)
        ensures
            m.version@ == version@,
            m.created_at_ms == now_ms,
    {
        PostUpdateMarker { version: version.to_owned(), created_at_ms: now_ms }
    }
}

/// What reading the marker file gave.
pub enum MarkerRead {
    /// There is no marker file
    Missing,
    /// The file exists but could not be read
    Unreadable,
    /// The file was read; its content parsed into a marker or not
    Read(Option<PostUpdateMarker>),
}

/// The settings files on disk.
pub struct ConfigStore;

/// The marker a start sees: none without a file; a file that cannot be
/// read still means an update happened (of an unknown version).
pub open spec fn spec_marker_taken(r: MarkerRead, m: Option<PostUpdateMarker>) -> bool {
    match r {
        MarkerRead::Missing => m is None,
        MarkerRead::Unreadable => m matches Some(k) && k.version@ == "unknown"@ && k.created_at_ms
            == 0,
        MarkerRead::Read(p) => m == p,
    }
}

/// Outcome of loading a settings file, given what each step gave.
pub enum LoadOutcome {
    /// No file: the defaults
    Defaults,
    /// The main file
    Main,
    /// The backup copy, which is also written back over the main file
    Backup,
    /// Neither copy could be used
    Failed,
}

/// Loading goes to the backup copy when the main file cannot be read or
/// parsed, and fails only when the backup cannot be used either.
pub open spec fn spec_load_outcome(
    exists: bool,
    main_read: bool,
    main_parsed: bool,
    backup_read: bool,
    backup_parsed: bool,
) -> LoadOutcome {
    if !exists {
        LoadOutcome::Defaults
    } else if main_read && main_parsed {
        LoadOutcome::Main
    } else if backup_read && backup_parsed {
        LoadOutcome::Backup
    } else {
        LoadOutcome::Failed
    }
}

impl ConfigStore {
    /// Settings directory under the user's configuration directory; debug
    /// builds keep their own.
    pub fn app_dir_name(debug_build: bool) -> (n: &'static str)
        ensures
            debug_build ==> n@ == "voice-to-text-dev"@,
            !debug_build ==> n@ == "voice-to-text"@,
    {
        if debug_build {
            "voice-to-text-dev"
        } else {
            "voice-to-text"
        }
    }

    /// Directory that all builds shared before they were split.
    pub fn legacy_shared_dir_name() -> (n: &'static str)
        ensures
            n@ == "voice-to-text"@,
    {
        "voice-to-text"
    }

    /// File of the STT settings.
    pub fn stt_config_file_name() -> (n: &'static str)
        ensures
            n@ == "stt_config.json"@,
    {
        "stt_config.json"
    }

    /// File of the application settings.
    pub fn app_config_file_name() -> (n: &'static str)
        ensures
            n@ == "app_config.json"@,
    {
        "app_config.json"
    }

    /// File of the interface preferences.
    pub fn ui_preferences_file_name() -> (n: &'static str)
        ensures
            n@ == "ui_preferences.json"@,
    {
        "ui_preferences.json"
    }

    /// File of the post-update marker.
    pub fn post_update_marker_file_name() -> (n: &'static str)
        ensures
            n@ == "post_update.json"@,
    {
        "post_update.json"
    }

    /// The files copied once from the legacy directory, in order.
    pub fn legacy_settings_files() -> (v: Vec<&'static str>)
        ensures
            v@.len() == 3,
            v@[0]@ == "stt_config.json"@,
            v@[1]@ == "app_config.json"@,
            v@[2]@ == "ui_preferences.json"@,
    {
        let mut v: Vec<&'static str> = Vec::new();
        v.push("stt_config.json");
        v.push("app_config.json");
        v.push("ui_preferences.json");
        v
    }

    /// Path of the backup copy of a settings file.
    pub fn backup_path(path: &str) -> (b: String)
        ensures
            b@ == path@ + ".bak"@,
    {
        concat(path, ".bak")
    }

    /// Whether a settings file of a debug build is copied from the legacy
    /// directory: only in a debug build, only when the file is not there yet
    /// and the legacy one exists.
    pub fn legacy_migration_needed(debug_build: bool, target_exists: bool, legacy_exists: bool) -> (b:
        bool)
        ensures
            b == (debug_build && !target_exists && legacy_exists),
    {
        debug_build && !target_exists && legacy_exists
    }

    /// The directory override from the environment, trimmed; `None` when
    /// it is unset or blank.
    pub fn custom_config_dir(env_value: Option<&str>) -> (d: Option<String>)
        ensures
            match env_value {
                None => d is None,
                Some(v) => if trim_seq(v@).len() > 0 {
                    d matches Some(s) && s@ == trim_seq(v@)
                } else {
                    d is None
                },
            },
    {
        match env_value {
            None => None,
            Some(v) => {
                let t = trim(v);
                if t.as_str().is_empty() {
                    None
                } else {
                    Some(t)
                }
            },
        }
    }

    /// The marker a start takes; the file is removed in every case.
    pub fn take_post_update_marker_from(r: MarkerRead) -> (m: Option<PostUpdateMarker>)
        ensures
            spec_marker_taken(r, m),
    {
        match r {
            MarkerRead::Missing => None,
            MarkerRead::Unreadable => Some(
                PostUpdateMarker { version: "unknown".to_owned(), created_at_ms: 0 },
            ),
            MarkerRead::Read(p) => p,
        }
    }

    /// Decides where a loaded configuration comes from.
    pub fn load_outcome(
        exists: bool,
        main_read: bool,
        main_parsed: bool,
        backup_read: bool,
        backup_parsed: bool,
    ) -> (o: LoadOutcome)
        ensures
            o == spec_load_outcome(exists, main_read, main_parsed, backup_read, backup_parsed),
    {
        if !exists {
            LoadOutcome::Defaults
        } else if main_read && main_parsed {
            LoadOutcome::Main
        } else if backup_read && backup_parsed {
            LoadOutcome::Backup
        } else {
            LoadOutcome::Failed
        }
    }
}

/// A damaged main file never loses the settings while the backup is good,
/// and an intact main file is always preferred over the backup.
pub proof fn lemma_backup_recovers(main_read: bool, main_parsed: bool)
    ensures
        !(main_read && main_parsed) ==> spec_load_outcome(true, main_read, main_parsed, true, true)
            == LoadOutcome::Backup,
        main_read && main_parsed ==> forall|br: bool, bp: bool|
            spec_load_outcome(true, main_read, main_parsed, br, bp) == LoadOutcome::Main,
{
}

/// Name of the temporary file that a write goes to before it replaces
/// `file_name`: unique per write, so that writes running side by side do
/// not clash.
pub fn tmp_file_name(file_name: &str) -> (t: String)
    ensures
        t@.len() == file_name@.len() + 41,
        t@.take(file_name@.len() + 5int) == file_name@ + ".tmp."@,
        is_v4_uuid_text(t@.skip(file_name@.len() + 5int)),
{
    let u = new_uuid_v4_text();
    let a = concat(file_name, ".tmp.");
    let t = concat(a.as_str(), u.as_str());
    proof {
        reveal_strlit(".tmp.");
        assert(t@.take(file_name@.len() + 5int) =~= file_name@ + ".tmp."@);
        assert(t@.skip(file_name@.len() + 5int) =~= u@);
    }
    t
}

} // verus!
