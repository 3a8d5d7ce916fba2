//! The configuration: where the files are, where it is looked for, and which one is in effect.
use vstd::prelude::*;

use crate::error::{Error, Result};
use crate::paths;
use crate::text;

verus! {

/// The name of the application's directories.
pub const APP_NAMESPACE: &'static str = "weiback-next";

/// The settings of the application. Intervals are in seconds.
#[derive(Debug, PartialEq, Eq)]
pub struct Config {
    /// The database.
    pub db_path: String,
    /// The session with the service.
    pub session_path: String,
    /// Whether pictures are downloaded.
    pub download_pictures: bool,
    /// The interval of backup tasks.
    pub backup_task_interval_secs: u64,
    /// The interval of other tasks.
    pub other_task_interval_secs: u64,
    /// How many posts go into an exported page.
    pub posts_per_html: u32,
    /// How many posts are asked for at a time.
    pub posts_count: u32,
    /// Whether exported pages do without scripts.
    pub static_html: bool,
    /// The downloaded pictures.
    pub picture_path: String,
    /// The downloaded videos.
    pub video_path: String,
}

/// The directory of the application below a root.
pub open spec fn app_dir(root: Seq<char>) -> Seq<char> {
    paths::joined(root, APP_NAMESPACE@)
}

impl Clone for Config {
    fn clone(&self) -> (r: Self)
        ensures
            r == *self,
    {
        Config {
            db_path: self.db_path.clone(),
            session_path: self.session_path.clone(),
            download_pictures: self.download_pictures,
            backup_task_interval_secs: self.backup_task_interval_secs,
            other_task_interval_secs: self.other_task_interval_secs,
            posts_per_html: self.posts_per_html,
            posts_count: self.posts_count,
            static_html: self.static_html,
            picture_path: self.picture_path.clone(),
            video_path: self.video_path.clone(),
        }
    }
}

impl Config {
    /// The default settings below the given roots of configuration and data.
    pub fn from_roots(config_root: &str, data_root: &str) -> (r: Self)
        ensures
            r.db_path@ == paths::joined(app_dir(data_root@), "weiback.db"@),
            r.session_path@ == paths::joined(app_dir(config_root@), "session.json"@),
            r.download_pictures,
            r.backup_task_interval_secs == 3,
            r.other_task_interval_secs == 1,
            r.posts_per_html == 200,
            r.posts_count == 20,
            !r.static_html,
            r.picture_path@ == paths::joined(
                paths::joined(app_dir(data_root@), "media"@),
                "pictures"@,
            ),
            r.video_path@ == paths::joined(paths::joined(app_dir(data_root@), "media"@), "videos"@),
    {
        let config_dir = paths::join(config_root, APP_NAMESPACE);
        let data_dir = paths::join(data_root, APP_NAMESPACE);
        let media_dir = paths::join(data_dir.as_str(), "media");
        Config {
            db_path: paths::join(data_dir.as_str(), "weiback.db"),
            session_path: paths::join(config_dir.as_str(), "session.json"),
            download_pictures: true,
            backup_task_interval_secs: 3,
            other_task_interval_secs: 1,
            posts_per_html: 200,
            posts_count: 20,
            static_html: false,
            picture_path: paths::join(media_dir.as_str(), "pictures"),
            video_path: paths::join(media_dir.as_str(), "videos"),
        }
    }
}

/// Where the configuration is below a root.
pub open spec fn config_file(root: Seq<char>) -> Seq<char> {
    paths::joined(root, paths::joined(APP_NAMESPACE@, "config.toml"@))
}

/// Where the configuration is looked for, in order.
pub fn config_file_candidates(config_local_root: &str, config_root: &str, exe_dir: &str) -> (r: [String;
    3])
    ensures
        r@[0]@ == config_file(config_local_root@),
        r@[1]@ == config_file(config_root@),
        r@[2]@ == config_file(exe_dir@),
{
    let relative = paths::join(APP_NAMESPACE, "config.toml");
    [
        paths::join(config_local_root, relative.as_str()),
        paths::join(config_root, relative.as_str()),
        paths::join(exe_dir, relative.as_str()),
    ]
}

/// The first of the places that exists.
pub fn find_config_file(candidates: &[String; 3], exist: &[bool; 3]) -> (r: Option<String>)
    ensures
        text::opt_view(r) == if exist@[0] {
            Some(candidates@[0]@)
        } else if exist@[1] {
            Some(candidates@[1]@)
        } else if exist@[2] {
            Some(candidates@[2]@)
        } else {
            None
        },
{
    if exist[0] {
        Some(candidates[0].clone())
    } else if exist[1] {
        Some(candidates[1].clone())
    } else if exist[2] {
        Some(candidates[2].clone())
    } else {
        None
    }
}

/// Where the configuration is written: where it was found, or below the local root.
pub fn save_path(found: Option<String>, config_local_root: &str) -> (r: String)
    ensures
        r@ == match found {
            Some(path) => path@,
            None => paths::joined(app_dir(config_local_root@), "config.toml"@),
        },
{
    match found {
        Some(path) => path,
        None => paths::join(
            paths::join(config_local_root, APP_NAMESPACE).as_str(),
            "config.toml",
        ),
    }
}

/// The configuration that is in effect, once there is one.
#[derive(Debug, PartialEq, Eq)]
pub struct ConfigCell {
    pub current: Option<Config>,
}

/// Takes the configuration that was loaded, or made, at the start. A failure to load it is returned;
/// a configuration that is in effect already stays.
pub fn init(cell: &mut ConfigCell, loaded: Result<Config>) -> (r: Result<()>)
    ensures
        match loaded {
            Ok(config) => r is Ok && final(cell).current == if old(cell).current is Some {
                old(cell).current
            } else {
                Some(config)
            },
            Err(e) => r == Err::<(), Error>(e) && *final(cell) == *old(cell),
        },
{
    match loaded {
        Ok(config) => {
            if cell.current.is_none() {
                cell.current = Some(config);
            }
            Ok(())
        },
        Err(e) => Err(e),
    }
}

/// Puts the default configuration into effect, whatever was in effect before.
pub fn init_default(cell: &mut ConfigCell, default: Config)
    ensures
        final(cell).current == Some(default),
{
    cell.current = Some(default);
}

/// The configuration that is in effect. Where there is none yet, it is the one that was found; and
/// where none was found, or it could not be read, the default one. There always is a configuration.
pub fn get_config(cell: &mut ConfigCell, found: Result<Option<Config>>, default: Config) -> (r: Config)
    ensures
        final(cell).current == Some(r),
        match old(cell).current {
            Some(config) => r == config,
            None => match found {
                Ok(Some(config)) => r == config,
                _ => r == default,
            },
        },
{
    if let Some(config) = &cell.current {
        return config.clone();
    }
    let config = match found {
        Ok(Some(config)) => config,
        _ => default,
    };
    cell.current = Some(config.clone());
    config
}

/// Puts a configuration that was saved into effect, if one is in effect.
pub fn save_config(cell: &mut ConfigCell, config: Config)
    ensures
        final(cell).current == if old(cell).current is Some {
            Some(config)
        } else {
            None
        },
{
    if cell.current.is_some() {
        cell.current = Some(config);
    }
}

} // verus!
