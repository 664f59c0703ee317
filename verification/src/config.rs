//! Application configuration. Loading and saving the file live outside the
//! library; here is the data and its default values.

use vstd::prelude::*;

verus! {

/// The settings the application runs with. `saved_video_path` is handed
/// through to the external command runner for downloads; the library never
/// reads the file system itself.
pub struct Config {
    pub videos_per_channel: usize,
    pub videos_per_search: usize,
    pub saved_video_path: String,
    pub refresh_on_start: bool,
}

impl Config {
    /// The default configuration, saving videos under the given directory.
    pub fn default_with_path(saved_video_path: String) -> (c: Config)
        ensures
            c.videos_per_channel == 60,
            c.videos_per_search == 60,
            c.saved_video_path@ == saved_video_path@,
            c.refresh_on_start == false,
    {
        Config { videos_per_channel: 60, videos_per_search: 60, saved_video_path, refresh_on_start: false }
    }
}

} // verus!
