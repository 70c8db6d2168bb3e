//! What the user configures.

use vstd::prelude::*;

verus! {

/// The configuration of one run.
#[derive(Debug, Clone, PartialEq)]
pub struct Config {
    /// Where the browser's cookies were exported to.
    pub cookies_file: String,
    pub keep_open: bool,
    /// How many network operations may run at once.
    pub max_connections: usize,
    /// The creators to mirror with what is set for each, every name once (see
    /// `distinct_names`).
    pub artists: Vec<(String, ArtistConfig)>,
}

/// What is set for one creator: where each feed is stored, and how many of
/// its most recent posts are wanted (all of them where no number is given,
/// none where it is zero or less).
#[derive(Debug, Clone, PartialEq)]
pub struct ArtistConfig {
    pub artist_download_path: Option<String>,
    pub moments_download_path: Option<String>,
    pub videos_download_path: Option<String>,
    pub recent_artist: Option<isize>,
    pub recent_moments: Option<isize>,
    pub recent_videos: Option<isize>,
}

impl Config {
    /// No two creators of the configuration bear the same name.
    pub open spec fn distinct_names(&self) -> bool {
        forall|i: int, j: int|
            0 <= i < j < self.artists@.len() ==> (#[trigger] self.artists@[i]).0@
                != (#[trigger] self.artists@[j]).0@
    }

    /// Tells whether no two creators of the configuration bear the same name.
    pub fn has_distinct_names(&self) -> (r: bool)
        ensures
            r == self.distinct_names(),
    {
        let n = self.artists.len();
        let mut j: usize = 0;
        while j < n
            invariant
                n == self.artists@.len(),
                j <= n,
                forall|a: int, b: int|
                    0 <= a < b < j ==> (#[trigger] self.artists@[a]).0@
                        != (#[trigger] self.artists@[b]).0@,
            decreases n - j,
        {
            let mut i: usize = 0;
            while i < j
                invariant
                    n == self.artists@.len(),
                    i <= j < n,
                    forall|a: int| 0 <= a < i ==> (#[trigger] self.artists@[a]).0@
                        != self.artists@[j as int].0@,
                decreases j - i,
            {
                if self.artists[i].0 == self.artists[j].0 {
                    return false;
                }
                i = i + 1;
            }
            j = j + 1;
        }
        true
    }
}

/// `keep_open` where the configuration does not set it.
pub fn default_keep_open() -> (r: bool)
    ensures
        r == false,
{
    false
}

/// `max_connections` where the configuration does not set it.
pub fn default_num_processes() -> (r: usize)
    ensures
        r == 20,
{
    20
}

} // verus!
