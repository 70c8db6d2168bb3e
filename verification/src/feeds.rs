//! Which feeds are walked, and under which id the platform knows a creator.

use crate::config::{ArtistConfig, Config};
use crate::errors::DownloadErr;
use crate::outside::{lowercase, lowercased};
use crate::post::{Community, Post, PostType};
use vstd::hash_map::StringHashMap;
use vstd::prelude::*;
use vstd::string::*;

verus! {

/// One feed to walk.
#[derive(Debug, PartialEq)]
pub struct FeedTask {
    /// The creator's name, as configured.
    pub artist: String,
    pub post_type: PostType,
    /// How many of the most recent posts are wanted; all where `None`.
    pub recent: Option<isize>,
}

/// The `i`-th feed of a configuration with `n` creators is the feed of posts
/// of the `i`-th creator for `i` below `n`, and the feed of moments of the
/// creator `i - n` from there on.
pub open spec fn is_feed_of(
    artists: Seq<(String, ArtistConfig)>,
    i: int,
    task: FeedTask,
) -> bool {
    let n = artists.len() as int;
    if 0 <= i < n {
        task.artist == artists[i].0 && task.post_type == PostType::Artist && task.recent
            == artists[i].1.recent_artist
    } else {
        n <= i < 2 * n && task.artist == artists[i - n].0 && task.post_type == PostType::Moment
            && task.recent == artists[i - n].1.recent_moments
    }
}

/// Lists the feeds to walk: for each creator its posts, then for each creator
/// its moments.
pub fn feed_tasks(config: &Config) -> (r: Vec<FeedTask>)
    ensures
        r@.len() == 2 * config.artists@.len(),
        forall|i: int| 0 <= i < r@.len() ==> is_feed_of(config.artists@, i, #[trigger] r@[i]),
{
    let n = config.artists.len();
    let mut out: Vec<FeedTask> = Vec::new();
    let mut i: usize = 0;
    while i < n
        invariant
            n == config.artists@.len(),
            i <= n,
            out@.len() == i,
            forall|j: int| 0 <= j < i ==> is_feed_of(config.artists@, j, #[trigger] out@[j]),
        decreases n - i,
    {
        out.push(
            FeedTask {
                artist: config.artists[i].0.clone(),
                post_type: PostType::Artist,
                recent: config.artists[i].1.recent_artist,
            },
        );
        i = i + 1;
    }
    let mut k: usize = 0;
    while k < n
        invariant
            n == config.artists@.len(),
            k <= n,
            out@.len() == n + k,
            forall|j: int| 0 <= j < n + k ==> is_feed_of(config.artists@, j, #[trigger] out@[j]),
        decreases n - k,
    {
        out.push(
            FeedTask {
                artist: config.artists[k].0.clone(),
                post_type: PostType::Moment,
                recent: config.artists[k].1.recent_moments,
            },
        );
        k = k + 1;
    }
    out
}

/// The ids of the first `upto` creators of a listing, each under its name in
/// lowercase. Where two share a name, the later one counts.
pub open spec fn id_map(communities: Seq<Community>, upto: int) -> Map<Seq<char>, i64>
    decreases upto,
{
    if upto <= 0 || upto > communities.len() {
        Map::empty()
    } else {
        id_map(communities, upto - 1).insert(
            lowercased(communities[upto - 1].name@),
            communities[upto - 1].id,
        )
    }
}

/// The table of the creators' ids. It is built once, from the platform's
/// listing, and only read from then on.
pub struct ArtistIds {
    ids: StringHashMap<i64>,
}

impl View for ArtistIds {
    type V = Map<Seq<char>, i64>;

    closed spec fn view(&self) -> Map<Seq<char>, i64> {
        self.ids@
    }
}

impl ArtistIds {
    /// Builds the table from the platform's listing.
    pub fn from_listing(communities: &Vec<Community>) -> (ids: ArtistIds)
        ensures
            ids@ == id_map(communities@, communities@.len() as int),
    {
        let mut ids: StringHashMap<i64> = StringHashMap::new();
        let mut i: usize = 0;
        while i < communities.len()
            invariant
                i <= communities.len(),
                ids@ == id_map(communities@, i as int),
            decreases communities.len() - i,
        {
            let name = lowercase(communities[i].name.as_str());
            ids.insert(name, communities[i].id);
            i = i + 1;
        }
        ArtistIds { ids }
    }

    /// Looks up the id of a creator by the name as configured. Fails with
    /// `ArtistMapErr`, which holds the name, exactly where the table has no
    /// such name.
    pub fn artist_id(&self, artist: &str) -> (r: Result<i64, DownloadErr>)
        ensures
            match r {
                Ok(id) => self@.contains_key(artist@) && self@[artist@] == id,
                Err(e) => !self@.contains_key(artist@) && (e matches DownloadErr::ArtistMapErr(
                    name,
                ) && name@ == artist@),
            },
    {
        match self.ids.get(artist) {
            Some(id) => Ok(*id),
            None => Err(DownloadErr::ArtistMapErr(String::from_str(artist))),
        }
    }
}

/// The place of the first creator named `name` among the first `upto` of a
/// configuration, or `upto` where none of them is named so.
pub open spec fn first_named(artists: Seq<(String, ArtistConfig)>, name: Seq<char>, upto: int) -> int
    decreases upto,
{
    if upto <= 0 || upto > artists.len() {
        0
    } else {
        let before = first_named(artists, name, upto - 1);
        if before < upto - 1 || artists[upto - 1].0@ == name {
            before
        } else {
            upto
        }
    }
}

/// Looks up what is configured for the creator named `name`; `None` where no
/// creator of the configuration is named so.
pub fn find_artist<'a>(config: &'a Config, name: &str) -> (r: Option<&'a ArtistConfig>)
    ensures
        match r {
            Some(found) => {
                let i = first_named(config.artists@, name@, config.artists@.len() as int);
                0 <= i < config.artists@.len() && config.artists@[i].0@ == name@ && *found
                    == config.artists@[i].1
            },
            None => forall|i: int|
                0 <= i < config.artists@.len() ==> (#[trigger] config.artists@[i]).0@ != name@,
        },
{
    let wanted = String::from_str(name);
    let mut i: usize = 0;
    while i < config.artists.len()
        invariant
            i <= config.artists.len(),
            wanted@ == name@,
            first_named(config.artists@, name@, i as int) == i,
            forall|j: int| 0 <= j < i ==> (#[trigger] config.artists@[j]).0@ != name@,
        decreases config.artists.len() - i,
    {
        if config.artists[i].0 == wanted {
            proof {
                lemma_first_named_stays(config.artists@, name@, i as int, config.artists@.len() as int);
            }
            return Some(&config.artists[i].1);
        }
        i = i + 1;
    }
    None
}

/// Once a creator of the name was found, looking further changes nothing.
pub proof fn lemma_first_named_stays(
    artists: Seq<(String, ArtistConfig)>,
    name: Seq<char>,
    i: int,
    upto: int,
)
    requires
        0 <= i < upto <= artists.len(),
        first_named(artists, name, i) == i,
        artists[i].0@ == name,
    ensures
        first_named(artists, name, upto) == i,
    decreases upto - i,
{
    if upto > i + 1 {
        lemma_first_named_stays(artists, name, i, upto - 1);
    }
}

/// Where no two creators bear the same name, the one found under a name is
/// the only one of that name.
pub proof fn lemma_one_creator_of_a_name(config: &Config, name: Seq<char>)
    requires
        config.distinct_names(),
    ensures
        forall|i: int, j: int|
            0 <= i < config.artists@.len() && 0 <= j < config.artists@.len() && (
            #[trigger] config.artists@[i]).0@ == name && (#[trigger] config.artists@[j]).0@
                == name ==> i == j,
{
    assert forall|i: int, j: int|
        0 <= i < config.artists@.len() && 0 <= j < config.artists@.len() && (
        #[trigger] config.artists@[i]).0@ == name && (#[trigger] config.artists@[j]).0@
            == name implies i == j by {
        if i < j {
            assert(config.artists@[i].0@ != config.artists@[j].0@);
        } else if j < i {
            assert(config.artists@[j].0@ != config.artists@[i].0@);
        }
    }
}

/// The line that says that a feed could not be listed.
pub open spec fn feed_failure_text(e: &DownloadErr) -> Seq<char> {
    "Error collecting posts info: "@ + e.message_text()
}

/// Takes in what the walk of one feed gave. The posts of a feed that was
/// listed follow those gathered from other feeds, in their order. A feed that
/// failed adds nothing and takes nothing away: it is told in a line, and the
/// other feeds count as before.
pub fn merge_feed(posts: &mut Vec<Post>, walked: Result<Vec<Post>, DownloadErr>) -> (line: Option<
    String,
>)
    ensures
        match walked {
            Ok(found) => final(posts)@ == old(posts)@ + found@ && line.is_none(),
            Err(e) => final(posts)@ == old(posts)@ && (line matches Some(said) && said@
                == feed_failure_text(&e)),
        },
{
    match walked {
        Ok(found) => {
            let mut found = found;
            posts.append(&mut found);
            None
        },
        Err(e) => {
            let mut said = String::from_str("Error collecting posts info: ");
            let why = e.message();
            said.append(why.as_str());
            Some(said)
        },
    }
}

/// Looks up what is configured for the creator of a post, whose name the
/// configuration holds in lowercase.
pub fn artist_of<'a>(config: &'a Config, post: &Post) -> (r: Option<&'a ArtistConfig>)
    ensures
        match r {
            Some(found) => {
                let name = lowercased(post.community.name@);
                let i = first_named(config.artists@, name, config.artists@.len() as int);
                0 <= i < config.artists@.len() && config.artists@[i].0@ == name && *found
                    == config.artists@[i].1
            },
            None => forall|i: int|
                0 <= i < config.artists@.len() ==> (#[trigger] config.artists@[i]).0@
                    != lowercased(post.community.name@),
        },
{
    let name = lowercase(post.community.name.as_str());
    find_artist(config, name.as_str())
}

} // verus!
