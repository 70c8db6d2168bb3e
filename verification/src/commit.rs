//! From a post to its directory: the name of the directory, whether it is
//! there already, and the files that go into it.

use crate::config::ArtistConfig;
use crate::errors::DownloadErr;
use crate::outside::{
    format_rfc3339, lowercase, lowercased, refused_in_names, rfc3339_formatted, sanitize,
    sanitized,
};
use crate::post::{Photo, Post, PostType, Video};
use crate::text::{
    decimal, decimal_pad2, decimal_string, extension, extension_of, name_stem, pad2_string,
    stem_of,
};
use crate::urls::{get_url, post_url};
use vstd::pervasive::unreached;
use vstd::prelude::*;
use vstd::string::*;

verus! {

/// The layout of the day in the name of a post's directory: year, month and
/// day, in digits.
pub const DAY_LAYOUT: &'static str = "%Y%m%d";

/// The day of a timestamp, in the time zone the timestamp names; `None` where
/// the text is no RFC 3339 timestamp.
pub open spec fn rfc3339_day(s: Seq<char>) -> Option<Seq<char>> {
    rfc3339_formatted(s, DAY_LAYOUT@)
}

/// The name of a post's directory before it is made safe for a file system:
/// the day, the post's id and the author's name, joined by hyphens.
pub open spec fn raw_prefix(day: Seq<char>, id: int, nickname: Seq<char>) -> Seq<char> {
    day + "-"@ + decimal(id) + "-"@ + nickname
}

/// The name of a post's directory, which is also the start of the name of each
/// file in it; `None` where the post's date of creation is no RFC 3339
/// timestamp.
pub open spec fn post_prefix(post: &Post) -> Option<Seq<char>> {
    match rfc3339_day(post.created_at@) {
        Some(day) => Some(sanitized(raw_prefix(day, post.id as int, post.community_user.nickname@))),
        None => None,
    }
}

/// Joins a day, an id and an author's name by hyphens.
pub fn join_prefix(day: &str, id: i64, nickname: &str) -> (r: String)
    ensures
        r@ == raw_prefix(day@, id as int, nickname@),
{
    let mut s = String::from_str(day);
    s.append("-");
    let n = decimal_string(id);
    s.append(n.as_str());
    s.append("-");
    s.append(nickname);
    s
}

/// A name that is safe for a file system: none of its characters separates
/// or marks parts of a path or a pattern, and none is a control character.
pub open spec fn safe_name(name: Seq<char>) -> bool {
    forall|i: int| 0 <= i < name.len() ==> !refused_in_names(#[trigger] name[i])
}

/// The name of the directory of a post whose date of creation is an RFC 3339
/// timestamp. The name is safe for a file system.
pub fn get_prefix(post: &Post) -> (r: String)
    requires
        rfc3339_day(post.created_at@).is_some(),
    ensures
        Some(r@) == post_prefix(post),
        safe_name(r@),
{
    match format_rfc3339(post.created_at.as_str(), DAY_LAYOUT) {
        Some(day) => {
            let raw = join_prefix(day.as_str(), post.id, post.community_user.nickname.as_str());
            sanitize(raw.as_str())
        },
        None => unreached(),
    }
}

/// The name of the directory of a post; `None` where its date of creation is
/// no RFC 3339 timestamp.
pub fn try_get_prefix(post: &Post) -> (r: Option<String>)
    ensures
        match r {
            Some(prefix) => post_prefix(post) == Some(prefix@) && safe_name(prefix@),
            None => post_prefix(post).is_none(),
        },
{
    match format_rfc3339(post.created_at.as_str(), DAY_LAYOUT) {
        Some(_) => Some(get_prefix(post)),
        None => None,
    }
}

/// One of `names` stands for the same post as `prefix`: it agrees with it in
/// what stands before the second hyphen, the day and the id.
pub open spec fn stem_among(names: Seq<String>, prefix: Seq<char>) -> bool {
    exists|i: int| 0 <= i < names.len() && name_stem(#[trigger] names[i]@) == name_stem(prefix)
}

/// Tells whether a directory for the post with the prefix `prefix` is among
/// `names`, the names found where the post would be stored, whatever was
/// appended to or changed in the name behind the day and the id.
pub fn post_dir_exists(names: &Vec<String>, prefix: &str) -> (r: bool)
    ensures
        r == stem_among(names@, prefix@),
{
    let start = stem_of(prefix);
    let mut i: usize = 0;
    while i < names.len()
        invariant
            i <= names.len(),
            start@ == name_stem(prefix@),
            forall|j: int| 0 <= j < i ==> name_stem(#[trigger] names[j]@) != name_stem(prefix@),
        decreases names.len() - i,
    {
        let cur_start = stem_of(names[i].as_str());
        if cur_start == start {
            return true;
        }
        i = i + 1;
    }
    false
}

/// The feed that a post's type names: `normal` a creator's post, `to_fans` a
/// moment, in any case of the letters; `None` for any other type.
pub open spec fn kind_of(post_type: Seq<char>) -> Option<PostType> {
    if lowercased(post_type) == "normal"@ {
        Some(PostType::Artist)
    } else if lowercased(post_type) == "to_fans"@ {
        Some(PostType::Moment)
    } else {
        None
    }
}

/// Reads a post's type from its lowercase form. Fails with
/// `ParsePostTypeErr`, which holds the type as given, where it is neither
/// `normal` nor `to_fans`.
pub fn kind_from_lowercase(lower: &str, post_type: &str) -> (r: Result<PostType, DownloadErr>)
    ensures
        match r {
            Ok(kind) => (lower@ == "normal"@ && kind == PostType::Artist) || (lower@ != "normal"@
                && lower@ == "to_fans"@ && kind == PostType::Moment),
            Err(e) => lower@ != "normal"@ && lower@ != "to_fans"@ && (
            e matches DownloadErr::ParsePostTypeErr(tag) && tag@ == post_type@),
        },
{
    let lower = String::from_str(lower);
    if lower == String::from_str("normal") {
        Ok(PostType::Artist)
    } else if lower == String::from_str("to_fans") {
        Ok(PostType::Moment)
    } else {
        Err(DownloadErr::ParsePostTypeErr(String::from_str(post_type)))
    }
}

/// Reads the type of a post. Fails with `ParsePostTypeErr`, which holds the
/// type as given, exactly where the type names neither feed.
pub fn post_kind(post_type: &str) -> (r: Result<PostType, DownloadErr>)
    ensures
        match r {
            Ok(kind) => kind_of(post_type@) == Some(kind),
            Err(e) => kind_of(post_type@).is_none() && (
            e matches DownloadErr::ParsePostTypeErr(tag) && tag@ == post_type@),
        },
{
    let lower = lowercase(post_type);
    kind_from_lowercase(lower.as_str(), post_type)
}

/// Where the posts of a feed are stored: the path configured for the feed,
/// `posts` where none is.
pub open spec fn download_root(config: &ArtistConfig, kind: PostType) -> Seq<char> {
    let path = match kind {
        PostType::Artist => config.artist_download_path,
        PostType::Moment => config.moments_download_path,
    };
    match path {
        Some(p) => p@,
        None => "posts"@,
    }
}

/// Picks the directory under which the posts of a feed are stored.
pub fn download_dir(config: &ArtistConfig, kind: PostType) -> (r: String)
    ensures
        r@ == download_root(config, kind),
{
    let path = match kind {
        PostType::Artist => &config.artist_download_path,
        PostType::Moment => &config.moments_download_path,
    };
    match path {
        Some(p) => p.clone(),
        None => String::from_str("posts"),
    }
}

/// A file of a post to fetch: where it is, and where it goes.
#[derive(Debug, PartialEq)]
pub struct MediaFile {
    pub url: String,
    pub path: String,
}

impl View for MediaFile {
    type V = (Seq<char>, Seq<char>);

    open spec fn view(&self) -> (Seq<char>, Seq<char>) {
        (self.url@, self.path@)
    }
}

/// All that is to be done to store a post: the files to fetch into the
/// scratch directory, the text to write there, and the final directory that
/// the scratch directory then becomes.
#[derive(Debug, PartialEq)]
pub struct CommitPlan {
    pub dir: String,
    pub temp_dir: String,
    pub media: Vec<MediaFile>,
    pub content_path: String,
    pub content: String,
}

/// The address and the path of each file of a list.
pub open spec fn file_views(files: Seq<MediaFile>) -> Seq<(Seq<char>, Seq<char>)> {
    files.map_values(|m: MediaFile| m@)
}

/// The directory of a post under the directory of its feed.
pub open spec fn final_dir(root: Seq<char>, prefix: Seq<char>) -> Seq<char> {
    root + "/"@ + prefix
}

/// The scratch directory beside the directory of a post.
pub open spec fn scratch_dir(root: Seq<char>, prefix: Seq<char>) -> Seq<char> {
    final_dir(root, prefix) + ".temp"@
}

/// The path of the `i`-th photo (`tag` is `-img`) or video (`-vid`) of a post:
/// in the scratch directory, named by the prefix, the tag, the position in
/// two digits or more, and the extension of its address.
pub open spec fn media_path(
    temp_dir: Seq<char>,
    prefix: Seq<char>,
    tag: Seq<char>,
    i: nat,
    url: Seq<char>,
) -> Seq<char> {
    temp_dir + "/"@ + prefix + tag + decimal_pad2(i) + extension(url)
}

/// The files of the first `upto` photos, in their order.
pub open spec fn photo_files(
    photos: Seq<Photo>,
    temp_dir: Seq<char>,
    prefix: Seq<char>,
    upto: int,
) -> Seq<(Seq<char>, Seq<char>)>
    decreases upto,
{
    if upto <= 0 || upto > photos.len() {
        Seq::empty()
    } else {
        photo_files(photos, temp_dir, prefix, upto - 1).push(
            (
                photos[upto - 1].url@,
                media_path(temp_dir, prefix, "-img"@, (upto - 1) as nat, photos[upto - 1].url@),
            ),
        )
    }
}

/// The files of those of the first `upto` videos whose address is known, in
/// their order. A video keeps the number of its place in the whole list.
pub open spec fn video_files(
    videos: Seq<Video>,
    temp_dir: Seq<char>,
    prefix: Seq<char>,
    upto: int,
) -> Seq<(Seq<char>, Seq<char>)>
    decreases upto,
{
    if upto <= 0 || upto > videos.len() {
        Seq::empty()
    } else {
        let before = video_files(videos, temp_dir, prefix, upto - 1);
        match videos[upto - 1].video_url {
            Some(url) => before.push(
                (url@, media_path(temp_dir, prefix, "-vid"@, (upto - 1) as nat, url@)),
            ),
            None => before,
        }
    }
}

/// How many of the first `upto` videos have a known address.
pub open spec fn resolved_videos(videos: Seq<Video>, upto: int) -> nat
    decreases upto,
{
    if upto <= 0 || upto > videos.len() {
        0
    } else if videos[upto - 1].video_url.is_some() {
        resolved_videos(videos, upto - 1) + 1
    } else {
        resolved_videos(videos, upto - 1)
    }
}

/// The files of a post: its photos, then its videos with a known address.
pub open spec fn media_files(post: &Post, temp_dir: Seq<char>, prefix: Seq<char>) -> Seq<
    (Seq<char>, Seq<char>),
> {
    photo_files(post.photo_list(), temp_dir, prefix, post.photo_list().len() as int)
        + video_files(post.video_list(), temp_dir, prefix, post.video_list().len() as int)
}

/// The text stored with a post: its address, then the author and the time of
/// creation, then the body, empty where the post has none.
pub open spec fn content_text(post: &Post) -> Seq<char> {
    post_url(lowercased(post.community.name@), post.id as int) + "\n"@
        + post.community_user.nickname@ + " ("@ + post.created_at@ + "):\n"@ + match post.body {
        Some(body) => body@,
        None => Seq::empty(),
    }
}

/// Builds the path of a photo or a video.
pub fn media_path_of(temp_dir: &str, prefix: &str, tag: &str, i: usize, url: &str) -> (r: String)
    ensures
        r@ == media_path(temp_dir@, prefix@, tag@, i as nat, url@),
{
    let mut s = String::from_str(temp_dir);
    s.append("/");
    s.append(prefix);
    s.append(tag);
    let n = pad2_string(i);
    s.append(n.as_str());
    let ext = extension_of(url);
    s.append(ext.as_str());
    s
}

/// Lists the files of a post to fetch, each with the path it goes to.
pub fn plan_media(post: &Post, temp_dir: &str, prefix: &str) -> (r: Vec<MediaFile>)
    ensures
        file_views(r@) == media_files(post, temp_dir@, prefix@),
{
    let mut out: Vec<MediaFile> = Vec::new();
    assert(file_views(out@) =~= Seq::empty());
    match &post.photos {
        Some(photos) => {
            let mut i: usize = 0;
            while i < photos.len()
                invariant
                    i <= photos.len(),
                    file_views(out@) == photo_files(photos@, temp_dir@, prefix@, i as int),
                decreases photos.len() - i,
            {
                let url = photos[i].url.clone();
                let path = media_path_of(temp_dir, prefix, "-img", i, url.as_str());
                let ghost before = out@;
                let file = MediaFile { url, path };
                let ghost added = file@;
                out.push(file);
                assert(file_views(out@) =~= file_views(before).push(added));
                i = i + 1;
            }
        },
        None => {},
    }
    let ghost shots = file_views(out@);
    assert(shots == photo_files(
        post.photo_list(),
        temp_dir@,
        prefix@,
        post.photo_list().len() as int,
    ));
    match &post.attached_videos {
        Some(videos) => {
            let mut i: usize = 0;
            assert(file_views(out@) =~= shots + Seq::empty());
            while i < videos.len()
                invariant
                    i <= videos.len(),
                    file_views(out@) == shots + video_files(
                        videos@,
                        temp_dir@,
                        prefix@,
                        i as int,
                    ),
                decreases videos.len() - i,
            {
                match &videos[i].video_url {
                    Some(video_url) => {
                        let url = video_url.clone();
                        let path = media_path_of(temp_dir, prefix, "-vid", i, url.as_str());
                        let ghost before = out@;
                        let file = MediaFile { url, path };
                        let ghost added = file@;
                        out.push(file);
                        assert(file_views(out@) =~= file_views(before).push(added));
                        assert(file_views(out@) =~= shots + video_files(
                            videos@,
                            temp_dir@,
                            prefix@,
                            i + 1,
                        ));
                    },
                    None => {},
                }
                i = i + 1;
            }
        },
        None => {
            assert(file_views(out@) =~= shots + Seq::empty());
        },
    }
    out
}

/// Writes the text that is stored with a post.
pub fn content_of(post: &Post) -> (r: String)
    ensures
        r@ == content_text(post),
{
    let mut s = get_url(post);
    s.append("\n");
    s.append(post.community_user.nickname.as_str());
    s.append(" (");
    s.append(post.created_at.as_str());
    s.append("):\n");
    match &post.body {
        Some(body) => {
            s.append(body.as_str());
        },
        None => {
            assert(s@ + Seq::<char>::empty() =~= s@);
        },
    }
    s
}

/// Lays out the directory of a post under `root`, the directory of its feed:
/// the final directory is named by the prefix, the scratch directory beside
/// it ends in `.temp`, and the text goes into the scratch directory under the
/// prefix and `-content.txt`.
pub fn plan_commit(post: &Post, root: &str, prefix: &str) -> (plan: CommitPlan)
    ensures
        plan.dir@ == final_dir(root@, prefix@),
        plan.temp_dir@ == scratch_dir(root@, prefix@),
        file_views(plan.media@) == media_files(post, scratch_dir(root@, prefix@), prefix@),
        plan.content_path@ == scratch_dir(root@, prefix@) + "/"@ + prefix@ + "-content.txt"@,
        plan.content@ == content_text(post),
{
    let mut dir = String::from_str(root);
    dir.append("/");
    dir.append(prefix);
    let mut temp_dir = dir.clone();
    temp_dir.append(".temp");
    let media = plan_media(post, temp_dir.as_str(), prefix);
    let mut content_path = temp_dir.clone();
    content_path.append("/");
    content_path.append(prefix);
    content_path.append("-content.txt");
    let content = content_of(post);
    CommitPlan { dir, temp_dir, media, content_path, content }
}

/// A plan holds one file for each photo of the post and one for each video
/// whose address is known, and no other.
pub proof fn lemma_one_file_for_each_address(post: &Post, temp_dir: Seq<char>, prefix: Seq<char>)
    ensures
        media_files(post, temp_dir, prefix).len() == post.photo_list().len() + resolved_videos(
            post.video_list(),
            post.video_list().len() as int,
        ),
{
    lemma_photo_files_len(post.photo_list(), temp_dir, prefix, post.photo_list().len() as int);
    lemma_video_files_len(post.video_list(), temp_dir, prefix, post.video_list().len() as int);
}

pub proof fn lemma_photo_files_len(
    photos: Seq<Photo>,
    temp_dir: Seq<char>,
    prefix: Seq<char>,
    upto: int,
)
    requires
        0 <= upto <= photos.len(),
    ensures
        photo_files(photos, temp_dir, prefix, upto).len() == upto,
    decreases upto,
{
    if upto > 0 {
        lemma_photo_files_len(photos, temp_dir, prefix, upto - 1);
    }
}

pub proof fn lemma_video_files_len(
    videos: Seq<Video>,
    temp_dir: Seq<char>,
    prefix: Seq<char>,
    upto: int,
)
    requires
        0 <= upto <= videos.len(),
    ensures
        video_files(videos, temp_dir, prefix, upto).len() == resolved_videos(videos, upto),
    decreases upto,
{
    if upto > 0 {
        lemma_video_files_len(videos, temp_dir, prefix, upto - 1);
    }
}

} // verus!
