//! Posts as the platform lists them, and what becomes of one.

use vstd::prelude::*;

verus! {

/// One page of a feed.
#[derive(Debug, PartialEq)]
pub struct Posts {
    pub posts: Vec<Post>,
    /// Set on the last page of the feed.
    pub is_ended: bool,
    /// Where the next page starts.
    pub last_id: Option<i64>,
}

/// A post, as received. A post is never changed: a richer one replaces it.
#[derive(Debug, Clone, PartialEq)]
pub struct Post {
    pub id: i64,
    pub community_user: CommunityUser,
    pub community: Community,
    pub community_tab_id: i64,
    pub post_type: String,
    pub body: Option<String>,
    pub created_at: String,
    pub updated_at: String,
    pub photos: Option<Vec<Photo>>,
    pub attached_videos: Option<Vec<Video>>,
    pub locked: bool,
}

/// The author of a post.
#[derive(Debug, Clone, PartialEq)]
pub struct CommunityUser {
    pub id: i64,
    pub nickname: String,
}

/// The creator under which a post was published.
#[derive(Debug, Clone, PartialEq)]
pub struct Community {
    pub id: i64,
    pub name: String,
}

#[derive(Debug, Clone, PartialEq)]
pub struct Photo {
    pub id: i64,
    pub url: String,
}

/// A video of a post. Its address is known only once the post was fetched in
/// full.
#[derive(Debug, Clone, PartialEq)]
pub struct Video {
    pub video_url: Option<String>,
}

/// The two feeds of a creator.
#[derive(Debug, Clone, Copy, PartialEq, Eq, Structural)]
pub enum PostType {
    Artist,
    Moment,
}

/// How the work on a post ended well.
#[derive(Debug, PartialEq)]
pub enum DownloadOk {
    Downloaded(Post),
    Skipped(Post),
}

impl Post {
    /// The photos of the post, in order; none where the list is absent.
    pub open spec fn photo_list(&self) -> Seq<Photo> {
        match self.photos {
            Some(v) => v@,
            None => Seq::empty(),
        }
    }

    /// The videos of the post, in order; none where the list is absent.
    pub open spec fn video_list(&self) -> Seq<Video> {
        match self.attached_videos {
            Some(v) => v@,
            None => Seq::empty(),
        }
    }

    /// A post has to be fetched in full before it is stored if it is locked or
    /// carries videos, whose addresses a listing does not give.
    pub open spec fn needs_refetch(&self) -> bool {
        self.locked || self.video_list().len() > 0
    }

    /// Tells whether the post has to be fetched in full.
    pub fn requires_refetch(&self) -> (r: bool)
        ensures
            r == self.needs_refetch(),
    {
        if self.locked {
            return true;
        }
        match &self.attached_videos {
            Some(v) => v.len() > 0,
            None => false,
        }
    }
}

} // verus!
