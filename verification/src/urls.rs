//! The addresses of the platform.

use crate::outside::{lowercase, lowercased};
use crate::post::{Post, PostType};
use crate::text::{decimal, decimal_string};
use vstd::prelude::*;
use vstd::string::*;

verus! {

/// The listing of all creators with their ids.
pub const API_INFO_URL: &'static str = "https://weversewebapi.weverse.io/wapi/v1/communities/info";

/// The name under which the password of a locked post is sent.
pub const PASSWORD_FIELD: &'static str = "lockPassword";

/// The page of a post as a reader sees it, for the creator `artist` and the
/// post `id`.
pub open spec fn post_url(artist: Seq<char>, id: int) -> Seq<char> {
    "https://weverse.io/"@ + artist + "/artist/"@ + decimal(id)
}

/// The feed of the creator with the id `artist_id`: its posts, or its moments.
pub open spec fn feed_url(post_type: PostType, artist_id: int) -> Seq<char> {
    match post_type {
        PostType::Artist => "https://weversewebapi.weverse.io/wapi/v1/communities/"@ + decimal(
            artist_id,
        ) + "/posts/artistTab"@,
        PostType::Moment => "https://weversewebapi.weverse.io/wapi/v1/stream/community/"@
            + decimal(artist_id) + "/toFans"@,
    }
}

/// The full form of one post of the creator with the id `artist_id`.
pub open spec fn detail_url(artist_id: int, post_id: int) -> Seq<char> {
    "https://weversewebapi.weverse.io/wapi/v1/communities/"@ + decimal(artist_id) + "/posts/"@
        + decimal(post_id)
}

/// Builds the reader's address of a post under the creator's name as given.
pub fn page_url(artist: &str, id: i64) -> (r: String)
    ensures
        r@ == post_url(artist@, id as int),
{
    let mut s = String::from_str("https://weverse.io/");
    s.append(artist);
    s.append("/artist/");
    let n = decimal_string(id);
    s.append(n.as_str());
    s
}

/// The address under which a reader finds the post: the creator's name in
/// lowercase, then the post's id.
pub fn get_url(post: &Post) -> (r: String)
    ensures
        r@ == post_url(lowercased(post.community.name@), post.id as int),
{
    let artist = lowercase(post.community.name.as_str());
    page_url(artist.as_str(), post.id)
}

/// Builds the address of a creator's feed.
pub fn feed_address(post_type: PostType, artist_id: i64) -> (r: String)
    ensures
        r@ == feed_url(post_type, artist_id as int),
{
    let n = decimal_string(artist_id);
    match post_type {
        PostType::Artist => {
            let mut s = String::from_str("https://weversewebapi.weverse.io/wapi/v1/communities/");
            s.append(n.as_str());
            s.append("/posts/artistTab");
            s
        },
        PostType::Moment => {
            let mut s = String::from_str(
                "https://weversewebapi.weverse.io/wapi/v1/stream/community/",
            );
            s.append(n.as_str());
            s.append("/toFans");
            s
        },
    }
}

/// Builds the address of the full form of a post.
pub fn detail_address(post: &Post) -> (r: String)
    ensures
        r@ == detail_url(post.community.id as int, post.id as int),
{
    let mut s = String::from_str("https://weversewebapi.weverse.io/wapi/v1/communities/");
    let a = decimal_string(post.community.id);
    s.append(a.as_str());
    s.append("/posts/");
    let n = decimal_string(post.id);
    s.append(n.as_str());
    s
}

} // verus!
