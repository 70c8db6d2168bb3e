//! The lines that tell the user how the work on each post ended.

use crate::errors::DownloadErr;
use crate::outside::lowercased;
use crate::post::{DownloadOk, Post};
use crate::urls::{get_url, post_url};
use vstd::prelude::*;
use vstd::string::*;

verus! {

/// The address of a post as the lines show it.
pub open spec fn shown_url(post: &Post) -> Seq<char> {
    post_url(lowercased(post.community.name@), post.id as int)
}

/// The line for the end of the work on a post: that it was stored, that it
/// was skipped, that its password was refused, or why it failed.
pub open spec fn status_text(result: &Result<DownloadOk, DownloadErr>) -> Seq<char> {
    match result {
        Ok(DownloadOk::Downloaded(post)) => "Downloaded "@ + shown_url(post),
        Ok(DownloadOk::Skipped(post)) => "Skipped "@ + shown_url(post),
        Err(DownloadErr::ResponseErr(url, post, code)) => if post.locked {
            "Wrong password for "@ + shown_url(post)
        } else {
            (DownloadErr::ResponseErr(*url, *post, *code)).message_text()
        },
        Err(e) => e.message_text(),
    }
}

/// Puts `head` before the address of a post.
fn headed(head: &str, post: &Post) -> (r: String)
    ensures
        r@ == head@ + shown_url(post),
{
    let mut s = String::from_str(head);
    let url = get_url(post);
    s.append(url.as_str());
    s
}

/// Writes the line that tells the user how the work on a post ended.
pub fn status_line(result: &Result<DownloadOk, DownloadErr>) -> (r: String)
    ensures
        r@ == status_text(result),
{
    match result {
        Ok(DownloadOk::Downloaded(post)) => headed("Downloaded ", post),
        Ok(DownloadOk::Skipped(post)) => headed("Skipped ", post),
        Err(e) => match e {
            DownloadErr::ResponseErr(_, post, _) => {
                if post.locked {
                    headed("Wrong password for ", post)
                } else {
                    e.message()
                }
            },
            _ => e.message(),
        },
    }
}

/// The post to take up again after the work on it ended so: the post whose
/// password was refused, so that the user is asked once more; none after any
/// other end.
pub open spec fn post_to_retry(result: &Result<DownloadOk, DownloadErr>) -> Option<Post> {
    match result {
        Err(DownloadErr::ResponseErr(_, post, _)) => if post.locked {
            Some(*post)
        } else {
            None
        },
        _ => None,
    }
}

/// Settles the end of the work on a post: writes the line for the user, and
/// hands back the post where it is to be taken up again.
pub fn settle(result: Result<DownloadOk, DownloadErr>) -> (r: (String, Option<Post>))
    ensures
        r.0@ == status_text(&result),
        r.1 == post_to_retry(&result),
{
    let line = status_line(&result);
    match result {
        Err(DownloadErr::ResponseErr(_, post, _)) => {
            if post.locked {
                (line, Some(post))
            } else {
                (line, None)
            }
        },
        _ => (line, None),
    }
}

/// A refused password is reported as such, with the address of the post.
pub proof fn lemma_wrong_password_is_named(e: DownloadErr)
    requires
        e.is_wrong_password(),
    ensures
        e matches DownloadErr::ResponseErr(_, post, _) && status_text(&Err(e))
            == "Wrong password for "@ + shown_url(&post) && post_to_retry(&Err(e)) == Some(post),
{
}

} // verus!
