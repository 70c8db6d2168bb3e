//! What can go wrong with a feed or a post, and how it is told to the user.

use crate::outside::{show_status, status_shown};
use crate::post::Post;
use crate::text::{decimal, decimal_string};
use vstd::prelude::*;
use vstd::string::*;

verus! {

/// Why a feed could not be listed or a post could not be stored. Where a
/// variant holds two texts, the first names the address or the path and the
/// second gives the cause as the system reported it.
#[derive(Debug, PartialEq)]
pub enum DownloadErr {
    /// A configured creator is not among those the platform lists.
    ArtistMapErr(String),
    /// A page that is not the last one came without the place of the next.
    LastIdErr,
    /// A post is of a type that is neither a creator's post nor a moment.
    ParsePostTypeErr(String),
    RequestErr(String, String),
    /// The platform answered the request for a post with a status that is no
    /// success. Holds the address, the post that was asked for and the status.
    ResponseErr(String, Post, u16),
    ResponseBytesErr(String, String),
    ResponseJsonErr(String, String),
    ResponseTextErr(String, String),
    /// The input ended where a password was expected.
    StdinErr,
    StdinErrStr(String),
    FileCreateErr(String, String),
    FileWriteErr(String, String),
    RenameErr(String, String),
}

/// `head`, the subject, a colon and the cause.
pub open spec fn caused(head: Seq<char>, subject: Seq<char>, cause: Seq<char>) -> Seq<char> {
    head + subject + ": "@ + cause
}

/// Joins `head`, the subject, a colon and the cause into one line.
pub fn caused_line(head: &str, subject: &str, cause: &str) -> (r: String)
    ensures
        r@ == caused(head@, subject@, cause@),
{
    let mut s = String::from_str(head);
    s.append(subject);
    s.append(": ");
    s.append(cause);
    s
}

/// How a status is written in a line: the number and its phrase, or the
/// number alone where it is no status.
pub open spec fn code_text(code: u16) -> Seq<char> {
    match status_shown(code) {
        Some(text) => text,
        None => decimal(code as int),
    }
}

/// The line for an answer of the platform that is no success.
pub open spec fn response_text(url: Seq<char>, code: u16) -> Seq<char> {
    caused("Error response for "@, url, code_text(code))
}

/// Writes the line for an answer with the status `code`, which is shown as
/// `shown`, or by its number where nothing is given.
pub fn response_line(url: &str, code: u16, shown: Option<String>) -> (r: String)
    ensures
        r@ == caused(
            "Error response for "@,
            url@,
            match shown {
                Some(text) => text@,
                None => decimal(code as int),
            },
        ),
{
    match shown {
        Some(text) => caused_line("Error response for ", url, text.as_str()),
        None => {
            let number = decimal_string(code as i64);
            caused_line("Error response for ", url, number.as_str())
        },
    }
}

/// Tells whether an HTTP status reports success: the codes from 200 to 299.
pub fn status_is_success(status: u16) -> (r: bool)
    ensures
        r == (200 <= status < 300),
{
    200 <= status && status < 300
}

impl DownloadErr {
    /// The line that tells the user of this failure.
    pub open spec fn message_text(&self) -> Seq<char> {
        match self {
            DownloadErr::ArtistMapErr(s) => "Error finding "@ + s@ + " in artist_id_map"@,
            DownloadErr::LastIdErr => "Error lastId not found"@,
            DownloadErr::ParsePostTypeErr(s) => "Error parsing post type: "@ + s@,
            DownloadErr::RequestErr(s, e) => caused("Error sending request for "@, s@, e@),
            DownloadErr::ResponseErr(s, _, c) => response_text(s@, *c),
            DownloadErr::ResponseBytesErr(s, e) => caused("Error parsing bytes for "@, s@, e@),
            DownloadErr::ResponseJsonErr(s, e) => caused("Error parsing json for "@, s@, e@),
            DownloadErr::ResponseTextErr(s, e) => caused(
                "Error reading response text for "@,
                s@,
                e@,
            ),
            DownloadErr::StdinErr => "Error reading stdin"@,
            DownloadErr::StdinErrStr(e) => "Error reading stdin: "@ + e@,
            DownloadErr::FileCreateErr(s, e) => caused("Error creating file "@, s@, e@),
            DownloadErr::FileWriteErr(s, e) => caused("Error writing to file "@, s@, e@),
            DownloadErr::RenameErr(s, e) => caused("Error renaming "@, s@, e@),
        }
    }

    /// A password was refused: the platform answered the request for a locked
    /// post with a status that is no success.
    pub open spec fn is_wrong_password(&self) -> bool {
        match self {
            DownloadErr::ResponseErr(_, post, _) => post.locked,
            _ => false,
        }
    }

    /// Writes the line that tells the user of this failure.
    pub fn message(&self) -> (r: String)
        ensures
            r@ == self.message_text(),
    {
        match self {
            DownloadErr::ArtistMapErr(s) => {
                let mut r = String::from_str("Error finding ");
                r.append(s.as_str());
                r.append(" in artist_id_map");
                r
            },
            DownloadErr::LastIdErr => String::from_str("Error lastId not found"),
            DownloadErr::ParsePostTypeErr(s) => {
                let mut r = String::from_str("Error parsing post type: ");
                r.append(s.as_str());
                r
            },
            DownloadErr::RequestErr(s, e) => caused_line(
                "Error sending request for ",
                s.as_str(),
                e.as_str(),
            ),
            DownloadErr::ResponseErr(s, _, c) => response_line(s.as_str(), *c, show_status(*c)),
            DownloadErr::ResponseBytesErr(s, e) => caused_line(
                "Error parsing bytes for ",
                s.as_str(),
                e.as_str(),
            ),
            DownloadErr::ResponseJsonErr(s, e) => caused_line(
                "Error parsing json for ",
                s.as_str(),
                e.as_str(),
            ),
            DownloadErr::ResponseTextErr(s, e) => caused_line(
                "Error reading response text for ",
                s.as_str(),
                e.as_str(),
            ),
            DownloadErr::StdinErr => String::from_str("Error reading stdin"),
            DownloadErr::StdinErrStr(e) => {
                let mut r = String::from_str("Error reading stdin: ");
                r.append(e.as_str());
                r
            },
            DownloadErr::FileCreateErr(s, e) => caused_line(
                "Error creating file ",
                s.as_str(),
                e.as_str(),
            ),
            DownloadErr::FileWriteErr(s, e) => caused_line(
                "Error writing to file ",
                s.as_str(),
                e.as_str(),
            ),
            DownloadErr::RenameErr(s, e) => caused_line("Error renaming ", s.as_str(), e.as_str()),
        }
    }

    /// Tells whether this failure is a refused password.
    pub fn wrong_password(&self) -> (r: bool)
        ensures
            r == self.is_wrong_password(),
    {
        match self {
            DownloadErr::ResponseErr(_, post, _) => post.locked,
            _ => false,
        }
    }
}

} // verus!
