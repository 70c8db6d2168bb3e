use weverse_dl::config::{default_keep_open, default_num_processes};
use weverse_dl::errors::{caused_line, response_line, status_is_success, DownloadErr};
use weverse_dl::post::{Community, CommunityUser, DownloadOk, Post, PostType};
use weverse_dl::report::{settle, status_line};
use weverse_dl::urls::{
    detail_address, feed_address, get_url, page_url, API_INFO_URL, PASSWORD_FIELD,
};

fn post(id: i64, name: &str, locked: bool) -> Post {
    Post {
        id,
        community_user: CommunityUser { id: 7, nickname: String::from("someone") },
        community: Community { id: 3, name: String::from(name) },
        community_tab_id: 1,
        post_type: String::from("NORMAL"),
        body: None,
        created_at: String::from("2020-01-31T12:34:56+09:00"),
        updated_at: String::from("2020-01-31T12:34:56+09:00"),
        photos: None,
        attached_videos: None,
        locked,
    }
}

fn s(text: &str) -> String {
    String::from(text)
}

#[test]
fn address_of_a_post_names_the_creator_in_lowercase() {
    assert_eq!(get_url(&post(42, "Sample", false)), "https://weverse.io/sample/artist/42");
    assert_eq!(get_url(&post(-1, "ÉCOLE x", false)), "https://weverse.io/école x/artist/-1");
    assert_eq!(page_url("Sample", 42), "https://weverse.io/Sample/artist/42");
}

#[test]
fn addresses_of_the_platform() {
    assert_eq!(API_INFO_URL, "https://weversewebapi.weverse.io/wapi/v1/communities/info");
    assert_eq!(PASSWORD_FIELD, "lockPassword");
    assert_eq!(
        feed_address(PostType::Artist, 14),
        "https://weversewebapi.weverse.io/wapi/v1/communities/14/posts/artistTab"
    );
    assert_eq!(
        feed_address(PostType::Moment, 14),
        "https://weversewebapi.weverse.io/wapi/v1/stream/community/14/toFans"
    );
    assert_eq!(
        detail_address(&post(42, "Sample", false)),
        "https://weversewebapi.weverse.io/wapi/v1/communities/3/posts/42"
    );
}

#[test]
fn defaults_of_the_configuration() {
    assert_eq!(default_keep_open(), false);
    assert_eq!(default_num_processes(), 20);
}

#[test]
fn each_failure_has_its_line() {
    let cases = vec![
        (DownloadErr::ArtistMapErr(s("sample")), "Error finding sample in artist_id_map"),
        (DownloadErr::LastIdErr, "Error lastId not found"),
        (DownloadErr::ParsePostTypeErr(s("VIDEO")), "Error parsing post type: VIDEO"),
        (DownloadErr::RequestErr(s("u"), s("why")), "Error sending request for u: why"),
        (
            DownloadErr::ResponseErr(s("u"), post(1, "Sample", false), 404),
            "Error response for u: 404 Not Found",
        ),
        (DownloadErr::ResponseBytesErr(s("u"), s("why")), "Error parsing bytes for u: why"),
        (DownloadErr::ResponseJsonErr(s("u"), s("why")), "Error parsing json for u: why"),
        (
            DownloadErr::ResponseTextErr(s("u"), s("why")),
            "Error reading response text for u: why",
        ),
        (DownloadErr::StdinErr, "Error reading stdin"),
        (DownloadErr::StdinErrStr(s("why")), "Error reading stdin: why"),
        (DownloadErr::FileCreateErr(s("p"), s("why")), "Error creating file p: why"),
        (DownloadErr::FileWriteErr(s("p"), s("why")), "Error writing to file p: why"),
        (DownloadErr::RenameErr(s("p"), s("why")), "Error renaming p: why"),
    ];
    for (failure, line) in cases {
        assert_eq!(failure.message(), line);
    }
    assert_eq!(caused_line("a ", "b", "c"), "a b: c");
}

#[test]
fn wrong_password_is_a_refusal_of_a_locked_post() {
    assert!(DownloadErr::ResponseErr(s("u"), post(1, "Sample", true), 403).wrong_password());
    assert!(DownloadErr::ResponseErr(s("u"), post(1, "Sample", true), 500).wrong_password());
    assert!(!DownloadErr::ResponseErr(s("u"), post(1, "Sample", false), 403).wrong_password());
    assert!(!DownloadErr::RequestErr(s("u"), s("403")).wrong_password());
    assert!(!DownloadErr::StdinErr.wrong_password());
}

#[test]
fn success_is_a_status_from_200_to_299() {
    assert!(!status_is_success(0));
    assert!(!status_is_success(199));
    assert!(status_is_success(200));
    assert!(status_is_success(299));
    assert!(!status_is_success(300));
    assert!(!status_is_success(403));
    assert!(!status_is_success(u16::MAX));
}

#[test]
fn status_lines_tell_how_a_post_ended() {
    assert_eq!(
        status_line(&Ok(DownloadOk::Downloaded(post(42, "Sample", false)))),
        "Downloaded https://weverse.io/sample/artist/42"
    );
    assert_eq!(
        status_line(&Ok(DownloadOk::Skipped(post(42, "Sample", false)))),
        "Skipped https://weverse.io/sample/artist/42"
    );
    assert_eq!(
        status_line(&Err(DownloadErr::ResponseErr(s("u"), post(42, "Sample", true), 403))),
        "Wrong password for https://weverse.io/sample/artist/42"
    );
    assert_eq!(
        status_line(&Err(DownloadErr::ResponseErr(s("u"), post(42, "Sample", false), 403))),
        "Error response for u: 403 Forbidden"
    );
    assert_eq!(
        status_line(&Err(DownloadErr::FileWriteErr(s("p"), s("disk full")))),
        "Error writing to file p: disk full"
    );
}

#[test]
fn only_a_post_with_a_refused_password_is_taken_up_again() {
    let refused = Err(DownloadErr::ResponseErr(s("u"), post(42, "Sample", true), 403));
    assert_eq!(
        settle(refused),
        (s("Wrong password for https://weverse.io/sample/artist/42"), Some(post(42, "Sample", true)))
    );
    let failed = Err(DownloadErr::ResponseErr(s("u"), post(42, "Sample", false), 403));
    assert_eq!(settle(failed), (s("Error response for u: 403 Forbidden"), None));
    assert_eq!(settle(Err(DownloadErr::StdinErr)), (s("Error reading stdin"), None));
    let stored = Ok(DownloadOk::Downloaded(post(42, "Sample", true)));
    assert_eq!(settle(stored), (s("Downloaded https://weverse.io/sample/artist/42"), None));
    let skipped = Ok(DownloadOk::Skipped(post(42, "Sample", true)));
    assert_eq!(settle(skipped), (s("Skipped https://weverse.io/sample/artist/42"), None));
}

#[test]
fn status_is_shown_with_its_phrase() {
    let line = |code: u16| DownloadErr::ResponseErr(s("u"), post(1, "Sample", false), code).message();
    assert_eq!(line(500), "Error response for u: 500 Internal Server Error");
    assert_eq!(line(418), "Error response for u: 418 I'm a teapot");
    assert_eq!(line(299), "Error response for u: 299 <unknown status code>");
    assert_eq!(line(999), "Error response for u: 999 <unknown status code>");
    assert_eq!(line(99), "Error response for u: 99");
    assert_eq!(line(1000), "Error response for u: 1000");
    assert_eq!(line(0), "Error response for u: 0");
    assert_eq!(response_line("u", 7, Some(s("seven"))), "Error response for u: seven");
    assert_eq!(response_line("u", 7, None), "Error response for u: 7");
}
