use weverse_dl::commit::{
    content_of, download_dir, get_prefix, join_prefix, kind_from_lowercase, media_path_of,
    plan_commit, plan_media, post_dir_exists, post_kind, try_get_prefix, MediaFile, DAY_LAYOUT,
};
use weverse_dl::config::ArtistConfig;
use weverse_dl::errors::DownloadErr;
use weverse_dl::post::{Community, CommunityUser, Photo, Post, PostType, Video};

fn post(id: i64, nickname: &str, created_at: &str) -> Post {
    Post {
        id,
        community_user: CommunityUser { id: 7, nickname: String::from(nickname) },
        community: Community { id: 3, name: String::from("Sample") },
        community_tab_id: 1,
        post_type: String::from("NORMAL"),
        body: Some(String::from("hello\nworld")),
        created_at: String::from(created_at),
        updated_at: String::from(created_at),
        photos: None,
        attached_videos: None,
        locked: false,
    }
}

fn names(list: &[&str]) -> Vec<String> {
    list.iter().map(|s| String::from(*s)).collect()
}

fn artist(posts: Option<&str>, moments: Option<&str>) -> ArtistConfig {
    ArtistConfig {
        artist_download_path: posts.map(String::from),
        moments_download_path: moments.map(String::from),
        videos_download_path: None,
        recent_artist: None,
        recent_moments: None,
        recent_videos: None,
    }
}

#[test]
fn raw_prefix_joins_day_id_and_author() {
    assert_eq!(join_prefix("20200131", 42, "some one"), "20200131-42-some one");
    assert_eq!(join_prefix("", -5, ""), "--5-");
}

#[test]
fn prefix_holds_the_day_of_the_timestamp_in_its_own_zone() {
    let p = post(42, "someone", "2020-01-31T23:59:59+09:00");
    assert_eq!(get_prefix(&p), "20200131-42-someone");
    let p = post(42, "someone", "2020-01-31T15:30:00Z");
    assert_eq!(get_prefix(&p), "20200131-42-someone");
    let p = post(1, "x", "1999-12-31T23:59:59.123-11:00");
    assert_eq!(try_get_prefix(&p), Some(String::from("19991231-1-x")));
}

#[test]
fn prefix_is_made_safe_for_the_file_system() {
    let p = post(42, "a/b:c*d?e\"f<g>h|i\\j", "2020-01-31T12:00:00+09:00");
    assert_eq!(get_prefix(&p), "20200131-42-abcdefghij");
    let p = post(42, "tab\there", "2020-01-31T12:00:00+09:00");
    assert_eq!(get_prefix(&p), "20200131-42-tabhere");
}

#[test]
fn no_prefix_without_a_timestamp() {
    assert_eq!(DAY_LAYOUT, "%Y%m%d");
    assert_eq!(try_get_prefix(&post(42, "someone", "31 January 2020")), None);
    assert_eq!(try_get_prefix(&post(42, "someone", "")), None);
    assert_eq!(try_get_prefix(&post(42, "someone", "2020-02-30T12:00:00Z")), None);
}

#[test]
fn directory_of_same_day_and_id_counts_as_there() {
    let there = names(&["20200130-41-someone", "20200131-42-renamed by hand", "notes"]);
    assert!(post_dir_exists(&there, "20200131-42-someone"));
    assert!(post_dir_exists(&there, "20200130-41"));
    assert!(post_dir_exists(&there, "notes"));
    assert!(!post_dir_exists(&there, "20200131-43-someone"));
    assert!(!post_dir_exists(&there, "20200131-4-someone"));
    assert!(!post_dir_exists(&there, "20200131"));
    assert!(!post_dir_exists(&Vec::new(), "20200131-42-someone"));
}

#[test]
fn negative_id_is_part_of_what_is_compared() {
    let there = names(&["20200131--5-someone"]);
    assert!(post_dir_exists(&there, "20200131--5-renamed"));
    assert!(!post_dir_exists(&there, "20200131--6-someone"));
    assert!(!post_dir_exists(&there, "20200131-5-someone"));
}

#[test]
fn prefix_holds_no_character_that_a_file_system_refuses() {
    let p = post(-7, "\u{0}a\u{1f}b\u{80}c\u{9f}d/e\\f", "2020-01-31T12:00:00+09:00");
    let prefix = get_prefix(&p);
    assert_eq!(prefix, "20200131--7-abcdef");
    assert!(prefix.chars().all(|c| {
        !"/?<>\\:*|\"".contains(c) && c > '\u{1f}' && !('\u{80}'..='\u{9f}').contains(&c)
    }));
}

#[test]
fn leftover_scratch_directory_shares_day_and_id() {
    let there = names(&["20200131-42-someone.temp"]);
    assert!(post_dir_exists(&there, "20200131-42-someone"));
    let there = names(&["20200131-42.temp"]);
    assert!(!post_dir_exists(&there, "20200131-42-someone"));
}

#[test]
fn post_types_are_read_in_any_case() {
    assert_eq!(post_kind("normal"), Ok(PostType::Artist));
    assert_eq!(post_kind("NORMAL"), Ok(PostType::Artist));
    assert_eq!(post_kind("To_Fans"), Ok(PostType::Moment));
    assert_eq!(post_kind("TO_FANS"), Ok(PostType::Moment));
}

#[test]
fn unknown_post_type_is_refused_as_given() {
    assert_eq!(post_kind("Video"), Err(DownloadErr::ParsePostTypeErr(String::from("Video"))));
    assert_eq!(post_kind(""), Err(DownloadErr::ParsePostTypeErr(String::new())));
    assert_eq!(post_kind("normal "), Err(DownloadErr::ParsePostTypeErr(String::from("normal "))));
    assert_eq!(
        kind_from_lowercase("NORMAL", "NORMAL"),
        Err(DownloadErr::ParsePostTypeErr(String::from("NORMAL")))
    );
    assert_eq!(kind_from_lowercase("to_fans", "TO_FANS"), Ok(PostType::Moment));
}

#[test]
fn feeds_are_stored_where_configured() {
    let config = artist(Some("/data/posts"), Some("/data/moments"));
    assert_eq!(download_dir(&config, PostType::Artist), "/data/posts");
    assert_eq!(download_dir(&config, PostType::Moment), "/data/moments");
    let config = artist(None, None);
    assert_eq!(download_dir(&config, PostType::Artist), "posts");
    assert_eq!(download_dir(&config, PostType::Moment), "posts");
}

#[test]
fn media_paths_are_numbered_with_two_digits() {
    assert_eq!(
        media_path_of("d.temp", "p", "-img", 3, "https://cdn.example/x/y.jpeg?size=big.png"),
        "d.temp/p-img03.jpeg"
    );
    assert_eq!(media_path_of("d", "p", "-img", 0, "h://a.b/c"), "d/p-img00");
    assert_eq!(
        media_path_of("out/p.temp", "p", "-img", 0, "https://cdn.weverse.io/photo"),
        "out/p.temp/p-img00"
    );
    assert_eq!(media_path_of("d.temp", "p", "-vid", 12, "https://cdn-example/x/y"), "d.temp/p-vid12");
    assert_eq!(media_path_of("d.temp", "p", "-img", 100, "a.b"), "d.temp/p-img100.b");
}

#[test]
fn plan_lists_photos_then_videos_with_an_address() {
    let mut p = post(42, "someone", "2020-01-31T12:00:00+09:00");
    p.photos = Some(vec![
        Photo { id: 1, url: String::from("https://cdn.example/a.jpg") },
        Photo { id: 2, url: String::from("https://cdn.example/b.png") },
    ]);
    p.attached_videos = Some(vec![
        Video { video_url: None },
        Video { video_url: Some(String::from("https://cdn.example/c.mp4")) },
        Video { video_url: None },
        Video { video_url: Some(String::from("https://cdn.example/d")) },
    ]);
    let media = plan_media(&p, "root/pre.temp", "pre");
    assert_eq!(
        media,
        vec![
            MediaFile {
                url: String::from("https://cdn.example/a.jpg"),
                path: String::from("root/pre.temp/pre-img00.jpg"),
            },
            MediaFile {
                url: String::from("https://cdn.example/b.png"),
                path: String::from("root/pre.temp/pre-img01.png"),
            },
            MediaFile {
                url: String::from("https://cdn.example/c.mp4"),
                path: String::from("root/pre.temp/pre-vid01.mp4"),
            },
            MediaFile {
                url: String::from("https://cdn.example/d"),
                path: String::from("root/pre.temp/pre-vid03"),
            },
        ]
    );
}

#[test]
fn plan_of_a_post_without_media_is_empty() {
    let mut p = post(42, "someone", "2020-01-31T12:00:00+09:00");
    assert_eq!(plan_media(&p, "t", "p"), Vec::new());
    p.photos = Some(Vec::new());
    p.attached_videos = Some(vec![Video { video_url: None }]);
    assert_eq!(plan_media(&p, "t", "p"), Vec::new());
}

#[test]
fn content_names_address_author_time_and_body() {
    let mut p = post(42, "Some One", "2020-01-31T12:00:00+09:00");
    assert_eq!(
        content_of(&p),
        "https://weverse.io/sample/artist/42\nSome One (2020-01-31T12:00:00+09:00):\nhello\nworld"
    );
    p.body = None;
    assert_eq!(
        content_of(&p),
        "https://weverse.io/sample/artist/42\nSome One (2020-01-31T12:00:00+09:00):\n"
    );
}

#[test]
fn plan_lays_out_scratch_and_final_directory() {
    let mut p = post(42, "someone", "2020-01-31T12:00:00+09:00");
    p.photos = Some(vec![Photo { id: 1, url: String::from("https://cdn.example/a.jpg") }]);
    let plan = plan_commit(&p, "/data/posts", "20200131-42-someone");
    assert_eq!(plan.dir, "/data/posts/20200131-42-someone");
    assert_eq!(plan.temp_dir, "/data/posts/20200131-42-someone.temp");
    assert_eq!(
        plan.content_path,
        "/data/posts/20200131-42-someone.temp/20200131-42-someone-content.txt"
    );
    assert_eq!(plan.content, content_of(&p));
    assert_eq!(
        plan.media,
        vec![MediaFile {
            url: String::from("https://cdn.example/a.jpg"),
            path: String::from(
                "/data/posts/20200131-42-someone.temp/20200131-42-someone-img00.jpg"
            ),
        }]
    );
}
