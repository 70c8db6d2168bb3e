use weverse_dl::text::{decimal_string, extension_of, pad2_string, path_bounds, path_of, stem_of};

#[test]
fn decimal_of_zero_is_one_digit() {
    assert_eq!(decimal_string(0), "0");
}

#[test]
fn decimal_of_a_negative_number_has_a_sign() {
    assert_eq!(decimal_string(-1234567890), "-1234567890");
    assert_eq!(decimal_string(i64::MIN), "-9223372036854775808");
    assert_eq!(decimal_string(i64::MAX), "9223372036854775807");
}

#[test]
fn positions_have_two_digits_or_more() {
    assert_eq!(pad2_string(0), "00");
    assert_eq!(pad2_string(7), "07");
    assert_eq!(pad2_string(10), "10");
    assert_eq!(pad2_string(123), "123");
}

#[test]
fn stem_is_what_stands_before_the_second_hyphen() {
    assert_eq!(stem_of("20200131-42-someone"), "20200131-42");
    assert_eq!(stem_of("20200131-42-some-one-else"), "20200131-42");
    assert_eq!(stem_of("20200131-42"), "20200131-42");
    assert_eq!(stem_of("20200131"), "20200131");
    assert_eq!(stem_of(""), "");
    assert_eq!(stem_of("a--b"), "a--b");
    assert_eq!(stem_of("20200131--42-someone"), "20200131--42");
    assert_eq!(stem_of("20200131--42"), "20200131--42");
    assert_eq!(stem_of("20200131-"), "20200131-");
    assert_eq!(stem_of("20200131--"), "20200131--");
    assert_eq!(stem_of("20200131---x"), "20200131--");
}

#[test]
fn extension_starts_at_the_last_full_stop() {
    assert_eq!(extension_of("https://cdn.example/a/b.tar.jpg"), ".jpg");
    assert_eq!(extension_of("https://cdn-example/a/b"), "");
    assert_eq!(extension_of("name."), ".");
    assert_eq!(extension_of(""), "");
}

#[test]
fn digits_are_written_most_significant_first() {
    assert_eq!(weverse_dl::text::digits_string(0), "0");
    assert_eq!(weverse_dl::text::digits_string(9), "9");
    assert_eq!(weverse_dl::text::digits_string(10), "10");
    assert_eq!(weverse_dl::text::digits_string(u64::MAX), "18446744073709551615");
    for d in 0..10u64 {
        assert_eq!(weverse_dl::text::digit_str(d), d.to_string());
    }
}

#[test]
fn first_hyphen_is_sought_from_a_place_on() {
    assert_eq!(weverse_dl::text::find_hyphen("a-b-c", 0), 1);
    assert_eq!(weverse_dl::text::find_hyphen("a-b-c", 1), 1);
    assert_eq!(weverse_dl::text::find_hyphen("a-b-c", 2), 3);
    assert_eq!(weverse_dl::text::find_hyphen("a-b-c", 4), 5);
    assert_eq!(weverse_dl::text::find_hyphen("a-b-c", 5), 5);
    assert_eq!(weverse_dl::text::find_hyphen("é-ü", 0), 1);
    assert_eq!(stem_of("日本-語-x"), "日本-語");
    assert_eq!(extension_of("日本.語"), ".語");
}

#[test]
fn extension_is_taken_from_the_path_alone() {
    assert_eq!(extension_of("h://a.b/c"), "");
    assert_eq!(extension_of("https://cdn.weverse.io/photo"), "");
    assert_eq!(extension_of("https://cdn.weverse.io"), "");
    assert_eq!(extension_of("https://cdn.weverse.io?name=a.png"), "");
    assert_eq!(extension_of("https://cdn.weverse.io/a/b.jpeg?size=big.png"), ".jpeg");
    assert_eq!(extension_of("https://cdn.weverse.io/a/b.jpeg#top.left"), ".jpeg");
    assert_eq!(extension_of("https://cdn.weverse.io/a/b.mp4?x=1#y.z"), ".mp4");
    assert_eq!(extension_of("https://user@cdn.weverse.io:8080/a/b"), "");
    assert_eq!(extension_of("file:///x/y.z"), ".z");
    assert_eq!(extension_of("https://cdn.weverse.io/a.b/c"), ".b/c");
    assert_eq!(extension_of("a/b.jpg?c.png"), ".jpg");
    assert_eq!(extension_of("a.b"), ".b");
}

#[test]
fn path_stands_behind_the_host_and_before_the_query() {
    assert_eq!(path_of("https://cdn.weverse.io/a/b.jpeg?size=big.png"), "/a/b.jpeg");
    assert_eq!(path_bounds("https://cdn.weverse.io/a/b.jpeg?size=big.png"), (22, 31));
    assert_eq!(path_of("https://cdn.weverse.io"), "");
    assert_eq!(path_of("https://cdn.weverse.io#x"), "");
    assert_eq!(path_of("svn+ssh://h/p"), "/p");
    assert_eq!(path_of("1.2://h/p.q"), "1.2://h/p.q");
    assert_eq!(path_of("+x://h/p.q"), "+x://h/p.q");
    assert_eq!(path_of("x/y?z"), "x/y");
    assert_eq!(path_of("://a.b/c"), "://a.b/c");
    assert_eq!(path_of(":/a.b/c"), ":/a.b/c");
    assert_eq!(path_of("a b://c.d/e"), "a b://c.d/e");
    assert_eq!(path_of("http:/a.b/c"), "http:/a.b/c");
    assert_eq!(path_of(""), "");
}
