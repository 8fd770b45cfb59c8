use booru_dl::names::{decimal_chars, extension_of, image_file_name, sidecar_file_name};
use booru_dl::post::Post;
use booru_dl::search::{
    begin_post_load, begin_search, search_progress_up, split_tags, SearchParameters,
    SearchProgress, Source,
};
use booru_dl::tags::get_tag_string;

fn post_with_tags(tags: &[&str]) -> Post {
    Post {
        id: 1,
        resource_url: None,
        tags: tags.iter().map(|t| t.to_string()).collect(),
    }
}

#[test]
fn tag_string_strips_underscores_and_escapes_parentheses() {
    let p = post_with_tags(&["big_ears", "open(mouth)"]);
    assert_eq!(get_tag_string(&p, true, true), "big ears, open\\(mouth\\)");
}

#[test]
fn tag_string_without_options_joins_verbatim() {
    let p = post_with_tags(&["big_ears", "open(mouth)"]);
    assert_eq!(get_tag_string(&p, false, false), "big_ears, open(mouth)");
}

#[test]
fn tag_string_applies_each_option_alone() {
    let p = post_with_tags(&["big_ears", "open(mouth)"]);
    assert_eq!(get_tag_string(&p, true, false), "big ears, open(mouth)");
    assert_eq!(get_tag_string(&p, false, true), "big_ears, open\\(mouth\\)");
}

#[test]
fn tag_string_of_no_tags_is_empty() {
    let p = post_with_tags(&[]);
    assert_eq!(get_tag_string(&p, true, true), "");
}

#[test]
fn tag_string_of_one_tag_has_no_separator() {
    let p = post_with_tags(&["solo_(artwork)"]);
    assert_eq!(get_tag_string(&p, true, true), "solo \\(artwork\\)");
}

#[test]
fn decimal_digits_render_in_order() {
    assert_eq!(decimal_chars(0), vec!['0']);
    assert_eq!(decimal_chars(7), vec!['7']);
    assert_eq!(
        decimal_chars(1203054),
        vec!['1', '2', '0', '3', '0', '5', '4']
    );
    assert_eq!(
        decimal_chars(u64::MAX),
        "18446744073709551615".chars().collect::<Vec<char>>()
    );
}

#[test]
fn extension_is_read_from_the_last_component() {
    assert_eq!(
        extension_of("https://example.org/img/123.jpeg"),
        Some(vec!['j', 'p', 'e', 'g'])
    );
    assert_eq!(extension_of("https://example.org/img/123"), None);
    assert_eq!(extension_of(""), None);
    assert_eq!(
        extension_of("a.tar.gz"),
        Some(vec!['g', 'z'])
    );
}

#[test]
fn hidden_file_names_have_no_extension() {
    assert_eq!(extension_of(".hidden"), None);
    assert_eq!(extension_of("dir/.hidden"), None);
    assert_eq!(
        extension_of(".hidden.txt"),
        Some(vec!['t', 'x', 't'])
    );
    assert_eq!(image_file_name(9, "https://example.org/.cfg"), None);
}

#[test]
fn file_names_follow_the_id_convention() {
    assert_eq!(
        image_file_name(123, "https://example.org/i/abc.png").as_deref(),
        Some("123.png")
    );
    assert_eq!(image_file_name(123, "https://example.org/i/abc"), None);
    assert_eq!(sidecar_file_name(123), "123.txt");
}

#[test]
fn search_progress_counts_previews() {
    let mut p = SearchProgress::Complete;
    begin_search(&mut p);
    assert_eq!(p, SearchProgress::Searching);
    begin_post_load(&mut p, 2);
    assert_eq!(p, SearchProgress::LoadingPosts { loaded: 0, total: 2 });
    search_progress_up(&mut p);
    assert_eq!(p, SearchProgress::LoadingPosts { loaded: 1, total: 2 });
    search_progress_up(&mut p);
    assert_eq!(p, SearchProgress::Complete);
    // Outside of loading, one more report changes nothing.
    search_progress_up(&mut p);
    assert_eq!(p, SearchProgress::Complete);
}

#[test]
fn empty_result_set_is_complete_at_once() {
    let mut p = SearchProgress::Searching;
    begin_post_load(&mut p, 0);
    assert_eq!(p, SearchProgress::Complete);
}

#[test]
fn tag_queries_split_on_spaces() {
    assert_eq!(split_tags("solo smiling"), vec!["solo", "smiling"]);
    assert_eq!(split_tags("solo"), vec!["solo"]);
    assert_eq!(split_tags(""), vec![""]);
    // Consecutive spaces keep their empty pieces, as the query split does.
    assert_eq!(split_tags("a  b"), vec!["a", "", "b"]);
    assert_eq!(split_tags(" a"), vec!["", "a"]);
}

#[test]
fn sources_have_names_and_a_default() {
    assert_eq!(Source::E621.name(), "E621");
    assert_eq!(Source::Rule34.name(), "Rule34");
    assert_eq!(Source::Danbooru.name(), "Danbooru");
    assert_eq!(Source::default(), Source::Danbooru);
    let params = SearchParameters::default();
    assert_eq!(params.tags, "");
    assert_eq!(params.source, Source::Danbooru);
    assert_eq!(params.count, 0);
}
