use photo_tagger::new_tag::u16_to_dec_string;
use photo_tagger::urls::fragment_percent_encode;
use photo_tagger::urls::name_image_url;
use photo_tagger::urls::names_url;
use photo_tagger::urls::new_names_url;
use photo_tagger::urls::unnamed_images_url;

#[test]
fn fixed_api_paths() {
    assert_eq!(unnamed_images_url(), "/apis/unnamed_images");
    assert_eq!(names_url(), "/apis/names");
}

#[test]
fn name_image_url_embeds_both_values_untransformed() {
    assert_eq!(
        name_image_url("img1.jpg", "cat"),
        "/apis/name_image?photo_filename=img1.jpg&name=cat"
    );
}

#[test]
fn fragment_set_members_are_escaped_upper_case() {
    assert_eq!(fragment_percent_encode("a b"), "a%20b");
    assert_eq!(fragment_percent_encode("\"<>`"), "%22%3C%3E%60");
    assert_eq!(fragment_percent_encode("\u{1f}\u{7f}"), "%1F%7F");
}

#[test]
fn other_ascii_characters_pass_through() {
    assert_eq!(fragment_percent_encode("cat,dog-1_2.x~"), "cat,dog-1_2.x~");
    // a percent sign itself is not in the fragment set
    assert_eq!(fragment_percent_encode("50%"), "50%");
}

#[test]
fn multi_byte_characters_are_escaped_byte_by_byte() {
    assert_eq!(fragment_percent_encode("兼爱"), "%E5%85%BC%E7%88%B1");
    assert_eq!(fragment_percent_encode("é"), "%C3%A9");
}

#[test]
fn new_names_url_encodes_only_the_user_text() {
    assert_eq!(new_names_url("cat, dog"), "/apis/new_names?names=cat,%20dog");
    assert_eq!(new_names_url(""), "/apis/new_names?names=");
}

#[test]
fn decimal_rendering_is_exact() {
    assert_eq!(u16_to_dec_string(0), "0");
    assert_eq!(u16_to_dec_string(7), "7");
    assert_eq!(u16_to_dec_string(10), "10");
    assert_eq!(u16_to_dec_string(404), "404");
    assert_eq!(u16_to_dec_string(65535), "65535");
}
