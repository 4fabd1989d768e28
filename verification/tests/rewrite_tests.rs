use zsxq_export::rewrite::rewrite_content;

#[test]
fn plain_text_unchanged() {
    let input = "hello world, 这是一段正文 with no tags at all";
    assert_eq!(rewrite_content(input), Some(String::from(input)));
}

#[test]
fn empty_text_unchanged() {
    assert_eq!(rewrite_content(""), Some(String::new()));
}

#[test]
fn angle_brackets_without_tag_shape_unchanged() {
    let input = "a < b and <e type=\"web\"> is not self-closing";
    assert_eq!(rewrite_content(input), Some(String::from(input)));
}

#[test]
fn web_link_round_trip() {
    let input = "<e type=\"web\" href=\"https%3A%2F%2Fexample.com%2Fa%20b\" title=\"My%20Title\" />";
    assert_eq!(
        rewrite_content(input),
        Some(String::from("[My Title](https://example.com/a b)"))
    );
}

#[test]
fn web_link_inside_text() {
    let input = "see <e type=\"web\" href=\"http%3A%2F%2Fx.cn\" title=\"here\" /> now";
    assert_eq!(
        rewrite_content(input),
        Some(String::from("see [here](http://x.cn) now"))
    );
}

#[test]
fn hashtag_renders_decoded_title_only() {
    let input = "before <e type=\"hashtag\" hid=\"9\" title=\"fun%21\" /> after";
    assert_eq!(rewrite_content(input), Some(String::from("before fun! after")));
}

#[test]
fn hashtag_chinese_title() {
    let input = "<e type=\"hashtag\" hid=\"48884218541228\" title=\"%23%E8%AF%9D%E9%A2%98%23\" />";
    assert_eq!(rewrite_content(input), Some(String::from("#话题#")));
}

#[test]
fn unknown_type_left_unchanged() {
    let input = "x <e type=\"mention\" href=\"a\" title=\"b\" /> y";
    assert_eq!(rewrite_content(input), Some(String::from(input)));
}

#[test]
fn link_tag_missing_title_left_unchanged() {
    let input = "x <e type=\"web\" href=\"a\" /> y";
    assert_eq!(rewrite_content(input), Some(String::from(input)));
}

#[test]
fn hashtag_without_space_before_close_left_unchanged() {
    let input = "<e type=\"hashtag\" hid=\"1\" title=\"t\"/>";
    assert_eq!(rewrite_content(input), Some(String::from(input)));
}

#[test]
fn two_hashtags_both_rewritten() {
    let input = "<e type=\"hashtag\" hid=\"1\" title=\"a\" />-<e type=\"hashtag\" hid=\"2\" title=\"b\" />";
    assert_eq!(rewrite_content(input), Some(String::from("a-b")));
}

#[test]
fn extra_attributes_before_close_still_match() {
    let input = "<e type=\"web\" href=\"h\" title=\"t\" style=\"x\"/>";
    assert_eq!(rewrite_content(input), Some(String::from("[t](h)")));
}

#[test]
fn slash_in_tail_prevents_match() {
    let input = "<e type=\"web\" href=\"h\" title=\"t\" x/y/>";
    assert_eq!(rewrite_content(input), Some(String::from(input)));
}

#[test]
fn link_and_hashtag_together() {
    let input = "<e type=\"web\" href=\"h\" title=\"t\" /> and <e type=\"hashtag\" hid=\"1\" title=\"z\" />";
    assert_eq!(rewrite_content(input), Some(String::from("[t](h) and z")));
}

#[test]
fn decode_failure_is_fatal() {
    let input = "<e type=\"web\" href=\"%FF\" title=\"t\" />";
    assert_eq!(rewrite_content(input), None);
}

#[test]
fn decode_failure_in_unknown_type_is_fatal() {
    let input = "<e type=\"mention\" href=\"%FF\" title=\"t\" />";
    assert_eq!(rewrite_content(input), None);
}
