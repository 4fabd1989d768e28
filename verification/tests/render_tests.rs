use zsxq_export::topic::{render_topic, Article, FileRef, ImageRef, Talk, Topic};

fn talk_topic(topic_id: i64, create_time: &str, talk: Talk) -> Topic {
    Topic {
        topic_id,
        create_time: String::from(create_time),
        topic_type: String::from("talk"),
        talk: Some(talk),
    }
}

fn empty_talk() -> Talk {
    Talk { text: None, article: None, images: Vec::new(), files: Vec::new() }
}

#[test]
fn end_to_end_hashtag_talk() {
    let t = talk_topic(
        42,
        "2024-01-01",
        Talk {
            text: Some(String::from("hello <e type=\"hashtag\" hid=\"9\" title=\"fun\" />")),
            article: None,
            images: Vec::new(),
            files: Vec::new(),
        },
    );
    let out = render_topic(&t, &Vec::new(), &Vec::new());
    assert_eq!(out, Some(String::from("## 话题 ID: 42 - 2024-01-01\n\nhello fun \n\n\n")));
}

#[test]
fn non_talk_topic_renders_nothing() {
    let t = Topic {
        topic_id: 7,
        create_time: String::from("2020-05-05"),
        topic_type: String::from("solution"),
        talk: None,
    };
    assert_eq!(render_topic(&t, &Vec::new(), &Vec::new()), Some(String::new()));
}

#[test]
fn article_without_text() {
    let t = talk_topic(
        1,
        "2023-12-31",
        Talk {
            text: None,
            article: Some(Article { article_url: Some(String::from("http://x.cn/p")) }),
            images: Vec::new(),
            files: Vec::new(),
        },
    );
    assert_eq!(
        render_topic(&t, &Vec::new(), &Vec::new()),
        Some(String::from("## 话题 ID: 1 - 2023-12-31\n\n[阅读更多](http://x.cn/p)\n\n\n"))
    );
}

#[test]
fn article_url_absent_renders_empty_parens() {
    let t = talk_topic(
        2,
        "t",
        Talk {
            text: None,
            article: Some(Article { article_url: None }),
            images: Vec::new(),
            files: Vec::new(),
        },
    );
    let out = render_topic(&t, &Vec::new(), &Vec::new()).unwrap();
    assert!(out.contains("[阅读更多]()"));
    assert_eq!(out, "## 话题 ID: 2 - t\n\n[阅读更多]()\n\n\n");
}

#[test]
fn article_with_text_has_no_padding_between() {
    let t = talk_topic(
        3,
        "t",
        Talk {
            text: Some(String::from("intro")),
            article: Some(Article { article_url: Some(String::from("u")) }),
            images: Vec::new(),
            files: Vec::new(),
        },
    );
    assert_eq!(
        render_topic(&t, &Vec::new(), &Vec::new()),
        Some(String::from("## 话题 ID: 3 - t\n\nintro[阅读更多](u)\n\n\n"))
    );
}

#[test]
fn plain_text_gets_trailing_space_and_blank_line() {
    let t = talk_topic(
        4,
        "t",
        Talk {
            text: Some(String::from("body")),
            article: None,
            images: Vec::new(),
            files: Vec::new(),
        },
    );
    assert_eq!(
        render_topic(&t, &Vec::new(), &Vec::new()),
        Some(String::from("## 话题 ID: 4 - t\n\nbody \n\n\n"))
    );
}

#[test]
fn unresolved_attachments_produce_no_lines() {
    let t = talk_topic(
        5,
        "t",
        Talk {
            text: None,
            article: None,
            images: vec![ImageRef { image_id: 100 }],
            files: vec![FileRef { file_id: 200, name: String::from("doc.pdf") }],
        },
    );
    let image_urls: Vec<Option<String>> = vec![None];
    let file_urls: Vec<Option<String>> = vec![None];
    assert_eq!(
        render_topic(&t, &image_urls, &file_urls),
        Some(String::from("## 话题 ID: 5 - t\n\n\n"))
    );
}

#[test]
fn resolved_attachments_render_in_order() {
    let t = talk_topic(
        6,
        "t",
        Talk {
            text: None,
            article: None,
            images: vec![ImageRef { image_id: 100 }, ImageRef { image_id: 101 }],
            files: vec![FileRef { file_id: 200, name: String::from("doc.pdf") }],
        },
    );
    let image_urls: Vec<Option<String>> = vec![Some(String::from("/img/100.png")), None];
    let file_urls: Vec<Option<String>> = vec![Some(String::from("/files/doc.pdf"))];
    assert_eq!(
        render_topic(&t, &image_urls, &file_urls),
        Some(String::from(
            "## 话题 ID: 6 - t\n\n![100](/img/100.png)\n\n![doc.pdf](/files/doc.pdf)\n\n\n"
        ))
    );
}

#[test]
fn negative_topic_id_formats_with_sign() {
    let t = talk_topic(-3, "t", empty_talk());
    assert_eq!(
        render_topic(&t, &Vec::new(), &Vec::new()),
        Some(String::from("## 话题 ID: -3 - t\n\n\n"))
    );
}

#[test]
fn extreme_topic_ids_format_exactly() {
    let t = talk_topic(i64::MAX, "t", empty_talk());
    assert_eq!(
        render_topic(&t, &Vec::new(), &Vec::new()),
        Some(String::from("## 话题 ID: 9223372036854775807 - t\n\n\n"))
    );
    let t = talk_topic(i64::MIN, "t", empty_talk());
    assert_eq!(
        render_topic(&t, &Vec::new(), &Vec::new()),
        Some(String::from("## 话题 ID: -9223372036854775808 - t\n\n\n"))
    );
}

#[test]
fn decode_failure_in_body_is_fatal() {
    let t = talk_topic(
        8,
        "t",
        Talk {
            text: Some(String::from("<e type=\"hashtag\" hid=\"1\" title=\"%FF\" />")),
            article: None,
            images: Vec::new(),
            files: Vec::new(),
        },
    );
    assert_eq!(render_topic(&t, &Vec::new(), &Vec::new()), None);
}
