use zsxq_export::config::Config;

#[test]
fn collection_names_follow_group_id() {
    let c = Config::new("mongodb://127.0.0.1:27017", "88888888");
    assert_eq!(c.get_topic_collection(), "topics_88888888");
    assert_eq!(c.get_files_collection(), "files_88888888");
    assert_eq!(c.get_images_collection(), "images_88888888");
}

#[test]
fn config_keeps_its_inputs() {
    let c = Config::new("mongodb://db.example:27017", "g1");
    assert_eq!(c.mongodb_uri, "mongodb://db.example:27017");
    assert_eq!(c.group_id, "g1");
}
