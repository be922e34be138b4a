use cj_subscriptions::controllers::corrections::{detail, DetailResponse};

#[test]
fn test_detail_finds_the_configured_key() {
    let configured = "s3cr3t-path".to_string();
    assert_eq!(detail(&"s3cr3t-path".to_string(), &configured), DetailResponse::Found);
}

#[test]
fn test_detail_hides_everything_else() {
    let configured = "s3cr3t-path".to_string();
    assert_eq!(detail(&"".to_string(), &configured), DetailResponse::NotFound);
    assert_eq!(detail(&"s3cr3t-pat".to_string(), &configured), DetailResponse::NotFound);
    assert_eq!(detail(&"s3cr3t-path ".to_string(), &configured), DetailResponse::NotFound);
    assert_eq!(detail(&"S3CR3T-PATH".to_string(), &configured), DetailResponse::NotFound);
}
