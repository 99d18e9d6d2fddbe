use deploy_core::cloud_provider::redis::get_redis_version;

#[test]
fn check_redis_version() {
    // managed version
    assert_eq!(get_redis_version("6".to_string(), true).unwrap(), "6.x");
    assert_eq!(get_redis_version("5".to_string(), true).unwrap(), "5.0.6");
    assert_eq!(
        get_redis_version("1.0".to_string(), true)
            .unwrap_err()
            .message()
            .as_str(),
        "Elasticache 1.0 version is not supported"
    );

    // self-hosted version
    assert_eq!(get_redis_version("6".to_string(), false).unwrap(), "6.0.9");
    assert_eq!(get_redis_version("6.0".to_string(), false).unwrap(), "6.0.9");
    assert_eq!(
        get_redis_version("1.0".to_string(), false)
            .unwrap_err()
            .message()
            .as_str(),
        "Redis 1.0 version is not supported"
    );
}
