use rusticity::cloud::config::{fastest_region, probe_latency, probe_regions};
use rusticity::cloud::config::AwsConfig;
use rusticity::cloud::ecr::{format_encryption_type, image_uri};
use rusticity::cloud::lambda::application_from_function_name;

#[test]
fn test_dummy_config_with_region() {
    let region = "us-west-2";
    let config = AwsConfig::dummy(Some(region.to_string()));
    assert_eq!(config.region, region);
    assert_eq!(config.account_id, "");
    assert!(!config.region_auto_detected);
}

#[test]
fn test_dummy_config_without_region() {
    let config = AwsConfig::dummy(None);
    assert_eq!(config.region, "");
    assert_eq!(config.account_id, "");
    assert!(!config.region_auto_detected);
}

#[test]
fn test_dummy_config_preserves_values() {
    let region = "eu-west-1";
    let config = AwsConfig::dummy(Some(region.to_string()));
    assert_eq!(config.region, region);
    assert_eq!(config.account_id, "");
    assert_eq!(config.role_arn, "");
    assert!(!config.region_auto_detected);
}

#[test]
fn test_ecr_image_uri_format() {
    let repository_uri = "123456789012.dkr.ecr.us-east-1.amazonaws.com/my-repo";
    let tag = "v1.0.0";
    let expected_uri = "123456789012.dkr.ecr.us-east-1.amazonaws.com/my-repo:v1.0.0";

    let uri = image_uri(repository_uri, tag);
    assert_eq!(uri, expected_uri);
}

#[test]
fn test_ecr_image_uri_with_untagged() {
    let repository_uri = "123456789012.dkr.ecr.us-east-1.amazonaws.com/my-repo";
    let tag = "<untagged>";
    let expected_uri = "123456789012.dkr.ecr.us-east-1.amazonaws.com/my-repo:<untagged>";

    let uri = image_uri(repository_uri, tag);
    assert_eq!(uri, expected_uri);
}

#[test]
fn test_encryption_type_aes256_formatting() {
    let formatted = format_encryption_type("Aes256");
    assert_eq!(formatted, "AES256");
}

#[test]
fn test_encryption_type_kms_unchanged() {
    let formatted = format_encryption_type("Kms");
    assert_eq!(formatted, "Kms");
}

#[test]
fn test_application_extraction_from_function_name() {
    // Test typical pattern: app-name-suffix
    let application = application_from_function_name("storefront-studio-beta-api").unwrap();
    assert_eq!(application, "storefront-studio-beta");

    // Test single dash
    let application = application_from_function_name("myapp-api").unwrap();
    assert_eq!(application, "myapp");

    // Test no dash
    let application = application_from_function_name("simplefunction");
    assert_eq!(application, None);

    // Test multiple dashes
    let application = application_from_function_name("my-complex-app-name-worker").unwrap();
    assert_eq!(application, "my-complex-app-name");
}

#[test]
fn fastest_region_is_first_lowest_latency() {
    let probes = vec![
        ("us-east-1".to_string(), probe_latency(true, 300)),
        ("eu-west-1".to_string(), probe_latency(true, 120)),
        ("ap-south-1".to_string(), probe_latency(false, 10)),
        ("sa-east-1".to_string(), probe_latency(true, 120)),
    ];
    assert_eq!(fastest_region(&probes), Some("eu-west-1".to_string()));
    assert_eq!(fastest_region(&Vec::new()), None);
    assert_eq!(probe_latency(false, 5), 9_999_000_000_000);
    let regions = probe_regions();
    assert_eq!(regions.len(), 29);
    assert_eq!(regions[0], "us-east-1");
    assert_eq!(regions[28], "sa-east-1");
}
