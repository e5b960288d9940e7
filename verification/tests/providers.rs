//! The checks of each probe, on the evidence that a host of its provider
//! shows and on evidence that it does not.

use cloud_detect::probe::{Body, Exchange, Expect, FileEvidence, Header, Reply, Request};
use cloud_detect::providers::akamai::{self, Akamai};
use cloud_detect::providers::alibaba::{self, Alibaba};
use cloud_detect::providers::aws::{self, Aws};
use cloud_detect::providers::azure::{self, Azure};
use cloud_detect::providers::digitalocean::{self, DigitalOcean};
use cloud_detect::providers::gcp::{self, Gcp};
use cloud_detect::providers::oci::{self, Oci};
use cloud_detect::providers::openstack::{self, OpenStack};
use cloud_detect::providers::vultr::{self, Vultr};

const URL: &str = "http://127.0.0.1:1234";

fn file(content: &str) -> FileEvidence {
    FileEvidence::Content(content.to_string())
}

fn empty_file() -> FileEvidence {
    FileEvidence::Content(String::new())
}

fn text(status: u16, body: &str) -> Reply {
    Reply::Received { status, body: Body::Text(body.to_string()) }
}

fn status(status: u16) -> Reply {
    Reply::Received { status, body: Body::Empty }
}

fn header(name: &str, value: &str) -> Header {
    Header { name: name.to_string(), value: value.to_string() }
}

fn get(path: &str, headers: Vec<Header>, expect: Expect) -> Exchange {
    Exchange::Ask(Request { url: format!("{}{}", URL, path), headers, timeout: 1, expect })
}

fn aws_document(image_id: &str, instance_id: &str) -> Reply {
    Reply::Received {
        status: 200,
        body: Body::AwsIdentity {
            image_id: image_id.to_string(),
            instance_id: instance_id.to_string(),
        },
    }
}

#[test]
fn akamai_test_check_metadata_server_success() {
    let provider = Akamai;
    let token = text(200, "123abc");

    assert_eq!(
        provider.check_metadata_server(URL, 1, None, None),
        get(
            akamai::METADATA_TOKEN_PATH,
            vec![header("Metadata-Token-Expiry-Seconds", "60")],
            Expect::Text
        )
    );
    assert_eq!(
        provider.check_metadata_server(URL, 1, Some(&token), None),
        get(
            akamai::METADATA_PATH,
            vec![header("Metadata-Token", "123abc")],
            Expect::AkamaiInstance
        )
    );

    let metadata = Reply::Received {
        status: 200,
        body: Body::AkamaiInstance { id: 123, host_uuid: "123abc".to_string() },
    };
    let result = provider.check_metadata_server(URL, 1, Some(&token), Some(&metadata));
    assert_eq!(result, Exchange::Decided(true));

    let metadata = Reply::Received {
        status: 200,
        body: Body::AkamaiInstance { id: 123, host_uuid: "123456".to_string() },
    };
    let result = provider.check_metadata_server(URL, 1, Some(&token), Some(&metadata));
    assert_eq!(result, Exchange::Decided(true));
}

#[test]
fn akamai_test_check_metadata_server_failure() {
    let provider = Akamai;
    let token = text(200, "123abc");
    let metadata = Reply::Received {
        status: 200,
        body: Body::AkamaiInstance { id: 0, host_uuid: String::new() },
    };

    let result = provider.check_metadata_server(URL, 1, Some(&token), Some(&metadata));

    assert_eq!(result, Exchange::Decided(false));
}

#[test]
fn alibaba_test_check_metadata_server_success() {
    let provider = Alibaba;

    assert_eq!(
        provider.check_metadata_server(URL, 1, None),
        get(alibaba::METADATA_PATH, vec![], Expect::Text)
    );

    let result = provider.check_metadata_server(URL, 1, Some(&text(200, "ECS Virt")));

    assert_eq!(result, Exchange::Decided(true));
}

#[test]
fn alibaba_test_check_metadata_server_failure() {
    let provider = Alibaba;

    let result = provider.check_metadata_server(URL, 1, Some(&text(200, "ABC")));

    assert_eq!(result, Exchange::Decided(false));
}

#[test]
fn alibaba_test_check_vendor_file_success() {
    let vendor_file = file("Alibaba Cloud ECS");

    let provider = Alibaba;
    let result = provider.check_vendor_file(&vendor_file);

    assert!(result);
}

#[test]
fn alibaba_test_check_vendor_file_failure() {
    let vendor_file = empty_file();

    let provider = Alibaba;
    let result = provider.check_vendor_file(&vendor_file);

    assert!(!result);
}

#[test]
fn aws_test_check_metadata_server_imdsv2_success() {
    let provider = Aws;
    let token = text(200, "123abc");

    assert_eq!(
        provider.check_metadata_server_imdsv2(URL, 1, None, None),
        get(
            aws::METADATA_TOKEN_PATH,
            vec![header("X-aws-ec2-metadata-token-ttl-seconds", "60")],
            Expect::Text
        )
    );
    assert_eq!(
        provider.check_metadata_server_imdsv2(URL, 1, Some(&token), None),
        get(
            aws::METADATA_PATH,
            vec![header("X-aws-ec2-metadata-token", "123abc")],
            Expect::AwsIdentity
        )
    );

    let metadata = aws_document("ami-12345678", "i-12345678");
    let result = provider.check_metadata_server_imdsv2(URL, 1, Some(&token), Some(&metadata));
    assert_eq!(result, Exchange::Decided(true));

    let metadata = aws_document("ami-123abc", "i-123abc");
    let result = provider.check_metadata_server_imdsv2(URL, 1, Some(&token), Some(&metadata));
    assert_eq!(result, Exchange::Decided(true));
}

#[test]
fn aws_test_check_metadata_server_imdsv2_failure() {
    let provider = Aws;
    let token = text(200, "123abc");

    let metadata = Reply::Undecodable;
    let result = provider.check_metadata_server_imdsv2(URL, 1, Some(&token), Some(&metadata));
    assert_eq!(result, Exchange::Decided(false));

    let metadata = aws_document("abc", "abc");
    let result = provider.check_metadata_server_imdsv2(URL, 1, Some(&token), Some(&metadata));
    assert_eq!(result, Exchange::Decided(false));
}

#[test]
fn aws_test_check_metadata_server_imdsv1_success() {
    let provider = Aws;

    assert_eq!(
        provider.check_metadata_server_imdsv1(URL, 1, None),
        get(aws::METADATA_PATH, vec![], Expect::AwsIdentity)
    );

    let metadata = aws_document("ami-12345678", "i-12345678");
    let result = provider.check_metadata_server_imdsv1(URL, 1, Some(&metadata));
    assert_eq!(result, Exchange::Decided(true));

    let metadata = aws_document("ami-123abc", "i-123abc");
    let result = provider.check_metadata_server_imdsv1(URL, 1, Some(&metadata));
    assert_eq!(result, Exchange::Decided(true));
}

#[test]
fn aws_test_check_metadata_server_imdsv1_failure() {
    let provider = Aws;

    let result = provider.check_metadata_server_imdsv1(URL, 1, Some(&Reply::Undecodable));
    assert_eq!(result, Exchange::Decided(false));

    let metadata = aws_document("abc", "abc");
    let result = provider.check_metadata_server_imdsv1(URL, 1, Some(&metadata));
    assert_eq!(result, Exchange::Decided(false));
}

#[test]
fn aws_test_check_product_version_file_success() {
    let product_version_file = file("amazon");

    let provider = Aws;
    let result = provider.check_product_version_file(&product_version_file);

    assert!(result);
}

#[test]
fn aws_test_check_product_version_file_failure() {
    let product_version_file = empty_file();

    let provider = Aws;
    let result = provider.check_product_version_file(&product_version_file);

    assert!(!result);
}

#[test]
fn aws_test_check_bios_vendor_file_success() {
    let bios_vendor_file = file("amazon");

    let provider = Aws;
    let result = provider.check_bios_vendor_file(&bios_vendor_file);

    assert!(result);
}

#[test]
fn aws_test_check_bios_vendor_file_failure() {
    let bios_vendor_file = empty_file();

    let provider = Aws;
    let result = provider.check_bios_vendor_file(&bios_vendor_file);

    assert!(!result);
}

#[test]
fn azure_test_check_metadata_server_success() {
    let provider = Azure;

    assert_eq!(
        provider.check_metadata_server(URL, 1, None),
        get(azure::METADATA_PATH, vec![header("Metadata", "true")], Expect::AzureInstance)
    );
    assert!(azure::METADATA_PATH.ends_with("?api-version=2017-12-01"));

    let metadata =
        Reply::Received { status: 200, body: Body::AzureInstance { vm_id: "vm-1234".to_string() } };
    let result = provider.check_metadata_server(URL, 1, Some(&metadata));
    assert_eq!(result, Exchange::Decided(true));

    let metadata = Reply::Received {
        status: 200,
        body: Body::AzureInstance { vm_id: "vm-123abc".to_string() },
    };
    let result = provider.check_metadata_server(URL, 1, Some(&metadata));
    assert_eq!(result, Exchange::Decided(true));
}

#[test]
fn azure_test_check_metadata_server_failure() {
    let provider = Azure;

    let result = provider.check_metadata_server(URL, 1, Some(&Reply::Undecodable));
    assert_eq!(result, Exchange::Decided(false));

    let metadata =
        Reply::Received { status: 200, body: Body::AzureInstance { vm_id: String::new() } };
    let result = provider.check_metadata_server(URL, 1, Some(&metadata));
    assert_eq!(result, Exchange::Decided(false));
}

#[test]
fn azure_test_check_vendor_file_success() {
    let vendor_file = file("Microsoft Corporation");

    let provider = Azure;
    let result = provider.check_vendor_file(&vendor_file);

    assert!(result);
}

#[test]
fn azure_test_check_vendor_file_failure() {
    let vendor_file = empty_file();

    let provider = Azure;
    let result = provider.check_vendor_file(&vendor_file);

    assert!(!result);
}

#[test]
fn digitalocean_test_check_metadata_server_success() {
    let provider = DigitalOcean;

    assert_eq!(
        provider.check_metadata_server(URL, 1, None),
        get(digitalocean::METADATA_PATH, vec![], Expect::Droplet)
    );

    let metadata = Reply::Received { status: 200, body: Body::Droplet { droplet_id: 123 } };
    let result = provider.check_metadata_server(URL, 1, Some(&metadata));

    assert_eq!(result, Exchange::Decided(true));
}

#[test]
fn digitalocean_test_check_metadata_server_failure() {
    let provider = DigitalOcean;

    let result = provider.check_metadata_server(URL, 1, Some(&Reply::Undecodable));
    assert_eq!(result, Exchange::Decided(false));

    let metadata = Reply::Received { status: 200, body: Body::Droplet { droplet_id: 0 } };
    let result = provider.check_metadata_server(URL, 1, Some(&metadata));
    assert_eq!(result, Exchange::Decided(false));
}

#[test]
fn digitalocean_test_check_vendor_file_success() {
    let vendor_file = file("DigitalOcean");

    let provider = DigitalOcean;
    let result = provider.check_vendor_file(&vendor_file);

    assert!(result);
}

#[test]
fn digitalocean_test_check_vendor_file_failure() {
    let vendor_file = empty_file();

    let provider = DigitalOcean;
    let result = provider.check_vendor_file(&vendor_file);

    assert!(!result);
}

#[test]
fn gcp_test_check_metadata_server_success() {
    let provider = Gcp;

    assert_eq!(
        provider.check_metadata_server(URL, 1, None),
        get(gcp::METADATA_PATH, vec![header("Metadata-Flavor", "Google")], Expect::Status)
    );

    let result = provider.check_metadata_server(URL, 1, Some(&status(200)));

    assert_eq!(result, Exchange::Decided(true));
}

#[test]
fn gcp_test_check_metadata_server_failure() {
    let provider = Gcp;

    let result = provider.check_metadata_server(URL, 1, Some(&status(500)));

    assert_eq!(result, Exchange::Decided(false));
}

#[test]
fn gcp_test_check_vendor_file_success() {
    let vendor_file = file("Google");

    let provider = Gcp;
    let result = provider.check_vendor_file(&vendor_file);

    assert!(result);
}

#[test]
fn gcp_test_check_vendor_file_failure() {
    let vendor_file = empty_file();

    let provider = Gcp;
    let result = provider.check_vendor_file(&vendor_file);

    assert!(!result);
}

#[test]
fn oci_test_check_metadata_server_success() {
    let provider = Oci;

    assert_eq!(
        provider.check_metadata_server(URL, 1, None),
        get(oci::METADATA_PATH, vec![], Expect::OciInstance)
    );

    let metadata =
        Reply::Received { status: 200, body: Body::OciInstance { oke_tm: "oke".to_string() } };
    let result = provider.check_metadata_server(URL, 1, Some(&metadata));

    assert_eq!(result, Exchange::Decided(true));
}

#[test]
fn oci_test_check_metadata_server_failure() {
    let provider = Oci;

    let metadata =
        Reply::Received { status: 200, body: Body::OciInstance { oke_tm: "abc".to_string() } };
    let result = provider.check_metadata_server(URL, 1, Some(&metadata));

    assert_eq!(result, Exchange::Decided(false));
}

#[test]
fn oci_test_check_vendor_file_success() {
    let vendor_file = file("OracleCloud");

    let provider = Oci;
    let result = provider.check_vendor_file(&vendor_file);

    assert!(result);
}

#[test]
fn oci_test_check_vendor_file_failure() {
    let vendor_file = empty_file();

    let provider = Oci;
    let result = provider.check_vendor_file(&vendor_file);

    assert!(!result);
}

#[test]
fn openstack_test_check_metadata_server_success() {
    let provider = OpenStack;

    assert_eq!(
        provider.check_metadata_server(URL, 1, None),
        get(openstack::METADATA_PATH, vec![], Expect::Status)
    );

    let result = provider.check_metadata_server(URL, 1, Some(&status(200)));

    assert_eq!(result, Exchange::Decided(true));
}

#[test]
fn openstack_test_check_metadata_server_failure() {
    let provider = OpenStack;

    let result = provider.check_metadata_server(URL, 1, Some(&status(500)));

    assert_eq!(result, Exchange::Decided(false));
}

#[test]
fn test_check_vendor_files_success() {
    let product_name_file = file(openstack::PRODUCT_NAMES[0]);
    let chassis_asset_tag_file = file(openstack::PRODUCT_NAMES[0]);

    let provider = OpenStack;
    let result = provider.check_vendor_files(&product_name_file, &chassis_asset_tag_file);

    assert!(result);
}

#[test]
fn test_check_vendor_files_failure() {
    let product_name_file = empty_file();
    let chassis_asset_tag_file = empty_file();

    let provider = OpenStack;
    let result = provider.check_vendor_files(&product_name_file, &chassis_asset_tag_file);

    assert!(!result);
}

#[test]
fn openstack_test_check_vendor_file_success() {
    let product_name_file = file(openstack::PRODUCT_NAMES[0]);
    let chassis_asset_tag_file = file(openstack::CHASSIS_ASSET_TAGS[0]);

    let provider = OpenStack;
    let result = provider.check_vendor_files(&product_name_file, &chassis_asset_tag_file);

    assert!(result);
}

#[test]
fn openstack_test_check_vendor_file_failure() {
    let product_name_file = empty_file();
    let chassis_asset_tag_file = empty_file();

    let provider = OpenStack;
    let result = provider.check_vendor_files(&product_name_file, &chassis_asset_tag_file);

    assert!(!result);
}

#[test]
fn vultr_test_check_metadata_server_success() {
    let provider = Vultr;

    assert_eq!(
        provider.check_metadata_server(URL, 1, None),
        get(vultr::METADATA_PATH, vec![], Expect::VultrInstance)
    );

    let metadata = Reply::Received {
        status: 200,
        body: Body::VultrInstance { instance_id: "i-123abc".to_string() },
    };
    let result = provider.check_metadata_server(URL, 1, Some(&metadata));

    assert_eq!(result, Exchange::Decided(true));
}

#[test]
fn vultr_test_check_metadata_server_failure() {
    let provider = Vultr;

    let result = provider.check_metadata_server(URL, 1, Some(&Reply::Undecodable));
    assert_eq!(result, Exchange::Decided(false));

    let metadata =
        Reply::Received { status: 200, body: Body::VultrInstance { instance_id: String::new() } };
    let result = provider.check_metadata_server(URL, 1, Some(&metadata));
    assert_eq!(result, Exchange::Decided(false));
}

#[test]
fn vultr_test_check_vendor_file_success() {
    let vendor_file = file("Vultr");

    let provider = Vultr;
    let result = provider.check_vendor_file(&vendor_file);

    assert!(result);
}

#[test]
fn vultr_test_check_vendor_file_failure() {
    let vendor_file = empty_file();

    let provider = Vultr;
    let result = provider.check_vendor_file(&vendor_file);

    assert!(!result);
}
