//! The probes step by step: what each asks for, in which order, and when
//! it stops.

use cloud_detect::probe::{
    into_action, is_success, join, Action, Body, Evidence, Exchange, Expect, FileEvidence, Header,
    Reply, Request,
};
use cloud_detect::providers::alibaba;
use cloud_detect::providers::aws::Aws;
use cloud_detect::providers::openstack::OpenStack;
use cloud_detect::Probe;

const ALL: [Probe; 9] = [
    Probe::Alibaba,
    Probe::Aws,
    Probe::Azure,
    Probe::DigitalOcean,
    Probe::Gcp,
    Probe::Oci,
    Probe::OpenStack,
    Probe::Vultr,
    Probe::Akamai,
];

fn file(content: &str) -> FileEvidence {
    FileEvidence::Content(content.to_string())
}

fn text(body: &str) -> Reply {
    Reply::Received { status: 200, body: Body::Text(body.to_string()) }
}

fn evidence(files: Vec<FileEvidence>, replies: Vec<Reply>) -> Evidence {
    Evidence { files, replies }
}

fn request(url: &str, headers: Vec<(&str, &str)>, timeout: u64, expect: Expect) -> Action {
    Action::Fetch(Request {
        url: url.to_string(),
        headers: headers
            .into_iter()
            .map(|(name, value)| Header { name: name.to_string(), value: value.to_string() })
            .collect(),
        timeout,
        expect,
    })
}

/// The mark that each probe looks for in its first local file.
fn mark(probe: Probe) -> Option<&'static str> {
    match probe {
        Probe::Alibaba => Some("Alibaba Cloud ECS"),
        Probe::Aws => Some("amazon"),
        Probe::Azure => Some("Microsoft Corporation"),
        Probe::DigitalOcean => Some("DigitalOcean"),
        Probe::Gcp => Some("Google"),
        Probe::Oci => Some("OracleCloud"),
        Probe::OpenStack => Some("OpenStack Compute"),
        Probe::Vultr => Some("Vultr"),
        _ => None,
    }
}

#[test]
fn a_local_match_stops_the_probe_before_any_request() {
    for probe in ALL {
        if let Some(mark) = mark(probe) {
            let first = probe.identify(3, &Evidence::new());
            assert!(matches!(first, Action::ReadFile(_)));

            let found = evidence(vec![file(mark)], vec![]);
            assert_eq!(probe.identify(3, &found), Action::Done(true));

            let with_replies =
                evidence(vec![file(mark)], vec![Reply::Unreachable, Reply::Unreachable]);
            assert_eq!(probe.identify(3, &with_replies), Action::Done(true));
        }
    }
}

#[test]
fn a_second_local_match_stops_the_probe_before_any_request() {
    let aws = evidence(vec![FileEvidence::Absent, file("Amazon EC2")], vec![]);
    assert_eq!(Probe::Aws.identify(3, &aws), Action::Done(true));

    let openstack = evidence(vec![file("KVM"), file("OpenTelekomCloud")], vec![]);
    assert_eq!(Probe::OpenStack.identify(3, &openstack), Action::Done(true));
}

#[test]
fn every_probe_reads_its_files_before_it_turns_to_the_network() {
    for probe in ALL {
        let mut evidence = Evidence::new();
        let mut fetched = false;
        loop {
            match probe.identify(7, &evidence) {
                Action::ReadFile(_) => {
                    assert!(!fetched);
                    evidence.add_file(FileEvidence::Absent);
                }
                Action::Fetch(request) => {
                    fetched = true;
                    assert_eq!(request.timeout, 7);
                    evidence.add_reply(Reply::Unreachable);
                }
                Action::Done(matched) => {
                    assert!(!matched);
                    break;
                }
            }
        }
        assert!(fetched);
        assert!(evidence.files.len() <= 2);
        assert!(evidence.replies.len() <= 3);
    }
}

#[test]
fn alibaba_asks_for_its_file_then_for_its_metadata() {
    let probe = Probe::Alibaba;

    assert_eq!(
        probe.identify(2, &Evidence::new()),
        Action::ReadFile("/sys/class/dmi/id/product_name".to_string())
    );
    assert_eq!(
        probe.identify(2, &evidence(vec![file("Standard PC")], vec![])),
        request(
            &format!("http://100.100.100.200{}", alibaba::METADATA_PATH),
            vec![],
            2,
            Expect::Text
        )
    );
    assert_eq!(
        probe.identify(2, &evidence(vec![file("Standard PC")], vec![text("ECS Virt 2.0")])),
        Action::Done(true)
    );
    assert_eq!(
        probe.identify(2, &evidence(vec![FileEvidence::Unreadable], vec![text("KVM")])),
        Action::Done(false)
    );
}

#[test]
fn gcp_asks_for_its_tags_with_the_flavor_header() {
    let probe = Probe::Gcp;

    assert_eq!(
        probe.identify(5, &evidence(vec![FileEvidence::Absent], vec![])),
        request(
            "http://metadata.google.internal/computeMetadata/v1/instance/tags",
            vec![("Metadata-Flavor", "Google")],
            5,
            Expect::Status
        )
    );
    let ok = Reply::Received { status: 204, body: Body::Empty };
    assert_eq!(
        probe.identify(5, &evidence(vec![FileEvidence::Absent], vec![ok])),
        Action::Done(true)
    );
    let missing = Reply::Received { status: 404, body: Body::Empty };
    assert_eq!(
        probe.identify(5, &evidence(vec![FileEvidence::Absent], vec![missing])),
        Action::Done(false)
    );
}

#[test]
fn aws_goes_from_files_to_imdsv2_to_imdsv1() {
    let probe = Probe::Aws;
    let no_files = vec![FileEvidence::Absent, file("SeaBIOS")];
    let token_request = request(
        "http://169.254.169.254/latest/api/token",
        vec![("X-aws-ec2-metadata-token-ttl-seconds", "60")],
        4,
        Expect::Text,
    );
    let plain_request = request(
        "http://169.254.169.254/latest/dynamic/instance-identity/document",
        vec![],
        4,
        Expect::AwsIdentity,
    );
    let document = |image_id: &str, instance_id: &str| Reply::Received {
        status: 200,
        body: Body::AwsIdentity {
            image_id: image_id.to_string(),
            instance_id: instance_id.to_string(),
        },
    };

    assert_eq!(
        probe.identify(4, &Evidence::new()),
        Action::ReadFile("/sys/class/dmi/id/product_version".to_string())
    );
    assert_eq!(
        probe.identify(4, &evidence(vec![FileEvidence::Absent], vec![])),
        Action::ReadFile("/sys/class/dmi/id/bios_vendor".to_string())
    );
    assert_eq!(probe.identify(4, &evidence(no_files.clone(), vec![])), token_request);

    // Without a token the probe falls back to IMDSv1 at once.
    assert_eq!(
        probe.identify(4, &evidence(no_files.clone(), vec![Reply::Unreachable])),
        plain_request
    );
    assert_eq!(probe.identify(4, &evidence(no_files.clone(), vec![text("")])), plain_request);
    assert_eq!(
        probe.identify(4, &evidence(no_files.clone(), vec![Reply::Undecodable])),
        plain_request
    );
    assert_eq!(
        probe.identify(
            4,
            &evidence(no_files.clone(), vec![Reply::Unreachable, document("ami-1", "i-1")])
        ),
        Action::Done(true)
    );
    assert_eq!(
        probe.identify(
            4,
            &evidence(no_files.clone(), vec![Reply::Unreachable, Reply::Unreachable])
        ),
        Action::Done(false)
    );

    // With a token the probe presents it.
    assert_eq!(
        probe.identify(4, &evidence(no_files.clone(), vec![text("tok123")])),
        request(
            "http://169.254.169.254/latest/dynamic/instance-identity/document",
            vec![("X-aws-ec2-metadata-token", "tok123")],
            4,
            Expect::AwsIdentity
        )
    );
    assert_eq!(
        probe.identify(
            4,
            &evidence(no_files.clone(), vec![text("tok123"), document("ami-1", "i-1")])
        ),
        Action::Done(true)
    );

    // A document that does not fit sends the probe on to IMDSv1.
    assert_eq!(
        probe.identify(
            4,
            &evidence(no_files.clone(), vec![text("tok123"), document("img-1", "i-1")])
        ),
        plain_request
    );
    assert_eq!(
        probe.identify(
            4,
            &evidence(
                no_files.clone(),
                vec![text("tok123"), Reply::Undecodable, document("ami-1", "i-1")]
            )
        ),
        Action::Done(true)
    );
    assert_eq!(
        probe.identify(
            4,
            &evidence(no_files, vec![text("tok123"), Reply::Undecodable, document("ami-1", "x")])
        ),
        Action::Done(false)
    );
}

#[test]
fn akamai_has_no_local_check() {
    let probe = Probe::Akamai;

    assert_eq!(
        probe.identify(9, &Evidence::new()),
        request(
            "http://169.254.169.254/v1/token",
            vec![("Metadata-Token-Expiry-Seconds", "60")],
            9,
            Expect::Text
        )
    );
    assert_eq!(probe.identify(9, &evidence(vec![], vec![text("")])), Action::Done(false));
    assert_eq!(
        probe.identify(9, &evidence(vec![], vec![Reply::Unreachable])),
        Action::Done(false)
    );
    assert_eq!(
        probe.identify(9, &evidence(vec![], vec![text("t0k")])),
        request(
            "http://169.254.169.254/v1/instance",
            vec![("Metadata-Token", "t0k")],
            9,
            Expect::AkamaiInstance
        )
    );
    let instance = |id: isize, host_uuid: &str| Reply::Received {
        status: 200,
        body: Body::AkamaiInstance { id, host_uuid: host_uuid.to_string() },
    };
    assert_eq!(
        probe.identify(9, &evidence(vec![], vec![text("t0k"), instance(1, "u")])),
        Action::Done(true)
    );
    assert_eq!(
        probe.identify(9, &evidence(vec![], vec![text("t0k"), instance(-1, "u")])),
        Action::Done(false)
    );
    assert_eq!(
        probe.identify(9, &evidence(vec![], vec![text("t0k"), instance(1, "")])),
        Action::Done(false)
    );
}

#[test]
fn a_reply_of_the_wrong_kind_is_no_match() {
    let droplet = Reply::Received { status: 200, body: Body::Droplet { droplet_id: 7 } };
    for probe in [Probe::Alibaba, Probe::Azure, Probe::Oci, Probe::Vultr] {
        let found = evidence(vec![FileEvidence::Absent], vec![droplet.clone()]);
        assert_eq!(probe.identify(1, &found), Action::Done(false));
    }
    let found = evidence(vec![FileEvidence::Absent], vec![text("7")]);
    assert_eq!(Probe::DigitalOcean.identify(1, &found), Action::Done(false));
}

#[test]
fn aws_files_are_read_without_regard_to_case() {
    assert!(Aws.check_product_version_file(&file("4.11.AMAZON")));
    assert!(Aws.check_bios_vendor_file(&file("Amazon EC2")));
    assert!(!Aws.check_bios_vendor_file(&file("Amazing")));
    assert!(!Aws.check_product_version_file(&FileEvidence::Absent));
    assert!(!Aws.check_bios_vendor_file(&FileEvidence::Unreadable));
    assert!(Aws::mentions_amazon("an amazon instance"));
    assert!(!Aws::mentions_amazon("AMAZON"));
}

#[test]
fn aws_documents_are_judged_by_their_prefixes() {
    let document = |image_id: &str, instance_id: &str| Reply::Received {
        status: 200,
        body: Body::AwsIdentity {
            image_id: image_id.to_string(),
            instance_id: instance_id.to_string(),
        },
    };
    assert!(Aws::check_document(&document("ami-", "i-")));
    assert!(!Aws::check_document(&document("ami", "i-1")));
    assert!(!Aws::check_document(&document("xami-1", "i-1")));
    assert!(!Aws::check_document(&document("ami-1", "1i-")));
    assert!(!Aws::check_document(&text("ami-1 i-1")));
    assert!(!Aws::check_document(&Reply::Unreachable));
}

#[test]
fn openstack_knows_its_product_names_and_asset_tags() {
    let probe = OpenStack;
    for name in ["Openstack Nova", "OpenStack Compute"] {
        assert!(probe.check_product_name_file(&file(name)));
    }
    for tag in
        ["HUAWEICLOUD", "OpenTelekomCloud", "SAP CCloud VM", "OpenStack Nova", "OpenStack Compute"]
    {
        assert!(probe.check_chassis_asset_tag_file(&file(tag)));
        assert!(probe.check_vendor_files(&FileEvidence::Absent, &file(tag)));
    }
    assert!(!probe.check_product_name_file(&file("HUAWEICLOUD")));
    assert!(!probe.check_chassis_asset_tag_file(&file("Openstack Nova")));
    assert!(!probe.check_vendor_files(&FileEvidence::Unreadable, &FileEvidence::Absent));
    assert!(probe.check_product_name_file(&file("Red Hat OpenStack Compute\n")));
}

#[test]
fn only_statuses_from_200_to_299_are_success() {
    assert!(!is_success(0));
    assert!(!is_success(199));
    assert!(is_success(200));
    assert!(is_success(204));
    assert!(is_success(299));
    assert!(!is_success(300));
    assert!(!is_success(404));
    assert!(!is_success(500));
    assert!(!is_success(u16::MAX));
}

#[test]
fn requests_are_built_piece_by_piece() {
    assert_eq!(join("http://host", "/path"), "http://host/path");
    assert_eq!(join("", ""), "");

    let plain = Request::get("http://host/a".to_string(), 3, Expect::Text);
    assert_eq!(plain.url, "http://host/a");
    assert!(plain.headers.is_empty());
    assert_eq!(plain.timeout, 3);
    assert_eq!(plain.expect, Expect::Text);

    let with_headers = plain.header("A", "1").header("B", "2");
    assert_eq!(
        with_headers.headers,
        vec![
            Header { name: "A".to_string(), value: "1".to_string() },
            Header { name: "B".to_string(), value: "2".to_string() }
        ]
    );
    assert_eq!(with_headers.timeout, 3);

    assert_eq!(into_action(Exchange::Decided(true)), Action::Done(true));
    assert_eq!(into_action(Exchange::Ask(with_headers.clone())), Action::Fetch(with_headers));
}

#[test]
fn evidence_keeps_the_order_of_what_was_observed() {
    let mut evidence = Evidence::new();
    assert!(evidence.reply(0).is_none());

    evidence.add_file(FileEvidence::Absent);
    evidence.add_reply(Reply::Unreachable);
    evidence.add_file(file("x"));
    evidence.add_reply(Reply::Undecodable);

    assert_eq!(evidence.files, vec![FileEvidence::Absent, file("x")]);
    assert_eq!(evidence.reply(0), Some(&Reply::Unreachable));
    assert_eq!(evidence.reply(1), Some(&Reply::Undecodable));
    assert_eq!(evidence.reply(2), None);
}
