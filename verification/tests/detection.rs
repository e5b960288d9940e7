//! Whole detection runs on hosts that are described by plain values: the
//! files they hold and the replies their metadata servers give.

use cloud_detect::probe::{Action, Body, Evidence, FileEvidence, Reply, Request};
use cloud_detect::{
    detection_timeout, Detection, Phase, Probe, ProviderId, Registry, DEFAULT_DETECTION_TIMEOUT,
};

/// A host: what is found at its paths and what its metadata servers answer.
/// Whatever is not listed is absent or out of reach.
struct Host {
    files: Vec<(&'static str, FileEvidence)>,
    replies: Vec<(&'static str, Reply)>,
}

impl Host {
    fn bare() -> Host {
        Host { files: vec![], replies: vec![] }
    }

    fn read(&self, path: &str) -> FileEvidence {
        for (at, evidence) in &self.files {
            if *at == path {
                return evidence.clone();
            }
        }
        FileEvidence::Absent
    }

    fn fetch(&self, request: &Request) -> Reply {
        for (url, reply) in &self.replies {
            if *url == request.url {
                return reply.clone();
            }
        }
        Reply::Unreachable
    }
}

/// Runs one probe on a host. Returns its verdict and everything it asked for.
fn drive(probe: Probe, timeout: u64, host: &Host) -> (bool, Vec<Action>) {
    let mut evidence = Evidence::new();
    let mut asked = Vec::new();
    loop {
        let action = probe.identify(timeout, &evidence);
        asked.push(action.clone());
        match action {
            Action::ReadFile(path) => evidence.add_file(host.read(&path)),
            Action::Fetch(request) => evidence.add_reply(host.fetch(&request)),
            Action::Done(matched) => return (matched, asked),
        }
        assert!(asked.len() <= 6);
    }
}

/// Runs a detection on a host, the tasks finishing in the given order.
fn detect_in_order(
    timeout: Option<u64>,
    registry: &Registry,
    host: &Host,
    order: &[usize],
) -> ProviderId {
    let mut detection = Detection::new(timeout, registry);
    let probes = detection.fan_out();
    for &task in order {
        if let Some(provider) = detection.poll() {
            return provider;
        }
        let (matched, _) = drive(probes[task], detection.timeout(), host);
        detection.task_finished(task, matched);
    }
    match detection.poll() {
        Some(provider) => provider,
        None => {
            detection.timer_expired();
            detection.poll().unwrap()
        }
    }
}

fn detect(timeout: Option<u64>, host: &Host) -> ProviderId {
    let registry = Registry::with_default_probes();
    let order: Vec<usize> = (0..registry.len()).collect();
    detect_in_order(timeout, &registry, host, &order)
}

fn aws_host() -> Host {
    Host {
        files: vec![],
        replies: vec![
            (
                "http://169.254.169.254/latest/api/token",
                Reply::Received { status: 200, body: Body::Text("tok123".to_string()) },
            ),
            (
                "http://169.254.169.254/latest/dynamic/instance-identity/document",
                Reply::Received {
                    status: 200,
                    body: Body::AwsIdentity {
                        image_id: "ami-1".to_string(),
                        instance_id: "i-1".to_string(),
                    },
                },
            ),
        ],
    }
}

fn azure_host() -> Host {
    Host {
        files: vec![(
            "/sys/class/dmi/id/sys_vendor",
            FileEvidence::Content("Microsoft Corporation".to_string()),
        )],
        replies: vec![],
    }
}

#[test]
fn test_detect() {
    let provider = detect(Some(1), &Host::bare());
    assert_eq!(provider, Default::default());
}

#[test]
fn detect_finds_aws_by_its_metadata_server() {
    assert_eq!(detect(Some(5), &aws_host()), ProviderId::AWS);
}

#[test]
fn detect_finds_azure_by_its_vendor_file_alone() {
    let host = azure_host();

    assert_eq!(detect(Some(5), &host), ProviderId::Azure);

    let (matched, asked) = drive(Probe::Azure, 5, &host);
    assert!(matched);
    assert_eq!(
        asked,
        vec![Action::ReadFile("/sys/class/dmi/id/sys_vendor".to_string()), Action::Done(true)]
    );
}

#[test]
fn detect_finds_nothing_on_a_bare_host() {
    let host = Host::bare();

    assert_eq!(detect(Some(1), &host), ProviderId::Unknown);
    assert_eq!(detect(None, &host), ProviderId::Unknown);
    assert_eq!(detect(Some(0), &host), ProviderId::Unknown);
    assert_eq!(detect(Some(u64::MAX), &host), ProviderId::Unknown);

    let mut detection = Detection::new(Some(1), &Registry::with_default_probes());
    let probes = detection.fan_out();
    for (task, probe) in probes.iter().enumerate() {
        let (matched, _) = drive(*probe, 1, &host);
        assert!(!matched);
        detection.task_finished(task, matched);
    }
    assert_eq!(detection.poll(), Some(ProviderId::Unknown));
    assert_eq!(detection.phase(), Phase::AllFinishedEmpty);
}

#[test]
fn detect_gives_the_same_answer_every_time() {
    let host = aws_host();
    let first = detect(Some(5), &host);
    let second = detect(Some(5), &host);
    let third = detect(Some(5), &host);
    assert_eq!(first, ProviderId::AWS);
    assert_eq!(first, second);
    assert_eq!(second, third);

    let bare = Host::bare();
    assert_eq!(detect(Some(5), &bare), detect(Some(5), &bare));
}

#[test]
fn the_one_match_wins_in_every_order() {
    let host = azure_host();
    let mut registry = Registry::with_default_probes();
    registry.register(Probe::Akamai);

    let forward: Vec<usize> = (0..9).collect();
    let backward: Vec<usize> = (0..9).rev().collect();
    let azure_first = vec![2, 0, 1, 3, 4, 5, 6, 7, 8];
    let azure_last = vec![0, 1, 3, 4, 5, 6, 7, 8, 2];

    assert_eq!(detect_in_order(Some(5), &registry, &host, &forward), ProviderId::Azure);
    assert_eq!(detect_in_order(Some(5), &registry, &host, &backward), ProviderId::Azure);
    assert_eq!(detect_in_order(Some(5), &registry, &host, &azure_first), ProviderId::Azure);
    assert_eq!(detect_in_order(Some(5), &registry, &host, &azure_last), ProviderId::Azure);

    let mut alone = Registry::new();
    alone.register(Probe::Azure);
    assert_eq!(detect_in_order(Some(5), &alone, &host, &[0]), ProviderId::Azure);
}

#[test]
fn an_expired_run_returns_unknown_whatever_comes_later() {
    let mut detection = Detection::new(Some(0), &Registry::with_default_probes());
    assert_eq!(detection.timeout(), 0);
    detection.fan_out();

    detection.timer_expired();

    assert_eq!(detection.poll(), Some(ProviderId::Unknown));
    assert_eq!(detection.phase(), Phase::TimedOut);

    detection.task_finished(1, true);
    assert_eq!(detection.poll(), Some(ProviderId::Unknown));
    assert_eq!(detection.verdict(), Some(ProviderId::Unknown));
    assert_eq!(detection.phase(), Phase::TimedOut);
}

#[test]
fn a_match_comes_before_the_end_of_all_tasks_and_the_deadline() {
    let mut registry = Registry::new();
    registry.register(Probe::Gcp);
    let mut detection = Detection::new(Some(3), &registry);
    detection.fan_out();

    detection.task_finished(0, true);
    detection.timer_expired();

    assert_eq!(detection.outstanding(), 0);
    assert_eq!(detection.poll(), Some(ProviderId::GCP));
    assert_eq!(detection.phase(), Phase::Resolved(ProviderId::GCP));
}

#[test]
fn only_the_first_match_is_kept() {
    let mut detection = Detection::new(None, &Registry::with_default_probes());
    detection.fan_out();

    detection.task_finished(4, true);
    detection.task_finished(1, true);

    assert_eq!(detection.poll(), Some(ProviderId::GCP));

    detection.task_finished(2, true);
    assert_eq!(detection.poll(), Some(ProviderId::GCP));
}

#[test]
fn a_run_waits_while_nothing_is_settled() {
    let mut detection = Detection::new(None, &Registry::with_default_probes());
    assert_eq!(detection.phase(), Phase::Idle);
    assert_eq!(detection.poll(), None);
    assert_eq!(detection.phase(), Phase::Idle);

    let probes = detection.fan_out();
    assert_eq!(probes.len(), 8);
    assert_eq!(detection.phase(), Phase::FannedOut);
    assert_eq!(detection.outstanding(), 8);
    assert_eq!(detection.poll(), None);

    detection.task_finished(0, false);
    detection.task_finished(7, false);
    assert_eq!(detection.outstanding(), 6);
    assert_eq!(detection.poll(), None);
    assert_eq!(detection.verdict(), None);
    assert_eq!(detection.phase(), Phase::FannedOut);
}

#[test]
fn a_task_counts_once_and_only_if_it_is_of_the_run() {
    let mut detection = Detection::new(None, &Registry::with_default_probes());
    detection.fan_out();

    detection.task_finished(3, false);
    detection.task_finished(3, true);
    detection.task_finished(8, true);
    detection.task_finished(usize::MAX, true);

    assert_eq!(detection.outstanding(), 7);
    assert_eq!(detection.poll(), None);
}

#[test]
fn nothing_happens_before_the_tasks_are_out() {
    let mut detection = Detection::new(Some(2), &Registry::with_default_probes());

    detection.task_finished(0, true);
    detection.timer_expired();

    assert_eq!(detection.poll(), None);
    assert_eq!(detection.phase(), Phase::Idle);
    assert_eq!(detection.outstanding(), 8);

    assert_eq!(detection.fan_out().len(), 8);
    assert_eq!(detection.poll(), None);
}

#[test]
fn the_tasks_are_handed_out_once() {
    let mut detection = Detection::new(None, &Registry::with_default_probes());

    let first = detection.fan_out();
    let second = detection.fan_out();

    assert_eq!(first, Registry::with_default_probes().snapshot_probes());
    assert!(second.is_empty());
    assert_eq!(detection.phase(), Phase::FannedOut);
}

#[test]
fn a_run_without_probes_is_settled_at_once() {
    let mut detection = Detection::new(Some(5), &Registry::new());
    assert!(detection.fan_out().is_empty());

    assert_eq!(detection.poll(), Some(ProviderId::Unknown));
    assert_eq!(detection.phase(), Phase::AllFinishedEmpty);
}

#[test]
fn a_run_works_on_its_snapshot() {
    let mut registry = Registry::with_default_probes();
    let mut detection = Detection::new(None, &registry);

    registry.register(Probe::Akamai);

    assert_eq!(detection.fan_out().len(), 8);
    assert_eq!(Detection::new(None, &registry).fan_out().len(), 9);
}

#[test]
fn the_timeout_defaults_to_five_seconds() {
    assert_eq!(DEFAULT_DETECTION_TIMEOUT, 5);
    assert_eq!(detection_timeout(None), 5);
    assert_eq!(detection_timeout(Some(10)), 10);
    assert_eq!(detection_timeout(Some(0)), 0);
    assert_eq!(Detection::new(None, &Registry::new()).timeout(), 5);
    assert_eq!(Detection::new(Some(10), &Registry::new()).timeout(), 10);
}
