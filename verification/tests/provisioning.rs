use disco::builder::Cluster;
use disco::builder::Host;
use disco::builder::IPAddress;
use disco::builder::KeyPair;
use disco::builder::KeyPairSource;
use disco::builder::Storage;
use disco::provider::created_instance_ids;
use disco::provider::find_name;
use disco::provider::first_live_instance;
use disco::provider::instance_count;
use disco::provider::instances_from_response;
use disco::provider::sort_instances;
use disco::provider::timed_out;
use disco::provider::InstanceInfo;
use disco::provider::InstanceState;
use disco::provider::RawInstance;
use disco::provider::Tag;

const ED25519: &str =
    "ssh-ed25519 AAAAC3NzaC1lZDI1NTE5AAAAILM+rvN+ot98qgEN796jTiQfZfG1KaT0PtFDJ/XFSqti user@example.com";

fn instance(id: &str, name: Option<&str>, ip: Option<&str>, state: Option<InstanceState>) -> InstanceInfo {
    InstanceInfo {
        id: id.to_string(),
        name: name.map(|n| n.to_string()),
        public_ip: ip.map(|n| n.to_string()),
        state,
    }
}

fn tag(key: Option<&str>, value: Option<&str>) -> Tag {
    Tag { key: key.map(|k| k.to_string()), value: value.map(|v| v.to_string()) }
}

fn raw(id: Option<&str>, tags: Vec<Tag>, state: Option<InstanceState>, ip: Option<&str>) -> RawInstance {
    RawInstance {
        instance_id: id.map(|i| i.to_string()),
        tags,
        state,
        public_ip_address: ip.map(|i| i.to_string()),
    }
}

#[test]
fn host_from_a_complete_instance() {
    let host = Host::try_from(instance("i-1", Some("web"), Some("1.2.3.4"), None));
    assert_eq!(
        host,
        Ok(Host { name: "web".to_string(), id: "i-1".to_string(), public_ip: "1.2.3.4".to_string() })
    );
}

#[test]
fn host_needs_a_name() {
    assert_eq!(
        Host::try_from(instance("i-1", None, Some("1.2.3.4"), None)),
        Err("Instance 'i-1' does not have a name tag".to_string())
    );
    // the name is looked at first
    assert_eq!(
        Host::from_instance(instance("i-2", None, None, None)),
        Err("Instance 'i-2' does not have a name tag".to_string())
    );
}

#[test]
fn host_needs_a_public_address() {
    assert_eq!(
        Host::try_from(instance("i-1", Some("web"), None, Some(InstanceState::Pending))),
        Err("Instance 'web' (i-1) does not have a public IP address".to_string())
    );
}

#[test]
fn fingerprint_of_an_ed25519_key() {
    assert_eq!(
        KeyPair::compute_fingerprint(ED25519),
        Ok("UCUiLr7Pjs9wFFJMDByLgc3NrtdU344OgUM45wZPcIQ=".to_string())
    );
    // the comment is no part of the key
    let bare = "ssh-ed25519 AAAAC3NzaC1lZDI1NTE5AAAAILM+rvN+ot98qgEN796jTiQfZfG1KaT0PtFDJ/XFSqti";
    assert_eq!(
        KeyPair::compute_fingerprint(bare),
        Ok("UCUiLr7Pjs9wFFJMDByLgc3NrtdU344OgUM45wZPcIQ=".to_string())
    );
}

#[test]
fn text_that_is_no_key_has_no_fingerprint() {
    for text in ["", "not a key", "ssh-ed25519 ????", "ssh-rsa AAAAC3NzaC1lZDI1NTE5AAAAILM+rvN+ot98qgEN796jTiQfZfG1KaT0PtFDJ/XFSqti"] {
        match KeyPair::compute_fingerprint(text) {
            Err(message) => assert!(message.starts_with("Failed to parse public key: ")),
            Ok(fingerprint) => panic!("{:?} has fingerprint {}", text, fingerprint),
        }
    }
}

#[test]
fn fingerprint_is_compared_with_the_local_key() {
    assert_eq!(
        KeyPair::fingerprint_matches_local_public_key(
            "UCUiLr7Pjs9wFFJMDByLgc3NrtdU344OgUM45wZPcIQ=",
            ED25519
        ),
        Ok(true)
    );
    assert_eq!(
        KeyPair::fingerprint_matches_local_public_key(
            "UCUiLr7Pjs9wFFJMDByLgc3NrtdU344OgUM45wZPcIQ",
            ED25519
        ),
        Ok(false)
    );
    assert!(KeyPair::fingerprint_matches_local_public_key("x", "junk").is_err());
}

#[test]
fn public_key_material_is_base64() {
    assert_eq!(KeyPair::public_key_material(b"hello"), Some("aGVsbG8=".to_string()));
    assert_eq!(KeyPair::public_key_material(b""), Some("".to_string()));
    assert_eq!(KeyPair::public_key_material(&[0xfb, 0xff]), Some("+/8=".to_string()));
}

#[test]
fn storage_names_and_messages() {
    let storage = Storage::new("bucket".to_string(), "arn:role".to_string());
    assert_eq!(storage.name(), "bucket");
    assert_eq!(storage.role(), "arn:role");
    assert_eq!(
        storage.ensure_failure(),
        "Failed to create storage with name 'bucket' and role 'arn:role'"
    );
    assert_eq!(
        Storage::upload_failure("a.tar", "k/a"),
        "Failed to upload file 'a.tar' to storage with key 'k/a'"
    );
}

#[test]
fn state_names() {
    assert_eq!(InstanceState::from_name("pending"), Some(InstanceState::Pending));
    assert_eq!(InstanceState::from_name("running"), Some(InstanceState::Running));
    assert_eq!(InstanceState::from_name("shutting-down"), Some(InstanceState::ShuttingDown));
    assert_eq!(InstanceState::from_name("terminated"), Some(InstanceState::Terminated));
    assert_eq!(InstanceState::from_name("stopping"), Some(InstanceState::Stopping));
    assert_eq!(InstanceState::from_name("stopped"), Some(InstanceState::Stopped));
    assert_eq!(InstanceState::from_name("Running"), None);
    assert_eq!(InstanceState::from_name(""), None);
}

#[test]
fn name_comes_from_the_first_name_tag() {
    assert_eq!(find_name(&vec![]), None);
    assert_eq!(
        find_name(&vec![tag(Some("Env"), Some("prod")), tag(Some("Name"), Some("web"))]),
        Some("web".to_string())
    );
    assert_eq!(
        find_name(&vec![tag(Some("Name"), None), tag(Some("Name"), Some("late"))]),
        None
    );
    assert_eq!(find_name(&vec![tag(None, Some("x")), tag(Some("name"), Some("y"))]), None);
}

#[test]
fn instances_of_an_answer_in_its_order() {
    let reservations = vec![
        vec![
            raw(Some("i-1"), vec![tag(Some("Name"), Some("a"))], Some(InstanceState::Running), Some("1.1.1.1")),
            raw(Some("i-2"), vec![], None, None),
        ],
        vec![],
        vec![raw(Some("i-3"), vec![tag(Some("Name"), Some("c"))], Some(InstanceState::Stopped), None)],
    ];
    assert_eq!(
        instances_from_response(&reservations),
        Ok(vec![
            instance("i-1", Some("a"), Some("1.1.1.1"), Some(InstanceState::Running)),
            instance("i-2", None, None, None),
            instance("i-3", Some("c"), None, Some(InstanceState::Stopped)),
        ])
    );
    assert_eq!(instances_from_response(&vec![]), Ok(vec![]));
}

#[test]
fn instance_without_id_spoils_the_answer() {
    let reservations = vec![
        vec![raw(Some("i-1"), vec![], None, None)],
        vec![raw(None, vec![tag(Some("Name"), Some("x"))], Some(InstanceState::Running), Some("2.2.2.2"))],
    ];
    assert_eq!(
        instances_from_response(&reservations),
        Err("Encountered an instance without an ID in AWS response".to_string())
    );
}

#[test]
fn first_instance_that_is_not_terminated() {
    let instances = vec![
        instance("i-1", None, None, Some(InstanceState::Terminated)),
        instance("i-2", None, None, None),
        instance("i-3", None, None, Some(InstanceState::Running)),
    ];
    assert_eq!(first_live_instance(&instances), Some(1));
    assert_eq!(first_live_instance(&instances[..1].to_vec()), None);
    assert_eq!(first_live_instance(&vec![]), None);
}

#[test]
fn a_look_sorts_ready_from_pending() {
    let instances = vec![
        instance("i-1", None, Some("1.1.1.1"), Some(InstanceState::Running)),
        instance("i-2", None, None, Some(InstanceState::Running)),
        instance("i-3", None, Some("3.3.3.3"), Some(InstanceState::Pending)),
        instance("i-4", None, Some("4.4.4.4"), Some(InstanceState::Running)),
    ];
    let round = sort_instances(instances.clone());
    assert_eq!(round.ready, vec![instances[0].clone(), instances[3].clone()]);
    assert_eq!(round.pending, vec!["i-2".to_string(), "i-3".to_string()]);
    assert!(instances[0].is_ready());
    assert!(!instances[1].is_ready());
    assert!(!instances[2].is_ready());
    let nothing = sort_instances(vec![]);
    assert!(nothing.ready.is_empty() && nothing.pending.is_empty());
}

#[test]
fn an_id_that_is_ready_once_counts_for_all_that_bear_it() {
    let instances = vec![
        instance("i-1", None, None, Some(InstanceState::Pending)),
        instance("i-1", None, Some("1.1.1.1"), Some(InstanceState::Running)),
    ];
    let round = sort_instances(instances.clone());
    assert_eq!(round.ready, instances);
    assert_eq!(round.pending, vec!["i-1".to_string()]);
}

#[test]
fn timeout_message_counts_both_kinds() {
    assert_eq!(
        timed_out(2, 13),
        "Timed out waiting for instances to become available with public IPs. Ready: 2, Pending: 13"
    );
}

#[test]
fn instance_count_has_to_fit() {
    assert_eq!(instance_count(1), Ok(1));
    assert_eq!(instance_count(2147483647), Ok(i32::MAX));
    assert_eq!(instance_count(-2147483648), Ok(i32::MIN));
    assert_eq!(
        instance_count(2147483648),
        Err("Invalid instance count: 2147483648 (must fit within i32 range)".to_string())
    );
    assert_eq!(
        instance_count(i64::MIN),
        Err("Invalid instance count: -9223372036854775808 (must fit within i32 range)".to_string())
    );
}

#[test]
fn ids_of_created_instances() {
    assert_eq!(
        created_instance_ids("web", vec![Some("i-1".to_string()), None, Some("i-2".to_string())]),
        Ok(vec!["i-1".to_string(), "i-2".to_string()])
    );
    assert_eq!(
        created_instance_ids("web", vec![]),
        Err("No instances returned from AWS when creating instances for 'web'".to_string())
    );
    assert_eq!(
        created_instance_ids("web", vec![None, None]),
        Err("No valid instance IDs found in AWS response when creating instances for 'web'".to_string())
    );
}

#[test]
fn key_pair_of_the_provider_is_taken_if_it_matches() {
    let mut cluster = Cluster::new("web".to_string());
    assert_eq!(cluster.key_pair(), None);
    assert_eq!(cluster.key_pair_name(), Err("Key pair is not set on cluster: web".to_string()));
    let source = KeyPairSource::Existing { fingerprint: "fp".to_string(), fingerprints_match: true };
    assert_eq!(cluster.set_key_pair("/home/me/.ssh/id", source), Ok(()));
    assert_eq!(
        cluster.key_pair(),
        Some(&KeyPair {
            name: "web".to_string(),
            private_key: "/home/me/.ssh/id".to_string(),
            fingerprint: "fp".to_string(),
        })
    );
    assert_eq!(cluster.key_pair_name(), Ok("web".to_string()));
}

#[test]
fn key_pair_with_another_fingerprint_is_refused() {
    let mut cluster = Cluster::new("web".to_string());
    let source = KeyPairSource::Existing { fingerprint: "fp".to_string(), fingerprints_match: false };
    assert_eq!(
        cluster.set_key_pair("id", source),
        Err("Key pair exists in AWS but has a different fingerprint".to_string())
    );
    assert_eq!(cluster.key_pair(), None);
}

#[test]
fn imported_key_pair_is_taken() {
    let mut cluster = Cluster::new("web".to_string());
    let source = KeyPairSource::Imported { fingerprint: "new".to_string() };
    assert_eq!(cluster.set_key_pair("id", source), Ok(()));
    assert_eq!(cluster.key_pair().unwrap().fingerprint, "new");
}

#[test]
fn cluster_adopts_a_running_instance() {
    let mut cluster = Cluster::new("web".to_string());
    assert!(!cluster.has_primary_host());
    assert_eq!(cluster.adopt_instance(instance("i-1", Some("web"), Some("1.1.1.1"), None)), Ok(()));
    assert_eq!(cluster.hosts().len(), 1);
    assert!(cluster.has_primary_host());
    assert_eq!(
        cluster.adopt_instance(instance("i-2", None, None, None)),
        Err("Instance 'i-2' does not have a name tag".to_string())
    );
    assert_eq!(cluster.hosts().len(), 1);
    assert_eq!(cluster.name(), "web");
}

#[test]
fn host_of_another_name_is_not_the_primary() {
    let mut cluster = Cluster::new("web".to_string());
    cluster.adopt_instance(instance("i-1", Some("db"), Some("1.1.1.1"), None)).unwrap();
    assert!(!cluster.has_primary_host());
}

#[test]
fn first_created_instance_becomes_a_host() {
    let mut cluster = Cluster::new("web".to_string());
    let created = vec![
        instance("i-1", Some("web"), Some("1.1.1.1"), Some(InstanceState::Running)),
        instance("i-2", Some("web"), Some("2.2.2.2"), Some(InstanceState::Running)),
    ];
    assert_eq!(cluster.add_created(created), Ok(()));
    assert_eq!(
        cluster.hosts(),
        &vec![Host { name: "web".to_string(), id: "i-1".to_string(), public_ip: "1.1.1.1".to_string() }]
    );
}

#[test]
fn created_instances_have_to_be_complete_and_some() {
    let mut cluster = Cluster::new("web".to_string());
    assert_eq!(cluster.add_created(vec![]), Err("No host was created".to_string()));
    let created = vec![
        instance("i-1", Some("web"), Some("1.1.1.1"), None),
        instance("i-2", Some("web"), None, None),
        instance("i-3", None, None, None),
    ];
    assert_eq!(
        cluster.add_created(created),
        Err("Instance 'web' (i-2) does not have a public IP address".to_string())
    );
    assert!(cluster.hosts().is_empty());
}

#[test]
fn address_is_attached_unless_the_host_has_it() {
    let mut cluster = Cluster::new("web".to_string());
    let address = cluster.address("9.9.9.9".to_string(), "eip-1".to_string());
    assert_eq!(
        address,
        IPAddress { name: "web".to_string(), public_ip: "9.9.9.9".to_string(), id: "eip-1".to_string() }
    );
    assert_eq!(
        cluster.attach_target(&address),
        Err("No host was available, create one first".to_string())
    );
    cluster.adopt_instance(instance("i-1", Some("web"), Some("1.1.1.1"), None)).unwrap();
    cluster.adopt_instance(instance("i-2", Some("web"), Some("9.9.9.9"), None)).unwrap();
    assert_eq!(
        cluster.attach_target(&address),
        Ok(Some(("eip-1".to_string(), "i-1".to_string())))
    );
    let same = cluster.address("1.1.1.1".to_string(), "eip-2".to_string());
    assert_eq!(cluster.attach_target(&same), Ok(None));
}

#[test]
fn bucket_policy_names_bucket_and_role() {
    let policy = Storage::bucket_policy("my-bucket", "arn:aws:iam::1:role/web");
    assert_eq!(policy.matches("arn:aws:s3:::my-bucket").count(), 3);
    assert_eq!(policy.matches("\"arn:aws:iam::1:role/web\"").count(), 2);
    assert!(policy.starts_with("{\n  \"Version\": \"2012-10-17\",\n  \"Statement\": [\n"));
    assert!(policy.ends_with("          ]\n        }\n      }\n    }\n  ]\n}"));
    assert!(policy.contains("      \"Resource\": [\n        \"arn:aws:s3:::my-bucket\",\n        \"arn:aws:s3:::my-bucket/*\"\n      ],\n"));
    assert!(policy.contains("      \"Sid\": \"DenyListBucket\",\n"));
    assert!(policy.contains("          \"aws:PrincipalIsAWSService\": \"false\"\n"));
    assert_eq!(policy.lines().count(), 39);
    let expected_len = Storage::bucket_policy("", "").len() + 3 * "my-bucket".len()
        + 2 * "arn:aws:iam::1:role/web".len();
    assert_eq!(policy.len(), expected_len);
}
