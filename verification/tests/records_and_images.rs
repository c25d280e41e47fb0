use nanocld::records::{CargoPartial, cargo_item, CargoPatchPartial, cargo_patch_item, cargo_env_items, cargo_env_item, CargoEnvPartial, cluster_item, ClusterPartial, add_proxy_template, remove_proxy_template, cluster_network_item, ClusterNetworkPartial, cluster_variable_item, ClusterVariablePartial, cargo_instance_item, CargoInstancePartial, git_repository_item, GitRepositoryPartial, GitRepositorySourceType, git_repository_branch_item, GitRepositoryBranchPartial, GitRepositoryItem, GitRepositoryBranchItem};
use nanocld::image::{parse_image_name, frame_download_chunk, frame_create_image_chunk, instance_exec_chunk, exec_start_chunk, LogOutput, git_build_source};

#[test]
fn cargo_records_are_keyed_by_namespace() {
    let partial = CargoPartial {
        name: String::from("crud-test"),
        config: serde_json::Value::Null,
        replicas: None,
        dns_entry: None,
        environnements: None,
    };
    let item = cargo_item(String::from("global"), partial);
    assert_eq!(item.key, "global-crud-test");
    assert_eq!(item.namespace_name, "global");
    assert_eq!(item.name, "crud-test");
    assert_eq!(item.replicas, 1);
    let partial = CargoPartial {
        name: String::from("web"),
        config: serde_json::Value::Bool(true),
        replicas: Some(3),
        dns_entry: Some(String::from("web.internal")),
        environnements: None,
    };
    let item = cargo_item(String::from("prod"), partial);
    assert_eq!(item.replicas, 3);
    assert_eq!(item.dns_entry, Some(String::from("web.internal")));
    assert_eq!(item.config, serde_json::Value::Bool(true));
}

#[test]
fn cargo_patch_moves_renamed_cargo() {
    let patch = CargoPatchPartial {
        name: Some(String::from("api2")),
        config: None,
        replicas: Some(2),
        dns_entry: None,
        environnements: None,
        binds: None,
    };
    let item = cargo_patch_item("global", patch);
    assert_eq!(item.key, Some(String::from("global-api2")));
    assert_eq!(item.replicas, Some(2));
    let patch = CargoPatchPartial { name: None, config: None, replicas: None, dns_entry: None, environnements: None, binds: None };
    assert_eq!(cargo_patch_item("global", patch).key, None);
}

#[test]
fn env_records_are_keyed_by_cargo() {
    let envs = vec![(String::from("TEST"), String::from("1")), (String::from("PORT"), String::from("80"))];
    let items = cargo_env_items("global-api", envs);
    assert_eq!(items.len(), 2);
    assert_eq!(items[0].key, "global-api-TEST");
    assert_eq!(items[0].value, "1");
    assert_eq!(items[1].key, "global-api-PORT");
    assert_eq!(items[1].cargo_key, "global-api");
    let one = cargo_env_item(CargoEnvPartial {
        cargo_key: String::from("k"),
        name: String::from("N"),
        value: String::from("V"),
    });
    assert_eq!(one.key, "k-N");
}

#[test]
fn cluster_records() {
    let item = cluster_item(String::from("global"), ClusterPartial { name: String::from("dev"), proxy_templates: None });
    assert_eq!(item.key, "global-dev");
    assert!(item.proxy_templates.is_empty());
    let templates = add_proxy_template(item.proxy_templates, String::from("tpl"));
    let templates = add_proxy_template(templates, String::from("other"));
    let templates = add_proxy_template(templates, String::from("tpl"));
    assert_eq!(templates.len(), 3);
    assert_eq!(remove_proxy_template(templates, "tpl"), vec![String::from("other")]);

    let net = cluster_network_item(
        String::from("global"),
        "dev",
        ClusterNetworkPartial { name: String::from("front") },
        String::from("id123"),
        String::from("172.20.0.1"),
    );
    assert_eq!(net.key, "global-dev-front");
    assert_eq!(net.cluster_key, "global-dev");
    let var = cluster_variable_item(String::from("global-dev"), ClusterVariablePartial {
        name: String::from("unit-test"),
        value: String::from("yoloh"),
    });
    assert_eq!(var.key, "global-dev-unit-test");
    assert_eq!(var.value, "yoloh");
    let link = cargo_instance_item(CargoInstancePartial {
        cargo_key: String::from("global-api"),
        cluster_key: String::from("global-dev"),
        network_key: String::from("global-dev-front"),
    });
    assert_eq!(link.key, "global-dev-global-api");
}

#[test]
fn git_records() {
    let repo = git_repository_item(
        GitRepositoryPartial { name: String::from("test"), url: String::from("https://github.com/leon3s/express-test-deploy") },
        String::from("development"),
    );
    assert_eq!(repo.name, "test");
    assert_eq!(repo.source, GitRepositorySourceType::Github);
    let branch = git_repository_branch_item(GitRepositoryBranchPartial {
        name: String::from("test-branch"),
        last_commit_sha: String::from("sha256:super_commit!"),
        repository_name: String::from("test"),
    });
    assert_eq!(branch.key, "test-test-branch");
}

#[test]
fn basic_create_wrong_name() {
    let err = parse_image_name("test").err().unwrap();
    assert_eq!(err.status, 400);
    assert_eq!(err.msg, "missing tag in image name");
    assert!(parse_image_name("a:b:c").is_err());
    let (image, tag) = parse_image_name("busybox:unstable-musl").ok().unwrap();
    assert_eq!(image, "busybox");
    assert_eq!(tag, "unstable-musl");
}

#[test]
fn download_frames_carry_their_length() {
    assert_eq!(frame_download_chunk("{\"a\":1}"), b"7\n{\"a\":1}\n".to_vec());
    assert_eq!(frame_download_chunk(""), b"0\n\n".to_vec());
    // byte length, not character count
    assert_eq!(frame_download_chunk("é"), "2\né\n".as_bytes().to_vec());
    let long = "x".repeat(123);
    let framed = frame_download_chunk(&long);
    assert_eq!(&framed[..4], b"123\n");
    assert_eq!(framed.len(), 4 + 123 + 1);
}

#[test]
fn create_image_frames_prefix_their_length() {
    let mut expected = b"15".to_vec();
    expected.extend(vec![0u8; 62]);
    expected.extend(b"{\"status\":\"ok\"}\n".to_vec());
    assert_eq!(frame_create_image_chunk("{\"status\":\"ok\"}"), expected);
    let mut empty = b"0".to_vec();
    empty.extend(vec![0u8; 63]);
    empty.push(b'\n');
    assert_eq!(frame_create_image_chunk(""), empty);
    let long = "x".repeat(1234);
    let framed = frame_create_image_chunk(&long);
    assert_eq!(framed.len(), 64 + 1234 + 1);
    assert_eq!(&framed[..4], b"1234");
    assert!(framed[4..64].iter().all(|b| *b == 0));
}

#[test]
fn exec_output_filters() {
    let msg = b"hello".to_vec();
    assert_eq!(instance_exec_chunk(LogOutput::Console { message: msg.clone() }), Some(msg.clone()));
    assert_eq!(instance_exec_chunk(LogOutput::StdOut { message: msg.clone() }), Some(msg.clone()));
    assert_eq!(instance_exec_chunk(LogOutput::StdErr { message: msg.clone() }), None);
    assert_eq!(exec_start_chunk(LogOutput::Console { message: msg.clone() }), None);
    assert_eq!(exec_start_chunk(LogOutput::StdOut { message: msg.clone() }), Some(msg.clone()));
    assert_eq!(exec_start_chunk(LogOutput::StdIn { message: msg }), None);
}

#[test]
fn git_build_source_names_the_branch() {
    let repo = GitRepositoryItem {
        name: String::from("express"),
        url: String::from("https://u:p@github.com/leon3s/express-test-deploy"),
        default_branch: String::from("main"),
        source: GitRepositorySourceType::Github,
    };
    let branch = GitRepositoryBranchItem {
        key: String::from("express-main"),
        name: String::from("main"),
        last_commit_sha: String::from("abc123"),
        repository_name: String::from("express"),
    };
    let (url, labels) = git_build_source(&repo, &branch);
    assert_eq!(url, "https://u:p@github.com/leon3s/express-test-deploy.git#main");
    assert_eq!(labels.get("commit"), Some(String::from("abc123")));
}
