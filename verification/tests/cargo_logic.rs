use nanocld::cargo::{parse_env_entry, parse_environnements, instance_name, instance_names, tmp_instance_name, instance_network_mode, instance_labels, instance_label_filters, merge_binds, CargoInstanceFilterQuery};
use nanocld::labels::Labels;

#[test]
fn env_entries_need_exactly_one_equal_sign() {
    let (n, v) = parse_env_entry("GOOD_ENV=2323").unwrap();
    assert_eq!(n, "GOOD_ENV");
    assert_eq!(v, "2323");
    assert!(parse_env_entry("BAD_ENV2323").is_none());
    assert!(parse_env_entry("A=B=C").is_none());
    let (n, v) = parse_env_entry("=").unwrap();
    assert_eq!(n, "");
    assert_eq!(v, "");
}

#[test]
fn create_invalid_env() {
    let entries = vec![String::from("TEST=1"), String::from("BAD_ENV2323")];
    let err = parse_environnements(&entries, false).err().unwrap();
    assert_eq!(err.status, 422);
    assert_eq!(err.msg, "env item BAD_ENV2323 is not a valid format");
}

#[test]
fn patch_invalid_env() {
    let entries = vec![String::from("BAD_ENV2323")];
    let err = parse_environnements(&entries, true).err().unwrap();
    assert_eq!(err.status, 422);
    assert_eq!(err.msg, "env variable formated incorrectly BAD_ENV2323");
}

#[test]
fn patch_valid_env() {
    let entries = vec![String::from("GOOD_ENV=2323"), String::from("TEST=2")];
    let pairs = parse_environnements(&entries, true).ok().unwrap();
    assert_eq!(pairs, vec![
        (String::from("GOOD_ENV"), String::from("2323")),
        (String::from("TEST"), String::from("2")),
    ]);
}

#[test]
fn instance_names_are_numbered_after_the_first() {
    assert_eq!(instance_name("global", "dev", "api", 0), "global-dev-api");
    assert_eq!(instance_name("global", "dev", "api", 12), "global-dev-api-12");
    let names = instance_names("global", "dev", "api", 3);
    assert_eq!(names, vec![
        String::from("global-dev-api"),
        String::from("global-dev-api-1"),
        String::from("global-dev-api-2"),
    ]);
    assert!(instance_names("global", "dev", "api", 0).is_empty());
    assert!(instance_names("global", "dev", "api", -4).is_empty());
    assert_eq!(tmp_instance_name("api", 7), "api-tmp-7");
}

#[test]
fn instance_network_mode_prefers_host_config() {
    assert_eq!(instance_network_mode("global-dev-front", &None), "global-dev-front");
    assert_eq!(instance_network_mode("global-dev-front", &Some(String::from("host"))), "host");
}

#[test]
fn instance_labels_bind_namespace_and_cargo() {
    let mut given = Labels::new();
    given.insert(String::from("team"), String::from("web"));
    given.insert(String::from("cargo"), String::from("stale"));
    let labels = instance_labels(Some(given), "global", "global-api");
    assert_eq!(labels.get("team"), Some(String::from("web")));
    assert_eq!(labels.get("namespace"), Some(String::from("global")));
    assert_eq!(labels.get("cargo"), Some(String::from("global-api")));
    let fresh = instance_labels(None, "system", "system-store");
    assert_eq!(fresh.get("team"), None);
    assert_eq!(fresh.get("cargo"), Some(String::from("system-store")));
}

#[test]
fn label_filters_of_instance_queries() {
    let qs = CargoInstanceFilterQuery { namespace: None, cluster: None, cargo: None };
    assert_eq!(instance_label_filters(&qs), vec![String::from("namespace=global")]);
    let qs = CargoInstanceFilterQuery {
        namespace: Some(String::from("system")),
        cluster: Some(String::from("nano")),
        cargo: Some(String::from("store")),
    };
    assert_eq!(instance_label_filters(&qs), vec![
        String::from("namespace=system"),
        String::from("cluster=system-nano"),
        String::from("cargo=system-store"),
    ]);
    let qs = CargoInstanceFilterQuery { namespace: None, cluster: None, cargo: Some(String::from("api")) };
    assert_eq!(instance_label_filters(&qs), vec![String::from("namespace=global"), String::from("cargo=global-api")]);
}

#[test]
fn binds_are_appended() {
    let binds = vec![String::from("/a:/a")];
    assert_eq!(merge_binds(&binds, &None), binds);
    assert_eq!(
        merge_binds(&binds, &Some(vec![String::from("/b:/b"), String::from("/c:/c")])),
        vec![String::from("/a:/a"), String::from("/b:/b"), String::from("/c:/c")]
    );
}
