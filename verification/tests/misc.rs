use nanocld::server::{host_binding, host_bindings, HostBinding};
use nanocld::labels::Labels;
use nanocld::template::{is_renderable, render_outcome, render_template};
use nanocld::vm::{format_mac_addr, vm_item, vm_image_item, VmPartial, VirtualMachineState};
use nanocld::boot::{boot_names, system_network_store_key, daemon_cargo_key, daemon_binds, daemon_instance, system_cluster, system_network_options, system_network_missing, system_network_id};
use nanocld::docker::{Network, NetworkState};
use nanocld::text::{remove_all_occurrences, u64_to_decimal, starts_with};

#[test]
fn hosts_bind_by_protocol() {
    assert_eq!(host_binding("unix:///run/nanocl/nanocl.sock"), HostBinding::Unix(String::from("/run/nanocl/nanocl.sock")));
    assert_eq!(host_binding("tcp://0.0.0.0:8585"), HostBinding::Tcp(String::from("0.0.0.0:8585")));
    assert_eq!(host_binding("http://x"), HostBinding::Invalid);
    assert_eq!(host_binding("unix://a/unix://b"), HostBinding::Unix(String::from("a/b")));
    let all = host_bindings(&vec![String::from("tcp://a:1"), String::from("bad")]);
    assert_eq!(all, vec![HostBinding::Tcp(String::from("a:1")), HostBinding::Invalid]);
}

#[test]
fn text_helpers() {
    assert_eq!(remove_all_occurrences("sha256:abc", "sha256:"), "abc");
    assert_eq!(remove_all_occurrences("aaa", "aa"), "a");
    assert_eq!(remove_all_occurrences("abc", ""), "abc");
    assert_eq!(u64_to_decimal(0), "0");
    assert_eq!(u64_to_decimal(18446744073709551615), "18446744073709551615");
    assert!(starts_with("tcp://x", "tcp://"));
    assert!(!starts_with("tc", "tcp://"));
}

#[test]
fn templates_render() {
    let mut data = Labels::new();
    data.insert(String::from("name"), String::from("nano"));
    data.insert(String::from("tag"), String::from("<b>"));
    assert_eq!(render_template("hello {{name}}", &data).ok(), Some(String::from("hello nano")));
    assert_eq!(render_template("{{tag}} {{{tag}}} {{&tag}}", &data).ok(), Some(String::from("&lt;b&gt; <b> <b>")));
    assert_eq!(render_template("{{#name}}on{{/name}}{{^missing}}off{{/missing}}", &data).ok(), Some(String::from("onoff")));
    assert_eq!(render_template("[{{missing}}] [{{name.first}}]", &data).ok(), Some(String::from("[] []")));
    let err = render_template("{{#open}}", &data).err().unwrap();
    assert_eq!(err.status, 500);
    assert_eq!(err.msg, "found an unclosed section");
}

#[test]
fn later_bindings_win_in_rendering() {
    let mut data = Labels::new();
    data.insert(String::from("name"), String::from("old"));
    data.insert(String::from("name"), String::from("new"));
    assert_eq!(render_template("{{name}}", &data).ok(), Some(String::from("new")));
}

#[test]
fn plain_text_renders_as_itself() {
    let data = Labels::new();
    assert_eq!(render_template("server_name nanocl.internal;\n", &data).ok(), Some(String::from("server_name nanocl.internal;\n")));
    assert_eq!(render_template("", &data).ok(), Some(String::new()));
}

#[test]
fn renderable_templates() {
    assert!(is_renderable("upstream {{name}} { server 10.0.0.2:80; }"));
    assert!(is_renderable("{{#name}}{{name.first}}{{/name}}"));
    assert!(is_renderable("a.b {{a.}} x.}"));
    assert!(!is_renderable("{. }"));
    assert!(!is_renderable("{{.}}"));
    assert!(!is_renderable("{{ . }}"));
    assert!(!is_renderable("{{& .}}"));
    assert!(!is_renderable("{{{.}}}"));
    assert!(!is_renderable("{{> header}}"));
    assert!(!is_renderable("{{=<% %>=}}"));
}

#[test]
fn render_outcomes_answer_500_with_the_error_text() {
    assert_eq!(render_outcome(Ok(String::from("done"))).ok(), Some(String::from("done")));
    let err = render_outcome(Err(String::from("unclosed section"))).err().unwrap();
    assert_eq!(err.status, 500);
    assert_eq!(err.msg, "unclosed section");
}

#[test]
fn mac_addresses() {
    assert_eq!(format_mac_addr([0x00, 0x1a, 0xff, 0x10, 0x0b, 0xc0]), "00:1A:FF:10:0B:C0");
    assert_eq!(format_mac_addr([255; 6]).len(), 17);
}

#[test]
fn vm_records() {
    let vm = vm_item(
        VmPartial {
            name: String::from("ubuntu"),
            image: String::from("focal"),
            image_size: String::from("10G"),
            cpu: 2,
            memory: 2048,
            network: String::from("nanoclinternal0"),
        },
        String::from("/run/nanocl/ubuntu.pid"),
        String::from("00:1A:FF:10:0B:C0"),
    );
    assert_eq!(vm.key, "ubuntu");
    assert_eq!(vm.state, VirtualMachineState::Running);
    assert_eq!(vm.ip_addr, "0.0.0.0");
    let img = vm_image_item(String::from("focal"), 1024).ok().unwrap();
    assert_eq!(img.size, 1024);
    assert!(img.is_base);
    let err = vm_image_item(String::from("huge"), u64::MAX).err().unwrap();
    assert_eq!(err.status, 500);
    assert_eq!(err.msg, format!("Unable to convert u64 to i64 xdlol {:#?}", i64::try_from(u64::MAX).unwrap_err()));
}

#[test]
fn boot_records() {
    let names = boot_names();
    assert_eq!(system_network_store_key(&names), "system-nano-internal0");
    assert_eq!(daemon_cargo_key(&names), "system-daemon");
    assert_eq!(daemon_binds("/var/lib/nanocl"), vec![String::from("/var/lib/nanocl:/var/lib/nanocl")]);
    let link = daemon_instance(&names, String::from("system-daemon"));
    assert_eq!(link.cluster_key, "system-nano");
    assert_eq!(link.network_key, "system-nano-internal0");
    let (key, cluster) = system_cluster(&names);
    assert_eq!(key, "system-nano");
    assert_eq!(cluster.name, "nano");
    let (name, driver, options) = system_network_options();
    assert_eq!(name, "system-nano-internal0");
    assert_eq!(driver, "bridge");
    assert_eq!(options.get("com.docker.network.bridge.name"), Some(String::from("nanoclinternal0")));
    assert!(system_network_missing(NetworkState::NotFound));
    assert!(!system_network_missing(NetworkState::Ready));
    let net = Network { id: None, name: None, ipam: None };
    assert_eq!(system_network_id(&net).err().unwrap().msg, "Unable to get network ID of system-nano-internal0");
}
