use vpnc_networkd::process::{
    Action, Changed, Process, Step, BANNER_HEADING, CONFIG_DIR, UNIT_SUFFIX,
};
use vpnc_networkd::render::{render, RenderError};

fn hook(reason: &str, extra: &[(&str, &str)]) -> Process {
    let base = [
        ("reason", reason),
        ("VPNGATEWAY", "1.2.3.4"),
        ("TUNDEV", "tun1"),
        ("INTERNAL_IP4_ADDRESS", "10.0.0.5"),
        ("CISCO_DEF_DOMAIN", "corp.example"),
        ("CISCO_SPLIT_INC", "0"),
    ];
    let mut v: Vec<(String, String)> = base
        .iter()
        .filter(|(k, _)| !extra.iter().any(|(name, _)| name == k))
        .map(|(k, v)| (k.to_string(), v.to_string()))
        .collect();
    v.extend(extra.iter().map(|(k, v)| (k.to_string(), v.to_string())));
    Process::new(&v).unwrap()
}

fn idle_step() -> Step {
    Step { action: Action::Nothing, changed: Changed(false) }
}

#[test]
fn changed_yes_and_no() {
    assert_eq!(Changed::yes(), Changed(true));
    assert_eq!(Changed::no(), Changed(false));
    assert!(Changed::yes().0);
    assert!(!Changed::no().0);
}

#[test]
fn constants_of_the_unit_path() {
    assert_eq!(CONFIG_DIR, "/etc/systemd/network/");
    assert_eq!(UNIT_SUFFIX, ".network");
    assert_eq!(BANNER_HEADING, "Connect Banner:\n");
}

#[test]
fn lifecycle_reasons_ask_for_nothing() {
    for reason in ["pre-init", "attempt-reconnect", "reconnect"] {
        assert_eq!(hook(reason, &[]).run(), Ok(idle_step()), "{}", reason);
    }
}

#[test]
fn idle_handlers_ask_for_nothing_whatever_the_reason() {
    let process = hook("connect", &[]);
    assert_eq!(process.pre_init(), Ok(idle_step()));
    assert_eq!(process.attempt_reconnect(), Ok(idle_step()));
    assert_eq!(process.reconnect(), Ok(idle_step()));
}

#[test]
fn lifecycle_reasons_do_not_render() {
    let process = hook("reconnect", &[("INTERNAL_IP4_NETMASK", "255.255.255.0")]);
    assert_eq!(process.run(), Ok(idle_step()));
}

#[test]
fn connect_installs_the_unit() {
    let step = hook("connect", &[]).run().unwrap();
    assert_eq!(step.changed, Changed(true));
    match step.action {
        Action::Install { directory, file, body, notice } => {
            assert_eq!(directory, "/etc/systemd/network/");
            assert_eq!(file, "/etc/systemd/network/tun1.network");
            assert_eq!(notice, None);
            let all: Vec<&str> = body.lines().collect();
            let at = all.iter().position(|l| *l == "[Address]").unwrap();
            assert_eq!(all[at + 1], "Address=10.0.0.5/32");
            assert!(all.contains(&"DefaultRouteOnDevice=yes"));
            assert!(!all.iter().any(|l| l.starts_with("DNS=")));
        }
        other => panic!("{:?}", other),
    }
}

#[test]
fn connect_with_name_servers() {
    let step = hook("connect", &[("INTERNAL_IP4_DNS", "8.8.8.8 8.8.4.4")]).run().unwrap();
    match step.action {
        Action::Install { body, .. } => {
            let all: Vec<&str> = body.lines().collect();
            let dns: Vec<&&str> = all.iter().filter(|l| l.starts_with("DNS=")).collect();
            assert_eq!(dns, vec![&"DNS=8.8.8.8", &"DNS=8.8.4.4"]);
            assert!(all.contains(&"Domains=corp.example"));
        }
        other => panic!("{:?}", other),
    }
}

fn expected_has_route(process: &Process) -> bool {
    render(process.config(), process.split_routes())
        .unwrap()
        .contains("\n[Route]\nScope=link\nDestination=192.168.1.0/24\n")
}

#[test]
fn connect_writes_what_render_gives() {
    let process = hook(
        "connect",
        &[
            ("CISCO_SPLIT_INC", "1"),
            ("CISCO_SPLIT_INC_0_ADDR", "192.168.1.0"),
            ("CISCO_SPLIT_INC_0_MASK", "255.255.255.0"),
            ("CISCO_SPLIT_INC_0_MASKLEN", "24"),
        ],
    );
    assert_eq!(process.config().split_routes_inc, 1);
    assert!(expected_has_route(&process));
    let expected = render(process.config(), process.split_routes()).unwrap();
    match process.connect().unwrap().action {
        Action::Install { body, .. } => assert_eq!(body, expected),
        other => panic!("{:?}", other),
    }
}

#[test]
fn connect_hands_the_banner_on() {
    let step = hook("connect", &[("CISCO_BANNER", "Welcome\nto the VPN")]).run().unwrap();
    match step.action {
        Action::Install { notice, body, .. } => {
            assert_eq!(notice, Some("Connect Banner:\nWelcome\nto the VPN\n".to_string()));
            assert!(!body.contains("Welcome"));
        }
        other => panic!("{:?}", other),
    }
}

#[test]
fn connect_that_cannot_render_asks_for_nothing() {
    let process = hook("connect", &[("INTERNAL_IP4_NETMASK", "255.255.255.0"), ("CISCO_BANNER", "hi")]);
    assert_eq!(process.run(), Err(RenderError::MissingNetAddress));
    assert_eq!(process.connect(), Err(RenderError::MissingNetAddress));
}

#[test]
fn disconnect_removes_the_unit() {
    let expected = Step {
        action: Action::Remove { file: "/etc/systemd/network/tun1.network".to_string() },
        changed: Changed(true),
    };
    assert_eq!(hook("disconnect", &[]).run(), Ok(expected.clone()));
    assert_eq!(hook("connect", &[]).disconnect(), Ok(expected));
}

#[test]
fn disconnect_does_not_render() {
    let process = hook("disconnect", &[("INTERNAL_IP4_NETMASK", "255.255.255.0")]);
    assert!(process.run().is_ok());
}

#[test]
fn connect_and_disconnect_name_the_same_file() {
    for device in ["tun0", "tun1", "vpn.corp", ""] {
        let installed = match hook("connect", &[("TUNDEV", device)]).run() {
            Ok(Step { action: Action::Install { file, .. }, .. }) => file,
            other => panic!("{:?}", other),
        };
        let removed = match hook("disconnect", &[("TUNDEV", device)]).run() {
            Ok(Step { action: Action::Remove { file }, .. }) => file,
            other => panic!("{:?}", other),
        };
        assert_eq!(installed, removed);
        assert_eq!(installed, format!("/etc/systemd/network/{}.network", device));
    }
}

fn carry_out(
    step: &Result<Step, RenderError>,
    files: &mut std::collections::BTreeMap<String, String>,
) -> Result<(), &'static str> {
    match step {
        Err(_) => Err("no step"),
        Ok(Step { action: Action::Nothing, .. }) => Ok(()),
        Ok(Step { action: Action::Install { file, body, .. }, .. }) => {
            files.insert(file.clone(), body.clone());
            Ok(())
        }
        Ok(Step { action: Action::Remove { file }, .. }) => {
            files.remove(file).map(|_| ()).ok_or("not found")
        }
    }
}

#[test]
fn connect_then_disconnect_leaves_no_unit() {
    let unit = "/etc/systemd/network/tun1.network".to_string();
    let mut files = std::collections::BTreeMap::new();
    files.insert("/etc/systemd/network/eth0.network".to_string(), "[Match]\n".to_string());
    assert_eq!(carry_out(&hook("connect", &[]).run(), &mut files), Ok(()));
    assert!(files.contains_key(&unit));
    assert_eq!(carry_out(&hook("disconnect", &[]).run(), &mut files), Ok(()));
    assert!(!files.contains_key(&unit));
    assert_eq!(files.len(), 1);
}

#[test]
fn connect_replaces_the_unit_that_is_there() {
    let unit = "/etc/systemd/network/tun1.network".to_string();
    let mut files = std::collections::BTreeMap::new();
    files.insert(unit.clone(), "stale".to_string());
    assert_eq!(carry_out(&hook("connect", &[]).run(), &mut files), Ok(()));
    assert!(files[&unit].starts_with("\n[Link]\n"));
}

#[test]
fn disconnect_without_unit_is_not_found() {
    let mut files = std::collections::BTreeMap::new();
    assert_eq!(carry_out(&hook("disconnect", &[]).run(), &mut files), Err("not found"));
    assert!(files.is_empty());
}

#[test]
fn failed_connect_writes_nothing() {
    let mut files = std::collections::BTreeMap::new();
    let step = hook("connect", &[("INTERNAL_IP4_NETMASK", "255.255.255.0")]).run();
    assert_eq!(carry_out(&step, &mut files), Err("no step"));
    assert!(files.is_empty());
}
