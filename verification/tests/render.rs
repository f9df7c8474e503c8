use vpnc_networkd::config::{Config, Reason, Route};
use vpnc_networkd::render::{render, RenderError, DEFAULT_MTU, DEFAULT_ROUTE_LINE};

fn settings() -> Config {
    Config {
        reason: Reason::Connect,
        vpngateway: "1.2.3.4".to_string(),
        tundev: "tun1".to_string(),
        address: "10.0.0.5".to_string(),
        mtu: None,
        netmask: None,
        netmasklen: 32,
        netaddr: None,
        dns: None,
        nbns: None,
        def_domain: "corp.example".to_string(),
        banner: None,
        split_routes_inc: 0,
    }
}

fn route(addr: &str, masklen: u8) -> Route {
    Route {
        addr: addr.to_string(),
        mask: "255.255.255.0".to_string(),
        masklen,
        protocol: 0,
        sport: 0,
        dport: 0,
    }
}

fn lines(text: &str) -> Vec<&str> {
    text.lines().collect()
}

const HEAD: &str = "\n[Link]\nMTUBytes=1412\n\n[Address]\nAddress=10.0.0.5/32\n\n[Route]\nDestination=10.0.0.5/32\nGateway=10.0.0.5\n\n";
const NETWORK: &str =
    "\n[Match]\nName=tun1\n\n[Network]\nDescription=Cisco VPN to 1.2.3.4\nDHCP=no\nIPv6AcceptRA=no\n\n";

#[test]
fn plain_connection_byte_for_byte() {
    let text = render(&settings(), &Vec::new()).unwrap();
    assert_eq!(text, format!("{}{}DefaultRouteOnDevice=yes\n", HEAD, NETWORK));
}

#[test]
fn plain_connection_has_address_and_default_route_and_no_dns() {
    let text = render(&settings(), &Vec::new()).unwrap();
    let all = lines(&text);
    let at = all.iter().position(|l| *l == "[Address]").unwrap();
    assert_eq!(all[at + 1], "Address=10.0.0.5/32");
    assert!(all.contains(&"DefaultRouteOnDevice=yes"));
    assert!(!all.iter().any(|l| l.starts_with("DNS=")));
    assert!(!all.iter().any(|l| l.starts_with("Domains=")));
}

#[test]
fn name_servers_come_in_their_order_after_the_domain() {
    let mut config = settings();
    config.dns = Some("8.8.8.8 8.8.4.4".to_string());
    let text = render(&config, &Vec::new()).unwrap();
    assert_eq!(
        text,
        format!(
            "{}{}DefaultRouteOnDevice=yes\nDomains=corp.example\nDNS=8.8.8.8\nDNS=8.8.4.4\n",
            HEAD, NETWORK
        )
    );
    let all = lines(&text);
    let dns: Vec<&&str> = all.iter().filter(|l| l.starts_with("DNS=")).collect();
    assert_eq!(dns, vec![&"DNS=8.8.8.8", &"DNS=8.8.4.4"]);
    assert!(all.contains(&"Domains=corp.example"));
}

#[test]
fn empty_name_server_list_still_writes_the_domain() {
    let mut config = settings();
    config.dns = Some("  ".to_string());
    let text = render(&config, &Vec::new()).unwrap();
    assert_eq!(text, format!("{}{}DefaultRouteOnDevice=yes\nDomains=corp.example\n", HEAD, NETWORK));
}

#[test]
fn mtu_is_written_or_defaults() {
    assert_eq!(DEFAULT_MTU, 1412);
    let mut config = settings();
    config.mtu = Some(1300);
    let text = render(&config, &Vec::new()).unwrap();
    assert!(text.starts_with("\n[Link]\nMTUBytes=1300\n\n[Address]\n"));
    config.mtu = Some(0);
    assert!(render(&config, &Vec::new()).unwrap().starts_with("\n[Link]\nMTUBytes=0\n"));
    config.mtu = Some(u32::MAX);
    assert!(render(&config, &Vec::new()).unwrap().starts_with("\n[Link]\nMTUBytes=4294967295\n"));
}

#[test]
fn netmask_asks_for_a_route_to_the_network() {
    let mut config = settings();
    config.netmask = Some("255.255.255.0".to_string());
    config.netaddr = Some("10.0.0.0".to_string());
    config.netmasklen = 24;
    let text = render(&config, &Vec::new()).unwrap();
    assert_eq!(
        text,
        format!(
            "{}\n[Route]\nDestination=10.0.0.0/24\nScope=link\n\n{}DefaultRouteOnDevice=yes\n",
            HEAD, NETWORK
        )
    );
}

#[test]
fn the_value_of_the_netmask_does_not_matter() {
    let mut config = settings();
    config.netaddr = Some("10.0.0.0".to_string());
    config.netmask = Some(String::new());
    let with_empty = render(&config, &Vec::new()).unwrap();
    config.netmask = Some("255.0.0.0".to_string());
    assert_eq!(render(&config, &Vec::new()).unwrap(), with_empty);
    assert!(with_empty.contains("\n[Route]\nDestination=10.0.0.0/32\nScope=link\n"));
}

#[test]
fn network_address_alone_asks_for_no_route() {
    let mut config = settings();
    config.netaddr = Some("10.0.0.0".to_string());
    assert_eq!(render(&config, &Vec::new()), render(&settings(), &Vec::new()));
}

#[test]
fn netmask_without_network_address_fails() {
    let mut config = settings();
    config.netmask = Some("255.255.255.0".to_string());
    assert_eq!(render(&config, &Vec::new()), Err(RenderError::MissingNetAddress));
    config.split_routes_inc = 1;
    assert_eq!(render(&config, &vec![route("0.0.0.0", 0)]), Err(RenderError::MissingNetAddress));
}

#[test]
fn no_address_no_default_route() {
    let mut config = settings();
    config.address = String::new();
    let text = render(&config, &Vec::new()).unwrap();
    assert!(!text.contains("DefaultRouteOnDevice"));
    assert_eq!(
        text,
        "\n[Link]\nMTUBytes=1412\n\n[Address]\nAddress=/32\n\n[Route]\nDestination=/32\nGateway=\n\n\n[Match]\nName=tun1\n\n[Network]\nDescription=Cisco VPN to 1.2.3.4\nDHCP=no\nIPv6AcceptRA=no\n\n"
    );
}

#[test]
fn split_routes_without_the_route_to_everywhere() {
    let mut config = settings();
    config.split_routes_inc = 2;
    let routes = vec![route("192.168.1.0", 24), route("172.16.0.0", 12)];
    let text = render(&config, &routes).unwrap();
    assert_eq!(
        text,
        format!(
            "{}\n[Route]\nScope=link\nDestination=192.168.1.0/24\n\n\n[Route]\nScope=link\nDestination=172.16.0.0/12\n\n{}",
            HEAD, NETWORK
        )
    );
    assert!(!text.contains(DEFAULT_ROUTE_LINE));
}

#[test]
fn the_route_to_everywhere_becomes_the_default_route() {
    let mut config = settings();
    config.split_routes_inc = 3;
    let routes = vec![route("192.168.1.0", 24), route("0.0.0.0", 0), route("172.16.0.0", 12)];
    let text = render(&config, &routes).unwrap();
    assert_eq!(
        text,
        format!(
            "{}\n[Route]\nScope=link\nDestination=192.168.1.0/24\n\n\n[Route]\nScope=link\nDestination=172.16.0.0/12\n\n{}DefaultRouteOnDevice=yes\n",
            HEAD, NETWORK
        )
    );
    assert!(!text.contains("Destination=0.0.0.0"));
    assert_eq!(text.matches("[Route]").count(), 3);
}

#[test]
fn the_route_to_everywhere_adds_nothing_but_the_default_route() {
    let mut config = settings();
    config.split_routes_inc = 2;
    let others = vec![route("192.168.1.0", 24), route("172.16.0.0", 12)];
    let without = render(&config, &others).unwrap();
    for at in 0..=others.len() {
        let mut routes = others.clone();
        routes.insert(at, route("0.0.0.0", 0));
        config.split_routes_inc = 3;
        let text = render(&config, &routes).unwrap();
        assert_eq!(text, format!("{}DefaultRouteOnDevice=yes\n", without));
    }
}

#[test]
fn only_the_route_to_everywhere() {
    let mut config = settings();
    config.split_routes_inc = 1;
    let text = render(&config, &vec![route("0.0.0.0", 0)]).unwrap();
    assert_eq!(text, format!("{}{}DefaultRouteOnDevice=yes\n", HEAD, NETWORK));
}

#[test]
fn with_split_routes_the_address_does_not_decide() {
    let mut config = settings();
    config.split_routes_inc = 1;
    let text = render(&config, &vec![route("192.168.1.0", 24)]).unwrap();
    assert!(!text.contains("DefaultRouteOnDevice"));
    config.address = String::new();
    let text = render(&config, &vec![route("0.0.0.0", 0)]).unwrap();
    assert!(text.ends_with("IPv6AcceptRA=no\n\nDefaultRouteOnDevice=yes\n"));
}

#[test]
fn routes_are_ignored_where_none_are_announced() {
    let routes = vec![route("192.168.1.0", 24), route("0.0.0.0", 0)];
    assert_eq!(render(&settings(), &routes), render(&settings(), &Vec::new()));
}

#[test]
fn prefix_lengths_are_written_as_read() {
    let mut config = settings();
    config.split_routes_inc = 2;
    let text = render(&config, &vec![route("10.0.0.0", 0), route("10.0.0.1", 255)]).unwrap();
    assert!(text.contains("Destination=10.0.0.0/0\n"));
    assert!(text.contains("Destination=10.0.0.1/255\n"));
}

#[test]
fn everything_at_once() {
    let config = Config {
        reason: Reason::Connect,
        vpngateway: "vpn.example.org".to_string(),
        tundev: "tun0".to_string(),
        address: "10.8.0.2".to_string(),
        mtu: Some(1400),
        netmask: Some("255.255.255.0".to_string()),
        netmasklen: 24,
        netaddr: Some("10.8.0.0".to_string()),
        dns: Some("10.8.0.1\t10.8.0.53".to_string()),
        nbns: Some("10.8.0.9".to_string()),
        def_domain: "example.org".to_string(),
        banner: Some("hello".to_string()),
        split_routes_inc: 2,
    };
    let routes = vec![route("0.0.0.0", 0), route("192.168.0.0", 16)];
    let text = render(&config, &routes).unwrap();
    assert_eq!(
        text,
        "\n[Link]\nMTUBytes=1400\n\n[Address]\nAddress=10.8.0.2/32\n\n[Route]\nDestination=10.8.0.2/32\nGateway=10.8.0.2\n\n\n[Route]\nDestination=10.8.0.0/24\nScope=link\n\n\n[Route]\nScope=link\nDestination=192.168.0.0/16\n\n\n[Match]\nName=tun0\n\n[Network]\nDescription=Cisco VPN to vpn.example.org\nDHCP=no\nIPv6AcceptRA=no\n\nDefaultRouteOnDevice=yes\nDomains=example.org\nDNS=10.8.0.1\nDNS=10.8.0.53\n"
    );
    assert!(!text.contains("hello"));
    assert!(!text.contains("10.8.0.9"));
}

#[test]
fn rendering_twice_gives_the_same_bytes() {
    let mut config = settings();
    config.dns = Some("8.8.8.8".to_string());
    config.split_routes_inc = 1;
    let routes = vec![route("192.168.1.0", 24)];
    let first = render(&config, &routes).unwrap();
    let second = render(&config.clone(), &routes.clone()).unwrap();
    assert_eq!(first.as_bytes(), second.as_bytes());
}

#[test]
fn values_are_written_as_they_are() {
    let mut config = settings();
    config.vpngateway = "gate way [x]=1".to_string();
    config.tundev = "tün".to_string();
    let text = render(&config, &Vec::new()).unwrap();
    assert!(text.contains("\nName=tün\n"));
    assert!(text.contains("\nDescription=Cisco VPN to gate way [x]=1\n"));
}

#[test]
fn render_error_message() {
    assert_eq!(
        RenderError::MissingNetAddress.message(),
        "INTERNAL_IP4_NETMASK is set, but INTERNAL_IP4_NETADDR is not"
    );
}

#[test]
fn a_value_with_a_line_feed_can_spell_the_default_route() {
    let mut config = settings();
    config.address = String::new();
    let plain = render(&config, &Vec::new()).unwrap();
    assert!(!lines(&plain).contains(&"DefaultRouteOnDevice=yes"));
    config.tundev = "tun1\nDefaultRouteOnDevice=yes".to_string();
    let spelled = render(&config, &Vec::new()).unwrap();
    assert!(lines(&spelled).contains(&"DefaultRouteOnDevice=yes"));
    assert!(spelled.contains("\nName=tun1\nDefaultRouteOnDevice=yes\n\n[Network]\n"));
}

#[test]
fn a_value_without_a_line_feed_spells_nothing() {
    let mut config = settings();
    config.address = String::new();
    config.tundev = "DefaultRouteOnDevice=yes".to_string();
    config.vpngateway = "DefaultRouteOnDevice=yes".to_string();
    config.def_domain = "DefaultRouteOnDevice=yes".to_string();
    config.dns = Some("DefaultRouteOnDevice=yes".to_string());
    let text = render(&config, &Vec::new()).unwrap();
    assert!(!lines(&text).contains(&"DefaultRouteOnDevice=yes"));
}

#[test]
fn the_default_route_line_follows_the_network_section() {
    let mut config = settings();
    config.dns = Some("8.8.8.8".to_string());
    let text = render(&config, &Vec::new()).unwrap();
    let all = lines(&text);
    let at = all.iter().position(|l| *l == "DefaultRouteOnDevice=yes").unwrap();
    assert_eq!(all[at - 2], "IPv6AcceptRA=no");
    assert_eq!(all[at - 1], "");
    assert_eq!(all[at + 1], "Domains=corp.example");
}
