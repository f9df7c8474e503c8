//! The text of the `systemd-networkd` unit for the tunnel device.
//!
//! The unit is put together from blocks in a fixed order: the link, the
//! address, the route to the device's own address, the route to the network,
//! one route for each split route, the match and network sections, the
//! default-route line, and the resolver lines. Values are written as they
//! were read; nothing is escaped.

use vstd::prelude::*;
use crate::config::{Config, ConfigView, Route, RouteView};
use crate::text::{decimal, fields, format_decimal, split_fields};

verus! {

/// The MTU of a device for which the client names none.
pub const DEFAULT_MTU: u32 = 1412;

/// The address that stands for "everywhere" among the split routes.
pub const ANY_ADDRESS: &'static str = "0.0.0.0";

/// The line that makes the tunnel device the default route.
pub const DEFAULT_ROUTE_LINE: &'static str = "DefaultRouteOnDevice=yes\n";

/// Why a unit could not be rendered.
#[derive(Clone, Copy, Debug, PartialEq, Eq, Structural)]
pub enum RenderError {
    /// There is a netmask, but no address of the network to route to.
    MissingNetAddress,
}

impl RenderError {
    /// What the user is told.
    pub open spec fn spec_message(self) -> Seq<char> {
        "INTERNAL_IP4_NETMASK is set, but INTERNAL_IP4_NETADDR is not"@
    }

    /// Says what is wrong.
    pub fn message(&self) -> (s: String)
        ensures
            s@ == self.spec_message(),
    {
        String::from_str("INTERNAL_IP4_NETMASK is set, but INTERNAL_IP4_NETADDR is not")
    }
}

/// One entry of a section: the key with its equals sign, the value, and the
/// line feed that ends the line.
pub open spec fn entry(key: Seq<char>, value: Seq<char>) -> Seq<char> {
    key + value + "\n"@
}

/// A network as a route names it: its address, a slash, its prefix length.
pub open spec fn network(addr: Seq<char>, masklen: u8) -> Seq<char> {
    addr + "/"@ + decimal(masklen as nat)
}

/// The `[Link]` section, which sets the MTU.
pub open spec fn link_block(mtu: Option<u32>) -> Seq<char> {
    let bytes = match mtu {
        Some(n) => n,
        None => DEFAULT_MTU,
    };
    "\n[Link]\n"@ + entry("MTUBytes="@, decimal(bytes as nat))
}

/// The `[Address]` section, which gives the device its address as a /32.
pub open spec fn address_block(address: Seq<char>) -> Seq<char> {
    "\n[Address]\n"@ + entry("Address="@, address + "/32"@)
}

/// The route to the device's own address, by way of that address.
pub open spec fn host_route_block(address: Seq<char>) -> Seq<char> {
    "\n[Route]\n"@ + entry("Destination="@, address + "/32"@) + entry("Gateway="@, address)
        + "\n"@
}

/// The link-scope route to the network behind the tunnel.
pub open spec fn net_route_block(netaddr: Seq<char>, netmasklen: u8) -> Seq<char> {
    "\n[Route]\n"@ + entry("Destination="@, network(netaddr, netmasklen)) + "Scope=link\n"@
        + "\n"@
}

/// The link-scope route of one split route.
pub open spec fn split_route_block(addr: Seq<char>, masklen: u8) -> Seq<char> {
    "\n[Route]\nScope=link\n"@ + entry("Destination="@, network(addr, masklen)) + "\n"@
}

/// The `[Match]` and `[Network]` sections.
pub open spec fn network_block(tundev: Seq<char>, vpngateway: Seq<char>) -> Seq<char> {
    "\n[Match]\n"@ + entry("Name="@, tundev) + "\n[Network]\n"@ + entry(
        "Description=Cisco VPN to "@,
        vpngateway,
    ) + "DHCP=no\n"@ + "IPv6AcceptRA=no\n"@ + "\n"@
}

/// What one split route adds to the unit: nothing for the route to
/// everywhere, a route block for any other.
pub open spec fn split_route_text(route: RouteView) -> Seq<char> {
    if route.addr == ANY_ADDRESS@ {
        Seq::empty()
    } else {
        split_route_block(route.addr, route.masklen)
    }
}

/// What the split routes add to the unit, in their order.
pub open spec fn split_routes_text(routes: Seq<RouteView>) -> Seq<char>
    decreases routes.len(),
{
    if routes.len() == 0 {
        Seq::empty()
    } else {
        split_routes_text(routes.drop_last()) + split_route_text(routes.last())
    }
}

/// Whether one of the routes is the route to everywhere.
pub open spec fn routes_everywhere(routes: Seq<RouteView>) -> bool {
    exists|i: int| 0 <= i < routes.len() && (#[trigger] routes[i]).addr == ANY_ADDRESS@
}

/// Whether the tunnel device becomes the default route. With split routes it
/// does where one of them is the route to everywhere; without, where the
/// device has an address at all.
pub open spec fn default_route(config: ConfigView, routes: Seq<RouteView>) -> bool {
    if config.split_routes_inc > 0 {
        routes_everywhere(routes)
    } else {
        config.address.len() > 0
    }
}

/// One `DNS=` line for each name server, in their order.
pub open spec fn name_server_lines(servers: Seq<Seq<char>>) -> Seq<char>
    decreases servers.len(),
{
    if servers.len() == 0 {
        Seq::empty()
    } else {
        name_server_lines(servers.drop_last()) + entry("DNS="@, servers.last())
    }
}

/// The search domain and the name servers.
pub open spec fn resolver_text(def_domain: Seq<char>, dns: Seq<char>) -> Seq<char> {
    entry("Domains="@, def_domain) + name_server_lines(fields(dns))
}

/// The unit up to the end of its `[Network]` section: link, address, the
/// route to the device itself, the route to the network where there is a
/// netmask, the split routes where the settings announce any, and the match
/// and network sections.
pub open spec fn unit_head(config: ConfigView, routes: Seq<RouteView>) -> Seq<char> {
    link_block(config.mtu) + address_block(config.address) + host_route_block(config.address) + (
    if config.netmask is Some {
        net_route_block(config.netaddr.unwrap(), config.netmasklen)
    } else {
        Seq::empty()
    }) + (if config.split_routes_inc > 0 {
        split_routes_text(routes)
    } else {
        Seq::empty()
    }) + network_block(config.tundev, config.vpngateway)
}

/// The end of the unit: the resolver lines where there are name servers.
pub open spec fn unit_tail(config: ConfigView) -> Seq<char> {
    match config.dns {
        Some(dns) => resolver_text(config.def_domain, dns),
        None => Seq::empty(),
    }
}

/// The unit with or without the default-route line.
pub open spec fn unit_text(config: ConfigView, routes: Seq<RouteView>, default_route: bool) -> Seq<
    char,
> {
    unit_head(config, routes) + (if default_route {
        DEFAULT_ROUTE_LINE@
    } else {
        Seq::empty()
    }) + unit_tail(config)
}

/// The unit for `config` and `routes`. There is none where a netmask comes
/// without the address of its network.
pub open spec fn spec_render(config: ConfigView, routes: Seq<RouteView>) -> Result<
    Seq<char>,
    RenderError,
> {
    if config.netmask is Some && config.netaddr is None {
        Err(RenderError::MissingNetAddress)
    } else {
        Ok(unit_text(config, routes, default_route(config, routes)))
    }
}

fn write_entry(key: &str, value: &str) -> (s: String)
    ensures
        s@ == entry(key@, value@),
{
    let mut s: String = String::from_str(key);
    s.append(value);
    s.append("\n");
    s
}

fn write_network_name(addr: &str, masklen: u8) -> (s: String)
    ensures
        s@ == network(addr@, masklen),
{
    let number: String = format_decimal(masklen as u64);
    let mut s: String = String::from_str(addr);
    s.append("/");
    s.append(number.as_str());
    s
}

fn write_host(address: &str) -> (s: String)
    ensures
        s@ == address@ + "/32"@,
{
    let mut s: String = String::from_str(address);
    s.append("/32");
    s
}

fn write_link(mtu: Option<u32>) -> (s: String)
    ensures
        s@ == link_block(mtu),
{
    let bytes: u32 = match mtu {
        Some(n) => n,
        None => DEFAULT_MTU,
    };
    let number: String = format_decimal(bytes as u64);
    let mut s: String = String::from_str("\n[Link]\n");
    s.append(write_entry("MTUBytes=", number.as_str()).as_str());
    s
}

fn write_address(address: &str) -> (s: String)
    ensures
        s@ == address_block(address@),
{
    let mut s: String = String::from_str("\n[Address]\n");
    s.append(write_entry("Address=", write_host(address).as_str()).as_str());
    s
}

fn write_host_route(address: &str) -> (s: String)
    ensures
        s@ == host_route_block(address@),
{
    let mut s: String = String::from_str("\n[Route]\n");
    s.append(write_entry("Destination=", write_host(address).as_str()).as_str());
    s.append(write_entry("Gateway=", address).as_str());
    s.append("\n");
    s
}

fn write_net_route(netaddr: &str, netmasklen: u8) -> (s: String)
    ensures
        s@ == net_route_block(netaddr@, netmasklen),
{
    let mut s: String = String::from_str("\n[Route]\n");
    s.append(
        write_entry("Destination=", write_network_name(netaddr, netmasklen).as_str()).as_str(),
    );
    s.append("Scope=link\n");
    s.append("\n");
    s
}

fn write_split_route(addr: &str, masklen: u8) -> (s: String)
    ensures
        s@ == split_route_block(addr@, masklen),
{
    let mut s: String = String::from_str("\n[Route]\nScope=link\n");
    s.append(write_entry("Destination=", write_network_name(addr, masklen).as_str()).as_str());
    s.append("\n");
    s
}

fn write_network(tundev: &str, vpngateway: &str) -> (s: String)
    ensures
        s@ == network_block(tundev@, vpngateway@),
{
    let mut s: String = String::from_str("\n[Match]\n");
    s.append(write_entry("Name=", tundev).as_str());
    s.append("\n[Network]\n");
    s.append(write_entry("Description=Cisco VPN to ", vpngateway).as_str());
    s.append("DHCP=no\n");
    s.append("IPv6AcceptRA=no\n");
    s.append("\n");
    s
}

/// Writes the blocks of the split routes, and tells whether one of them is
/// the route to everywhere.
fn write_split_routes(routes: &Vec<Route>) -> (r: (String, bool))
    ensures
        r.0@ == split_routes_text(routes.deep_view()),
        r.1 == routes_everywhere(routes.deep_view()),
{
    let everywhere: String = String::from_str(ANY_ADDRESS);
    let mut text: String = String::new();
    let mut found: bool = false;
    let mut i: usize = 0;
    let ghost all = routes.deep_view();
    assert(all.take(0) =~= Seq::<RouteView>::empty());
    while i < routes.len()
        invariant
            i <= routes.len(),
            all == routes.deep_view(),
            everywhere@ == ANY_ADDRESS@,
            text@ == split_routes_text(all.take(i as int)),
            found == routes_everywhere(all.take(i as int)),
        decreases routes.len() - i,
    {
        let route: &Route = &routes[i];
        let ghost seen = all.take(i as int);
        let ghost next = all.take(i + 1);
        proof {
            assert(next.drop_last() =~= seen);
            assert(next.last() == route@);
            assert(routes_everywhere(next) == (routes_everywhere(seen) || route@.addr
                == ANY_ADDRESS@)) by {
                if routes_everywhere(seen) {
                    let k = choose|k: int| 0 <= k < seen.len() && (#[trigger] seen[k]).addr
                        == ANY_ADDRESS@;
                    assert(next[k] == seen[k]);
                }
                if route@.addr == ANY_ADDRESS@ {
                    assert(next[i as int].addr == ANY_ADDRESS@);
                }
                if routes_everywhere(next) {
                    let k = choose|k: int| 0 <= k < next.len() && (#[trigger] next[k]).addr
                        == ANY_ADDRESS@;
                    if k < i {
                        assert(seen[k] == next[k]);
                    }
                }
            }
        }
        if route.addr == everywhere {
            found = true;
            assert(text@ + Seq::<char>::empty() =~= text@);
        } else {
            let block: String = write_split_route(route.addr.as_str(), route.masklen);
            text.append(block.as_str());
        }
        i = i + 1;
    }
    assert(all.take(i as int) =~= all);
    (text, found)
}

fn write_name_servers(servers: &Vec<String>) -> (s: String)
    ensures
        s@ == name_server_lines(servers.deep_view()),
{
    let mut text: String = String::new();
    let mut i: usize = 0;
    let ghost all = servers.deep_view();
    assert(all.take(0) =~= Seq::<Seq<char>>::empty());
    while i < servers.len()
        invariant
            i <= servers.len(),
            all == servers.deep_view(),
            text@ == name_server_lines(all.take(i as int)),
        decreases servers.len() - i,
    {
        proof {
            assert(all.take(i + 1).drop_last() =~= all.take(i as int));
            assert(all.take(i + 1).last() == servers[i as int]@);
        }
        text.append(write_entry("DNS=", servers[i].as_str()).as_str());
        i = i + 1;
    }
    assert(all.take(i as int) =~= all);
    text
}

fn write_resolver(def_domain: &str, dns: &str) -> (s: String)
    ensures
        s@ == resolver_text(def_domain@, dns@),
{
    let servers: Vec<String> = split_fields(dns);
    let lines: String = write_name_servers(&servers);
    let mut s: String = write_entry("Domains=", def_domain);
    s.append(lines.as_str());
    s
}

/// Renders the unit for the tunnel device.
pub fn render(config: &Config, routes: &Vec<Route>) -> (r: Result<String, RenderError>)
    ensures
        match r {
            Ok(text) => spec_render(config@, routes.deep_view()) == Ok::<Seq<char>, RenderError>(
                text@,
            ),
            Err(e) => spec_render(config@, routes.deep_view()) == Err::<Seq<char>, RenderError>(e),
        },
        r is Err <==> config@.netmask is Some && config@.netaddr is None,
{
    let mut out: String = write_link(config.mtu);
    out.append(write_address(config.address.as_str()).as_str());
    out.append(write_host_route(config.address.as_str()).as_str());
    if config.netmask.is_some() {
        match &config.netaddr {
            Some(netaddr) => {
                out.append(write_net_route(netaddr.as_str(), config.netmasklen).as_str());
            },
            None => {
                return Err(RenderError::MissingNetAddress);
            },
        }
    } else {
        assert(out@ + Seq::<char>::empty() =~= out@);
    }
    let mut default_route: bool = false;
    if config.split_routes_inc > 0 {
        let (blocks, everywhere) = write_split_routes(routes);
        out.append(blocks.as_str());
        default_route = everywhere;
    } else {
        default_route = !config.address.as_str().is_empty();
        assert(out@ + Seq::<char>::empty() =~= out@);
    }
    out.append(write_network(config.tundev.as_str(), config.vpngateway.as_str()).as_str());
    if default_route {
        out.append(DEFAULT_ROUTE_LINE);
    } else {
        assert(out@ + Seq::<char>::empty() =~= out@);
    }
    match &config.dns {
        Some(dns) => {
            out.append(write_resolver(config.def_domain.as_str(), dns.as_str()).as_str());
        },
        None => {
            assert(out@ + Seq::<char>::empty() =~= out@);
        },
    }
    Ok(out)
}

/// Two pairs of settings and routes that hold the same values render alike:
/// the same unit, character for character, or the same failure.
pub proof fn render_is_deterministic(
    config: Config,
    routes: Vec<Route>,
    same_config: Config,
    same_routes: Vec<Route>,
)
    requires
        config@ == same_config@,
        routes.deep_view() == same_routes.deep_view(),
    ensures
        spec_render(config@, routes.deep_view()) == spec_render(
            same_config@,
            same_routes.deep_view(),
        ),
{
}

/// A netmask without the address of its network fails the rendering, whatever
/// else the settings and the routes hold.
pub proof fn netmask_needs_network_address(config: ConfigView, routes: Seq<RouteView>)
    requires
        config.netmask is Some,
        config.netaddr is None,
    ensures
        spec_render(config, routes) == Err::<Seq<char>, RenderError>(
            RenderError::MissingNetAddress,
        ),
{
}

} // verus!
