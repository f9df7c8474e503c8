//! When a unit makes the tunnel device the default route.
//!
//! The renderer writes the default-route line where the rules ask for it.
//! Since values are written as they were read, a value that holds a line feed
//! can bring the same line into the unit by itself. The lemmas here say when
//! the line is among the lines of a unit, with both causes told apart.

use vstd::prelude::*;
use crate::config::{ConfigView, RouteView};
use crate::lines::{
    ends_lines, ends_lines_concat, has_line, has_line_after_key, has_line_concat, is_line,
    line_at, line_within, short_text_has_no_line, single_line, single_line_holds_none,
};
use crate::render::{
    address_block, default_route, entry, host_route_block, link_block, name_server_lines,
    net_route_block, network, network_block, routes_everywhere, spec_render, split_route_block,
    split_route_text, split_routes_text, unit_head, unit_tail, unit_text, ANY_ADDRESS,
    DEFAULT_MTU, DEFAULT_ROUTE_LINE,
};
use crate::text::{
    decimal, decimal_is_digits, fields, fields_hold_no_space, is_digit, is_field, is_space,
};

verus! {

/// Whether `value`, once written and closed by a line feed, holds the
/// default-route line after a line feed of its own.
pub open spec fn spells_default_route(value: Seq<char>) -> bool {
    line_within(value + "\n"@, DEFAULT_ROUTE_LINE@)
}

/// Whether the network that a split route names spells the default-route
/// line. The route to everywhere is not written, and spells nothing.
pub open spec fn route_spells_default_route(route: RouteView) -> bool {
    route.addr != ANY_ADDRESS@ && spells_default_route(network(route.addr, route.masklen))
}

/// Whether one of the values that the renderer writes for `config` and
/// `routes` spells the default-route line.
pub open spec fn values_spell_default_route(config: ConfigView, routes: Seq<RouteView>) -> bool {
    ||| spells_default_route(config.address + "/32"@)
    ||| spells_default_route(config.address)
    ||| config.netmask is Some && spells_default_route(
        network(config.netaddr.unwrap(), config.netmasklen),
    )
    ||| config.split_routes_inc > 0 && exists|i: int|
        0 <= i < routes.len() && route_spells_default_route(#[trigger] routes[i])
    ||| spells_default_route(config.tundev)
    ||| spells_default_route(config.vpngateway)
    ||| config.dns is Some && spells_default_route(config.def_domain)
}

/// The default-route line is a line of 25 characters that begins with `Def`.
proof fn default_route_line_is_line()
    ensures
        is_line(DEFAULT_ROUTE_LINE@),
        DEFAULT_ROUTE_LINE@.len() == 25,
        DEFAULT_ROUTE_LINE@[0] == 'D',
        DEFAULT_ROUTE_LINE@[1] == 'e',
        DEFAULT_ROUTE_LINE@[2] == 'f',
        has_line(DEFAULT_ROUTE_LINE@, DEFAULT_ROUTE_LINE@),
{
    reveal_strlit("DefaultRouteOnDevice=yes\n");
    let line = DEFAULT_ROUTE_LINE@;
    assert(line.subrange(0, 25) =~= line);
    assert(line_at(line, line, 0));
}

/// A line feed alone is one character.
proof fn line_feed()
    ensures
        "\n"@ == seq!['\n'],
{
    reveal_strlit("\n");
    assert("\n"@ =~= seq!['\n']);
}

/// The texts between the entries of a unit end where a line ends, and are
/// shorter than the default-route line.
proof fn fixed_texts()
    ensures
        ends_lines("\n"@) && 0 < "\n"@.len() < 25,
        ends_lines("\n[Link]\n"@) && 0 < "\n[Link]\n"@.len() < 25,
        ends_lines("\n[Address]\n"@) && 0 < "\n[Address]\n"@.len() < 25,
        ends_lines("\n[Route]\n"@) && 0 < "\n[Route]\n"@.len() < 25,
        ends_lines("Scope=link\n"@) && 0 < "Scope=link\n"@.len() < 25,
        ends_lines("\n[Route]\nScope=link\n"@) && 0 < "\n[Route]\nScope=link\n"@.len() < 25,
        ends_lines("\n[Match]\n"@) && 0 < "\n[Match]\n"@.len() < 25,
        ends_lines("\n[Network]\n"@) && 0 < "\n[Network]\n"@.len() < 25,
        ends_lines("DHCP=no\n"@) && 0 < "DHCP=no\n"@.len() < 25,
        ends_lines("IPv6AcceptRA=no\n"@) && 0 < "IPv6AcceptRA=no\n"@.len() < 25,
{
    reveal_strlit("\n");
    reveal_strlit("\n[Link]\n");
    reveal_strlit("\n[Address]\n");
    reveal_strlit("\n[Route]\n");
    reveal_strlit("Scope=link\n");
    reveal_strlit("\n[Route]\nScope=link\n");
    reveal_strlit("\n[Match]\n");
    reveal_strlit("\n[Network]\n");
    reveal_strlit("DHCP=no\n");
    reveal_strlit("IPv6AcceptRA=no\n");
}

/// Whether `key` can stand before a value: it holds no line feed, and within
/// its first three characters it differs from the default-route line.
spec fn is_key(key: Seq<char>) -> bool {
    &&& single_line(key)
    &&& key.len() >= 3
    &&& (key[0] != 'D' || key[1] != 'e' || key[2] != 'f')
}

proof fn keys()
    ensures
        is_key("MTUBytes="@),
        is_key("Address="@),
        is_key("Destination="@),
        is_key("Gateway="@),
        is_key("Name="@),
        is_key("Description=Cisco VPN to "@),
        is_key("Domains="@),
        is_key("DNS="@),
{
    reveal_strlit("MTUBytes=");
    reveal_strlit("Address=");
    reveal_strlit("Destination=");
    reveal_strlit("Gateway=");
    reveal_strlit("Name=");
    reveal_strlit("Description=Cisco VPN to ");
    reveal_strlit("Domains=");
    reveal_strlit("DNS=");
}

/// A text between entries holds no default-route line.
proof fn fixed_text_has_no_line(text: Seq<char>)
    requires
        text.len() < 25,
    ensures
        !has_line(text, DEFAULT_ROUTE_LINE@),
{
    default_route_line_is_line();
    short_text_has_no_line(text, DEFAULT_ROUTE_LINE@);
}

/// An entry holds the default-route line exactly where its value spells it.
proof fn entry_line(key: Seq<char>, value: Seq<char>)
    requires
        is_key(key),
    ensures
        has_line(entry(key, value), DEFAULT_ROUTE_LINE@) <==> spells_default_route(value),
        ends_lines(entry(key, value)),
{
    default_route_line_is_line();
    line_feed();
    let d: int = if key[0] != 'D' {
        0
    } else if key[1] != 'e' {
        1
    } else {
        2
    };
    has_line_after_key(key, value + "\n"@, DEFAULT_ROUTE_LINE@, d);
    assert(entry(key, value) =~= key + (value + "\n"@));
}

/// Whatever is put behind a text that ends where a line ends, the
/// default-route line is in the whole where it is in one of the two.
proof fn line_in_either(first: Seq<char>, second: Seq<char>)
    requires
        ends_lines(first),
        ends_lines(second),
    ensures
        has_line(first + second, DEFAULT_ROUTE_LINE@) <==> has_line(first, DEFAULT_ROUTE_LINE@)
            || has_line(second, DEFAULT_ROUTE_LINE@),
        ends_lines(first + second),
{
    default_route_line_is_line();
    has_line_concat(first, second, DEFAULT_ROUTE_LINE@);
    ends_lines_concat(first, second);
}

/// A value without a line feed spells nothing.
proof fn single_line_spells_nothing(value: Seq<char>)
    requires
        single_line(value),
    ensures
        !spells_default_route(value),
{
    default_route_line_is_line();
    line_feed();
    single_line_holds_none(value, DEFAULT_ROUTE_LINE@);
}

/// A number spells nothing.
proof fn decimal_spells_nothing(n: nat)
    ensures
        !spells_default_route(decimal(n)),
{
    decimal_is_digits(n);
    assert forall|i: int| 0 <= i < decimal(n).len() implies decimal(n)[i] != '\n' by {
        assert(is_digit(decimal(n)[i]));
    }
    single_line_spells_nothing(decimal(n));
}

proof fn link_block_line(mtu: Option<u32>)
    ensures
        !has_line(link_block(mtu), DEFAULT_ROUTE_LINE@),
        ends_lines(link_block(mtu)),
{
    let bytes = match mtu {
        Some(n) => n,
        None => DEFAULT_MTU,
    };
    fixed_texts();
    keys();
    fixed_text_has_no_line("\n[Link]\n"@);
    entry_line("MTUBytes="@, decimal(bytes as nat));
    decimal_spells_nothing(bytes as nat);
    line_in_either("\n[Link]\n"@, entry("MTUBytes="@, decimal(bytes as nat)));
}

proof fn address_block_line(address: Seq<char>)
    ensures
        has_line(address_block(address), DEFAULT_ROUTE_LINE@) <==> spells_default_route(
            address + "/32"@,
        ),
        ends_lines(address_block(address)),
{
    fixed_texts();
    keys();
    fixed_text_has_no_line("\n[Address]\n"@);
    entry_line("Address="@, address + "/32"@);
    line_in_either("\n[Address]\n"@, entry("Address="@, address + "/32"@));
}

proof fn host_route_block_line(address: Seq<char>)
    ensures
        has_line(host_route_block(address), DEFAULT_ROUTE_LINE@) <==> spells_default_route(
            address + "/32"@,
        ) || spells_default_route(address),
        ends_lines(host_route_block(address)),
{
    fixed_texts();
    keys();
    let a = "\n[Route]\n"@;
    let b = entry("Destination="@, address + "/32"@);
    let c = entry("Gateway="@, address);
    let d = "\n"@;
    fixed_text_has_no_line(a);
    fixed_text_has_no_line(d);
    entry_line("Destination="@, address + "/32"@);
    entry_line("Gateway="@, address);
    line_in_either(a, b);
    line_in_either(a + b, c);
    line_in_either(a + b + c, d);
}

proof fn route_block_line(addr: Seq<char>, masklen: u8)
    ensures
        has_line(net_route_block(addr, masklen), DEFAULT_ROUTE_LINE@) <==> spells_default_route(
            network(addr, masklen),
        ),
        ends_lines(net_route_block(addr, masklen)),
        has_line(split_route_block(addr, masklen), DEFAULT_ROUTE_LINE@) <==> spells_default_route(
            network(addr, masklen),
        ),
        ends_lines(split_route_block(addr, masklen)),
{
    fixed_texts();
    keys();
    let a = "\n[Route]\n"@;
    let b = entry("Destination="@, network(addr, masklen));
    let c = "Scope=link\n"@;
    let d = "\n"@;
    let e = "\n[Route]\nScope=link\n"@;
    fixed_text_has_no_line(a);
    fixed_text_has_no_line(c);
    fixed_text_has_no_line(d);
    fixed_text_has_no_line(e);
    entry_line("Destination="@, network(addr, masklen));
    line_in_either(a, b);
    line_in_either(a + b, c);
    line_in_either(a + b + c, d);
    line_in_either(e, b);
    line_in_either(e + b, d);
}

proof fn network_block_line(tundev: Seq<char>, vpngateway: Seq<char>)
    ensures
        has_line(network_block(tundev, vpngateway), DEFAULT_ROUTE_LINE@) <==> spells_default_route(
            tundev,
        ) || spells_default_route(vpngateway),
        ends_lines(network_block(tundev, vpngateway)),
        network_block(tundev, vpngateway).len() > 0,
{
    fixed_texts();
    keys();
    let a = "\n[Match]\n"@;
    let b = entry("Name="@, tundev);
    let c = "\n[Network]\n"@;
    let d = entry("Description=Cisco VPN to "@, vpngateway);
    let e = "DHCP=no\n"@;
    let f = "IPv6AcceptRA=no\n"@;
    let g = "\n"@;
    fixed_text_has_no_line(a);
    fixed_text_has_no_line(c);
    fixed_text_has_no_line(e);
    fixed_text_has_no_line(f);
    fixed_text_has_no_line(g);
    entry_line("Name="@, tundev);
    entry_line("Description=Cisco VPN to "@, vpngateway);
    line_in_either(a, b);
    line_in_either(a + b, c);
    line_in_either(a + b + c, d);
    line_in_either(a + b + c + d, e);
    line_in_either(a + b + c + d + e, f);
    line_in_either(a + b + c + d + e + f, g);
}

proof fn split_routes_line(routes: Seq<RouteView>)
    ensures
        has_line(split_routes_text(routes), DEFAULT_ROUTE_LINE@) <==> exists|i: int|
            0 <= i < routes.len() && route_spells_default_route(#[trigger] routes[i]),
        ends_lines(split_routes_text(routes)),
    decreases routes.len(),
{
    let spells = |rs: Seq<RouteView>|
        exists|i: int| 0 <= i < rs.len() && route_spells_default_route(#[trigger] rs[i]);
    if routes.len() == 0 {
        fixed_text_has_no_line(split_routes_text(routes));
    } else {
        let before = routes.drop_last();
        let last = routes.last();
        split_routes_line(before);
        if last.addr == ANY_ADDRESS@ {
            fixed_text_has_no_line(split_route_text(last));
        } else {
            route_block_line(last.addr, last.masklen);
        }
        line_in_either(split_routes_text(before), split_route_text(last));
        if spells(before) {
            let i = choose|i: int|
                0 <= i < before.len() && route_spells_default_route(#[trigger] before[i]);
            assert(routes[i] == before[i]);
        }
        if spells(routes) {
            let i = choose|i: int|
                0 <= i < routes.len() && route_spells_default_route(#[trigger] routes[i]);
            if i < before.len() {
                assert(routes[i] == before[i]);
            }
        }
        if route_spells_default_route(last) {
            assert(routes[routes.len() - 1] == last);
        }
    }
}

proof fn name_server_lines_line(servers: Seq<Seq<char>>)
    requires
        forall|k: int| 0 <= k < servers.len() ==> is_field(#[trigger] servers[k]),
    ensures
        !has_line(name_server_lines(servers), DEFAULT_ROUTE_LINE@),
        ends_lines(name_server_lines(servers)),
    decreases servers.len(),
{
    if servers.len() == 0 {
        fixed_text_has_no_line(name_server_lines(servers));
    } else {
        let before = servers.drop_last();
        let last = servers.last();
        assert forall|k: int| 0 <= k < before.len() implies is_field(#[trigger] before[k]) by {
            assert(before[k] == servers[k]);
        }
        name_server_lines_line(before);
        keys();
        entry_line("DNS="@, last);
        assert(is_field(last));
        assert forall|i: int| 0 <= i < last.len() implies last[i] != '\n' by {
            assert(!is_space(last[i]));
        }
        single_line_spells_nothing(last);
        line_in_either(name_server_lines(before), entry("DNS="@, last));
    }
}

proof fn unit_tail_line(config: ConfigView)
    ensures
        has_line(unit_tail(config), DEFAULT_ROUTE_LINE@) <==> config.dns is Some
            && spells_default_route(config.def_domain),
        ends_lines(unit_tail(config)),
{
    match config.dns {
        Some(dns) => {
            keys();
            entry_line("Domains="@, config.def_domain);
            fields_hold_no_space(dns);
            name_server_lines_line(fields(dns));
            line_in_either(entry("Domains="@, config.def_domain), name_server_lines(fields(dns)));
        },
        None => {
            fixed_text_has_no_line(unit_tail(config));
        },
    }
}

proof fn unit_head_line(config: ConfigView, routes: Seq<RouteView>)
    requires
        config.netmask is Some ==> config.netaddr is Some,
    ensures
        has_line(unit_head(config, routes), DEFAULT_ROUTE_LINE@) <==> {
            ||| spells_default_route(config.address + "/32"@)
            ||| spells_default_route(config.address)
            ||| config.netmask is Some && spells_default_route(
                network(config.netaddr.unwrap(), config.netmasklen),
            )
            ||| config.split_routes_inc > 0 && exists|i: int|
                0 <= i < routes.len() && route_spells_default_route(#[trigger] routes[i])
            ||| spells_default_route(config.tundev)
            ||| spells_default_route(config.vpngateway)
        },
        ends_lines(unit_head(config, routes)),
        unit_head(config, routes).len() > 0,
{
    let a = link_block(config.mtu);
    let b = address_block(config.address);
    let c = host_route_block(config.address);
    let d = if config.netmask is Some {
        net_route_block(config.netaddr.unwrap(), config.netmasklen)
    } else {
        Seq::empty()
    };
    let e = if config.split_routes_inc > 0 {
        split_routes_text(routes)
    } else {
        Seq::empty()
    };
    let f = network_block(config.tundev, config.vpngateway);
    link_block_line(config.mtu);
    address_block_line(config.address);
    host_route_block_line(config.address);
    if config.netmask is Some {
        route_block_line(config.netaddr.unwrap(), config.netmasklen);
    } else {
        fixed_text_has_no_line(d);
    }
    if config.split_routes_inc > 0 {
        split_routes_line(routes);
    } else {
        fixed_text_has_no_line(e);
    }
    network_block_line(config.tundev, config.vpngateway);
    line_in_either(a, b);
    line_in_either(a + b, c);
    line_in_either(a + b + c, d);
    line_in_either(a + b + c + d, e);
    line_in_either(a + b + c + d + e, f);
}

/// A unit has the default-route line among its lines exactly where it was
/// rendered with that line, or where one of the values written into it
/// spells the line.
pub proof fn unit_has_default_route_line(
    config: ConfigView,
    routes: Seq<RouteView>,
    with_default_route: bool,
)
    requires
        config.netmask is Some ==> config.netaddr is Some,
    ensures
        has_line(unit_text(config, routes, with_default_route), DEFAULT_ROUTE_LINE@)
            <==> with_default_route || values_spell_default_route(config, routes),
{
    let head = unit_head(config, routes);
    let line = if with_default_route {
        DEFAULT_ROUTE_LINE@
    } else {
        Seq::empty()
    };
    let tail = unit_tail(config);
    unit_head_line(config, routes);
    unit_tail_line(config);
    default_route_line_is_line();
    if !with_default_route {
        fixed_text_has_no_line(line);
    }
    line_in_either(head, line);
    line_in_either(head + line, tail);
}

/// A unit rendered with the default-route line has that line right after its
/// `[Network]` section.
pub proof fn default_route_line_stands(config: ConfigView, routes: Seq<RouteView>)
    ensures
        line_at(
            unit_text(config, routes, true),
            DEFAULT_ROUTE_LINE@,
            unit_head(config, routes).len() as int,
        ),
{
    line_feed();
    let head = unit_head(config, routes);
    let text = unit_text(config, routes, true);
    let at = head.len() as int;
    assert(head.last() == '\n');
    assert(text.subrange(at, at + DEFAULT_ROUTE_LINE@.len()) =~= DEFAULT_ROUTE_LINE@);
    assert(text[at - 1] == head[at - 1]);
}

/// Without split routes, the unit has the default-route line exactly where
/// the device has an address, unless a value written into the unit spells
/// that line by itself: then the line is there whatever the address.
pub proof fn default_route_without_split_routes(config: ConfigView, routes: Seq<RouteView>)
    requires
        config.split_routes_inc == 0,
    ensures
        default_route(config, routes) <==> config.address.len() > 0,
        spec_render(config, routes) matches Ok(text) ==> (has_line(text, DEFAULT_ROUTE_LINE@)
            <==> config.address.len() > 0 || values_spell_default_route(config, routes)),
{
    if spec_render(config, routes) is Ok {
        unit_has_default_route_line(config, routes, default_route(config, routes));
    }
}

/// What the split routes add to the unit is added route by route.
pub proof fn split_routes_text_concat(first: Seq<RouteView>, second: Seq<RouteView>)
    ensures
        split_routes_text(first + second) == split_routes_text(first) + split_routes_text(second),
    decreases second.len(),
{
    if second.len() == 0 {
        assert(first + second =~= first);
        assert(split_routes_text(first) + Seq::<char>::empty() =~= split_routes_text(first));
    } else {
        assert((first + second).drop_last() =~= first + second.drop_last());
        assert((first + second).last() == second.last());
        split_routes_text_concat(first, second.drop_last());
        assert(split_routes_text(first + second) =~= split_routes_text(first) + split_routes_text(
            second,
        ));
    }
}

/// A split route to everywhere adds no route block of its own: the blocks are
/// those of the other routes. And it makes the device the default route,
/// whatever the other routes are: the unit has the default-route line.
pub proof fn route_everywhere_is_default_route(
    config: ConfigView,
    routes: Seq<RouteView>,
    i: int,
)
    requires
        routes.len() == config.split_routes_inc,
        0 <= i < routes.len(),
        routes[i].addr == ANY_ADDRESS@,
    ensures
        split_routes_text(routes) == split_routes_text(routes.remove(i)),
        default_route(config, routes),
        spec_render(config, routes) matches Ok(text) ==> has_line(text, DEFAULT_ROUTE_LINE@),
{
    let before = routes.take(i);
    let after = routes.skip(i + 1);
    let here = seq![routes[i]];
    assert(routes =~= before + here + after);
    assert(routes.remove(i) =~= before + after);
    split_routes_text_concat(before + here, after);
    split_routes_text_concat(before, here);
    split_routes_text_concat(before, after);
    assert(split_routes_text(here) =~= Seq::<char>::empty()) by {
        assert(here.drop_last() =~= Seq::<RouteView>::empty());
        assert(split_routes_text(here) == split_routes_text(here.drop_last()) + split_route_text(
            here.last(),
        ));
    }
    assert(split_routes_text(before) + Seq::<char>::empty() =~= split_routes_text(before));
    default_route_line_stands(config, routes);
}

/// With split routes, the unit has the default-route line exactly where one
/// of the routes is the route to everywhere, unless a value written into the
/// unit spells that line by itself.
pub proof fn default_route_with_split_routes(config: ConfigView, routes: Seq<RouteView>)
    requires
        config.split_routes_inc > 0,
    ensures
        default_route(config, routes) <==> routes_everywhere(routes),
        spec_render(config, routes) matches Ok(text) ==> (has_line(text, DEFAULT_ROUTE_LINE@)
            <==> routes_everywhere(routes) || values_spell_default_route(config, routes)),
{
    if spec_render(config, routes) is Ok {
        unit_has_default_route_line(config, routes, default_route(config, routes));
    }
}

} // verus!
