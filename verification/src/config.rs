//! The typed form of the variables: the reason, the connection's settings and
//! the split routes, together with the rules by which they are read.

use vstd::prelude::*;
use crate::text::{decimal, format_decimal, parse_unsigned, read_unsigned};
use crate::vars::{find, lookup, text_view};

verus! {

/// Name of the tunnel device where the client names none.
pub const DEFAULT_TUNDEV: &'static str = "tun0";

/// Why the VPN client started the hook.
#[derive(Clone, Copy, Debug, PartialEq, Eq, Structural)]
pub enum Reason {
    Connect,
    Disconnect,
    PreInit,
    AttemptReconnect,
    Reconnect,
}

impl Reason {
    /// The reason that `text` names, in the client's kebab-case spelling.
    pub open spec fn spec_parse(text: Seq<char>) -> Option<Reason> {
        if text == "connect"@ {
            Some(Reason::Connect)
        } else if text == "disconnect"@ {
            Some(Reason::Disconnect)
        } else if text == "pre-init"@ {
            Some(Reason::PreInit)
        } else if text == "attempt-reconnect"@ {
            Some(Reason::AttemptReconnect)
        } else if text == "reconnect"@ {
            Some(Reason::Reconnect)
        } else {
            None
        }
    }

    /// Reads a reason; any other text than the five spellings is refused.
    pub fn parse(text: &str) -> (r: Option<Reason>)
        ensures
            r == Reason::spec_parse(text@),
    {
        let given: String = String::from_str(text);
        if given == String::from_str("connect") {
            Some(Reason::Connect)
        } else if given == String::from_str("disconnect") {
            Some(Reason::Disconnect)
        } else if given == String::from_str("pre-init") {
            Some(Reason::PreInit)
        } else if given == String::from_str("attempt-reconnect") {
            Some(Reason::AttemptReconnect)
        } else if given == String::from_str("reconnect") {
            Some(Reason::Reconnect)
        } else {
            None
        }
    }
}

/// One of the six variables that describe a split route.
#[derive(Clone, Copy, Debug, PartialEq, Eq, Structural)]
pub enum RouteField {
    Addr,
    Mask,
    MaskLen,
    Protocol,
    SourcePort,
    DestPort,
}

impl RouteField {
    /// What follows the route's index in the variable's name.
    pub open spec fn spec_suffix(self) -> Seq<char> {
        match self {
            RouteField::Addr => "_ADDR"@,
            RouteField::Mask => "_MASK"@,
            RouteField::MaskLen => "_MASKLEN"@,
            RouteField::Protocol => "_PROTOCOL"@,
            RouteField::SourcePort => "_SPORT"@,
            RouteField::DestPort => "_DPORT"@,
        }
    }

    /// What follows the route's index in the variable's name.
    pub fn suffix(&self) -> (s: &'static str)
        ensures
            s@ == self.spec_suffix(),
    {
        match self {
            RouteField::Addr => "_ADDR",
            RouteField::Mask => "_MASK",
            RouteField::MaskLen => "_MASKLEN",
            RouteField::Protocol => "_PROTOCOL",
            RouteField::SourcePort => "_SPORT",
            RouteField::DestPort => "_DPORT",
        }
    }
}

/// A variable that the hook reads.
#[derive(Clone, Copy, Debug, PartialEq, Eq, Structural)]
pub enum Field {
    Reason,
    VpnGateway,
    TunDev,
    Address,
    Mtu,
    Netmask,
    NetmaskLen,
    NetAddr,
    Dns,
    Nbns,
    DefDomain,
    Banner,
    SplitRoutes,
    /// A variable of the split route with the given index.
    Route(usize, RouteField),
}

impl Field {
    /// The name under which the client hands the variable over.
    pub open spec fn spec_name(self) -> Seq<char> {
        match self {
            Field::Reason => "reason"@,
            Field::VpnGateway => "VPNGATEWAY"@,
            Field::TunDev => "TUNDEV"@,
            Field::Address => "INTERNAL_IP4_ADDRESS"@,
            Field::Mtu => "INTERNAL_IP4_MTU"@,
            Field::Netmask => "INTERNAL_IP4_NETMASK"@,
            Field::NetmaskLen => "INTERNAL_IP4_NETMASKLEN"@,
            Field::NetAddr => "INTERNAL_IP4_NETADDR"@,
            Field::Dns => "INTERNAL_IP4_DNS"@,
            Field::Nbns => "INTERNAL_IP4_NBNS"@,
            Field::DefDomain => "CISCO_DEF_DOMAIN"@,
            Field::Banner => "CISCO_BANNER"@,
            Field::SplitRoutes => "CISCO_SPLIT_INC"@,
            Field::Route(n, part) => "CISCO_SPLIT_INC_"@ + decimal(n as nat) + part.spec_suffix(),
        }
    }

    /// The name under which the client hands the variable over.
    pub fn name(&self) -> (s: String)
        ensures
            s@ == self.spec_name(),
    {
        match self {
            Field::Reason => String::from_str("reason"),
            Field::VpnGateway => String::from_str("VPNGATEWAY"),
            Field::TunDev => String::from_str("TUNDEV"),
            Field::Address => String::from_str("INTERNAL_IP4_ADDRESS"),
            Field::Mtu => String::from_str("INTERNAL_IP4_MTU"),
            Field::Netmask => String::from_str("INTERNAL_IP4_NETMASK"),
            Field::NetmaskLen => String::from_str("INTERNAL_IP4_NETMASKLEN"),
            Field::NetAddr => String::from_str("INTERNAL_IP4_NETADDR"),
            Field::Dns => String::from_str("INTERNAL_IP4_DNS"),
            Field::Nbns => String::from_str("INTERNAL_IP4_NBNS"),
            Field::DefDomain => String::from_str("CISCO_DEF_DOMAIN"),
            Field::Banner => String::from_str("CISCO_BANNER"),
            Field::SplitRoutes => String::from_str("CISCO_SPLIT_INC"),
            Field::Route(n, part) => {
                let mut s: String = String::from_str("CISCO_SPLIT_INC_");
                let index: String = format_decimal(*n as u64);
                s.append(index.as_str());
                s.append(part.suffix());
                s
            },
        }
    }
}

/// Why the variables could not be read.
#[derive(Clone, Copy, Debug, PartialEq, Eq, Structural)]
pub enum ParseError {
    /// A variable that must be there is not.
    Missing(Field),
    /// A variable is there, but its value is not of the kind that it must be.
    Malformed(Field),
}

impl ParseError {
    /// The variable that could not be read.
    pub open spec fn spec_field(self) -> Field {
        match self {
            ParseError::Missing(field) => field,
            ParseError::Malformed(field) => field,
        }
    }

    /// What the user is told: what is wrong, and the name of the variable.
    pub open spec fn spec_message(self) -> Seq<char> {
        match self {
            ParseError::Missing(field) => "missing variable "@ + field.spec_name(),
            ParseError::Malformed(field) => "malformed value of variable "@ + field.spec_name(),
        }
    }

    /// The variable that could not be read.
    pub fn field(&self) -> (field: Field)
        ensures
            field == self.spec_field(),
    {
        match self {
            ParseError::Missing(field) => *field,
            ParseError::Malformed(field) => *field,
        }
    }

    /// Says what is wrong, with the name of the variable.
    pub fn message(&self) -> (s: String)
        ensures
            s@ == self.spec_message(),
    {
        match self {
            ParseError::Missing(field) => {
                let mut s: String = String::from_str("missing variable ");
                s.append(field.name().as_str());
                s
            },
            ParseError::Malformed(field) => {
                let mut s: String = String::from_str("malformed value of variable ");
                s.append(field.name().as_str());
                s
            },
        }
    }
}

/// The text of `field` among `vars`, if the variable is there.
pub open spec fn spec_text(vars: Seq<(Seq<char>, Seq<char>)>, field: Field) -> Option<Seq<char>> {
    lookup(vars, field.spec_name())
}

/// The text of a variable that must be there.
pub open spec fn spec_required(vars: Seq<(Seq<char>, Seq<char>)>, field: Field) -> Result<
    Seq<char>,
    ParseError,
> {
    match spec_text(vars, field) {
        Some(text) => Ok(text),
        None => Err(ParseError::Missing(field)),
    }
}

/// The number in a variable that may be absent: nothing where it is absent,
/// an error where its text is no decimal number of at most `max`.
pub open spec fn spec_number(vars: Seq<(Seq<char>, Seq<char>)>, field: Field, max: nat) -> Result<
    Option<nat>,
    ParseError,
> {
    match spec_text(vars, field) {
        None => Ok(None),
        Some(text) => match parse_unsigned(text, max) {
            Some(n) => Ok(Some(n)),
            None => Err(ParseError::Malformed(field)),
        },
    }
}

/// The number in a variable that must be there.
pub open spec fn spec_required_number(
    vars: Seq<(Seq<char>, Seq<char>)>,
    field: Field,
    max: nat,
) -> Result<nat, ParseError> {
    match spec_number(vars, field, max) {
        Ok(Some(n)) => Ok(n),
        Ok(None) => Err(ParseError::Missing(field)),
        Err(e) => Err(e),
    }
}

/// The number in a variable that stands for `default` where it is absent.
pub open spec fn spec_number_or(
    vars: Seq<(Seq<char>, Seq<char>)>,
    field: Field,
    max: nat,
    default: nat,
) -> Result<nat, ParseError> {
    match spec_number(vars, field, max) {
        Ok(Some(n)) => Ok(n),
        Ok(None) => Ok(default),
        Err(e) => Err(e),
    }
}

/// The reason among `vars`.
pub open spec fn spec_reason(vars: Seq<(Seq<char>, Seq<char>)>) -> Result<Reason, ParseError> {
    match spec_text(vars, Field::Reason) {
        None => Err(ParseError::Missing(Field::Reason)),
        Some(text) => match Reason::spec_parse(text) {
            Some(reason) => Ok(reason),
            None => Err(ParseError::Malformed(Field::Reason)),
        },
    }
}

fn read_text(vars: &Vec<(String, String)>, field: Field) -> (r: Option<String>)
    ensures
        text_view(r) == spec_text(vars.deep_view(), field),
{
    let name: String = field.name();
    find(vars, name.as_str())
}

fn read_required(vars: &Vec<(String, String)>, field: Field) -> (r: Result<String, ParseError>)
    ensures
        match r {
            Ok(t) => spec_required(vars.deep_view(), field) == Ok::<Seq<char>, ParseError>(t@),
            Err(e) => spec_required(vars.deep_view(), field) == Err::<Seq<char>, ParseError>(e),
        },
{
    match read_text(vars, field) {
        Some(t) => Ok(t),
        None => Err(ParseError::Missing(field)),
    }
}

fn read_number(vars: &Vec<(String, String)>, field: Field, max: u64) -> (r: Result<
    Option<u64>,
    ParseError,
>)
    ensures
        match r {
            Ok(Some(n)) => spec_number(vars.deep_view(), field, max as nat) == Ok::<
                Option<nat>,
                ParseError,
            >(Some(n as nat)) && n <= max,
            Ok(None) => spec_number(vars.deep_view(), field, max as nat) == Ok::<
                Option<nat>,
                ParseError,
            >(None),
            Err(e) => spec_number(vars.deep_view(), field, max as nat) == Err::<
                Option<nat>,
                ParseError,
            >(e),
        },
{
    match read_text(vars, field) {
        None => Ok(None),
        Some(t) => match read_unsigned(t.as_str(), max) {
            Some(n) => Ok(Some(n)),
            None => Err(ParseError::Malformed(field)),
        },
    }
}

fn read_required_number(vars: &Vec<(String, String)>, field: Field, max: u64) -> (r: Result<
    u64,
    ParseError,
>)
    ensures
        match r {
            Ok(n) => spec_required_number(vars.deep_view(), field, max as nat) == Ok::<
                nat,
                ParseError,
            >(n as nat) && n <= max,
            Err(e) => spec_required_number(vars.deep_view(), field, max as nat) == Err::<
                nat,
                ParseError,
            >(e),
        },
{
    match read_number(vars, field, max) {
        Ok(Some(n)) => Ok(n),
        Ok(None) => Err(ParseError::Missing(field)),
        Err(e) => Err(e),
    }
}

fn read_number_or(vars: &Vec<(String, String)>, field: Field, max: u64, default: u64) -> (r: Result<
    u64,
    ParseError,
>)
    requires
        default <= max,
    ensures
        match r {
            Ok(n) => spec_number_or(vars.deep_view(), field, max as nat, default as nat) == Ok::<
                nat,
                ParseError,
            >(n as nat) && n <= max,
            Err(e) => spec_number_or(vars.deep_view(), field, max as nat, default as nat) == Err::<
                nat,
                ParseError,
            >(e),
        },
{
    match read_number(vars, field, max) {
        Ok(Some(n)) => Ok(n),
        Ok(None) => Ok(default),
        Err(e) => Err(e),
    }
}

fn read_reason(vars: &Vec<(String, String)>) -> (r: Result<Reason, ParseError>)
    ensures
        r == spec_reason(vars.deep_view()),
{
    match read_text(vars, Field::Reason) {
        None => Err(ParseError::Missing(Field::Reason)),
        Some(t) => match Reason::parse(t.as_str()) {
            Some(reason) => Ok(reason),
            None => Err(ParseError::Malformed(Field::Reason)),
        },
    }
}

/// A route that the VPN server asks to send through the tunnel.
#[derive(Clone, Debug, PartialEq, Eq)]
pub struct Route {
    /// Address of the network.
    pub addr: String,
    /// Its mask in dotted form; kept, not rendered.
    pub mask: String,
    /// Its prefix length.
    pub masklen: u8,
    /// Read, and used nowhere yet.
    pub protocol: u8,
    /// Read, and used nowhere yet.
    pub sport: u16,
    /// Read, and used nowhere yet.
    pub dport: u16,
}

/// A route as contracts speak of it.
pub ghost struct RouteView {
    pub addr: Seq<char>,
    pub mask: Seq<char>,
    pub masklen: u8,
    pub protocol: u8,
    pub sport: u16,
    pub dport: u16,
}

impl View for Route {
    type V = RouteView;

    open spec fn view(&self) -> RouteView {
        RouteView {
            addr: self.addr@,
            mask: self.mask@,
            masklen: self.masklen,
            protocol: self.protocol,
            sport: self.sport,
            dport: self.dport,
        }
    }
}

impl DeepView for Route {
    type V = RouteView;

    open spec fn deep_view(&self) -> RouteView {
        self@
    }
}

impl Route {
    /// The protocol of a route that names none.
    pub fn default_protocol() -> (p: u8)
        ensures
            p == 0,
    {
        0
    }

    /// The port of a route that names none.
    pub fn default_port() -> (p: u16)
        ensures
            p == 0,
    {
        0
    }

    /// The split route with index `n` among `vars`, or the first of its six
    /// variables, in the order address, mask, prefix length, protocol, source
    /// port, destination port, that is missing or malformed. The first three
    /// must be there; the others stand for 0 where they are absent.
    pub open spec fn spec_from_vars(vars: Seq<(Seq<char>, Seq<char>)>, n: usize) -> Result<
        RouteView,
        ParseError,
    > {
        let addr = spec_required(vars, Field::Route(n, RouteField::Addr));
        let mask = spec_required(vars, Field::Route(n, RouteField::Mask));
        let masklen = spec_required_number(vars, Field::Route(n, RouteField::MaskLen), 0xff);
        let protocol = spec_number_or(vars, Field::Route(n, RouteField::Protocol), 0xff, 0);
        let sport = spec_number_or(vars, Field::Route(n, RouteField::SourcePort), 0xffff, 0);
        let dport = spec_number_or(vars, Field::Route(n, RouteField::DestPort), 0xffff, 0);
        if let Err(e) = addr {
            Err(e)
        } else if let Err(e) = mask {
            Err(e)
        } else if let Err(e) = masklen {
            Err(e)
        } else if let Err(e) = protocol {
            Err(e)
        } else if let Err(e) = sport {
            Err(e)
        } else if let Err(e) = dport {
            Err(e)
        } else {
            Ok(
                RouteView {
                    addr: addr.unwrap(),
                    mask: mask.unwrap(),
                    masklen: masklen.unwrap() as u8,
                    protocol: protocol.unwrap() as u8,
                    sport: sport.unwrap() as u16,
                    dport: dport.unwrap() as u16,
                },
            )
        }
    }

    /// Reads the split route with index `n`.
    pub fn from_vars(vars: &Vec<(String, String)>, n: usize) -> (r: Result<Route, ParseError>)
        ensures
            match r {
                Ok(route) => Route::spec_from_vars(vars.deep_view(), n) == Ok::<
                    RouteView,
                    ParseError,
                >(route@),
                Err(e) => Route::spec_from_vars(vars.deep_view(), n) == Err::<
                    RouteView,
                    ParseError,
                >(e),
            },
    {
        let addr: String = match read_required(vars, Field::Route(n, RouteField::Addr)) {
            Ok(t) => t,
            Err(e) => { return Err(e); },
        };
        let mask: String = match read_required(vars, Field::Route(n, RouteField::Mask)) {
            Ok(t) => t,
            Err(e) => { return Err(e); },
        };
        let masklen: u64 = match read_required_number(vars, Field::Route(n, RouteField::MaskLen), 0xff) {
            Ok(v) => v,
            Err(e) => { return Err(e); },
        };
        let protocol: u64 = match read_number_or(
            vars,
            Field::Route(n, RouteField::Protocol),
            0xff,
            Route::default_protocol() as u64,
        ) {
            Ok(v) => v,
            Err(e) => { return Err(e); },
        };
        let sport: u64 = match read_number_or(
            vars,
            Field::Route(n, RouteField::SourcePort),
            0xffff,
            Route::default_port() as u64,
        ) {
            Ok(v) => v,
            Err(e) => { return Err(e); },
        };
        let dport: u64 = match read_number_or(
            vars,
            Field::Route(n, RouteField::DestPort),
            0xffff,
            Route::default_port() as u64,
        ) {
            Ok(v) => v,
            Err(e) => { return Err(e); },
        };
        Ok(
            Route {
                addr,
                mask,
                masklen: masklen as u8,
                protocol: protocol as u8,
                sport: sport as u16,
                dport: dport as u16,
            },
        )
    }
}

/// The first `count` split routes among `vars`, in the order of their
/// indices, or the error of the lowest index that cannot be read.
pub open spec fn spec_routes(vars: Seq<(Seq<char>, Seq<char>)>, count: nat) -> Result<
    Seq<RouteView>,
    ParseError,
>
    decreases count,
{
    if count == 0 {
        Ok(Seq::empty())
    } else {
        match spec_routes(vars, (count - 1) as nat) {
            Err(e) => Err(e),
            Ok(routes) => match Route::spec_from_vars(vars, (count - 1) as usize) {
                Err(e) => Err(e),
                Ok(route) => Ok(routes.push(route)),
            },
        }
    }
}

/// Reads the split routes with the indices below `count`: all of them, or none.
pub fn routes_from_vars(vars: &Vec<(String, String)>, count: usize) -> (r: Result<
    Vec<Route>,
    ParseError,
>)
    ensures
        match r {
            Ok(routes) => spec_routes(vars.deep_view(), count as nat) == Ok::<
                Seq<RouteView>,
                ParseError,
            >(routes.deep_view()) && routes.len() == count,
            Err(e) => spec_routes(vars.deep_view(), count as nat) == Err::<
                Seq<RouteView>,
                ParseError,
            >(e),
        },
{
    let mut routes: Vec<Route> = Vec::new();
    let mut n: usize = 0;
    assert(routes.deep_view() =~= Seq::<RouteView>::empty());
    while n < count
        invariant
            n <= count,
            routes.len() == n,
            spec_routes(vars.deep_view(), n as nat) == Ok::<Seq<RouteView>, ParseError>(
                routes.deep_view(),
            ),
        decreases count - n,
    {
        match Route::from_vars(vars, n) {
            Ok(route) => {
                let ghost before = routes.deep_view();
                routes.push(route);
                assert(routes.deep_view() =~= before.push(route@));
            },
            Err(e) => {
                proof {
                    routes_fail_on(vars.deep_view(), n as nat, count as nat);
                }
                return Err(e);
            },
        }
        n = n + 1;
    }
    Ok(routes)
}

/// A list of routes that can be read has as many routes as were asked for.
pub proof fn spec_routes_len(vars: Seq<(Seq<char>, Seq<char>)>, count: nat)
    ensures
        spec_routes(vars, count) matches Ok(routes) ==> routes.len() == count,
    decreases count,
{
    if count > 0 {
        spec_routes_len(vars, (count - 1) as nat);
    }
}

/// Where the routes below `n` can be read and route `n` cannot, no longer
/// list can be read either, and the error is that of route `n`.
proof fn routes_fail_on(vars: Seq<(Seq<char>, Seq<char>)>, n: nat, count: nat)
    requires
        n < count <= usize::MAX,
        spec_routes(vars, n) is Ok,
        Route::spec_from_vars(vars, n as usize) is Err,
    ensures
        spec_routes(vars, count) == Err::<Seq<RouteView>, ParseError>(
            Route::spec_from_vars(vars, n as usize)->Err_0,
        ),
    decreases count,
{
    if count > n + 1 {
        routes_fail_on(vars, n, (count - 1) as nat);
    }
}

/// The settings of the connection.
#[derive(Clone, Debug, PartialEq, Eq)]
pub struct Config {
    /// Why the hook was started.
    pub reason: Reason,
    /// The VPN gateway; it only goes into the unit's description.
    pub vpngateway: String,
    /// The tunnel device: the interface that the unit matches, and the base
    /// name of the unit's file.
    pub tundev: String,
    /// The address given to the tunnel device.
    pub address: String,
    /// The device's MTU, where the client names one.
    pub mtu: Option<u32>,
    /// The netmask. That it is there asks for a route to the network; its
    /// value is not used.
    pub netmask: Option<String>,
    /// Prefix length of the network.
    pub netmasklen: u8,
    /// Address of the network.
    pub netaddr: Option<String>,
    /// The name servers, separated by white space.
    pub dns: Option<String>,
    /// The NetBIOS name servers; read, and used nowhere yet.
    pub nbns: Option<String>,
    /// The search domain; written only beside name servers.
    pub def_domain: String,
    /// A message of the server for the user.
    pub banner: Option<String>,
    /// How many split routes the client hands over.
    pub split_routes_inc: usize,
}

/// The settings as contracts speak of them.
pub ghost struct ConfigView {
    pub reason: Reason,
    pub vpngateway: Seq<char>,
    pub tundev: Seq<char>,
    pub address: Seq<char>,
    pub mtu: Option<u32>,
    pub netmask: Option<Seq<char>>,
    pub netmasklen: u8,
    pub netaddr: Option<Seq<char>>,
    pub dns: Option<Seq<char>>,
    pub nbns: Option<Seq<char>>,
    pub def_domain: Seq<char>,
    pub banner: Option<Seq<char>>,
    pub split_routes_inc: usize,
}

impl View for Config {
    type V = ConfigView;

    open spec fn view(&self) -> ConfigView {
        ConfigView {
            reason: self.reason,
            vpngateway: self.vpngateway@,
            tundev: self.tundev@,
            address: self.address@,
            mtu: self.mtu,
            netmask: text_view(self.netmask),
            netmasklen: self.netmasklen,
            netaddr: text_view(self.netaddr),
            dns: text_view(self.dns),
            nbns: text_view(self.nbns),
            def_domain: self.def_domain@,
            banner: text_view(self.banner),
            split_routes_inc: self.split_routes_inc,
        }
    }
}

impl Config {
    /// The prefix length of the network where the client names none.
    pub fn default_netmasklen() -> (n: u8)
        ensures
            n == 32,
    {
        32
    }

    /// The number of split routes where the client names none.
    pub fn default_split_routes() -> (n: usize)
        ensures
            n == 0,
    {
        0
    }

    /// The tunnel device where the client names none.
    pub fn default_tundev() -> (s: String)
        ensures
            s@ == DEFAULT_TUNDEV@,
    {
        String::from_str(DEFAULT_TUNDEV)
    }

    /// The settings among `vars`, or the first variable, in the order of the
    /// fields of [`Config`], that is missing though it must be there, or whose
    /// value is malformed. The reason, the gateway, the address and the search
    /// domain must be there. The tunnel device stands for [`DEFAULT_TUNDEV`],
    /// the prefix length for 32 and the number of split routes for 0 where
    /// they are absent.
    pub open spec fn spec_from_vars(vars: Seq<(Seq<char>, Seq<char>)>) -> Result<
        ConfigView,
        ParseError,
    > {
        let reason = spec_reason(vars);
        let vpngateway = spec_required(vars, Field::VpnGateway);
        let address = spec_required(vars, Field::Address);
        let mtu = spec_number(vars, Field::Mtu, u32::MAX as nat);
        let netmasklen = spec_number_or(vars, Field::NetmaskLen, 0xff, 32);
        let def_domain = spec_required(vars, Field::DefDomain);
        let split_routes_inc = spec_number_or(vars, Field::SplitRoutes, usize::MAX as nat, 0);
        if let Err(e) = reason {
            Err(e)
        } else if let Err(e) = vpngateway {
            Err(e)
        } else if let Err(e) = address {
            Err(e)
        } else if let Err(e) = mtu {
            Err(e)
        } else if let Err(e) = netmasklen {
            Err(e)
        } else if let Err(e) = def_domain {
            Err(e)
        } else if let Err(e) = split_routes_inc {
            Err(e)
        } else {
            Ok(
                ConfigView {
                    reason: reason.unwrap(),
                    vpngateway: vpngateway.unwrap(),
                    tundev: match spec_text(vars, Field::TunDev) {
                        Some(name) => name,
                        None => DEFAULT_TUNDEV@,
                    },
                    address: address.unwrap(),
                    mtu: match mtu.unwrap() {
                        Some(n) => Some(n as u32),
                        None => None,
                    },
                    netmask: spec_text(vars, Field::Netmask),
                    netmasklen: netmasklen.unwrap() as u8,
                    netaddr: spec_text(vars, Field::NetAddr),
                    dns: spec_text(vars, Field::Dns),
                    nbns: spec_text(vars, Field::Nbns),
                    def_domain: def_domain.unwrap(),
                    banner: spec_text(vars, Field::Banner),
                    split_routes_inc: split_routes_inc.unwrap() as usize,
                },
            )
        }
    }

    /// Reads the settings from the variables in one pass, and stops at the
    /// first that is missing or malformed.
    pub fn from_vars(vars: &Vec<(String, String)>) -> (r: Result<Config, ParseError>)
        ensures
            match r {
                Ok(config) => Config::spec_from_vars(vars.deep_view()) == Ok::<
                    ConfigView,
                    ParseError,
                >(config@),
                Err(e) => Config::spec_from_vars(vars.deep_view()) == Err::<
                    ConfigView,
                    ParseError,
                >(e),
            },
    {
        let reason: Reason = match read_reason(vars) {
            Ok(r) => r,
            Err(e) => { return Err(e); },
        };
        let vpngateway: String = match read_required(vars, Field::VpnGateway) {
            Ok(t) => t,
            Err(e) => { return Err(e); },
        };
        let tundev: String = match read_text(vars, Field::TunDev) {
            Some(t) => t,
            None => Config::default_tundev(),
        };
        let address: String = match read_required(vars, Field::Address) {
            Ok(t) => t,
            Err(e) => { return Err(e); },
        };
        let mtu: Option<u32> = match read_number(vars, Field::Mtu, u32::MAX as u64) {
            Ok(Some(n)) => Some(n as u32),
            Ok(None) => None,
            Err(e) => { return Err(e); },
        };
        let netmask: Option<String> = read_text(vars, Field::Netmask);
        let netmasklen: u64 = match read_number_or(
            vars,
            Field::NetmaskLen,
            0xff,
            Config::default_netmasklen() as u64,
        ) {
            Ok(n) => n,
            Err(e) => { return Err(e); },
        };
        let netaddr: Option<String> = read_text(vars, Field::NetAddr);
        let dns: Option<String> = read_text(vars, Field::Dns);
        let nbns: Option<String> = read_text(vars, Field::Nbns);
        let def_domain: String = match read_required(vars, Field::DefDomain) {
            Ok(t) => t,
            Err(e) => { return Err(e); },
        };
        let banner: Option<String> = read_text(vars, Field::Banner);
        let split_routes_inc: u64 = match read_number_or(
            vars,
            Field::SplitRoutes,
            usize::MAX as u64,
            Config::default_split_routes() as u64,
        ) {
            Ok(n) => n,
            Err(e) => { return Err(e); },
        };
        Ok(
            Config {
                reason,
                vpngateway,
                tundev,
                address,
                mtu,
                netmask,
                netmasklen: netmasklen as u8,
                netaddr,
                dns,
                nbns,
                def_domain,
                banner,
                split_routes_inc: split_routes_inc as usize,
            },
        )
    }
}

} // verus!
