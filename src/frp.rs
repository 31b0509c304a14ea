use vstd::prelude::*;

verus! {

/// The local port the game server listens on for TCP.
pub const TCP_LOCAL_PORT: u16 = 26900;

/// The local port the game server listens on for UDP.
pub const UDP_LOCAL_PORT: u16 = 26902;

/// The port of the tunnel client's own admin web server.
pub const WEB_SERVER_PORT: u16 = 7400;

/// The settings of the reverse tunnel that a control request supplies.
#[derive(Debug)]
pub struct FrpcToml {
    pub server_addr: String,
    pub server_port: u16,
    pub auth_token: String,
    pub tcp_name: String,
    pub tcp_remote_port: u16,
    pub udp_name: String,
    pub udp_remote_port: u16,
}

#[derive(Debug)]
pub struct Auth {
    pub token: String,
}

#[derive(Debug)]
pub struct WebServer {
    pub addr: String,
    pub port: u16,
}

/// One forwarded port of the tunnel.
#[derive(Debug)]
pub struct Proxy {
    pub name: String,
    pub proxy_type: String,
    pub local_ip: String,
    pub local_port: u16,
    pub remote_port: u16,
}

/// The tunnel client's configuration file.
#[derive(Debug)]
pub struct Config {
    pub server_addr: String,
    pub server_port: u16,
    pub auth: Auth,
    pub web_server: WebServer,
    pub proxies: Vec<Proxy>,
}

pub struct ProxyView {
    pub name: Seq<char>,
    pub proxy_type: Seq<char>,
    pub local_ip: Seq<char>,
    pub local_port: u16,
    pub remote_port: u16,
}

impl View for Proxy {
    type V = ProxyView;

    open spec fn view(&self) -> ProxyView {
        ProxyView {
            name: self.name@,
            proxy_type: self.proxy_type@,
            local_ip: self.local_ip@,
            local_port: self.local_port,
            remote_port: self.remote_port,
        }
    }
}

pub open spec fn proxy_views(ps: Seq<Proxy>) -> Seq<ProxyView> {
    ps.map_values(|p: Proxy| p@)
}

/// The decimal digits of `n`, most significant first, without leading zeros.
pub open spec fn decimal(n: nat) -> Seq<char>
    decreases n,
{
    if n < 10 {
        seq![digit_char(n)]
    } else {
        decimal(n / 10).push(digit_char(n % 10))
    }
}

pub open spec fn digit_char(d: nat) -> char {
    if d == 0 { '0' }
    else if d == 1 { '1' }
    else if d == 2 { '2' }
    else if d == 3 { '3' }
    else if d == 4 { '4' }
    else if d == 5 { '5' }
    else if d == 6 { '6' }
    else if d == 7 { '7' }
    else if d == 8 { '8' }
    else { '9' }
}

fn digit(d: u8) -> (r: &'static str)
    requires
        d < 10,
    ensures
        r@ == seq![digit_char(d as nat)],
{
    let r = if d == 0 { "0" }
    else if d == 1 { "1" }
    else if d == 2 { "2" }
    else if d == 3 { "3" }
    else if d == 4 { "4" }
    else if d == 5 { "5" }
    else if d == 6 { "6" }
    else if d == 7 { "7" }
    else if d == 8 { "8" }
    else { "9" };
    proof {
        reveal_strlit("0");
        reveal_strlit("1");
        reveal_strlit("2");
        reveal_strlit("3");
        reveal_strlit("4");
        reveal_strlit("5");
        reveal_strlit("6");
        reveal_strlit("7");
        reveal_strlit("8");
        reveal_strlit("9");
    }
    r
}

/// `n` written in decimal.
pub fn decimal_text(n: u8) -> (r: String)
    ensures
        r@ == decimal(n as nat),
{
    let mut out = String::new();
    if n >= 100 {
        out.append(digit(n / 100));
        out.append(digit((n / 10) % 10));
        out.append(digit(n % 10));
        assert(decimal(n as nat) == decimal((n / 10) as nat).push(digit_char((n % 10) as nat)));
        assert(decimal((n / 10) as nat) == decimal((n / 100) as nat).push(digit_char(((n / 10) % 10) as nat)));
    } else if n >= 10 {
        out.append(digit(n / 10));
        out.append(digit(n % 10));
        assert(decimal(n as nat) == decimal((n / 10) as nat).push(digit_char((n % 10) as nat)));
    } else {
        out.append(digit(n));
    }
    out
}

/// The name of the TCP proxy of the instance numbered `index`.
pub open spec fn tcp_proxy_name(index: u8) -> Seq<char> {
    "7daysTodieServer-"@ + decimal(index as nat)
}

/// The name of the UDP proxy of the instance numbered `index`.
pub open spec fn udp_proxy_name(index: u8) -> Seq<char> {
    "7daysTodieServerUDP-"@ + decimal(index as nat)
}

pub fn tcp_proxy_name_for(index: u8) -> (r: String)
    ensures
        r@ == tcp_proxy_name(index),
{
    let mut name = String::from_str("7daysTodieServer-");
    name.append(decimal_text(index).as_str());
    name
}

pub fn udp_proxy_name_for(index: u8) -> (r: String)
    ensures
        r@ == udp_proxy_name(index),
{
    let mut name = String::from_str("7daysTodieServerUDP-");
    name.append(decimal_text(index).as_str());
    name
}

/// The tunnel settings of the instance numbered `index`: its proxies are
/// named after the index and forward the local ports shifted by it.
pub fn tunnel_settings_for(server_addr: String, server_port: u16, auth_token: String, index: u8) -> (r: FrpcToml)
    ensures
        r.server_addr@ == server_addr@,
        r.server_port == server_port,
        r.auth_token@ == auth_token@,
        r.tcp_name@ == tcp_proxy_name(index),
        r.tcp_remote_port == TCP_LOCAL_PORT + index,
        r.udp_name@ == udp_proxy_name(index),
        r.udp_remote_port == UDP_LOCAL_PORT + index,
{
    FrpcToml {
        server_addr,
        server_port,
        auth_token,
        tcp_name: tcp_proxy_name_for(index),
        tcp_remote_port: TCP_LOCAL_PORT + index as u16,
        udp_name: udp_proxy_name_for(index),
        udp_remote_port: UDP_LOCAL_PORT + index as u16,
    }
}

/// The configuration file written for tunnel settings `c`: the server and
/// token as given, the admin web server on the loopback address, then a TCP
/// and a UDP proxy from the game server's local ports to the given remote ports.
pub fn frpc_config_from(c: &FrpcToml) -> (r: Config)
    ensures
        r.server_addr@ == c.server_addr@,
        r.server_port == c.server_port,
        r.auth.token@ == c.auth_token@,
        r.web_server.addr@ == "127.0.0.1"@,
        r.web_server.port == WEB_SERVER_PORT,
        proxy_views(r.proxies@) == seq![
            ProxyView {
                name: c.tcp_name@,
                proxy_type: "tcp"@,
                local_ip: "127.0.0.1"@,
                local_port: TCP_LOCAL_PORT,
                remote_port: c.tcp_remote_port,
            },
            ProxyView {
                name: c.udp_name@,
                proxy_type: "udp"@,
                local_ip: "127.0.0.1"@,
                local_port: UDP_LOCAL_PORT,
                remote_port: c.udp_remote_port,
            },
        ],
{
    let tcp = Proxy {
        name: c.tcp_name.clone(),
        proxy_type: String::from_str("tcp"),
        local_ip: String::from_str("127.0.0.1"),
        local_port: TCP_LOCAL_PORT,
        remote_port: c.tcp_remote_port,
    };
    let udp = Proxy {
        name: c.udp_name.clone(),
        proxy_type: String::from_str("udp"),
        local_ip: String::from_str("127.0.0.1"),
        local_port: UDP_LOCAL_PORT,
        remote_port: c.udp_remote_port,
    };
    let mut proxies: Vec<Proxy> = Vec::new();
    proxies.push(tcp);
    proxies.push(udp);
    let r = Config {
        server_addr: c.server_addr.clone(),
        server_port: c.server_port,
        auth: Auth { token: c.auth_token.clone() },
        web_server: WebServer { addr: String::from_str("127.0.0.1"), port: WEB_SERVER_PORT },
        proxies,
    };
    assert(proxy_views(r.proxies@) =~= seq![r.proxies@[0]@, r.proxies@[1]@]);
    r
}

/// A proxy renamed and re-pointed for the instance numbered `index`: TCP and
/// UDP proxies take the instance's name and its shifted remote port; any
/// other proxy stays as it is.
pub open spec fn reindexed(p: ProxyView, index: u8) -> ProxyView {
    if p.proxy_type == "tcp"@ {
        ProxyView { name: tcp_proxy_name(index), remote_port: (TCP_LOCAL_PORT + index) as u16, ..p }
    } else if p.proxy_type == "udp"@ {
        ProxyView { name: udp_proxy_name(index), remote_port: (UDP_LOCAL_PORT + index) as u16, ..p }
    } else {
        p
    }
}

impl Config {
    /// Points every proxy of the configuration at the instance numbered
    /// `index`; everything else is kept.
    pub fn reset_by_index(&mut self, index: u8)
        ensures
            final(self).server_addr@ == old(self).server_addr@,
            final(self).server_port == old(self).server_port,
            final(self).auth.token@ == old(self).auth.token@,
            final(self).web_server.addr@ == old(self).web_server.addr@,
            final(self).web_server.port == old(self).web_server.port,
            proxy_views(final(self).proxies@) == proxy_views(old(self).proxies@).map_values(
                |p: ProxyView| reindexed(p, index),
            ),
    {
        let tcp = String::from_str("tcp");
        let udp = String::from_str("udp");
        let mut proxies: Vec<Proxy> = Vec::new();
        let ghost before = proxy_views(self.proxies@);
        let n = self.proxies.len();
        let mut i: usize = 0;
        while i < n
            invariant
                n == before.len(),
                i <= n,
                tcp@ == "tcp"@,
                udp@ == "udp"@,
                proxy_views(self.proxies@) == before,
                proxy_views(proxies@) == before.subrange(0, i as int).map_values(
                    |p: ProxyView| reindexed(p, index),
                ),
            decreases n - i,
        {
            let p = &self.proxies[i];
            assert(before[i as int] == p@);
            let next = if p.proxy_type == tcp {
                Proxy {
                    name: tcp_proxy_name_for(index),
                    proxy_type: p.proxy_type.clone(),
                    local_ip: p.local_ip.clone(),
                    local_port: p.local_port,
                    remote_port: TCP_LOCAL_PORT + index as u16,
                }
            } else if p.proxy_type == udp {
                Proxy {
                    name: udp_proxy_name_for(index),
                    proxy_type: p.proxy_type.clone(),
                    local_ip: p.local_ip.clone(),
                    local_port: p.local_port,
                    remote_port: UDP_LOCAL_PORT + index as u16,
                }
            } else {
                Proxy {
                    name: p.name.clone(),
                    proxy_type: p.proxy_type.clone(),
                    local_ip: p.local_ip.clone(),
                    local_port: p.local_port,
                    remote_port: p.remote_port,
                }
            };
            let ghost next_view = next@;
            assert(next_view == reindexed(before[i as int], index));
            let ghost old_proxies = proxies@;
            proxies.push(next);
            assert(proxy_views(proxies@) =~= proxy_views(old_proxies).push(next_view));
            assert(before.subrange(0, i + 1) == before.subrange(0, i as int).push(before[i as int]));
            assert(proxy_views(proxies@) =~= before.subrange(0, i + 1).map_values(
                |p: ProxyView| reindexed(p, index),
            ));
            i = i + 1;
        }
        assert(before.subrange(0, n as int) == before);
        self.proxies = proxies;
    }
}

} // verus!
