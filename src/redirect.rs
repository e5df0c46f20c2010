//! Configuration of the upstream proxy, and the decision taken for each flow
//! before any socket is opened.

use crate::packet::{dissect, dissect_spec, target_of, Endpoint, FlowDescriptor};
use vstd::slice::slice_subrange;
use vstd::prelude::*;

verus! {

#[derive(Debug, Clone, Copy, PartialEq, Eq, Structural)]
pub enum ProxyType {
    Http,
    Socks5,
}

/// Settings of the virtual interface; the address and netmask are the
/// big-endian numbers their octets spell.
#[derive(Debug, Clone, Copy, PartialEq, Eq, Structural)]
pub struct TunConfig {
    pub address: u32,
    pub netmask: u32,
    pub mtu: u16,
}

pub const DEFAULT_TUN_ADDRESS: u32 = 0x0a00_0001;

pub const DEFAULT_TUN_NETMASK: u32 = 0xffff_ff00;

pub const DEFAULT_MTU: u16 = 1500;

impl TunConfig {
    /// The interface 10.0.0.1/24 with an MTU of 1500.
    pub fn standard() -> (r: TunConfig)
        ensures
            r == (TunConfig {
                address: DEFAULT_TUN_ADDRESS,
                netmask: DEFAULT_TUN_NETMASK,
                mtu: DEFAULT_MTU,
            }),
    {
        TunConfig { address: DEFAULT_TUN_ADDRESS, netmask: DEFAULT_TUN_NETMASK, mtu: DEFAULT_MTU }
    }
}

/// What the user chose: the kind of proxy, its address as `ip:port`, and
/// whether pooling and route-table teardown are wanted.
#[derive(Debug)]
pub struct UserConfig {
    pub proxy_type: ProxyType,
    pub proxy_addr: String,
    pub is_use_proxy_pool: bool,
    pub is_free_route_table: bool,
    pub tun_conf: TunConfig,
}

impl UserConfig {
    pub fn new(
        proxy_type: ProxyType,
        proxy_addr: String,
        is_use_proxy_pool: bool,
        is_free_route_table: bool,
        tun_conf: TunConfig,
    ) -> (r: UserConfig)
        ensures
            r.proxy_type == proxy_type,
            r.proxy_addr@ == proxy_addr@,
            r.is_use_proxy_pool == is_use_proxy_pool,
            r.is_free_route_table == is_free_route_table,
            r.tun_conf == tun_conf,
    {
        UserConfig { proxy_type, proxy_addr, is_use_proxy_pool, is_free_route_table, tun_conf }
    }

    /// The settings that a command line naming only the proxy address gives:
    /// SOCKS5, no pool, routes freed on exit, the standard interface.
    pub fn from_proxy_addr(proxy_addr: String) -> (r: UserConfig)
        ensures
            r.proxy_type == ProxyType::Socks5,
            r.proxy_addr@ == proxy_addr@,
            !r.is_use_proxy_pool,
            r.is_free_route_table,
            r.tun_conf == TunConfig::standard_spec(),
    {
        UserConfig::new(ProxyType::Socks5, proxy_addr, false, true, TunConfig::standard())
    }

    pub fn get_proxy_addr(&self) -> (r: String)
        ensures
            r@ == self.proxy_addr@,
    {
        self.proxy_addr.clone()
    }
}

impl TunConfig {
    pub open spec fn standard_spec() -> TunConfig {
        TunConfig { address: DEFAULT_TUN_ADDRESS, netmask: DEFAULT_TUN_NETMASK, mtu: DEFAULT_MTU }
    }
}

#[derive(Debug, Clone, Copy, PartialEq, Eq, Structural)]
pub enum RedirectError {
    /// The HTTP proxy path is reserved and not implemented.
    NotImplemented,
    /// The configured proxy address is not a socket address.
    InvalidProxyAddress,
    /// Connection pooling is reserved and not active.
    UnsupportedFeature,
    /// Connecting to the proxy or the SOCKS5 handshake failed.
    UpstreamConnectFailed,
}

/// The two ends that a redirection connects: the proxy, and the destination
/// that the proxy is asked to reach.
#[derive(Debug, Clone, Copy, PartialEq, Eq, Structural)]
pub struct RedirectPlan {
    pub proxy: Endpoint,
    pub target: Endpoint,
}

/// The decision for one flow: HTTP is refused first, then an address that
/// did not parse, then pooling; otherwise SOCKS5 to the flow's destination.
pub open spec fn plan_spec(
    proxy_type: ProxyType,
    proxy: Option<Endpoint>,
    use_pool: bool,
    d: FlowDescriptor,
) -> Result<RedirectPlan, RedirectError> {
    if proxy_type == ProxyType::Http {
        Err(RedirectError::NotImplemented)
    } else {
        match proxy {
            None => Err(RedirectError::InvalidProxyAddress),
            Some(p) => if use_pool {
                Err(RedirectError::UnsupportedFeature)
            } else {
                Ok(RedirectPlan { proxy: p, target: target_of(d) })
            },
        }
    }
}

/// Decides how to redirect the flow `descriptor` under `config`, where
/// `proxy` is the configured proxy address as parsed (`None` where it did
/// not parse). No I/O happens here: a refusal is final before any socket.
pub fn plan_redirect(
    config: &UserConfig,
    proxy: Option<Endpoint>,
    descriptor: &FlowDescriptor,
) -> (r: Result<RedirectPlan, RedirectError>)
    ensures
        r == plan_spec(config.proxy_type, proxy, config.is_use_proxy_pool, *descriptor),
        config.proxy_type == ProxyType::Http ==> r == Err::<RedirectPlan, RedirectError>(
            RedirectError::NotImplemented,
        ),
        config.proxy_type == ProxyType::Socks5 && proxy.is_some() && config.is_use_proxy_pool
            ==> r == Err::<RedirectPlan, RedirectError>(RedirectError::UnsupportedFeature),
{
    if config.proxy_type == ProxyType::Http {
        return Err(RedirectError::NotImplemented);
    }
    match proxy {
        None => Err(RedirectError::InvalidProxyAddress),
        Some(p) => {
            if config.is_use_proxy_pool {
                Err(RedirectError::UnsupportedFeature)
            } else {
                Ok(
                    RedirectPlan {
                        proxy: p,
                        target: Endpoint {
                            address: descriptor.destination_address,
                            port: descriptor.destination_port,
                        },
                    },
                )
            }
        },
    }
}

/// One captured frame, of which the first `n` bytes of `buf` were read: the
/// redirect decision for its flow, or `None` where it yields no descriptor.
pub fn packet_route(
    buf: &[u8],
    n: usize,
    config: &UserConfig,
    proxy: Option<Endpoint>,
) -> (r: Option<Result<RedirectPlan, RedirectError>>)
    requires
        n <= buf@.len(),
    ensures
        r == (match dissect_spec(buf@.subrange(0, n as int)) {
            Some(d) => Some(plan_spec(config.proxy_type, proxy, config.is_use_proxy_pool, d)),
            None => None,
        }),
{
    let frame = slice_subrange(buf, 0, n);
    match dissect(frame) {
        Some(d) => Some(plan_redirect(config, proxy, &d)),
        None => None,
    }
}

} // verus!
