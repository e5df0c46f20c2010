use min_tun2proxy::packet::{dissect, Endpoint, FlowDescriptor, IpAddress, IpVersion, Transport};
use min_tun2proxy::pool::Socks5ConnectionManager;
use min_tun2proxy::redirect::{
    packet_route, plan_redirect, ProxyType, RedirectError, RedirectPlan, TunConfig, UserConfig,
};
use min_tun2proxy::relay::{Direction, RelayAction, RelaySession, RELAY_BUFFER_LEN};
use min_tun2proxy::route::{RouteLifecycle, RouteStep};

fn example_flow() -> FlowDescriptor {
    FlowDescriptor {
        network_version: IpVersion::V4,
        destination_address: IpAddress::V4(0x5db8_d822),
        destination_port: 80,
        transport: Transport::Tcp,
    }
}

fn proxy() -> Endpoint {
    Endpoint { address: IpAddress::V4(0x7f00_0001), port: 1080 }
}

fn config(kind: ProxyType, pool: bool) -> UserConfig {
    UserConfig::new(kind, "127.0.0.1:1080".to_string(), pool, true, TunConfig::standard())
}

#[test]
fn http_is_not_implemented() {
    let r = plan_redirect(&config(ProxyType::Http, false), Some(proxy()), &example_flow());
    assert_eq!(r, Err(RedirectError::NotImplemented));
    let r = plan_redirect(&config(ProxyType::Http, true), None, &example_flow());
    assert_eq!(r, Err(RedirectError::NotImplemented));
}

#[test]
fn pool_is_unsupported() {
    let r = plan_redirect(&config(ProxyType::Socks5, true), Some(proxy()), &example_flow());
    assert_eq!(r, Err(RedirectError::UnsupportedFeature));
}

#[test]
fn unparsed_proxy_is_invalid() {
    let r = plan_redirect(&config(ProxyType::Socks5, true), None, &example_flow());
    assert_eq!(r, Err(RedirectError::InvalidProxyAddress));
}

#[test]
fn socks5_plan_targets_flow() {
    let r = plan_redirect(&config(ProxyType::Socks5, false), Some(proxy()), &example_flow());
    let plan = RedirectPlan {
        proxy: proxy(),
        target: Endpoint { address: IpAddress::V4(0x5db8_d822), port: 80 },
    };
    assert_eq!(r, Ok(plan));
    let m = Socks5ConnectionManager::from_plan(&plan);
    assert_eq!(m.proxy_addr, proxy());
    assert_eq!(m.target_addr, plan.target);
    assert!(!m.has_broken());
}

#[test]
fn packet_route_reads_only_what_was_read() {
    let mut buf = vec![0u8; 1504];
    let mut f = vec![0, 0, 0, 0, 0, 1, 0, 0, 0, 0, 0, 2, 0x08, 0x00];
    f.extend_from_slice(&[0x45, 0, 0, 40, 0, 0, 0, 0, 64, 6, 0, 0, 10, 0, 0, 1, 93, 184, 216, 34]);
    let mut t = vec![0u8; 20];
    t[3] = 80;
    f.extend_from_slice(&t);
    buf[..f.len()].copy_from_slice(&f);
    let c = config(ProxyType::Socks5, false);
    assert_eq!(dissect(&f), Some(example_flow()));
    let r = packet_route(&buf, f.len(), &c, Some(proxy()));
    assert_eq!(
        r,
        Some(Ok(RedirectPlan {
            proxy: proxy(),
            target: Endpoint { address: IpAddress::V4(0x5db8_d822), port: 80 },
        }))
    );
    assert_eq!(packet_route(&buf, 30, &c, Some(proxy())), None);
    assert_eq!(packet_route(&buf, 0, &c, Some(proxy())), None);
}

#[test]
fn user_config_defaults() {
    let c = UserConfig::from_proxy_addr("192.168.2.1:8090".to_string());
    assert_eq!(c.proxy_type, ProxyType::Socks5);
    assert_eq!(c.get_proxy_addr(), "192.168.2.1:8090");
    assert!(!c.is_use_proxy_pool);
    assert!(c.is_free_route_table);
    assert_eq!(
        c.tun_conf,
        TunConfig { address: 0x0a00_0001, netmask: 0xffff_ff00, mtu: 1500 }
    );
}

#[test]
fn relay_ends_only_when_both_directions_end() {
    let mut s = RelaySession::new();
    assert!(!s.is_finished());
    assert_eq!(s.on_read(Direction::ToUpstream, Some(RELAY_BUFFER_LEN)), RelayAction::Forward(1500));
    assert_eq!(s.on_write(Direction::ToUpstream, true), RelayAction::Continue);
    assert!(s.is_open_exec(Direction::ToUpstream));
    assert_eq!(s.on_read(Direction::ToUpstream, Some(0)), RelayAction::EndDirection);
    assert!(!s.is_open_exec(Direction::ToUpstream));
    assert!(s.is_open_exec(Direction::FromUpstream));
    assert!(!s.is_finished());
    assert_eq!(s.on_read(Direction::FromUpstream, Some(7)), RelayAction::Forward(7));
    assert_eq!(s.on_write(Direction::FromUpstream, false), RelayAction::EndDirection);
    assert!(s.is_finished());
}

#[test]
fn relay_read_error_ends_one_direction() {
    let mut s = RelaySession::new();
    assert_eq!(s.on_read(Direction::FromUpstream, None), RelayAction::EndDirection);
    assert!(s.is_open_exec(Direction::ToUpstream));
    assert!(!s.is_finished());
}

#[test]
fn route_init_then_free_twice() {
    let mut t = RouteLifecycle::new();
    assert_eq!(t.init_route_table(), RouteStep::Install);
    assert_eq!(t.init_route_table(), RouteStep::Nothing);
    assert_eq!(t.free_route_table(), RouteStep::Remove);
    assert_eq!(t.free_route_table(), RouteStep::Nothing);
    let mut u = RouteLifecycle::new();
    assert_eq!(u.free_route_table(), RouteStep::Nothing);
}
