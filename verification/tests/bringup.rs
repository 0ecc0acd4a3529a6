use pollnet::{
    Endpoint, LinkStatus, NetStack, SetupError, SimClock, SimStack, StackError,
    acquire_and_connect, bring_up, wait_for_ip, wait_for_started,
};

fn quiet_stack(script: Vec<LinkStatus>, pool: usize) -> SimStack {
    SimStack::new(script, pool, 4, 0, 0, 0, vec![], vec![], true, true, 8)
}

#[test]
fn bring_up_walks_the_documented_states_in_order() {
    // Idle, then Started, then Started+Connected+IpDone: the sequencer
    // observes the three states in script order and reports the address.
    let script = vec![
        LinkStatus::Idle,
        LinkStatus::Idle,
        LinkStatus::Started,
        LinkStatus::Associated,
        LinkStatus::IpAssigned(0x0A00_0003),
    ];
    let mut stack = quiet_stack(script, 3);
    let mut clock = SimClock::new(0, 1);
    let ip = bring_up(&mut stack, &mut clock, &b"net".to_vec(), &b"pass".to_vec(), 16).unwrap();
    assert_eq!(ip, 0x0A00_0003);
    // only now may a socket be taken
    let sock = acquire_and_connect(&mut stack, Endpoint { addr: 1, port: 80 }, 1000);
    assert!(sock.is_ok());
}

#[test]
fn bring_up_rejects_empty_ssid() {
    let mut stack = quiet_stack(vec![LinkStatus::IpAssigned(1)], 3);
    let mut clock = SimClock::new(0, 1);
    let r = bring_up(&mut stack, &mut clock, &Vec::new(), &b"pass".to_vec(), 16);
    assert_eq!(r, Err(SetupError::BadConfig));
}

#[test]
fn bring_up_rejects_over_long_credentials() {
    let mut stack = quiet_stack(vec![LinkStatus::IpAssigned(1)], 3);
    let mut clock = SimClock::new(0, 1);
    let long_ssid = vec![b'a'; 33];
    assert_eq!(
        bring_up(&mut stack, &mut clock, &long_ssid, &b"p".to_vec(), 16),
        Err(SetupError::BadConfig)
    );
    let mut stack2 = quiet_stack(vec![LinkStatus::IpAssigned(1)], 3);
    let long_psk = vec![b'k'; 64];
    assert_eq!(
        bring_up(&mut stack2, &mut clock, &b"net".to_vec(), &long_psk, 16),
        Err(SetupError::BadConfig)
    );
}

#[test]
fn start_client_reports_a_config_error() {
    let mut stack = quiet_stack(vec![LinkStatus::Idle], 3);
    assert_eq!(stack.start_client(&Vec::new(), &Vec::new()), Err(StackError::Config));
    assert_eq!(stack.start_client(&b"net".to_vec(), &Vec::new()), Ok(()));
}

#[test]
fn wait_for_started_times_out_on_an_idle_radio() {
    let mut stack = quiet_stack(vec![LinkStatus::Idle], 3);
    assert_eq!(wait_for_started(&mut stack, 5), Err(SetupError::TimedOut));
}

#[test]
fn wait_for_ip_times_out_without_an_address() {
    let mut stack = quiet_stack(vec![LinkStatus::Idle, LinkStatus::Started], 3);
    stack.disable_watchdogs();
    let mut clock = SimClock::new(0, 1);
    assert_eq!(wait_for_ip(&mut stack, &mut clock, 5), Err(SetupError::TimedOut));
}

#[test]
fn wait_for_ip_surfaces_link_errors() {
    let mut stack = SimStack::new(
        vec![LinkStatus::Started],
        3,
        0,
        2, // the next polls report errors
        0,
        0,
        vec![],
        vec![],
        true,
        true,
        8,
    );
    stack.disable_watchdogs();
    let mut clock = SimClock::new(0, 1);
    assert_eq!(
        wait_for_ip(&mut stack, &mut clock, 5),
        Err(SetupError::Link(StackError::Illegal))
    );
}

#[test]
fn empty_pool_is_fatal() {
    let mut stack = quiet_stack(vec![LinkStatus::IpAssigned(9)], 0);
    let mut clock = SimClock::new(0, 1);
    bring_up(&mut stack, &mut clock, &b"net".to_vec(), &b"pass".to_vec(), 16).unwrap();
    assert_eq!(
        acquire_and_connect(&mut stack, Endpoint { addr: 1, port: 80 }, 1000),
        Err(SetupError::PoolEmpty)
    );
}

#[test]
fn malformed_endpoint_is_fatal() {
    let mut stack = quiet_stack(vec![LinkStatus::IpAssigned(9)], 3);
    let mut clock = SimClock::new(0, 1);
    bring_up(&mut stack, &mut clock, &b"net".to_vec(), &b"pass".to_vec(), 16).unwrap();
    assert_eq!(
        acquire_and_connect(&mut stack, Endpoint { addr: 1, port: 0 }, 1000),
        Err(SetupError::BadEndpoint)
    );
    assert_eq!(
        acquire_and_connect(&mut stack, Endpoint { addr: 0, port: 80 }, 1000),
        Err(SetupError::BadEndpoint)
    );
}

#[test]
fn connect_rejects_an_unaddressable_endpoint() {
    let mut stack = quiet_stack(vec![LinkStatus::IpAssigned(9)], 3);
    let sock = stack.take_socket().unwrap();
    assert_eq!(
        stack.connect(&sock, Endpoint { addr: 5, port: 0 }, 1000),
        Err(StackError::Unaddressable)
    );
    assert_eq!(stack.connect(&sock, Endpoint { addr: 5, port: 443 }, 1000), Ok(()));
}
