use socks_portal::relay::{relay_read, RelayStep, Side, RELAY_BUFFER_SIZE, REQUEST_BUFFER_SIZE};
use socks_portal::termination::Termination;

#[test]
fn buffers_have_their_fixed_sizes() {
    assert_eq!(REQUEST_BUFFER_SIZE, 1024);
    assert_eq!(RELAY_BUFFER_SIZE, 2048);
}

#[test]
fn each_side_has_the_other_as_its_opposite() {
    assert_eq!(Side::Client.other(), Side::Upstream);
    assert_eq!(Side::Upstream.other(), Side::Client);
    assert_eq!(Side::Client.other().other(), Side::Client);
}

#[test]
fn bytes_from_the_client_go_to_the_upstream() {
    let data = b"GET / HTTP/1.1\r\n\r\n";
    assert_eq!(
        relay_read(Side::Client, Some(data)),
        RelayStep::Forward { to: Side::Upstream, data }
    );
}

#[test]
fn bytes_from_the_upstream_go_to_the_client() {
    let data = [0u8, 255, 1, 254, 13, 10];
    assert_eq!(
        relay_read(Side::Upstream, Some(&data)),
        RelayStep::Forward { to: Side::Client, data: &data }
    );
}

#[test]
fn a_single_byte_is_forwarded() {
    assert_eq!(
        relay_read(Side::Client, Some(&[42])),
        RelayStep::Forward { to: Side::Upstream, data: &[42] }
    );
}

#[test]
fn a_full_buffer_is_forwarded_whole() {
    let buf = [0x5Au8; RELAY_BUFFER_SIZE];
    match relay_read(Side::Upstream, Some(&buf)) {
        RelayStep::Forward { to, data } => {
            assert_eq!(to, Side::Client);
            assert_eq!(data.len(), RELAY_BUFFER_SIZE);
            assert_eq!(data, &buf[..]);
        }
        other => panic!("{:?}", other),
    }
}

#[test]
fn an_empty_read_closes_the_relay_without_fault() {
    assert_eq!(
        relay_read(Side::Client, Some(&[])),
        RelayStep::Close { cause: Termination::RelayNormalClose }
    );
    assert_eq!(
        relay_read(Side::Upstream, Some(&[])),
        RelayStep::Close { cause: Termination::RelayNormalClose }
    );
}

#[test]
fn a_failed_read_closes_the_relay_with_a_fault() {
    assert_eq!(relay_read(Side::Client, None), RelayStep::Close { cause: Termination::RelayFault });
    assert_eq!(relay_read(Side::Upstream, None), RelayStep::Close { cause: Termination::RelayFault });
}
