use trojan_r::cipher::{build_provider, get_cipher_name, get_cipher_suite};
use trojan_r::error::ErrorKind;
use trojan_r::launch::{parse_log_level, parse_mode, plan_launch, Layer, LogLevel, Mode, Sections};
use trojan_r::relay::{relay_chunk, RELAY_BUFFER_SIZE};
use trojan_r::session::{session_step, SessionAction, SessionEvent};

const RING_CODES: [u16; 9] = [0x1302, 0x1301, 0x1303, 0xc02c, 0xc02b, 0xcca9, 0xc030, 0xc02f, 0xcca8];

fn names(list: &[&str]) -> Option<Vec<String>> {
    Some(list.iter().map(|n| n.to_string()).collect())
}

#[test]
fn cipher_names_of_known_codes() {
    assert_eq!(get_cipher_name(0x1303), "TLS13_CHACHA20_POLY1305_SHA256");
    assert_eq!(get_cipher_name(0x1302), "TLS13_AES_256_GCM_SHA384");
    assert_eq!(get_cipher_name(0x1301), "TLS13_AES_128_GCM_SHA256");
    assert_eq!(get_cipher_name(0xcca9), "TLS_ECDHE_ECDSA_WITH_CHACHA20_POLY1305_SHA256");
    assert_eq!(get_cipher_name(0xcca8), "TLS_ECDHE_RSA_WITH_CHACHA20_POLY1305_SHA256");
    assert_eq!(get_cipher_name(0xc02c), "TLS_ECDHE_ECDSA_WITH_AES_256_GCM_SHA384");
    assert_eq!(get_cipher_name(0xc02b), "TLS_ECDHE_ECDSA_WITH_AES_128_GCM_SHA256");
    assert_eq!(get_cipher_name(0xc030), "TLS_ECDHE_RSA_WITH_AES_256_GCM_SHA384");
    assert_eq!(get_cipher_name(0xc02f), "TLS_ECDHE_RSA_WITH_AES_128_GCM_SHA256");
}

#[test]
fn cipher_name_of_unknown_code() {
    assert_eq!(get_cipher_name(0x0000), "???");
    assert_eq!(get_cipher_name(0x1304), "???");
}

#[test]
fn no_names_select_every_suite() {
    assert_eq!(get_cipher_suite(None).unwrap(), (0..9).collect::<Vec<usize>>());
}

#[test]
fn names_select_in_their_order() {
    let picked = get_cipher_suite(names(&["TLS_ECDHE_RSA_WITH_CHACHA20_POLY1305_SHA256", "TLS13_AES_256_GCM_SHA384"])).unwrap();
    assert_eq!(picked, vec![8, 0]);
    let twice = get_cipher_suite(names(&["TLS13_AES_128_GCM_SHA256", "TLS13_AES_128_GCM_SHA256"])).unwrap();
    assert_eq!(twice, vec![1, 1]);
    assert!(get_cipher_suite(names(&[])).unwrap().is_empty());
}

#[test]
fn every_name_selects_its_suite() {
    let all: Vec<String> = RING_CODES.iter().map(|&c| get_cipher_name(c).to_string()).collect();
    assert_eq!(get_cipher_suite(Some(all)).unwrap(), get_cipher_suite(None).unwrap());
}

#[test]
fn first_unknown_name_is_refused() {
    let e = get_cipher_suite(names(&["TLS13_AES_128_GCM_SHA256", "???", "NULL"])).unwrap_err();
    assert_eq!(e.kind, ErrorKind::Other);
    assert_eq!(e.message, "tls: bad cipher: ???");
    let e = get_cipher_suite(names(&["tls13_aes_128_gcm_sha256"])).unwrap_err();
    assert_eq!(e.message, "tls: bad cipher: tls13_aes_128_gcm_sha256");
}

#[test]
fn provider_offers_the_selection() {
    assert!(build_provider(None).is_ok());
    assert!(build_provider(names(&["TLS13_CHACHA20_POLY1305_SHA256"])).is_ok());
    let e = build_provider(names(&["AES"])).err().unwrap();
    assert_eq!(e.message, "tls: bad cipher: AES");
}

#[test]
fn log_levels_by_name() {
    let level = |n: &str| parse_log_level(&Some(n.to_string()));
    assert_eq!(level("trace").unwrap(), LogLevel::Trace);
    assert_eq!(level("debug").unwrap(), LogLevel::Debug);
    assert_eq!(level("info").unwrap(), LogLevel::Info);
    assert_eq!(level("warn").unwrap(), LogLevel::Warn);
    assert_eq!(level("error").unwrap(), LogLevel::Error);
    assert_eq!(parse_log_level(&None).unwrap(), LogLevel::Debug);
}

#[test]
fn unknown_log_level_is_refused() {
    let e = parse_log_level(&Some("verbose".to_string())).unwrap_err();
    assert_eq!(e.kind, ErrorKind::Other);
    assert_eq!(e.message, "invalid log_level");
    assert!(parse_log_level(&Some("INFO".to_string())).is_err());
}

#[test]
fn modes_by_name() {
    assert_eq!(parse_mode("server"), Some(Mode::Server));
    assert_eq!(parse_mode("client"), Some(Mode::Client));
    assert_eq!(parse_mode("forward"), Some(Mode::Forward));
    assert_eq!(parse_mode("relay"), None);
    assert_eq!(parse_mode(""), None);
}

fn sections(tls: bool, plaintext: bool, websocket: bool, mux: bool) -> Sections {
    Sections { tls, plaintext, websocket, mux }
}

#[test]
fn server_prefers_tls() {
    let plan = plan_launch(Mode::Server, sections(true, true, false, false)).unwrap();
    assert_eq!(plan.inbound, vec![Layer::Tls, Layer::Trojan]);
    assert_eq!(plan.outbound, vec![Layer::Direct]);
}

#[test]
fn server_over_plaintext_with_everything() {
    let plan = plan_launch(Mode::Server, sections(false, true, true, true)).unwrap();
    assert_eq!(plan.inbound, vec![Layer::Plaintext, Layer::WebSocket, Layer::Trojan, Layer::Mux]);
}

#[test]
fn server_needs_a_transport() {
    let e = plan_launch(Mode::Server, sections(false, false, true, true)).unwrap_err();
    assert_eq!(e.kind, ErrorKind::Other);
    assert_eq!(e.message, "plaintext/tls section not found");
}

#[test]
fn client_and_forward_connect_over_tls() {
    let plan = plan_launch(Mode::Client, sections(false, false, true, false)).unwrap();
    assert_eq!(plan.inbound, vec![Layer::Socks5]);
    assert_eq!(plan.outbound, vec![Layer::Tls, Layer::WebSocket, Layer::Trojan]);
    let plan = plan_launch(Mode::Forward, sections(true, false, false, true)).unwrap();
    assert_eq!(plan.inbound, vec![Layer::Dokodemo]);
    assert_eq!(plan.outbound, vec![Layer::Tls, Layer::Trojan, Layer::Mux]);
}

#[test]
fn relay_forwards_what_was_read() {
    let buf = [7u8; RELAY_BUFFER_SIZE];
    assert_eq!(RELAY_BUFFER_SIZE, 8192);
    assert_eq!(relay_chunk(&buf, 3), Some(&buf[..3]));
    assert_eq!(relay_chunk(&buf, RELAY_BUFFER_SIZE).map(|c| c.len()), Some(RELAY_BUFFER_SIZE));
    assert_eq!(relay_chunk(&buf, 0), None);
}

#[test]
fn session_steps() {
    assert_eq!(session_step(SessionEvent::AcceptedTcp), SessionAction::ConnectTcp);
    assert_eq!(session_step(SessionEvent::AcceptedUdp), SessionAction::ConnectUdp);
    assert_eq!(session_step(SessionEvent::AcceptFailed), SessionAction::LogError);
    assert_eq!(session_step(SessionEvent::TcpConnected), SessionAction::RelayTcp);
    assert_eq!(session_step(SessionEvent::UdpConnected), SessionAction::RelayUdp);
    assert_eq!(session_step(SessionEvent::ConnectFailed), SessionAction::LogError);
}

#[test]
fn relay_session_forwards_the_stream() {
    let reads: [&[u8]; 4] = [b"GET ", b"/ HTTP/1.1", b"", b"late"];
    let mut forwarded = Vec::new();
    for read in reads {
        match relay_chunk(read, read.len()) {
            Some(chunk) => forwarded.extend_from_slice(chunk),
            None => break,
        }
    }
    assert_eq!(forwarded, b"GET / HTTP/1.1".to_vec());
}
