use vstd::prelude::*;

use crate::error::{Error, ErrorKind};

verus! {

/// How much the proxy logs.
#[derive(Debug, Clone, Copy, PartialEq, Eq, Structural)]
pub enum LogLevel {
    Trace,
    Debug,
    Info,
    Warn,
    Error,
}

/// The role the proxy runs in.
#[derive(Debug, Clone, Copy, PartialEq, Eq, Structural)]
pub enum Mode {
    /// Accepts Trojan connections and connects out directly.
    Server,
    /// Accepts SOCKS5 connections and relays them through a Trojan server.
    Client,
    /// Accepts connections to a fixed target and relays them through a Trojan server.
    Forward,
}

/// A protocol layer of an inbound (accepting) or outbound (connecting) stack.
#[derive(Debug, Clone, Copy, PartialEq, Eq, Structural)]
pub enum Layer {
    Socks5,
    Dokodemo,
    Plaintext,
    Tls,
    WebSocket,
    Trojan,
    Mux,
    Direct,
}

/// The settings every configuration starts with.
pub struct GlobalConfig {
    pub mode: String,
    pub log_level: Option<String>,
}

/// Which optional sections a mode's configuration has.
#[derive(Debug, Clone, Copy, PartialEq, Eq, Structural)]
pub struct Sections {
    pub tls: bool,
    pub plaintext: bool,
    pub websocket: bool,
    pub mux: bool,
}

/// The layers to stack, each list from the transport upward.
#[derive(Debug)]
pub struct LaunchPlan {
    pub inbound: Vec<Layer>,
    pub outbound: Vec<Layer>,
}

/// The log level a configuration names with `name`, if it names one.
pub open spec fn log_level_named(name: Seq<char>) -> Option<LogLevel> {
    if name == "trace"@ {
        Some(LogLevel::Trace)
    } else if name == "debug"@ {
        Some(LogLevel::Debug)
    } else if name == "info"@ {
        Some(LogLevel::Info)
    } else if name == "warn"@ {
        Some(LogLevel::Warn)
    } else if name == "error"@ {
        Some(LogLevel::Error)
    } else {
        None
    }
}

/// The mode a configuration names with `name`, if it names one.
pub open spec fn mode_named(name: Seq<char>) -> Option<Mode> {
    if name == "server"@ {
        Some(Mode::Server)
    } else if name == "client"@ {
        Some(Mode::Client)
    } else if name == "forward"@ {
        Some(Mode::Forward)
    } else {
        None
    }
}

/// The Trojan stack over the transport `base`: WebSocket framing where
/// configured, then Trojan, then multiplexing where configured.
pub open spec fn trojan_stack(base: Layer, websocket: bool, mux: bool) -> Seq<Layer> {
    seq![base] + (if websocket { seq![Layer::WebSocket] } else { Seq::empty() }) + seq![Layer::Trojan]
        + (if mux { seq![Layer::Mux] } else { Seq::empty() })
}

/// The (inbound, outbound) stacks a mode runs with the sections `s`; `None`
/// where a server has neither a TLS nor a plaintext section.
pub open spec fn plan_layers(mode: Mode, s: Sections) -> Option<(Seq<Layer>, Seq<Layer>)> {
    match mode {
        Mode::Server => if s.tls {
            Some((trojan_stack(Layer::Tls, s.websocket, s.mux), seq![Layer::Direct]))
        } else if s.plaintext {
            Some((trojan_stack(Layer::Plaintext, s.websocket, s.mux), seq![Layer::Direct]))
        } else {
            None
        },
        Mode::Client => Some((seq![Layer::Socks5], trojan_stack(Layer::Tls, s.websocket, s.mux))),
        Mode::Forward => Some((seq![Layer::Dokodemo], trojan_stack(Layer::Tls, s.websocket, s.mux))),
    }
}

/// `a` and `b` hold the same characters.
fn same_text(a: &str, b: &str) -> (same: bool)
    ensures
        same == (a@ == b@),
{
    String::from_str(a) == String::from_str(b)
}

/// The log level the configuration asks for: debug when it names none; the
/// name must be one of `trace`, `debug`, `info`, `warn` or `error`.
pub fn parse_log_level(log_level: &Option<String>) -> (res: Result<LogLevel, Error>)
    ensures
        match log_level {
            None => res matches Ok(level) && level == LogLevel::Debug,
            Some(name) => match log_level_named(name@) {
                Some(level) => res matches Ok(found) && found == level,
                None => res matches Err(e) && e.kind == ErrorKind::Other
                    && e.message@ == "invalid log_level"@,
            },
        },
{
    match log_level {
        None => Ok(LogLevel::Debug),
        Some(name) => {
            let name = name.as_str();
            if same_text(name, "trace") {
                Ok(LogLevel::Trace)
            } else if same_text(name, "debug") {
                Ok(LogLevel::Debug)
            } else if same_text(name, "info") {
                Ok(LogLevel::Info)
            } else if same_text(name, "warn") {
                Ok(LogLevel::Warn)
            } else if same_text(name, "error") {
                Ok(LogLevel::Error)
            } else {
                Err(Error { kind: ErrorKind::Other, message: String::from_str("invalid log_level") })
            }
        },
    }
}

/// The mode the configuration names; `None` for a name that is no mode.
pub fn parse_mode(mode: &str) -> (res: Option<Mode>)
    ensures
        res == mode_named(mode@),
{
    if same_text(mode, "server") {
        Some(Mode::Server)
    } else if same_text(mode, "client") {
        Some(Mode::Client)
    } else if same_text(mode, "forward") {
        Some(Mode::Forward)
    } else {
        None
    }
}

/// The Trojan stack over `base` (see `trojan_stack`).
fn build_trojan_stack(base: Layer, websocket: bool, mux: bool) -> (stack: Vec<Layer>)
    ensures
        stack@ == trojan_stack(base, websocket, mux),
{
    let mut stack: Vec<Layer> = Vec::new();
    stack.push(base);
    if websocket {
        stack.push(Layer::WebSocket);
    }
    stack.push(Layer::Trojan);
    if mux {
        stack.push(Layer::Mux);
    }
    assert(stack@ =~= trojan_stack(base, websocket, mux));
    stack
}

/// The layers a mode stacks with the given sections. A server listens over
/// TLS where it has a TLS section, else in plaintext where it has a plaintext
/// section, and is refused where it has neither; clients and forwarders
/// always connect over TLS.
pub fn plan_launch(mode: Mode, sections: Sections) -> (res: Result<LaunchPlan, Error>)
    ensures
        match plan_layers(mode, sections) {
            Some((inbound, outbound)) => res matches Ok(plan)
                && plan.inbound@ == inbound && plan.outbound@ == outbound,
            None => res matches Err(e) && e.kind == ErrorKind::Other
                && e.message@ == "plaintext/tls section not found"@,
        },
{
    match mode {
        Mode::Server => {
            let base = if sections.tls {
                Layer::Tls
            } else if sections.plaintext {
                Layer::Plaintext
            } else {
                return Err(Error {
                    kind: ErrorKind::Other,
                    message: String::from_str("plaintext/tls section not found"),
                });
            };
            let inbound = build_trojan_stack(base, sections.websocket, sections.mux);
            let outbound = vec![Layer::Direct];
            assert(outbound@ =~= seq![Layer::Direct]);
            Ok(LaunchPlan { inbound, outbound })
        },
        Mode::Client => {
            let inbound = vec![Layer::Socks5];
            assert(inbound@ =~= seq![Layer::Socks5]);
            let outbound = build_trojan_stack(Layer::Tls, sections.websocket, sections.mux);
            Ok(LaunchPlan { inbound, outbound })
        },
        Mode::Forward => {
            let inbound = vec![Layer::Dokodemo];
            assert(inbound@ =~= seq![Layer::Dokodemo]);
            let outbound = build_trojan_stack(Layer::Tls, sections.websocket, sections.mux);
            Ok(LaunchPlan { inbound, outbound })
        },
    }
}

/// A server listens over TLS whenever it has a TLS section, whether or not it
/// also has a plaintext one; it is refused exactly when it has neither.
pub proof fn lemma_server_transport(s: Sections)
    ensures
        s.tls ==> (plan_layers(Mode::Server, s) matches Some((inbound, _)) && inbound[0] == Layer::Tls),
        !s.tls && s.plaintext ==> (plan_layers(Mode::Server, s) matches Some((inbound, _))
            && inbound[0] == Layer::Plaintext),
        plan_layers(Mode::Server, s) is None <==> (!s.tls && !s.plaintext),
{
}

/// Clients and forwarders always reach the server over TLS, and always plan
/// a launch.
pub proof fn lemma_connectors_use_tls(mode: Mode, s: Sections)
    requires
        mode != Mode::Server,
    ensures
        plan_layers(mode, s) matches Some((_, outbound)) && outbound[0] == Layer::Tls,
{
}

/// The Trojan side of every plan carries Trojan exactly once, and its top
/// layer is multiplexing exactly when a mux section is configured, Trojan
/// otherwise; WebSocket framing sits right under Trojan exactly when
/// configured.
pub proof fn lemma_trojan_side(mode: Mode, s: Sections)
    requires
        plan_layers(mode, s) is Some,
    ensures
        ({
            let (inbound, outbound) = plan_layers(mode, s)->Some_0;
            let side = if mode == Mode::Server { inbound } else { outbound };
            &&& side.filter(|l: Layer| l == Layer::Trojan).len() == 1
            &&& side.last() == (if s.mux { Layer::Mux } else { Layer::Trojan })
            &&& (side[1] == Layer::WebSocket <==> s.websocket)
        }),
{
    let (inbound, outbound) = plan_layers(mode, s)->Some_0;
    let side = if mode == Mode::Server { inbound } else { outbound };
    let f = |l: Layer| l == Layer::Trojan;
    reveal_with_fuel(Seq::filter, 5);
    assert(side.filter(f).len() == 1) by {
        assert(side.len() <= 4);
        if s.websocket && s.mux {
            assert(side =~= seq![side[0], Layer::WebSocket, Layer::Trojan, Layer::Mux]);
        } else if s.websocket {
            assert(side =~= seq![side[0], Layer::WebSocket, Layer::Trojan]);
        } else if s.mux {
            assert(side =~= seq![side[0], Layer::Trojan, Layer::Mux]);
        } else {
            assert(side =~= seq![side[0], Layer::Trojan]);
        }
        assert(side[0] != Layer::Trojan);
    }
}

/// The side of a plan that does not speak Trojan is fixed by the mode alone:
/// a client accepts SOCKS5, a forwarder accepts connections to its fixed
/// target (dokodemo), and a server connects out directly; none of the
/// optional sections changes it, and it never holds TLS, WebSocket, Trojan or
/// multiplexing.
pub proof fn lemma_plain_side(mode: Mode, s: Sections, t: Sections)
    requires
        plan_layers(mode, s) is Some,
        plan_layers(mode, t) is Some,
    ensures
        ({
            let (inbound, outbound) = plan_layers(mode, s)->Some_0;
            let (inbound_t, outbound_t) = plan_layers(mode, t)->Some_0;
            let plain = if mode == Mode::Server { outbound } else { inbound };
            let plain_t = if mode == Mode::Server { outbound_t } else { inbound_t };
            &&& plain == plain_t
            &&& mode == Mode::Client ==> inbound == seq![Layer::Socks5]
            &&& mode == Mode::Forward ==> inbound == seq![Layer::Dokodemo]
            &&& mode == Mode::Server ==> outbound == seq![Layer::Direct]
            &&& !plain.contains(Layer::Mux)
            &&& !plain.contains(Layer::Trojan)
            &&& !plain.contains(Layer::Tls)
            &&& !plain.contains(Layer::WebSocket)
        }),
{
    let (inbound, outbound) = plan_layers(mode, s)->Some_0;
    let plain = if mode == Mode::Server { outbound } else { inbound };
    assert(plain.len() == 1);
    assert(!plain.contains(Layer::Mux)) by {
        if plain.contains(Layer::Mux) {
            let i = choose|i: int| 0 <= i < plain.len() && plain[i] == Layer::Mux;
            assert(i == 0);
        }
    }
    assert(!plain.contains(Layer::Trojan)) by {
        if plain.contains(Layer::Trojan) {
            let i = choose|i: int| 0 <= i < plain.len() && plain[i] == Layer::Trojan;
            assert(i == 0);
        }
    }
    assert(!plain.contains(Layer::Tls)) by {
        if plain.contains(Layer::Tls) {
            let i = choose|i: int| 0 <= i < plain.len() && plain[i] == Layer::Tls;
            assert(i == 0);
        }
    }
    assert(!plain.contains(Layer::WebSocket)) by {
        if plain.contains(Layer::WebSocket) {
            let i = choose|i: int| 0 <= i < plain.len() && plain[i] == Layer::WebSocket;
            assert(i == 0);
        }
    }
}

/// Multiplexing is stacked on the Trojan side of a plan, and there exactly
/// when a mux section is configured; the Trojan side always carries Trojan.
pub proof fn lemma_mux_on_trojan_side(mode: Mode, s: Sections)
    requires
        plan_layers(mode, s) is Some,
    ensures
        ({
            let (inbound, outbound) = plan_layers(mode, s)->Some_0;
            let side = if mode == Mode::Server { inbound } else { outbound };
            &&& side.contains(Layer::Mux) <==> s.mux
            &&& side.contains(Layer::Trojan)
            &&& (inbound.contains(Layer::Mux) || outbound.contains(Layer::Mux)) <==> s.mux
        }),
{
    let (inbound, outbound) = plan_layers(mode, s)->Some_0;
    let side = if mode == Mode::Server { inbound } else { outbound };
    let plain = if mode == Mode::Server { outbound } else { inbound };
    lemma_plain_side(mode, s, s);
    if s.mux {
        assert(side[side.len() - 1] == Layer::Mux);
    } else {
        assert(!side.contains(Layer::Mux)) by {
            if side.contains(Layer::Mux) {
                let i = choose|i: int| 0 <= i < side.len() && side[i] == Layer::Mux;
                if s.websocket {
                    assert(side =~= seq![side[0], Layer::WebSocket, Layer::Trojan]);
                } else {
                    assert(side =~= seq![side[0], Layer::Trojan]);
                }
                assert(side[0] == Layer::Tls || side[0] == Layer::Plaintext);
            }
        }
    }
    if s.websocket {
        assert(side[2] == Layer::Trojan);
    } else {
        assert(side[1] == Layer::Trojan);
    }
}

} // verus!
