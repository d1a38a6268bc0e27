//! Verified core of a Trojan proxy: the TLS connector's configuration
//! logic (cipher-suite selection, certificate and key loading, trust-store
//! assembly), the launch planning that decides which protocol layers are
//! stacked for each mode, and the relay's per-read decision.

pub mod error;
pub mod cipher;
pub mod pem;
pub mod tls;
pub mod relay;
pub mod launch;
pub mod session;
