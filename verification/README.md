# trojan-r (verified core)

The configuration and decision logic of the Trojan-R proxy, written in Verus.

- `src/` is the verified library:
  - `error.rs`: the library's error type and the TLS layer's error constructor;
  - `cipher.rs`: cipher-suite names, selection of suites of rustls's ring provider by name, and the provider built from a selection;
  - `pem.rs`: certificates and private keys read from PEM text with rustls-pemfile;
  - `tls.rs`: the TLS connector's settings, trust store and client configuration;
  - `launch.rs`: log level, mode and the protocol layers each mode stacks;
  - `relay.rs`: what a relay forwards after each read, and over a whole session;
  - `session.rs`: what the accept loop and each stream's task do on each event.
- `app/` is the executable around it: command line, configuration files, logging and the asynchronous network plumbing.
- `tests/` runs the library on concrete inputs.
