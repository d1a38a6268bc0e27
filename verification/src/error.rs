use vstd::prelude::*;

verus! {

/// What went wrong, in the terms a caller of the library acts on.
#[derive(Debug, Clone, Copy, PartialEq, Eq, Structural)]
pub enum ErrorKind {
    /// A rule of this library refused the input.
    Other,
    /// A value handed in (a certificate, a server name, a TLS setting) was refused.
    InvalidInput,
    /// Reading PEM data failed.
    Io,
}

/// The library's error: a kind and a human-readable message.
#[derive(Debug)]
pub struct Error {
    pub kind: ErrorKind,
    pub message: String,
}

/// The message carried by errors that the TLS layer raises itself.
pub open spec fn tls_message(message: Seq<char>) -> Seq<char> {
    "tls: "@ + message
}

/// Builds an error of the TLS layer: its message is `message` behind the prefix `"tls: "`.
pub fn new_error(message: &str) -> (e: Error)
    ensures
        e.kind == ErrorKind::Other,
        e.message@ == tls_message(message@),
{
    let mut text = String::from_str("tls: ");
    text.append(message);
    Error { kind: ErrorKind::Other, message: text }
}

} // verus!
