use rustls_pemfile::{certs, private_key};
use tokio_rustls::rustls::pki_types::PrivateKeyDer;
use vstd::prelude::*;

use crate::error::{new_error, tls_message, Error, ErrorKind};

verus! {

/// std's I/O error, which rustls-pemfile reports malformed PEM with.
#[verifier::external_type_specification]
#[verifier::external_body]
pub struct ExIoError(std::io::Error);

/// A DER-encoded private key (PKCS#1, SEC1 or PKCS#8) as rustls takes it.
#[verifier::external_type_specification]
#[verifier::external_body]
pub struct ExPrivateKeyDer<'a>(PrivateKeyDer<'a>);

/// The text std's I/O error `e` displays.
pub uninterp spec fn io_error_text(e: std::io::Error) -> Seq<char>;

/// What rustls-pemfile's `certs` yields on the PEM text `pem`, all collected:
/// the DER bytes of every certificate section in order, or the text of the
/// error it reports.
pub uninterp spec fn pem_certs(pem: Seq<u8>) -> Result<Seq<Seq<u8>>, Seq<char>>;

/// What one call of rustls-pemfile's `private_key` does on a reader over
/// `input`: the text of the error it reports, `Ok(None)` where it finds no
/// private key, and `Ok(Some((key, n)))` where it returns `key` and `n`
/// bytes of `input` are left unread.
pub uninterp spec fn pem_private_key(input: Seq<u8>) -> Result<Option<(PrivateKeyDer<'static>, nat)>, Seq<char>>;

/// std's `Display` of an I/O error, through `ToString::to_string`: the
/// contract claims the text is `io_error_text(e)`.
#[verifier::external_body]
fn io_error_message(e: &std::io::Error) -> (text: String)
    ensures
        text@ == io_error_text(*e),
{
    e.to_string()
}

/// rustls-pemfile's `certs` over a reader of `pem`, collected, each
/// certificate taken as its DER bytes: the contract claims the result is
/// `pem_certs(pem)`, an error included.
#[verifier::external_body]
fn read_pem_certs(pem: &[u8]) -> (res: Result<Vec<Vec<u8>>, std::io::Error>)
    ensures
        match res {
            Ok(found) => pem_certs(pem@) == Ok::<Seq<Seq<u8>>, Seq<char>>(found.deep_view()),
            Err(e) => pem_certs(pem@) == Err::<Seq<Seq<u8>>, Seq<char>>(io_error_text(e)),
        },
{
    let mut reader = pem;
    let found: Result<Vec<_>, _> = certs(&mut reader).collect();
    found.map(|list| list.into_iter().map(|cert| cert.to_vec()).collect())
}

/// rustls-pemfile's `private_key` over a reader of `input`, with what the
/// reader has left: the contract claims the outcome is `pem_private_key(input)`
/// (the key or the error included) and that what is left is a suffix of
/// `input`, a strictly shorter one when a key was returned (a key section is
/// read line by line, its closing line included).
#[verifier::external_body]
fn read_private_key<'a>(input: &'a [u8]) -> (res: (Result<Option<PrivateKeyDer<'static>>, std::io::Error>, &'a [u8]))
    ensures
        res.1@.len() <= input@.len(),
        res.1@ == input@.subrange(input@.len() - res.1@.len(), input@.len() as int),
        match res.0 {
            Err(e) => pem_private_key(input@)
                == Err::<Option<(PrivateKeyDer<'static>, nat)>, Seq<char>>(io_error_text(e)),
            Ok(None) => pem_private_key(input@)
                == Ok::<Option<(PrivateKeyDer<'static>, nat)>, Seq<char>>(None),
            Ok(Some(key)) => pem_private_key(input@)
                == Ok::<Option<(PrivateKeyDer<'static>, nat)>, Seq<char>>(Some((key, res.1@.len())))
                && res.1@.len() < input@.len(),
        },
{
    let mut reader = input;
    let key = private_key(&mut reader);
    (key, reader)
}

/// The private keys successive calls of rustls-pemfile's `private_key`
/// return from `input`, in order, up to the first call that finds none; the
/// text of the error where a call reports one first.
pub open spec fn pem_keys(input: Seq<u8>) -> Result<Seq<PrivateKeyDer<'static>>, Seq<char>>
    decreases input.len(),
{
    match pem_private_key(input) {
        Err(text) => Err(text),
        Ok(None) => Ok(Seq::empty()),
        Ok(Some((key, left))) => if left < input.len() {
            match pem_keys(input.subrange(input.len() - left, input.len() as int)) {
                Err(text) => Err(text),
                Ok(rest) => Ok(seq![key] + rest),
            }
        } else {
            Ok(Seq::empty())
        },
    }
}

/// The error that reports a failure of the PEM reader: it carries the
/// reader's message.
fn io_error(e: std::io::Error) -> (err: Error)
    ensures
        err.kind == ErrorKind::Io,
        err.message@ == io_error_text(e),
{
    Error { kind: ErrorKind::Io, message: io_error_message(&e) }
}

/// The DER bytes of every certificate in the PEM text `pem`, in order;
/// sections of other kinds are skipped. Malformed PEM is refused with the
/// PEM reader's message.
pub fn load_cert(pem: &[u8]) -> (res: Result<Vec<Vec<u8>>, Error>)
    ensures
        match res {
            Ok(found) => pem_certs(pem@) == Ok::<Seq<Seq<u8>>, Seq<char>>(found.deep_view()),
            Err(e) => pem_certs(pem@) == Err::<Seq<Seq<u8>>, Seq<char>>(e.message@)
                && e.kind == ErrorKind::Io,
        },
{
    match read_pem_certs(pem) {
        Ok(found) => Ok(found),
        Err(e) => Err(io_error(e)),
    }
}

/// The message of the error that reports PEM text without a private key.
pub open spec fn no_key_message() -> Seq<char> {
    tls_message("no valid key found"@)
}

/// Every private key in the PEM text `pem`, in order; sections of other
/// kinds are skipped. Refuses text with no key, and malformed PEM with the
/// PEM reader's message.
pub fn load_key(pem: &[u8]) -> (res: Result<Vec<PrivateKeyDer<'static>>, Error>)
    ensures
        match res {
            Ok(keys) => keys.len() > 0
                && pem_keys(pem@) == Ok::<Seq<PrivateKeyDer<'static>>, Seq<char>>(keys@),
            Err(e) => {
                ||| pem_keys(pem@) == Err::<Seq<PrivateKeyDer<'static>>, Seq<char>>(e.message@)
                    && e.kind == ErrorKind::Io
                ||| pem_keys(pem@) == Ok::<Seq<PrivateKeyDer<'static>>, Seq<char>>(Seq::empty())
                    && e.kind == ErrorKind::Other && e.message@ == no_key_message()
            },
        },
{
    let mut rest: &[u8] = pem;
    let mut keys: Vec<PrivateKeyDer<'static>> = Vec::new();
    loop
        invariant
            match pem_keys(pem@) {
                Err(text) => pem_keys(rest@) == Err::<Seq<PrivateKeyDer<'static>>, Seq<char>>(text),
                Ok(all) => pem_keys(rest@) matches Ok(later) && all == keys@ + later,
            },
        ensures
            pem_keys(pem@) == Ok::<Seq<PrivateKeyDer<'static>>, Seq<char>>(keys@),
        decreases rest@.len(),
    {
        let (found, left) = read_private_key(rest);
        match found {
            Err(e) => {
                return Err(io_error(e));
            },
            Ok(None) => {
                break;
            },
            Ok(Some(key)) => {
                let ghost before = keys@;
                keys.push(key);
                proof {
                    let later = pem_keys(left@);
                    if pem_keys(pem@) is Ok {
                        assert(pem_keys(rest@) == Ok::<Seq<PrivateKeyDer<'static>>, Seq<char>>(
                            seq![key] + later->Ok_0));
                        assert(keys@ + later->Ok_0 =~= before + (seq![key] + later->Ok_0));
                    }
                }
                rest = left;
            },
        }
    }
    if keys.len() == 0 {
        return Err(new_error("no valid key found"));
    }
    Ok(keys)
}

/// `rests` is the run of successive `private_key` calls over `input` that
/// return `keys`, one key per call: `rests[i]` is what the reader holds
/// before call `i`, each call returns `keys[i]` and leaves a strictly shorter
/// suffix, `rests[keys.len()]`, for the next call.
pub open spec fn key_reads(input: Seq<u8>, keys: Seq<PrivateKeyDer<'static>>, rests: Seq<Seq<u8>>) -> bool {
    &&& rests.len() == keys.len() + 1
    &&& rests[0] == input
    &&& forall|i: int| 0 <= i < keys.len() ==> {
        &&& (#[trigger] rests[i + 1]).len() < rests[i].len()
        &&& rests[i + 1] == rests[i].subrange(rests[i].len() - rests[i + 1].len(), rests[i].len() as int)
        &&& pem_private_key(rests[i]) == Ok::<Option<(PrivateKeyDer<'static>, nat)>, Seq<char>>(
                Some((keys[i], rests[i + 1].len())))
    }
}

/// Reading keys composes call by call: when successive calls of the PEM
/// reader over `input` return `keys` and the next call finds no key, the keys
/// of `input` are exactly `keys`, in that order; when the next call fails
/// instead, the whole read fails with that call's message, whatever keys came
/// before it.
pub proof fn lemma_key_reads_compose(
    input: Seq<u8>,
    keys: Seq<PrivateKeyDer<'static>>,
    rests: Seq<Seq<u8>>,
)
    requires
        key_reads(input, keys, rests),
    ensures
        pem_private_key(rests[keys.len() as int]) == Ok::<Option<(PrivateKeyDer<'static>, nat)>, Seq<char>>(None)
            ==> pem_keys(input) == Ok::<Seq<PrivateKeyDer<'static>>, Seq<char>>(keys),
        forall|text: Seq<char>| pem_private_key(rests[keys.len() as int])
            == Err::<Option<(PrivateKeyDer<'static>, nat)>, Seq<char>>(text)
            ==> #[trigger] pem_keys(input) == Err::<Seq<PrivateKeyDer<'static>>, Seq<char>>(text),
    decreases keys.len(),
{
    if keys.len() > 0 {
        let later_keys = keys.drop_first();
        let later_rests = rests.drop_first();
        assert(key_reads(rests[1], later_keys, later_rests)) by {
            assert forall|i: int| 0 <= i < later_keys.len() implies {
                &&& (#[trigger] later_rests[i + 1]).len() < later_rests[i].len()
                &&& later_rests[i + 1] == later_rests[i].subrange(
                        later_rests[i].len() - later_rests[i + 1].len(), later_rests[i].len() as int)
                &&& pem_private_key(later_rests[i]) == Ok::<Option<(PrivateKeyDer<'static>, nat)>, Seq<char>>(
                        Some((later_keys[i], later_rests[i + 1].len())))
            } by {
                assert(rests[(i + 1) + 1] == later_rests[i + 1]);
                assert(rests[i + 1] == later_rests[i]);
                assert(keys[i + 1] == later_keys[i]);
            }
        }
        lemma_key_reads_compose(rests[1], later_keys, later_rests);
        assert(rests[0int + 1] == rests[1]);
        assert(later_rests[later_keys.len() as int] == rests[keys.len() as int]);
        assert(seq![keys[0]] + later_keys =~= keys);
        assert(input.subrange(input.len() - rests[1].len(), input.len() as int) == rests[1]);
        if pem_private_key(rests[keys.len() as int]) == Ok::<Option<(PrivateKeyDer<'static>, nat)>, Seq<char>>(None) {
            assert(pem_keys(rests[1]) == Ok::<Seq<PrivateKeyDer<'static>>, Seq<char>>(later_keys));
            assert(pem_keys(input) == Ok::<Seq<PrivateKeyDer<'static>>, Seq<char>>(seq![keys[0]] + later_keys));
        }
    } else {
        assert(keys =~= Seq::<PrivateKeyDer<'static>>::empty());
    }
}

} // verus!
