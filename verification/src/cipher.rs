use std::sync::Arc;
use tokio_rustls::rustls::crypto::ring::{default_provider, ALL_CIPHER_SUITES};
use tokio_rustls::rustls::crypto::CryptoProvider;
use vstd::prelude::*;

use crate::error::{new_error, tls_message, Error, ErrorKind};

verus! {

/// rustls's description of a crypto back end: the cipher suites and key
/// exchange groups it offers, its random source and key loader.
#[verifier::external_type_specification]
#[verifier::external_body]
pub struct ExCryptoProvider(CryptoProvider);

/// The IANA codes of the suites in rustls's `crypto::ring::ALL_CIPHER_SUITES`,
/// in the order of that list (rustls built with its `tls12` feature).
pub open spec fn ring_suite_codes() -> Seq<u16> {
    seq![0x1302u16, 0x1301u16, 0x1303u16, 0xc02cu16, 0xc02bu16, 0xcca9u16, 0xc030u16, 0xc02fu16, 0xcca8u16]
}

/// The name under which a configuration selects the suite with IANA code `code`.
pub open spec fn cipher_name(code: u16) -> Seq<char> {
    if code == 0x1303 {
        "TLS13_CHACHA20_POLY1305_SHA256"@
    } else if code == 0x1302 {
        "TLS13_AES_256_GCM_SHA384"@
    } else if code == 0x1301 {
        "TLS13_AES_128_GCM_SHA256"@
    } else if code == 0xcca9 {
        "TLS_ECDHE_ECDSA_WITH_CHACHA20_POLY1305_SHA256"@
    } else if code == 0xcca8 {
        "TLS_ECDHE_RSA_WITH_CHACHA20_POLY1305_SHA256"@
    } else if code == 0xc02c {
        "TLS_ECDHE_ECDSA_WITH_AES_256_GCM_SHA384"@
    } else if code == 0xc02b {
        "TLS_ECDHE_ECDSA_WITH_AES_128_GCM_SHA256"@
    } else if code == 0xc030 {
        "TLS_ECDHE_RSA_WITH_AES_256_GCM_SHA384"@
    } else if code == 0xc02f {
        "TLS_ECDHE_RSA_WITH_AES_128_GCM_SHA256"@
    } else {
        "???"@
    }
}

/// Some suite of the ring provider goes by `name`.
pub open spec fn is_suite_name(name: Seq<char>) -> bool {
    exists|j: int| 0 <= j < ring_suite_codes().len() && cipher_name(ring_suite_codes()[j]) == name
}

/// `idx` is the first position in the ring provider's list whose suite goes by `name`.
pub open spec fn first_suite_named(idx: int, name: Seq<char>) -> bool {
    &&& 0 <= idx < ring_suite_codes().len()
    &&& cipher_name(ring_suite_codes()[idx]) == name
    &&& forall|j: int| 0 <= j < idx ==> cipher_name(ring_suite_codes()[j]) != name
}

/// The positions of all suites of the ring provider, in order.
pub open spec fn all_suite_positions() -> Seq<usize> {
    Seq::new(ring_suite_codes().len(), |i: int| i as usize)
}

/// The message of the error that refuses the cipher name `name`.
pub open spec fn bad_cipher_message(name: Seq<char>) -> Seq<char> {
    tls_message("bad cipher: "@ + name)
}

/// `e` is the error that refuses the cipher name `name`.
pub open spec fn refuses_cipher(e: Error, name: Seq<char>) -> bool {
    e.kind == ErrorKind::Other && e.message@ == bad_cipher_message(name)
}

/// The suite codes that a selection by position stands for.
pub open spec fn codes_at(positions: Seq<usize>) -> Seq<u16> {
    positions.map_values(|i: usize| ring_suite_codes()[i as int])
}

/// The cipher suites that a provider built by this library offers, by IANA code, in order.
pub uninterp spec fn provider_cipher_codes(provider: CryptoProvider) -> Seq<u16>;

/// Every field of `provider` other than its cipher suites (key exchange
/// groups, signature verification algorithms, random source, key loader) is
/// as rustls's `crypto::ring::default_provider` sets it.
pub uninterp spec fn provider_ring_defaults(provider: CryptoProvider) -> bool;

/// A crypto provider that this library built from rustls's ring provider:
/// its defaults with the cipher suites replaced by a selection of the ring
/// suites. Only `build_provider` makes one.
pub struct RingProvider {
    pub(crate) provider: Arc<CryptoProvider>,
}

impl RingProvider {
    /// The IANA codes of the suites the provider offers, in order.
    pub closed spec fn suite_codes(&self) -> Seq<u16> {
        provider_cipher_codes(*self.provider)
    }

    /// Apart from its cipher suites, the provider is rustls's ring default.
    pub closed spec fn keeps_ring_defaults(&self) -> bool {
        provider_ring_defaults(*self.provider)
    }

    /// The provider is ring's default with some of ring's own suites.
    pub open spec fn well_formed(&self) -> bool {
        &&& self.keeps_ring_defaults()
        &&& forall|k: int| 0 <= k < self.suite_codes().len()
                ==> ring_suite_codes().contains(#[trigger] self.suite_codes()[k])
    }
}

/// Number of entries of rustls's `crypto::ring::ALL_CIPHER_SUITES`: the
/// contract claims the list has the nine suites that `ring_suite_codes` lists.
#[verifier::external_body]
fn ring_suite_count() -> (n: usize)
    ensures
        n == ring_suite_codes().len(),
{
    ALL_CIPHER_SUITES.len()
}

/// `SupportedCipherSuite::suite` of entry `i` of rustls's
/// `crypto::ring::ALL_CIPHER_SUITES`, as its `u16` code (`From<CipherSuite> for u16`):
/// the contract claims it is the `i`-th code of `ring_suite_codes`.
#[verifier::external_body]
fn ring_suite_code(i: usize) -> (code: u16)
    requires
        i < ring_suite_codes().len(),
    ensures
        code == ring_suite_codes()[i as int],
{
    u16::from(ALL_CIPHER_SUITES[i].suite())
}

/// rustls's `crypto::ring::default_provider`, with its `cipher_suites` field
/// replaced by the entries of `ALL_CIPHER_SUITES` at `positions`: the contract
/// claims the provider then offers exactly those suites, in that order, and
/// keeps every other default.
#[verifier::external_body]
fn ring_provider_with(positions: &Vec<usize>) -> (provider: Arc<CryptoProvider>)
    requires
        forall|k: int| 0 <= k < positions.len() ==> positions[k] < ring_suite_codes().len(),
    ensures
        provider_cipher_codes(*provider) == codes_at(positions@),
        provider_ring_defaults(*provider),
{
    let mut provider = default_provider();
    provider.cipher_suites = positions.iter().map(|&i| ALL_CIPHER_SUITES[i]).collect();
    Arc::new(provider)
}

/// The configuration name of the cipher suite with IANA code `code`; `"???"`
/// for a suite that has no such name.
pub fn get_cipher_name(code: u16) -> (name: &'static str)
    ensures
        name@ == cipher_name(code),
{
    match code {
        0x1303 => "TLS13_CHACHA20_POLY1305_SHA256",
        0x1302 => "TLS13_AES_256_GCM_SHA384",
        0x1301 => "TLS13_AES_128_GCM_SHA256",
        0xcca9 => "TLS_ECDHE_ECDSA_WITH_CHACHA20_POLY1305_SHA256",
        0xcca8 => "TLS_ECDHE_RSA_WITH_CHACHA20_POLY1305_SHA256",
        0xc02c => "TLS_ECDHE_ECDSA_WITH_AES_256_GCM_SHA384",
        0xc02b => "TLS_ECDHE_ECDSA_WITH_AES_128_GCM_SHA256",
        0xc030 => "TLS_ECDHE_RSA_WITH_AES_256_GCM_SHA384",
        0xc02f => "TLS_ECDHE_RSA_WITH_AES_128_GCM_SHA256",
        _ => "???",
    }
}

/// The first position of the ring provider's list whose suite goes by `name`.
fn find_suite(name: &String) -> (found: Option<usize>)
    ensures
        match found {
            Some(idx) => first_suite_named(idx as int, name@),
            None => !is_suite_name(name@),
        },
{
    let n = ring_suite_count();
    let mut i: usize = 0;
    while i < n
        invariant
            n == ring_suite_codes().len(),
            i <= n,
            forall|j: int| 0 <= j < i ==> cipher_name(ring_suite_codes()[j]) != name@,
        decreases n - i,
    {
        let candidate = String::from_str(get_cipher_name(ring_suite_code(i)));
        if candidate == *name {
            return Some(i);
        }
        i = i + 1;
    }
    None
}

/// `positions` selects, for each of `names` in turn, the first suite of the
/// ring provider that goes by that name.
pub open spec fn selects_by_name(names: Seq<Seq<char>>, positions: Seq<usize>) -> bool {
    &&& positions.len() == names.len()
    &&& forall|k: int| 0 <= k < names.len() ==> is_suite_name(#[trigger] names[k])
    &&& forall|k: int| 0 <= k < names.len() ==> first_suite_named(#[trigger] positions[k] as int, names[k])
}

/// `e` refuses `names[k]`, the first of `names` that no suite goes by.
pub open spec fn refused_at(names: Seq<Seq<char>>, k: int, e: Error) -> bool {
    &&& 0 <= k < names.len()
    &&& !is_suite_name(names[k])
    &&& forall|l: int| 0 <= l < k ==> is_suite_name(#[trigger] names[l])
    &&& refuses_cipher(e, names[k])
}

/// The suite codes that `names` select (see `selects_by_name`).
pub open spec fn codes_named(names: Seq<Seq<char>>, codes: Seq<u16>) -> bool {
    &&& codes.len() == names.len()
    &&& forall|k: int| 0 <= k < names.len() ==> is_suite_name(#[trigger] names[k])
    &&& forall|k: int| 0 <= k < names.len() ==>
            exists|idx: int| first_suite_named(idx, names[k]) && #[trigger] codes[k] == ring_suite_codes()[idx]
}

/// Selects cipher suites of the ring provider by name, as positions in its
/// list. With no names, every suite is selected in the provider's order.
/// With names, each name selects the first suite going by it, in the order of
/// the names; the first name that no suite goes by is refused.
pub fn get_cipher_suite(cipher: Option<Vec<String>>) -> (res: Result<Vec<usize>, Error>)
    ensures
        match cipher {
            None => res matches Ok(positions) && positions@ == all_suite_positions(),
            Some(names) => match res {
                Ok(positions) => selects_by_name(names.deep_view(), positions@),
                Err(e) => exists|k: int| #[trigger] refused_at(names.deep_view(), k, e),
            },
        },
{
    match cipher {
        None => {
            let n = ring_suite_count();
            let mut all: Vec<usize> = Vec::new();
            let mut i: usize = 0;
            while i < n
                invariant
                    n == ring_suite_codes().len(),
                    i <= n,
                    all@ == all_suite_positions().take(i as int),
                decreases n - i,
            {
                all.push(i);
                i = i + 1;
            }
            assert(all@ =~= all_suite_positions());
            Ok(all)
        },
        Some(names) => {
            let ghost wanted = names.deep_view();
            let mut result: Vec<usize> = Vec::new();
            let mut k: usize = 0;
            while k < names.len()
                invariant
                    cipher == Some(names),
                    wanted == names.deep_view(),
                    wanted.len() == names.len(),
                    k <= names.len(),
                    result.len() == k,
                    forall|l: int| 0 <= l < k ==> is_suite_name(#[trigger] wanted[l]),
                    forall|l: int| 0 <= l < k ==> first_suite_named(#[trigger] result[l] as int, wanted[l]),
                decreases names.len() - k,
            {
                assert(wanted[k as int] == names[k as int]@);
                match find_suite(&names[k]) {
                    Some(idx) => {
                        result.push(idx);
                    },
                    None => {
                        let mut text = String::from_str("bad cipher: ");
                        text.append(names[k].as_str());
                        let e = new_error(text.as_str());
                        assert(e.message@ =~= bad_cipher_message(wanted[k as int]));
                        assert(refused_at(cipher->Some_0.deep_view(), k as int, e));
                        return Err(e);
                    },
                }
                k = k + 1;
            }
            assert(selects_by_name(wanted, result@));
            Ok(result)
        },
    }
}

/// Builds the ring crypto provider that offers the suites `cipher` selects
/// (see `get_cipher_suite`), and refuses the first unknown name.
pub fn build_provider(cipher: Option<Vec<String>>) -> (res: Result<RingProvider, Error>)
    ensures
        res matches Ok(p) ==> p.well_formed(),
        match cipher {
            None => res matches Ok(p) && p.suite_codes() == ring_suite_codes(),
            Some(names) => match res {
                Ok(p) => codes_named(names.deep_view(), p.suite_codes()),
                Err(e) => exists|k: int| #[trigger] refused_at(names.deep_view(), k, e),
            },
        },
{
    let ghost requested = cipher;
    let positions = get_cipher_suite(cipher)?;
    let provider = RingProvider { provider: ring_provider_with(&positions) };
    proof {
        assert forall|k: int| 0 <= k < provider.suite_codes().len()
            implies ring_suite_codes().contains(#[trigger] provider.suite_codes()[k]) by {
            assert(provider.suite_codes()[k] == ring_suite_codes()[positions[k] as int]);
        }
        if requested is None {
            assert(codes_at(positions@) =~= ring_suite_codes());
        } else {
            let names = requested->Some_0.deep_view();
            assert forall|k: int| 0 <= k < names.len() implies
                exists|idx: int| first_suite_named(idx, names[k])
                    && #[trigger] provider.suite_codes()[k] == ring_suite_codes()[idx] by {
                assert(first_suite_named(positions[k] as int, names[k]));
            }
        }
    }
    Ok(provider)
}

/// The ring provider's suites go by pairwise different names, none of them
/// `"???"`: so each name selects exactly one suite.
pub proof fn lemma_suite_names_distinct()
    ensures
        forall|i: int, j: int|
            0 <= i < ring_suite_codes().len() && 0 <= j < ring_suite_codes().len() && i != j
                ==> cipher_name(ring_suite_codes()[i]) != cipher_name(ring_suite_codes()[j]),
        !is_suite_name("???"@),
{
    reveal_strlit("TLS13_CHACHA20_POLY1305_SHA256");
    reveal_strlit("TLS13_AES_256_GCM_SHA384");
    reveal_strlit("TLS13_AES_128_GCM_SHA256");
    reveal_strlit("TLS_ECDHE_ECDSA_WITH_CHACHA20_POLY1305_SHA256");
    reveal_strlit("TLS_ECDHE_RSA_WITH_CHACHA20_POLY1305_SHA256");
    reveal_strlit("TLS_ECDHE_ECDSA_WITH_AES_256_GCM_SHA384");
    reveal_strlit("TLS_ECDHE_ECDSA_WITH_AES_128_GCM_SHA256");
    reveal_strlit("TLS_ECDHE_RSA_WITH_AES_256_GCM_SHA384");
    reveal_strlit("TLS_ECDHE_RSA_WITH_AES_128_GCM_SHA256");
    reveal_strlit("???");
    let codes = ring_suite_codes();
    assert(cipher_name(codes[0]).len() == 24 && cipher_name(codes[0])[10] == '2');
    assert(cipher_name(codes[1]).len() == 24 && cipher_name(codes[1])[10] == '1');
    assert(cipher_name(codes[2]).len() == 30);
    assert(cipher_name(codes[3]).len() == 39 && cipher_name(codes[3])[25] == '2');
    assert(cipher_name(codes[4]).len() == 39 && cipher_name(codes[4])[25] == '1');
    assert(cipher_name(codes[5]).len() == 45);
    assert(cipher_name(codes[6]).len() == 37 && cipher_name(codes[6])[23] == '2');
    assert(cipher_name(codes[7]).len() == 37 && cipher_name(codes[7])[23] == '1');
    assert(cipher_name(codes[8]).len() == 43);
    assert("???"@.len() == 3);
}

/// The names of all suites of the ring provider, in its order.
pub open spec fn all_suite_names() -> Seq<Seq<char>> {
    ring_suite_codes().map_values(|code: u16| cipher_name(code))
}

/// Each suite of the ring provider is what its own name selects.
pub proof fn lemma_name_selects_its_suite(j: int)
    requires
        0 <= j < ring_suite_codes().len(),
    ensures
        is_suite_name(cipher_name(ring_suite_codes()[j])),
        first_suite_named(j, cipher_name(ring_suite_codes()[j])),
{
    lemma_suite_names_distinct();
}

/// Naming every suite of the ring provider, in its order, selects the same
/// suites, in the same order, as naming none.
pub proof fn lemma_all_names_select_all(positions: Seq<usize>)
    requires
        selects_by_name(all_suite_names(), positions),
    ensures
        positions == all_suite_positions(),
{
    lemma_suite_names_distinct();
    assert forall|k: int| 0 <= k < positions.len() implies positions[k] == all_suite_positions()[k] by {
        assert(first_suite_named(positions[k] as int, all_suite_names()[k]));
        assert(all_suite_names()[k] == cipher_name(ring_suite_codes()[k]));
    }
    assert(positions =~= all_suite_positions());
}

} // verus!
