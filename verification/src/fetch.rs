use vstd::prelude::*;

use crate::bytes::append_bytes;

verus! {

/// Size of the chunks the relay loop reads from the TLS socket.
pub const FETCH_CHUNK_SIZE: usize = 32;

/// The minimum TLS version the fetch asks for.
#[derive(Clone, Copy, PartialEq, Eq, Structural, Debug)]
pub enum TlsVersion {
    V1_2,
    V1_3,
}

/// How the TLS session for the fetch is configured.
#[derive(Clone, Copy, PartialEq, Eq, Structural, Debug)]
pub struct TlsConfig {
    /// The security tag the pre-stored credentials are looked up under.
    pub tag: u32,
    /// Whether the peer's certificate is verified. The fetch explicitly
    /// disables it.
    pub verify_peer: bool,
    /// The minimum TLS version.
    pub min_version: TlsVersion,
}

/// The TLS configuration the fetch uses: the fixed security tag, peer
/// verification disabled, TLS 1.3.
pub fn fetch_tls_config() -> (c: TlsConfig)
    ensures
        c == (TlsConfig {
            tag: crate::steps::SECURITY_TAG,
            verify_peer: false,
            min_version: TlsVersion::V1_3,
        }),
{
    TlsConfig { tag: crate::steps::SECURITY_TAG, verify_peer: false, min_version: TlsVersion::V1_3 }
}

/// The decimal digits of a non-negative number, most significant first.
pub open spec fn spec_decimal(n: int) -> Seq<u8>
    decreases n,
{
    if n < 0 {
        Seq::empty()
    } else if n < 10 {
        seq![(48 + n) as u8]
    } else {
        spec_decimal(n / 10).push((48 + n % 10) as u8)
    }
}

/// Formats a number as decimal digit bytes.
pub fn u16_decimal(n: u16) -> (v: Vec<u8>)
    ensures
        v@ == spec_decimal(n as int),
    decreases n,
{
    if n < 10 {
        let mut v: Vec<u8> = Vec::new();
        v.push(48 + (n as u8));
        proof {
            assert(v@ =~= spec_decimal(n as int));
        }
        v
    } else {
        let mut v = u16_decimal(n / 10);
        v.push(48 + ((n % 10) as u8));
        proof {
            assert(v@ =~= spec_decimal(n as int));
        }
        v
    }
}

/// The bytes of `jsonplaceholder.typicode.com`, the fixed host.
pub open spec fn spec_fetch_host() -> Seq<u8> {
    seq![
        106u8,
        115,
        111,
        110,
        112,
        108,
        97,
        99,
        101,
        104,
        111,
        108,
        100,
        101,
        114,
        46,
        116,
        121,
        112,
        105,
        99,
        111,
        100,
        101,
        46,
        99,
        111,
        109,
    ]
}

/// The bytes of `/todos/1`, the fixed document path.
pub open spec fn spec_fetch_path() -> Seq<u8> {
    seq![47u8, 116, 111, 100, 111, 115, 47, 49]
}

/// The fixed host the fetch connects to.
pub fn fetch_host() -> (v: Vec<u8>)
    ensures
        v@ == spec_fetch_host(),
{
    let v: Vec<u8> = vec![
        106u8, 115, 111, 110, 112, 108, 97, 99, 101, 104, 111, 108, 100, 101, 114, 46, 116, 121,
        112, 105, 99, 111, 100, 101, 46, 99, 111, 109,
    ];
    proof {
        assert(v@ =~= spec_fetch_host());
    }
    v
}

/// The fixed document path the fetch asks for.
pub fn fetch_path() -> (v: Vec<u8>)
    ensures
        v@ == spec_fetch_path(),
{
    let v: Vec<u8> = vec![47u8, 116, 111, 100, 111, 115, 47, 49];
    proof {
        assert(v@ =~= spec_fetch_path());
    }
    v
}

/// The fixed port the fetch connects to.
pub fn fetch_port() -> (p: u16)
    ensures
        p == 443,
{
    443
}

/// The bytes of `GET `.
pub open spec fn http_verb() -> Seq<u8> {
    seq![71u8, 69, 84, 32]
}

/// The bytes of ` HTTP/1.1` CRLF `Host: `.
pub open spec fn http_host_header() -> Seq<u8> {
    seq![32u8, 72, 84, 84, 80, 47, 49, 46, 49, 13, 10, 72, 111, 115, 116, 58, 32]
}

/// The bytes of CRLF `Connection: close` CRLF `User-Agent: rust/nrf` CRLF
/// CRLF: the request's closing headers, asking the server to end the
/// stream after one response.
pub open spec fn http_tail() -> Seq<u8> {
    seq![
        13u8,
        10,
        67,
        111,
        110,
        110,
        101,
        99,
        116,
        105,
        111,
        110,
        58,
        32,
        99,
        108,
        111,
        115,
        101,
        13,
        10,
        85,
        115,
        101,
        114,
        45,
        65,
        103,
        101,
        110,
        116,
        58,
        32,
        114,
        117,
        115,
        116,
        47,
        110,
        114,
        102,
        13,
        10,
        13,
        10,
    ]
}

/// The literal HTTP/1.1 request for one document: the verb, the path, the
/// host header with the port in decimal, and the closing headers.
pub open spec fn spec_http_get(path: Seq<u8>, host: Seq<u8>, port: int) -> Seq<u8> {
    http_verb() + path + http_host_header() + host + seq![58u8] + spec_decimal(port) + http_tail()
}

/// Builds the HTTP GET request written to the TLS socket.
pub fn http_get_request(path: &[u8], host: &[u8], port: u16) -> (v: Vec<u8>)
    ensures
        v@ == spec_http_get(path@, host@, port as int),
{
    let mut v: Vec<u8> = vec![71u8, 69, 84, 32];
    proof {
        assert(v@ =~= http_verb());
    }
    append_bytes(&mut v, path);
    let mid: Vec<u8> = vec![
        32u8, 72, 84, 84, 80, 47, 49, 46, 49, 13, 10, 72, 111, 115, 116, 58, 32,
    ];
    proof {
        assert(mid@ =~= http_host_header());
    }
    append_bytes(&mut v, mid.as_slice());
    append_bytes(&mut v, host);
    v.push(58);
    let digits = u16_decimal(port);
    append_bytes(&mut v, digits.as_slice());
    let tail: Vec<u8> = vec![
        13u8, 10, 67, 111, 110, 110, 101, 99, 116, 105, 111, 110, 58, 32, 99, 108, 111, 115, 101,
        13, 10, 85, 115, 101, 114, 45, 65, 103, 101, 110, 116, 58, 32, 114, 117, 115, 116, 47, 110,
        114, 102, 13, 10, 13, 10,
    ];
    proof {
        assert(tail@ =~= http_tail());
    }
    append_bytes(&mut v, tail.as_slice());
    proof {
        assert(v@ =~= spec_http_get(path@, host@, port as int));
    }
    v
}

/// The relay loop's continuation rule: read another chunk exactly when the
/// previous read filled the whole buffer; a short (final) chunk ends the
/// loop after it is printed.
pub fn fetch_continue(got: usize, chunk: usize) -> (more: bool)
    requires
        got <= chunk,
    ensures
        more <==> got == chunk,
{
    got == chunk
}

} // verus!
