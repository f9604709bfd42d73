//! Socket addresses and their in-kernel `sockaddr_storage` image.
//!
//! A `sockaddr_storage` is 128 bytes: a native-endian `sa_family_t` followed by
//! 126 bytes whose layout depends on the family. The family stays a plain `u16`
//! here (it is written in host order); the other 126 bytes are kept as a byte
//! vector, in which every multi-byte field is in network (big-endian) order.
//!
//! `sockaddr_in`:  port (2) | IPv4 address (4) | zero padding (8)
//! `sockaddr_in6`: port (2) | flow info (4) | IPv6 address (16) | scope id (4)
use vstd::prelude::*;

verus! {

/// Bytes of a `sockaddr_storage` after its family field.
pub const STORAGE_DATA_LEN: usize = 126;

/// An IP socket address: an IPv4 or IPv6 address and a port.
#[derive(Clone, Copy, Debug, PartialEq, Eq)]
#[allow(inconsistent_fields)]
pub enum SockAddr {
    V4 { ip: [u8; 4], port: u16 },
    V6 { ip: [u8; 16], port: u16 },
}

/// Why a `sockaddr_storage` could not be read as an IP socket address.
#[derive(Clone, Copy, Debug, PartialEq, Eq)]
pub enum AddrError {
    /// The family is neither `AF_INET` nor `AF_INET6`.
    InvalidFamily,
}

/// The contents of a `sockaddr_storage`: its family and the 126 bytes after it.
pub struct SockAddrStorage {
    family: u16,
    data: Vec<u8>,
}

impl SockAddrStorage {
    #[verifier::type_invariant]
    spec fn well_formed(self) -> bool {
        self.data@.len() == STORAGE_DATA_LEN
    }

    pub closed spec fn spec_family(self) -> u16 {
        self.family
    }

    pub closed spec fn spec_data(self) -> Seq<u8> {
        self.data@
    }

    /// Builds the storage image from a family and the bytes that follow it;
    /// `None` unless exactly `STORAGE_DATA_LEN` bytes are given.
    pub fn from_parts(family: u16, data: Vec<u8>) -> (r: Option<Self>)
        ensures
            data@.len() == STORAGE_DATA_LEN <==> r is Some,
            r matches Some(s) ==> s.spec_family() == family && s.spec_data() == data@,
    {
        if data.len() == STORAGE_DATA_LEN {
            Some(SockAddrStorage { family, data })
        } else {
            None
        }
    }

    pub fn family(&self) -> (f: u16)
        ensures
            f == self.spec_family(),
    {
        self.family
    }

    pub fn data(&self) -> (d: &Vec<u8>)
        ensures
            d@ == self.spec_data(),
            d@.len() == STORAGE_DATA_LEN,
    {
        proof {
            use_type_invariant(self);
        }
        &self.data
    }
}

/// `libc::AF_INET`, the IPv4 address family: libc defines it as 2 on Linux.
#[verifier::external_body]
fn af_inet() -> (family: i32)
    ensures
        family == 2,
{
    libc::AF_INET
}

/// `libc::AF_INET6`, the IPv6 address family: libc defines it as 10 on Linux.
#[verifier::external_body]
fn af_inet6() -> (family: i32)
    ensures
        family == 10,
{
    libc::AF_INET6
}

/// `std::mem::size_of::<libc::sockaddr_in>()`: libc lays the struct out as a
/// 2-byte family, 2-byte port, 4-byte address and 8 bytes of padding, 16 in all.
#[verifier::external_body]
fn sockaddr_in_len() -> (len: u32)
    ensures
        len == 16,
{
    std::mem::size_of::<libc::sockaddr_in>() as u32
}

/// `std::mem::size_of::<libc::sockaddr_in6>()`: libc lays the struct out as a
/// 2-byte family, 2-byte port, 4-byte flow info, 16-byte address and 4-byte
/// scope id, 28 in all.
#[verifier::external_body]
fn sockaddr_in6_len() -> (len: u32)
    ensures
        len == 28,
{
    std::mem::size_of::<libc::sockaddr_in6>() as u32
}

pub open spec fn family_inet() -> u16 {
    2
}

pub open spec fn family_inet6() -> u16 {
    10
}

/// The port as two bytes in network order.
pub open spec fn port_hi(port: u16) -> u8 {
    (port / 256) as u8
}

pub open spec fn port_lo(port: u16) -> u8 {
    (port % 256) as u8
}

pub open spec fn port_of(hi: u8, lo: u8) -> u16 {
    (hi * 256 + lo) as u16
}

/// The port of an address.
pub open spec fn addr_port(a: SockAddr) -> u16 {
    match a {
        SockAddr::V4 { port, .. } => port,
        SockAddr::V6 { port, .. } => port,
    }
}

/// The family written into the storage for an address.
pub open spec fn encoded_family(a: SockAddr) -> u16 {
    match a {
        SockAddr::V4 { .. } => family_inet(),
        SockAddr::V6 { .. } => family_inet6(),
    }
}

/// The 126 bytes after the family for an address: port, then the address at
/// its offset; all other bytes (padding, flow info, scope id) are zero.
pub open spec fn encoded_data(a: SockAddr) -> Seq<u8> {
    match a {
        SockAddr::V4 { ip, port } => Seq::new(
            STORAGE_DATA_LEN as nat,
            |i: int|
                if i == 0 {
                    port_hi(port)
                } else if i == 1 {
                    port_lo(port)
                } else if 2 <= i < 6 {
                    ip@[i - 2]
                } else {
                    0u8
                },
        ),
        SockAddr::V6 { ip, port } => Seq::new(
            STORAGE_DATA_LEN as nat,
            |i: int|
                if i == 0 {
                    port_hi(port)
                } else if i == 1 {
                    port_lo(port)
                } else if 6 <= i < 22 {
                    ip@[i - 6]
                } else {
                    0u8
                },
        ),
    }
}

/// The length that goes with the storage: the size of `sockaddr_in` or `sockaddr_in6`.
pub open spec fn encoded_len(a: SockAddr) -> u32 {
    match a {
        SockAddr::V4 { .. } => 16,
        SockAddr::V6 { .. } => 28,
    }
}

/// What a storage image with this family and these bytes reads as.
pub open spec fn decodes_to(family: u16, data: Seq<u8>, r: Result<SockAddr, AddrError>) -> bool {
    if family == family_inet() {
        r matches Ok(SockAddr::V4 { ip, port }) && ip@ == data.subrange(2, 6) && port == port_of(
            data[0],
            data[1],
        )
    } else if family == family_inet6() {
        r matches Ok(SockAddr::V6 { ip, port }) && ip@ == data.subrange(6, 22) && port == port_of(
            data[0],
            data[1],
        )
    } else {
        r == Err::<SockAddr, AddrError>(AddrError::InvalidFamily)
    }
}

/// Writes an address into a zeroed `sockaddr_storage` image and returns it with
/// the length of the address structure it holds.
pub fn socket_addr_to_storage(addr: SockAddr) -> (r: (SockAddrStorage, u32))
    ensures
        r.0.spec_family() == encoded_family(addr),
        r.0.spec_data() == encoded_data(addr),
        r.1 == encoded_len(addr),
        r.0.spec_data()[0] as int * 256 + r.0.spec_data()[1] as int == addr_port(addr) as int,
{
    let mut data: Vec<u8> = vec![0u8; STORAGE_DATA_LEN];
    match addr {
        SockAddr::V4 { ip, port } => {
            data.set(0, (port / 256) as u8);
            data.set(1, (port % 256) as u8);
            let mut i: usize = 0;
            while i < 4
                invariant
                    0 <= i <= 4,
                    data@.len() == STORAGE_DATA_LEN,
                    data@[0] == port_hi(port),
                    data@[1] == port_lo(port),
                    forall|j: int| 2 <= j < 2 + i ==> data@[j] == ip@[j - 2],
                    forall|j: int| 2 + i <= j < STORAGE_DATA_LEN ==> data@[j] == 0u8,
                decreases 4 - i,
            {
                data.set(2 + i, ip[i]);
                i = i + 1;
            }
            assert(data@ =~= encoded_data(addr));
            let family = af_inet() as u16;
            (SockAddrStorage { family, data }, sockaddr_in_len())
        },
        SockAddr::V6 { ip, port } => {
            data.set(0, (port / 256) as u8);
            data.set(1, (port % 256) as u8);
            let mut i: usize = 0;
            while i < 16
                invariant
                    0 <= i <= 16,
                    data@.len() == STORAGE_DATA_LEN,
                    data@[0] == port_hi(port),
                    data@[1] == port_lo(port),
                    forall|j: int| 2 <= j < 6 ==> data@[j] == 0u8,
                    forall|j: int| 6 <= j < 6 + i ==> data@[j] == ip@[j - 6],
                    forall|j: int| 6 + i <= j < STORAGE_DATA_LEN ==> data@[j] == 0u8,
                decreases 16 - i,
            {
                data.set(6 + i, ip[i]);
                i = i + 1;
            }
            assert(data@ =~= encoded_data(addr));
            let family = af_inet6() as u16;
            (SockAddrStorage { family, data }, sockaddr_in6_len())
        },
    }
}

/// Reads an IP socket address out of a `sockaddr_storage` image; any family
/// other than `AF_INET` and `AF_INET6` is refused. The length is not consulted.
pub fn socket_addr_from_storage(storage: &SockAddrStorage, _len: u32) -> (r: Result<
    SockAddr,
    AddrError,
>)
    ensures
        decodes_to(storage.spec_family(), storage.spec_data(), r),
        r matches Ok(x) ==> addr_port(x) as int == storage.spec_data()[0] as int * 256
            + storage.spec_data()[1] as int,
{
    let family = storage.family();
    let data = storage.data();
    let port: u16 = (data[0] as u16) * 256 + data[1] as u16;
    if family as i32 == af_inet() {
        let ip: [u8; 4] = [data[2], data[3], data[4], data[5]];
        assert(ip@ =~= data@.subrange(2, 6));
        Ok(SockAddr::V4 { ip, port })
    } else if family as i32 == af_inet6() {
        let ip: [u8; 16] = [
            data[6],
            data[7],
            data[8],
            data[9],
            data[10],
            data[11],
            data[12],
            data[13],
            data[14],
            data[15],
            data[16],
            data[17],
            data[18],
            data[19],
            data[20],
            data[21],
        ];
        assert(ip@ =~= data@.subrange(6, 22));
        Ok(SockAddr::V6 { ip, port })
    } else {
        Err(AddrError::InvalidFamily)
    }
}

/// Reading back the storage image that an address was written into gives the
/// same address.
pub proof fn lemma_storage_round_trip(a: SockAddr)
    ensures
        decodes_to(encoded_family(a), encoded_data(a), Ok(a)),
{
    match a {
        SockAddr::V4 { ip, port } => {
            assert(encoded_data(a).subrange(2, 6) =~= ip@);
        },
        SockAddr::V6 { ip, port } => {
            assert(encoded_data(a).subrange(6, 22) =~= ip@);
        },
    }
}

/// The image of an address holds its port in network order: the first byte
/// is the high byte and the second the low byte, for every port; the IPv4
/// address follows at offset 2, the IPv6 address at offset 6 after four zero
/// bytes of flow info; the image is 126 bytes long.
pub proof fn lemma_encoded_port_is_big_endian(a: SockAddr)
    ensures
        encoded_data(a).len() == 126,
        encoded_data(a)[0] as int * 256 + encoded_data(a)[1] as int == addr_port(a) as int,
        encoded_data(a)[0] as int == addr_port(a) as int / 256,
        encoded_data(a)[1] as int == addr_port(a) as int % 256,
        a matches SockAddr::V4 { ip, .. } ==> forall|i: int| 0 <= i < 4 ==> encoded_data(a)[2 + i] == ip[i],
        a matches SockAddr::V6 { ip, .. } ==> forall|i: int| 0 <= i < 16 ==> encoded_data(a)[6 + i] == ip[i],
        a is V6 ==> forall|i: int| 2 <= i < 6 ==> encoded_data(a)[i] == 0u8,
{
    broadcast use vstd::array::group_array_axioms;

}

/// Reading an image takes the port from its first two bytes in network
/// order (high byte first), and the address from its offset for the family.
pub proof fn lemma_decoded_port_is_big_endian(family: u16, data: Seq<u8>, x: SockAddr)
    requires
        data.len() == STORAGE_DATA_LEN,
        decodes_to(family, data, Ok(x)),
    ensures
        addr_port(x) as int == data[0] as int * 256 + data[1] as int,
        family == 2 || family == 10,
        x matches SockAddr::V4 { ip, .. } ==> family == 2 && forall|i: int| 0 <= i < 4 ==> ip[i] == data[2 + i],
        x matches SockAddr::V6 { ip, .. } ==> family == 10 && forall|i: int| 0 <= i < 16 ==> ip[i] == data[6 + i],
{
    broadcast use vstd::array::group_array_axioms;

    match x {
        SockAddr::V4 { ip, .. } => {
            assert forall|i: int| 0 <= i < 4 implies ip[i] == data[2 + i] by {
                assert(ip[i] == ip@[i]);
                assert(data.subrange(2, 6)[i] == data[2 + i]);
            }
        },
        SockAddr::V6 { ip, .. } => {
            assert forall|i: int| 0 <= i < 16 implies ip[i] == data[6 + i] by {
                assert(ip[i] == ip@[i]);
                assert(data.subrange(6, 22)[i] == data[6 + i]);
            }
        },
    }
}

/// A storage image reads as at most one address.
pub proof fn lemma_decode_unique(
    family: u16,
    data: Seq<u8>,
    r1: Result<SockAddr, AddrError>,
    r2: Result<SockAddr, AddrError>,
)
    requires
        decodes_to(family, data, r1),
        decodes_to(family, data, r2),
    ensures
        r1 == r2,
{
    broadcast use vstd::array::group_array_axioms;

    match (r1, r2) {
        (Ok(SockAddr::V4 { ip: a, .. }), Ok(SockAddr::V4 { ip: b, .. })) => {
            assert(a@ =~= b@);
            assert(forall|i: int| 0 <= i < 4 ==> a[i] == b[i]);
            assert(a =~= b);
        },
        (Ok(SockAddr::V6 { ip: a, .. }), Ok(SockAddr::V6 { ip: b, .. })) => {
            assert(a@ =~= b@);
            assert(forall|i: int| 0 <= i < 16 ==> a[i] == b[i]);
            assert(a =~= b);
        },
        _ => {},
    }
}

} // verus!
