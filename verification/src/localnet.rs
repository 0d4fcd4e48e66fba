//! The local-network check behind the access-restriction middleware.
//!
//! The host hands the client's address over as plain values (the four
//! octets of a v4 address, or the eight segments of a v6 address); the
//! rule for what counts as local lives here.

use vstd::prelude::*;

verus! {

/// A client address, as plain values.
pub enum HostAddr {
    /// The four octets of a v4 address.
    V4(u8, u8, u8, u8),
    /// The eight 16-bit segments of a v6 address.
    V6([u16; 8]),
}

/// Local v4 clients: the private ranges 10.0.0.0/8, 192.168.0.0/16 and
/// 172.16.0.0/12, and loopback.
pub open spec fn spec_is_local_v4(a: u8, b: u8) -> bool {
    a == 10 || (a == 192 && b == 168) || (a == 172 && 16 <= b <= 31) || a == 127
}

/// Local v6 clients: loopback only.
pub open spec fn spec_is_local_v6(segs: [u16; 8]) -> bool {
    (forall|i: int| 0 <= i < 7 ==> segs@[i] == 0) && segs@[7] == 1
}

pub open spec fn spec_is_local(addr: HostAddr) -> bool {
    match addr {
        HostAddr::V4(a, b, _, _) => spec_is_local_v4(a, b),
        HostAddr::V6(segs) => spec_is_local_v6(segs),
    }
}

/// Whether a client is on the local network and may use the dashboard.
pub fn is_local_ip(addr: &HostAddr) -> (r: bool)
    ensures
        r == spec_is_local(*addr),
{
    match addr {
        HostAddr::V4(a, b, _, _) => {
            *a == 10 || (*a == 192 && *b == 168) || (*a == 172 && 16 <= *b && *b <= 31) || *a
                == 127
        },
        HostAddr::V6(segs) => {
            let mut i: usize = 0;
            let mut all_zero = true;
            while i < 7
                invariant
                    i <= 7,
                    all_zero == (forall|j: int| 0 <= j < i ==> segs@[j] == 0),
                decreases 7 - i,
            {
                if segs[i] != 0 {
                    all_zero = false;
                }
                i += 1;
            }
            all_zero && segs[7] == 1
        },
    }
}

} // verus!
