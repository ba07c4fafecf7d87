//! The discovery probe's stateless protocol model.
//!
//! Discovery is a UDP broadcast exchange: a fixed 16-byte ping goes out to
//! the well-known port, and every exact-match 16-byte pong contributes its
//! sender's address. The sockets, the timeouts and the broadcast itself are
//! I/O and live outside the library; what is modelled here is the protocol:
//! the two payloads, and how received datagrams fold into the result. A
//! receive timeout is the normal end of a probe — the collected addresses
//! are its result, not an error.

use vstd::prelude::*;

verus! {

/// The 16 bytes of the probe request, `bulbsclientping0` in ASCII.
pub open spec fn spec_ping() -> Seq<u8> {
    seq![98u8, 117, 108, 98, 115, 99, 108, 105, 101, 110, 116, 112, 105, 110, 103, 48]
}

/// The 16 bytes of the expected answer, `bulbsserverpong0` in ASCII.
pub open spec fn spec_pong() -> Seq<u8> {
    seq![98u8, 117, 108, 98, 115, 115, 101, 114, 118, 101, 114, 112, 111, 110, 103, 48]
}

/// The payload a probe broadcasts.
pub fn ping_payload() -> (r: Vec<u8>)
    ensures
        r@ == spec_ping(),
{
    let mut v: Vec<u8> = Vec::new();
    v.push(98);
    v.push(117);
    v.push(108);
    v.push(98);
    v.push(115);
    v.push(99);
    v.push(108);
    v.push(105);
    v.push(101);
    v.push(110);
    v.push(116);
    v.push(112);
    v.push(105);
    v.push(110);
    v.push(103);
    v.push(48);
    proof {
        assert(v@ =~= spec_ping());
    }
    v
}

/// Whether a received buffer is exactly the expected pong.
pub fn is_pong(data: &[u8]) -> (r: bool)
    ensures
        r == (data@ == spec_pong()),
{
    if data.len() != 16 {
        return false;
    }
    let mut i: usize = 0;
    let expected = pong_payload();
    while i < 16
        invariant
            i <= 16,
            data@.len() == 16,
            expected@ == spec_pong(),
            forall|j: int| 0 <= j < i ==> data@[j] == spec_pong()[j],
        decreases 16 - i,
    {
        if data[i] != expected[i] {
            return false;
        }
        i += 1;
    }
    proof {
        assert(data@ =~= spec_pong());
    }
    true
}

/// The payload a responder answers with.
pub fn pong_payload() -> (r: Vec<u8>)
    ensures
        r@ == spec_pong(),
{
    let mut v: Vec<u8> = Vec::new();
    v.push(98);
    v.push(117);
    v.push(108);
    v.push(98);
    v.push(115);
    v.push(115);
    v.push(101);
    v.push(114);
    v.push(118);
    v.push(101);
    v.push(114);
    v.push(112);
    v.push(111);
    v.push(110);
    v.push(103);
    v.push(48);
    proof {
        assert(v@ =~= spec_pong());
    }
    v
}

/// One probe's collected answers, in arrival order. Addresses are not
/// de-duplicated here; the fleet's add step handles that.
pub struct Discovery {
    pub found: Vec<String>,
}

impl Discovery {
    /// A probe that has heard nothing yet: against a responder that never
    /// replies, this empty list is the whole result.
    pub fn new() -> (r: Discovery)
        ensures
            r.found@.len() == 0,
    {
        Discovery { found: Vec::new() }
    }

    /// Folds one received datagram in: exactly the sender addresses of
    /// exact-match pongs are collected, in arrival order.
    pub fn on_datagram(&mut self, data: &[u8], sender_ip: String)
        ensures
            final(self).found@ == if data@ == spec_pong() {
                old(self).found@.push(sender_ip)
            } else {
                old(self).found@
            },
    {
        if is_pong(data) {
            self.found.push(sender_ip);
        }
    }
}

} // verus!
