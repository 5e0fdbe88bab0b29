//! The auto-connect arbiter: per-address single-flight locking.
//!
//! When a known device advertises that it is connected to no host, a
//! reconnect is launched — but never two at once for the same address.
//! The address is released when the attempt finishes, success or not, so
//! the next disconnected advertisement may retry.

use vstd::prelude::*;

verus! {

/// The set of addresses with a connect attempt in flight.
pub struct ConnectArbiter {
    connecting: Vec<[u8; 6]>,
}

impl ConnectArbiter {
    /// Whether a connect to this address is in flight.
    pub closed spec fn spec_connecting(&self, addr: Seq<u8>) -> bool {
        exists|i: int| 0 <= i < self.connecting@.len() && (#[trigger] self.connecting@[i])@ == addr
    }

    /// An arbiter with nothing in flight.
    pub fn new() -> (r: ConnectArbiter)
        ensures
            forall|a: Seq<u8>| !r.spec_connecting(a),
    {
        ConnectArbiter { connecting: Vec::new() }
    }

    /// Compare two addresses byte for byte.
    fn addr_eq(a: &[u8; 6], b: &[u8; 6]) -> (r: bool)
        ensures
            r == (a@ == b@),
    {
        let r = a[0] == b[0] && a[1] == b[1] && a[2] == b[2] && a[3] == b[3] && a[4] == b[4]
            && a[5] == b[5];
        proof {
            if r {
                assert(a@ =~= b@);
            }
        }
        r
    }

    /// Whether a connect to this address is in flight.
    pub fn is_connecting(&self, addr: &[u8; 6]) -> (r: bool)
        ensures
            r == self.spec_connecting(addr@),
    {
        let mut i: usize = 0;
        while i < self.connecting.len()
            invariant
                i <= self.connecting@.len(),
                forall|j: int| 0 <= j < i ==> (#[trigger] self.connecting@[j])@ != addr@,
            decreases self.connecting@.len() - i,
        {
            if Self::addr_eq(&self.connecting[i], addr) {
                return true;
            }
            i = i + 1;
        }
        false
    }

    /// Claim the address for one connect attempt.  Returns false — and
    /// changes nothing — when an attempt is already in flight, so a burst
    /// of disconnected advertisements launches exactly one connect.
    pub fn try_begin(&mut self, addr: &[u8; 6]) -> (r: bool)
        ensures
            r == !old(self).spec_connecting(addr@),
            final(self).spec_connecting(addr@),
            !r ==> *final(self) == *old(self),
            forall|a: Seq<u8>|
                a != addr@ ==> final(self).spec_connecting(a) == old(self).spec_connecting(a),
    {
        if self.is_connecting(addr) {
            return false;
        }
        self.connecting.push(*addr);
        proof {
            assert(self.spec_connecting(addr@)) by {
                assert((self.connecting@[self.connecting@.len() - 1])@ == addr@);
            }
            assert forall|a: Seq<u8>|
                a != addr@ implies self.spec_connecting(a) == old(self).spec_connecting(a) by {
                if self.spec_connecting(a) {
                    let j = choose|j: int|
                        0 <= j < self.connecting@.len() && (#[trigger] self.connecting@[j])@ == a;
                    assert(j < self.connecting@.len() - 1);
                    assert((old(self).connecting@[j])@ == a);
                }
                if old(self).spec_connecting(a) {
                    let j = choose|j: int|
                        0 <= j < old(self).connecting@.len() && (#[trigger] old(
                            self,
                        ).connecting@[j])@ == a;
                    assert((self.connecting@[j])@ == a);
                }
            }
        }
        true
    }

    /// Release the address when the attempt completed, whatever its
    /// outcome, so a later disconnected advertisement may retry.
    pub fn finish(&mut self, addr: &[u8; 6])
        ensures
            !final(self).spec_connecting(addr@),
            forall|a: Seq<u8>|
                a != addr@ ==> final(self).spec_connecting(a) == old(self).spec_connecting(a),
    {
        let mut kept: Vec<[u8; 6]> = Vec::new();
        let mut i: usize = 0;
        while i < self.connecting.len()
            invariant
                i <= self.connecting@.len(),
                *self == *old(self),
                forall|j: int| 0 <= j < kept@.len() ==> (#[trigger] kept@[j])@ != addr@,
                forall|j: int|
                    0 <= j < kept@.len() ==> exists|k: int|
                        0 <= k < i && (#[trigger] kept@[j])@ == (self.connecting@[k])@,
                forall|k: int|
                    0 <= k < i && (#[trigger] self.connecting@[k])@ != addr@ ==> exists|j: int|
                        0 <= j < kept@.len() && (kept@[j])@ == (self.connecting@[k])@,
            decreases self.connecting@.len() - i,
        {
            let c = self.connecting[i];
            let ghost kept0 = kept@;
            if !Self::addr_eq(&c, addr) {
                kept.push(c);
                proof {
                    assert((kept@[kept@.len() - 1])@ == (self.connecting@[i as int])@);
                    assert forall|j: int| 0 <= j < kept@.len() implies (#[trigger] kept@[j])@
                        != addr@ by {
                        if j < kept@.len() - 1 {
                            assert(kept@[j] == kept0[j]);
                        }
                    }
                }
            }
            proof {
                assert forall|k: int|
                    0 <= k < i + 1 && (#[trigger] self.connecting@[k])@ != addr@ implies exists|
                    j: int,
                |
                    0 <= j < kept@.len() && (kept@[j])@ == (self.connecting@[k])@ by {
                    if k < i {
                        let j = choose|j: int|
                            0 <= j < kept0.len() && (kept0[j])@ == (self.connecting@[k])@;
                        assert((kept@[j])@ == (self.connecting@[k])@);
                    } else {
                        assert(c@ != addr@);
                        assert((kept@[kept@.len() - 1])@ == (self.connecting@[k])@);
                    }
                }
            }
            i = i + 1;
        }
        let ghost oldc = self.connecting@;
        let ghost keptv = kept@;
        self.connecting = kept;
        proof {
            assert(!self.spec_connecting(addr@)) by {
                if self.spec_connecting(addr@) {
                    let j = choose|j: int|
                        0 <= j < keptv.len() && (#[trigger] self.connecting@[j])@ == addr@;
                    assert((keptv[j])@ != addr@);
                }
            }
            assert forall|a: Seq<u8>|
                a != addr@ implies self.spec_connecting(a) == old(self).spec_connecting(a) by {
                if self.spec_connecting(a) {
                    let j = choose|j: int|
                        0 <= j < self.connecting@.len() && (#[trigger] self.connecting@[j])@ == a;
                    assert((keptv[j])@ == a);
                    let k = choose|k: int| 0 <= k < oldc.len() && (keptv[j])@ == (oldc[k])@;
                    assert((old(self).connecting@[k])@ == a);
                    assert(old(self).spec_connecting(a));
                }
                if old(self).spec_connecting(a) {
                    let k = choose|k: int|
                        0 <= k < old(self).connecting@.len() && (#[trigger] old(
                            self,
                        ).connecting@[k])@ == a;
                    assert((oldc[k])@ == a && (oldc[k])@ != addr@);
                    let j = choose|j: int| 0 <= j < keptv.len() && (keptv[j])@ == (oldc[k])@;
                    assert((self.connecting@[j])@ == a);
                    assert(self.spec_connecting(a));
                }
            }
        }
    }
}

} // verus!
