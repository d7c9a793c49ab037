//! The request handler: a narrow, single-certificate pinning exception.
//!
//! On a TLS certificate validation failure the offending certificate's
//! serial number is compared against one fixed trusted serial; only an
//! exact match lets the connection proceed. Any other serial is left
//! blocked with no continuation invoked — the handler fails closed.

use vstd::prelude::*;

use crate::refcount::RefCount;

verus! {

/// The serial number of the one certificate trusted despite failing
/// validation.
pub open spec fn trusted_serial() -> Seq<u8> {
    seq![
        0x01u8,
        0x55u8,
        0x37u8,
        0xfeu8,
        0x94u8,
        0x15u8,
        0xf6u8,
        0x5fu8,
        0xe0u8,
        0x13u8,
        0xc3u8,
        0x2eu8,
        0x62u8,
        0x8cu8,
        0x4bu8,
        0xe8u8,
        0x5au8,
        0xfdu8,
        0x2au8,
        0x56u8,
    ]
}

/// The trusted serial as bytes, exactly [`trusted_serial`].
pub fn trusted_serial_bytes() -> (v: Vec<u8>)
    ensures
        v@ == trusted_serial(),
{
    let mut v: Vec<u8> = Vec::new();
    v.push(0x01);
    v.push(0x55);
    v.push(0x37);
    v.push(0xfe);
    v.push(0x94);
    v.push(0x15);
    v.push(0xf6);
    v.push(0x5f);
    v.push(0xe0);
    v.push(0x13);
    v.push(0xc3);
    v.push(0x2e);
    v.push(0x62);
    v.push(0x8c);
    v.push(0x4b);
    v.push(0xe8);
    v.push(0x5a);
    v.push(0xfd);
    v.push(0x2a);
    v.push(0x56);
    proof {
        assert(v@ =~= trusted_serial());
    }
    v
}

/// What a certificate-error callback decides.
#[derive(Clone, Copy, PartialEq, Eq, Structural, Debug)]
pub enum CertDecision {
    /// The pinned certificate: the continuation is invoked once with
    /// "proceed" and the error is reported handled.
    Proceed,
    /// Any other certificate: no continuation is invoked and the
    /// connection stays blocked.
    Blocked,
}

/// Byte-for-byte equality of two byte strings.
fn bytes_eq(a: &Vec<u8>, b: &Vec<u8>) -> (r: bool)
    ensures
        r <==> a@ == b@,
{
    if a.len() != b.len() {
        return false;
    }
    let n = a.len();
    let mut i: usize = 0;
    while i < n
        invariant
            n == a@.len() == b@.len(),
            i <= n,
            forall|k: int| 0 <= k < i ==> a@[k] == b@[k],
        decreases n - i,
    {
        if a[i] != b[i] {
            return false;
        }
        i = i + 1;
    }
    proof {
        assert(a@ =~= b@);
    }
    true
}

/// The handler applying the pinning exception.
pub struct RequestHandler {
    /// The engine-mandated reference count.
    pub ref_count: RefCount,
}

impl RequestHandler {
    /// Takes one more counted reference to this handler.
    pub fn inc_ref(&mut self)
        requires
            old(self).ref_count.count() >= 1,
            old(self).ref_count.count() < u64::MAX,
        ensures
            final(self).ref_count.count() == old(self).ref_count.count() + 1,
    {
        self.ref_count.add_ref();
    }

    /// A certificate failed validation: proceed exactly when its serial is
    /// the one trusted serial; otherwise leave the connection blocked.
    pub fn on_certificate_error(&self, cert_serial: &Vec<u8>) -> (r: CertDecision)
        ensures
            r is Proceed <==> cert_serial@ == trusted_serial(),
    {
        let pinned = trusted_serial_bytes();
        if bytes_eq(cert_serial, &pinned) {
            CertDecision::Proceed
        } else {
            CertDecision::Blocked
        }
    }
}

/// A freshly allocated request handler with its allocator's single
/// reference.
pub fn allocate() -> (h: RequestHandler)
    ensures
        h.ref_count.count() == 1,
{
    RequestHandler { ref_count: RefCount::new() }
}

} // verus!
