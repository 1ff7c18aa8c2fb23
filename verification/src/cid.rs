//! Guest context identifier allocation.
//!
//! The last issued identifier is persisted externally as a decimal
//! string so that a service restart does not reuse identifiers while
//! the host is up. The allocator models that store as the string it
//! last read or wrote; the caller performs the actual property read
//! and write around each allocation.

use crate::decimal::{lemma_decimal_round_trip, parse_u32_decimal, spec_parse_u32,
    u32_to_decimal};
use crate::errors::{ErrorKind, ServiceError};
use crate::Cid;
use vstd::prelude::*;

verus! {

/// The identifier issued to the first guest when no usable counter was
/// persisted.
pub const FIRST_GUEST_CID: Cid = 10;

/// The allocator of guest context identifiers.
#[derive(Debug)]
pub struct CidAllocator {
    /// The externally persisted "last issued" value, as the decimal
    /// string the store holds; `None` when nothing was persisted yet.
    pub last: Option<String>,
}

/// The last issued value that the persisted string reflects, when it
/// parses as one.
pub open spec fn persisted_cid(a: CidAllocator) -> Option<u32> {
    match a.last {
        Some(s) => spec_parse_u32(s@),
        None => None,
    }
}

/// One successful allocation: the issued value is the persisted value
/// plus one (or the first-guest value when none was usable), and the
/// store afterwards reflects the issued value.
pub open spec fn alloc_step(pre: CidAllocator, post: CidAllocator, issued: u32) -> bool {
    &&& issued == match persisted_cid(pre) {
        Some(n) => n + 1,
        None => FIRST_GUEST_CID as int,
    }
    &&& persisted_cid(post) == Some(issued)
}

impl CidAllocator {
    /// Start from the persisted value the caller read, if any.
    pub fn new(persisted: Option<String>) -> (r: CidAllocator)
        ensures
            r.last == persisted,
    {
        CidAllocator { last: persisted }
    }

    /// The string the caller must persist, as last written or read.
    pub fn persisted(&self) -> (r: &Option<String>)
        ensures
            r == self.last,
    {
        &self.last
    }

    /// Issue the next guest context identifier.
    ///
    /// Returns the persisted value plus one, or the first-guest value
    /// when nothing usable was persisted (an unparsable store is
    /// treated as recoverable), records the new value for persisting,
    /// and fails exactly when the counter would overflow.
    pub fn next(&mut self) -> (r: Result<Cid, ServiceError>)
        ensures
            match r {
                Ok(cid) => alloc_step(*old(self), *final(self), cid),
                Err(e) => e.kind == ErrorKind::ResourceExhausted && *final(self) == *old(self),
            },
            r is Err <==> persisted_cid(*old(self)) == Some(u32::MAX),
    {
        let candidate: u32 = match &self.last {
            None => FIRST_GUEST_CID,
            Some(s) => match parse_u32_decimal(s.as_str()) {
                Some(n) => {
                    if n == u32::MAX {
                        return Err(ServiceError::new(ErrorKind::ResourceExhausted,
                            "run out of CID"));
                    }
                    n + 1
                },
                None => FIRST_GUEST_CID,
            },
        };
        self.last = Some(u32_to_decimal(candidate));
        proof {
            lemma_decimal_round_trip(candidate);
        }
        Ok(candidate)
    }
}

/// Whether the states and values record a chain of successful
/// allocations, each step starting from the state the previous one
/// left.
pub open spec fn alloc_chain(states: Seq<CidAllocator>, issued: Seq<u32>) -> bool {
    &&& states.len() == issued.len() + 1
    &&& forall|i: int| 0 <= i < issued.len() ==> alloc_step(states[i], states[i + 1], issued[i])
}

proof fn lemma_issued_gap(states: Seq<CidAllocator>, issued: Seq<u32>, i: int, j: int)
    requires
        alloc_chain(states, issued),
        0 <= i <= j < issued.len(),
    ensures
        issued[j] == issued[i] + (j - i),
    decreases j - i,
{
    if i < j {
        lemma_issued_gap(states, issued, i, j - 1);
        assert(alloc_step(states[j - 1], states[j], issued[j - 1]));
        assert(alloc_step(states[j], states[j + 1], issued[j]));
        assert(persisted_cid(states[j]) == Some(issued[j - 1]));
        assert(issued[j] == issued[j - 1] + 1);
    }
}

/// CID monotonicity: along any chain of successful allocations, each
/// issued value is strictly greater than every value issued before it,
/// and the persisted counter reflects the last issued value.
pub proof fn lemma_cid_monotonicity(states: Seq<CidAllocator>, issued: Seq<u32>)
    requires
        alloc_chain(states, issued),
    ensures
        forall|i: int, j: int| 0 <= i < j < issued.len() ==> issued[i] < issued[j],
        issued.len() > 0 ==> persisted_cid(states.last()) == Some(issued.last()),
{
    assert forall|i: int, j: int| 0 <= i < j < issued.len() implies issued[i] < issued[j] by {
        lemma_issued_gap(states, issued, i, j);
    }
    if issued.len() > 0 {
        assert(alloc_step(states[issued.len() - 1], states[issued.len() as int],
            issued[issued.len() - 1]));
    }
}

} // verus!
