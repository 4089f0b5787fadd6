use vstd::prelude::*;

verus! {

/// The target of a search: a byte prefix that a public key must start with,
/// and a bitmask of the same length (a set bit must match, a clear bit is a
/// don't-care).
pub struct Matcher {
    req: Vec<u8>,
    mask: Vec<u8>,
}

impl Matcher {
    /// The prefix bytes.
    pub closed spec fn pattern(&self) -> Seq<u8> {
        self.req@
    }

    /// The mask bytes.
    pub closed spec fn bitmask(&self) -> Seq<u8> {
        self.mask@
    }

    /// Pattern and mask have one length.
    pub open spec fn wf(&self) -> bool {
        self.pattern().len() == self.bitmask().len()
    }

    /// Builds a matcher from a prefix and its mask; `None` when their lengths differ.
    pub fn new(req: Vec<u8>, mask: Vec<u8>) -> (r: Option<Matcher>)
        ensures
            r is Some <==> req@.len() == mask@.len(),
            r matches Some(m) ==> m.pattern() == req@ && m.bitmask() == mask@ && m.wf(),
    {
        if req.len() == mask.len() {
            Some(Matcher { req, mask })
        } else {
            None
        }
    }

    /// Length of the prefix in bytes.
    pub fn prefix_len(&self) -> (r: usize)
        ensures
            r == self.pattern().len(),
    {
        self.req.len()
    }

    /// The prefix bytes.
    pub fn req(&self) -> (r: &[u8])
        ensures
            r@ == self.pattern(),
    {
        self.req.as_slice()
    }

    /// The mask bytes.
    pub fn mask(&self) -> (r: &[u8])
        ensures
            r@ == self.bitmask(),
    {
        self.mask.as_slice()
    }
}

} // verus!
