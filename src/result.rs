use vstd::prelude::*;

verus! {

/// What a completed get delivers: the document's content, its flags and its
/// CAS value.
#[derive(Debug)]
pub struct GetResult {
    cas: u64,
    content: Vec<u8>,
    flags: u32,
}

impl GetResult {
    pub closed spec fn spec_cas(&self) -> u64 {
        self.cas
    }

    pub closed spec fn spec_content(&self) -> Seq<u8> {
        self.content@
    }

    pub closed spec fn spec_flags(&self) -> u32 {
        self.flags
    }

    pub fn new(cas: u64, content: Vec<u8>, flags: u32) -> (r: Self)
        ensures
            r.spec_cas() == cas,
            r.spec_content() == content@,
            r.spec_flags() == flags,
    {
        GetResult { cas, content, flags }
    }

    pub fn cas(&self) -> (r: u64)
        ensures
            r == self.spec_cas(),
    {
        self.cas
    }

    pub fn content(&self) -> (r: &Vec<u8>)
        ensures
            r@ == self.spec_content(),
    {
        &self.content
    }

    pub fn flags(&self) -> (r: u32)
        ensures
            r == self.spec_flags(),
    {
        self.flags
    }
}

/// What a completed mutation delivers: the document's new CAS value.
#[derive(Debug)]
pub struct MutationResult {
    cas: u64,
}

impl MutationResult {
    pub closed spec fn spec_cas(&self) -> u64 {
        self.cas
    }

    pub fn new(cas: u64) -> (r: Self)
        ensures
            r.spec_cas() == cas,
    {
        MutationResult { cas }
    }

    pub fn cas(&self) -> (r: u64)
        ensures
            r == self.spec_cas(),
    {
        self.cas
    }
}

} // verus!
