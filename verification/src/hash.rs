//! Addresses of the distributed store: 39 raw bytes each, kept apart by type
//! so that an entry's address, a write record's address and an agent's key
//! cannot be taken for one another.

use vstd::prelude::*;

verus! {

/// Every address is this many bytes long: a three-byte prefix, a 32-byte
/// digest and four location bytes.
pub const HOLO_HASH_FULL_LEN: usize = 39;

/// The address of an entry: the hash of its content.
#[derive(Debug)]
pub struct EntryHash {
    bytes: Vec<u8>,
}

/// The address of the record that wrote an entry.
#[derive(Debug)]
pub struct HeaderHash {
    bytes: Vec<u8>,
}

/// The public key of an agent.
#[derive(Debug)]
pub struct AgentPubKey {
    bytes: Vec<u8>,
}

impl View for EntryHash {
    type V = Seq<u8>;

    closed spec fn view(&self) -> Seq<u8> {
        self.bytes@
    }
}

impl View for HeaderHash {
    type V = Seq<u8>;

    closed spec fn view(&self) -> Seq<u8> {
        self.bytes@
    }
}

impl View for AgentPubKey {
    type V = Seq<u8>;

    closed spec fn view(&self) -> Seq<u8> {
        self.bytes@
    }
}

impl EntryHash {
    #[verifier::type_invariant]
    spec fn well_formed(self) -> bool {
        self.bytes@.len() == HOLO_HASH_FULL_LEN
    }

    /// Takes 39 raw bytes as an entry's address; refuses any other length.
    pub fn from_raw_39(bytes: Vec<u8>) -> (hash: Option<EntryHash>)
        ensures
            hash is Some <==> bytes@.len() == HOLO_HASH_FULL_LEN,
            hash is Some ==> hash->0@ == bytes@,
    {
        if bytes.len() == HOLO_HASH_FULL_LEN {
            Some(EntryHash { bytes })
        } else {
            None
        }
    }

    /// The 39 raw bytes.
    pub fn get_raw_39(&self) -> (bytes: &Vec<u8>)
        ensures
            bytes@ == self@,
            bytes@.len() == HOLO_HASH_FULL_LEN,
    {
        proof {
            use_type_invariant(self);
        }
        &self.bytes
    }

    /// Gives up the address for its raw bytes.
    pub fn into_inner(self) -> (bytes: Vec<u8>)
        ensures
            bytes@ == self@,
            bytes@.len() == HOLO_HASH_FULL_LEN,
    {
        proof {
            use_type_invariant(&self);
        }
        self.bytes
    }

    /// Whether two addresses are the same bytes.
    pub fn same_as(&self, other: &EntryHash) -> (same: bool)
        ensures
            same == (self@ == other@),
    {
        bytes_equal(&self.bytes, &other.bytes)
    }
}

impl Clone for EntryHash {
    fn clone(&self) -> (copy: EntryHash)
        ensures
            copy@ == self@,
    {
        proof {
            use_type_invariant(self);
        }
        EntryHash { bytes: copy_bytes(&self.bytes) }
    }
}

impl HeaderHash {
    #[verifier::type_invariant]
    spec fn well_formed(self) -> bool {
        self.bytes@.len() == HOLO_HASH_FULL_LEN
    }

    /// Takes 39 raw bytes as a write record's address; refuses any other length.
    pub fn from_raw_39(bytes: Vec<u8>) -> (hash: Option<HeaderHash>)
        ensures
            hash is Some <==> bytes@.len() == HOLO_HASH_FULL_LEN,
            hash is Some ==> hash->0@ == bytes@,
    {
        if bytes.len() == HOLO_HASH_FULL_LEN {
            Some(HeaderHash { bytes })
        } else {
            None
        }
    }

    /// The 39 raw bytes.
    pub fn get_raw_39(&self) -> (bytes: &Vec<u8>)
        ensures
            bytes@ == self@,
            bytes@.len() == HOLO_HASH_FULL_LEN,
    {
        proof {
            use_type_invariant(self);
        }
        &self.bytes
    }

    /// Gives up the address for its raw bytes.
    pub fn into_inner(self) -> (bytes: Vec<u8>)
        ensures
            bytes@ == self@,
            bytes@.len() == HOLO_HASH_FULL_LEN,
    {
        proof {
            use_type_invariant(&self);
        }
        self.bytes
    }

    /// Whether two addresses are the same bytes.
    pub fn same_as(&self, other: &HeaderHash) -> (same: bool)
        ensures
            same == (self@ == other@),
    {
        bytes_equal(&self.bytes, &other.bytes)
    }
}

impl Clone for HeaderHash {
    fn clone(&self) -> (copy: HeaderHash)
        ensures
            copy@ == self@,
    {
        proof {
            use_type_invariant(self);
        }
        HeaderHash { bytes: copy_bytes(&self.bytes) }
    }
}

impl AgentPubKey {
    #[verifier::type_invariant]
    spec fn well_formed(self) -> bool {
        self.bytes@.len() == HOLO_HASH_FULL_LEN
    }

    /// Takes 39 raw bytes as an agent's key; refuses any other length.
    pub fn from_raw_39(bytes: Vec<u8>) -> (hash: Option<AgentPubKey>)
        ensures
            hash is Some <==> bytes@.len() == HOLO_HASH_FULL_LEN,
            hash is Some ==> hash->0@ == bytes@,
    {
        if bytes.len() == HOLO_HASH_FULL_LEN {
            Some(AgentPubKey { bytes })
        } else {
            None
        }
    }

    /// The 39 raw bytes.
    pub fn get_raw_39(&self) -> (bytes: &Vec<u8>)
        ensures
            bytes@ == self@,
            bytes@.len() == HOLO_HASH_FULL_LEN,
    {
        proof {
            use_type_invariant(self);
        }
        &self.bytes
    }

    /// Gives up the key for its raw bytes.
    pub fn into_inner(self) -> (bytes: Vec<u8>)
        ensures
            bytes@ == self@,
            bytes@.len() == HOLO_HASH_FULL_LEN,
    {
        proof {
            use_type_invariant(&self);
        }
        self.bytes
    }

    /// Whether two keys are the same bytes.
    pub fn same_as(&self, other: &AgentPubKey) -> (same: bool)
        ensures
            same == (self@ == other@),
    {
        bytes_equal(&self.bytes, &other.bytes)
    }
}

impl Clone for AgentPubKey {
    fn clone(&self) -> (copy: AgentPubKey)
        ensures
            copy@ == self@,
    {
        proof {
            use_type_invariant(self);
        }
        AgentPubKey { bytes: copy_bytes(&self.bytes) }
    }
}

/// Whether two byte vectors hold the same bytes.
pub fn bytes_equal(a: &Vec<u8>, b: &Vec<u8>) -> (same: bool)
    ensures
        same == (a@ == b@),
{
    if a.len() != b.len() {
        return false;
    }
    let mut i: usize = 0;
    while i < a.len()
        invariant
            a@.len() == b@.len(),
            0 <= i <= a@.len(),
            forall|k: int| 0 <= k < i ==> a@[k] == b@[k],
        decreases a@.len() - i,
    {
        if a[i] != b[i] {
            return false;
        }
        i += 1;
    }
    assert(a@ =~= b@);
    true
}

/// A fresh vector with the same bytes.
pub fn copy_bytes(a: &Vec<u8>) -> (copy: Vec<u8>)
    ensures
        copy@ == a@,
{
    let mut copy: Vec<u8> = Vec::new();
    let mut i: usize = 0;
    while i < a.len()
        invariant
            0 <= i <= a@.len(),
            copy@ == a@.subrange(0, i as int),
        decreases a@.len() - i,
    {
        copy.push(a[i]);
        assert(copy@ =~= a@.subrange(0, i + 1));
        i += 1;
    }
    assert(copy@ =~= a@);
    copy
}

} // verus!
