//! Hashes that identify types, functions and protocol handlers.

use std::collections::hash_map::DefaultHasher;
use std::hash::Hasher;
use vstd::prelude::*;
use vstd::std_specs::hash::DefaultHasherAdditionalSpecFns;
use vstd::string::StringSliceAdditionalSpecFns;

verus! {

/// Mixed into the hash of every instance function.
pub const INSTANCE_FUNCTION_HASH: u64 = 0x5ea77ffbcdf5f302;

/// Mixed into the hash of every field function.
pub const FIELD_FUNCTION_HASH: u64 = 0xab53b6a7a53c757e;

/// The primitive hash that identifies items, types and native functions.
#[derive(Debug, Clone, Copy, PartialEq, Eq, Structural)]
pub struct Hash(pub u64);

/// A protocol: a named operation (such as a field getter) that a type can
/// implement, identified by its hash.
#[derive(Debug, Clone, Copy)]
pub struct Protocol {
    /// The name of the protocol.
    pub name: &'static str,
    /// The hash of the protocol.
    pub hash: Hash,
}

/// The hash of an instance function `name` on the type `type_hash`.
pub open spec fn spec_instance_function(type_hash: Hash, name: Hash) -> Hash {
    Hash(INSTANCE_FUNCTION_HASH ^ (type_hash.0 ^ name.0))
}

/// The hash of the field function of `protocol` for field `name` on the type
/// `type_hash`.
pub open spec fn spec_field_fn(protocol: Protocol, type_hash: Hash, name: Hash) -> Hash {
    Hash(FIELD_FUNCTION_HASH ^ ((type_hash.0 ^ protocol.hash.0) ^ name.0))
}

/// The hash of a string, given by its UTF-8 bytes: one write of those bytes
/// into a fresh default hasher.
pub open spec fn spec_str_hash(bytes: Seq<u8>) -> Hash {
    Hash(DefaultHasher::spec_finish(seq![bytes]))
}

impl Hash {
    /// Construct the hash of an instance function.
    pub fn instance_function(type_hash: Hash, name: Hash) -> (h: Hash)
        ensures
            h == spec_instance_function(type_hash, name),
    {
        Hash(INSTANCE_FUNCTION_HASH ^ (type_hash.0 ^ name.0))
    }

    /// Construct the hash of a field function.
    pub fn field_fn(protocol: Protocol, type_hash: Hash, name: Hash) -> (h: Hash)
        ensures
            h == spec_field_fn(protocol, type_hash, name),
    {
        Hash(FIELD_FUNCTION_HASH ^ ((type_hash.0 ^ protocol.hash.0) ^ name.0))
    }

    /// Hash a string, such as the name of an instance function.
    pub fn of_str(s: &str) -> (h: Hash)
        ensures
            h == spec_str_hash(s.spec_bytes()),
    {
        let mut hasher = DefaultHasher::new();
        hasher.write(s.as_bytes());
        Hash(hasher.finish())
    }
}

/// For a fixed type, distinct instance function names hash differently.
pub proof fn lemma_instance_function_injective(type_hash: Hash, a: Hash, b: Hash)
    ensures
        spec_instance_function(type_hash, a) == spec_instance_function(type_hash, b) <==> a == b,
{
    let t = type_hash.0;
    let x = a.0;
    let y = b.0;
    assert((INSTANCE_FUNCTION_HASH ^ (t ^ x)) == (INSTANCE_FUNCTION_HASH ^ (t ^ y)) <==> x == y)
        by (bit_vector);
}

/// For a fixed protocol and type, distinct field names hash differently.
pub proof fn lemma_field_fn_injective(protocol: Protocol, type_hash: Hash, a: Hash, b: Hash)
    ensures
        spec_field_fn(protocol, type_hash, a) == spec_field_fn(protocol, type_hash, b) <==> a == b,
{
    let t = type_hash.0;
    let p = protocol.hash.0;
    let x = a.0;
    let y = b.0;
    assert((FIELD_FUNCTION_HASH ^ ((t ^ p) ^ x)) == (FIELD_FUNCTION_HASH ^ ((t ^ p) ^ y)) <==> x
        == y) by (bit_vector);
}

} // verus!
