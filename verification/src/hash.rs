//! The identity layer: a deterministic 64-bit hash scheme naming types,
//! functions, instance methods and structural keys.
//!
//! The compiler emits call instructions carrying only these hashes and the
//! virtual machine resolves them through a `Hash -> callable` map, so the
//! byte layout fed to the hasher is part of the ABI between the two.
//! Keyspaces are separated by a tag written first; path segments are written
//! as their UTF-8 bytes followed by a terminator byte, then a separator word.

use vstd::bytes::spec_u64_to_le_bytes;
use vstd::bytes::u64_to_le_bytes;
use vstd::prelude::*;
use vstd::string::StringSliceAdditionalSpecFns;

verus! {

/// Keyspace tag for types (and for functions, which share the keyspace).
pub const TYPE: u64 = 1;

/// Keyspace tag for instance functions.
pub const INSTANCE_FUNCTION: u64 = 3;

/// Keyspace tag for object-key sets.
pub const OBJECT_KEYS: u64 = 4;

/// Keyspace tag for match-against-tuple-variant functions.
pub const TUPLE_MATCH: u64 = 5;

/// Separator word written between path elements.
pub const SEP: u64 = 0x7f;

/// Terminator byte written after the bytes of each string, mirroring how the
/// standard library feeds a string to a hasher.
pub const TERM: u8 = 0xff;

/// The XXH64 digest, with seed 0, of a byte stream.
///
/// The digest is a pure function of the bytes alone, which is what makes the
/// identity scheme stable across runs and processes.
pub uninterp spec fn xxh64(data: Seq<u8>) -> u64;

/// The bytes fed so far into an [`IdentityHasher`].
pub uninterp spec fn hasher_bytes(h: IdentityHasher) -> Seq<u8>;

/// A streaming XXH64 hasher with the fixed default seed.
#[verifier::external_body]
pub struct IdentityHasher {
    inner: twox_hash::XxHash64,
}

impl IdentityHasher {
    /// Construct a hasher that has been fed no bytes yet.
    ///
    /// Relies on `twox_hash::XxHash64::with_seed`: a fresh hasher over an
    /// empty stream.
    #[verifier::external_body]
    pub fn new() -> (h: IdentityHasher)
        ensures
            hasher_bytes(h) == Seq::<u8>::empty(),
    {
        IdentityHasher { inner: twox_hash::XxHash64::with_seed(0) }
    }

    /// Feed bytes to the hasher.
    ///
    /// Relies on `Hasher::write` for `twox_hash::XxHash64`: it appends the
    /// data to the stream being digested.
    #[verifier::external_body]
    pub fn write(&mut self, data: &[u8])
        ensures
            hasher_bytes(*final(self)) == hasher_bytes(*old(self)) + data@,
    {
        core::hash::Hasher::write(&mut self.inner, data)
    }

    /// The digest of the bytes fed so far.
    ///
    /// Relies on `Hasher::finish` for `twox_hash::XxHash64`: the XXH64 digest
    /// of the fed stream under the seed the hasher was built with, a function
    /// of the stream alone.
    #[verifier::external_body]
    pub fn finish(&self) -> (r: u64)
        ensures
            r == xxh64(hasher_bytes(*self)),
    {
        core::hash::Hasher::finish(&self.inner)
    }
}

/// The hash of a primitive thing.
#[derive(Clone, Copy, PartialEq, Eq, Structural, Debug, PartialOrd, Ord, Hash)]
pub struct Hash(pub u64);

/// The byte views of a sequence of path segments.
pub open spec fn seg_bytes(path: Seq<&str>) -> Seq<Seq<u8>> {
    path.map_values(|s: &str| s.spec_bytes())
}

/// The stream fed for a sequence of path segments: each segment's bytes,
/// its terminator, then the separator word.
pub open spec fn segs_input(segs: Seq<Seq<u8>>) -> Seq<u8>
    decreases segs.len(),
{
    if segs.len() == 0 {
        Seq::<u8>::empty()
    } else {
        segs_input(segs.drop_last()) + segs.last().push(TERM) + spec_u64_to_le_bytes(SEP)
    }
}

/// The full stream fed for a path hashed under a keyspace tag.
pub open spec fn path_input(kind: u64, segs: Seq<Seq<u8>>) -> Seq<u8> {
    spec_u64_to_le_bytes(kind) + segs_input(segs)
}

/// The stream fed for a sequence of object keys: the separator word, then
/// the key's bytes and its terminator, for each key in order.
pub open spec fn keys_input(keys: Seq<Seq<u8>>) -> Seq<u8>
    decreases keys.len(),
{
    if keys.len() == 0 {
        Seq::<u8>::empty()
    } else {
        keys_input(keys.drop_last()) + spec_u64_to_le_bytes(SEP) + keys.last().push(TERM)
    }
}

/// The identity of a type with the given path.
pub open spec fn spec_type_hash(segs: Seq<Seq<u8>>) -> u64 {
    xxh64(path_input(TYPE, segs))
}

/// The identity of a function with the given path.
pub open spec fn spec_function_hash(segs: Seq<Seq<u8>>) -> u64 {
    xxh64(path_input(TYPE, segs))
}

/// The identity of a tuple-match function with the given path.
pub open spec fn spec_tuple_match_hash(segs: Seq<Seq<u8>>) -> u64 {
    xxh64(path_input(TUPLE_MATCH, segs))
}

/// The identity of an ordered set of object keys.
pub open spec fn spec_object_keys_hash(keys: Seq<Seq<u8>>) -> u64 {
    xxh64(spec_u64_to_le_bytes(OBJECT_KEYS) + keys_input(keys))
}

/// The stream fed for an instance function: the keyspace tag, the type's
/// identity, the separator word and the name's identity, each as a
/// little-endian word.
pub open spec fn instance_function_input(ty: u64, name: u64) -> Seq<u8> {
    spec_u64_to_le_bytes(INSTANCE_FUNCTION) + spec_u64_to_le_bytes(ty) + spec_u64_to_le_bytes(SEP)
        + spec_u64_to_le_bytes(name)
}

/// The identity of an instance function on a pre-determined type.
pub open spec fn spec_instance_function_hash(ty: u64, name: u64) -> u64 {
    xxh64(instance_function_input(ty, name))
}

proof fn lemma_segs_input_step(segs: Seq<Seq<u8>>, i: int)
    requires
        0 <= i < segs.len(),
    ensures
        segs_input(segs.take(i + 1)) == segs_input(segs.take(i)) + segs[i].push(TERM)
            + spec_u64_to_le_bytes(SEP),
{
    assert(segs.take(i + 1).drop_last() =~= segs.take(i));
    assert(segs.take(i + 1).last() == segs[i]);
}

proof fn lemma_keys_input_step(keys: Seq<Seq<u8>>, i: int)
    requires
        0 <= i < keys.len(),
    ensures
        keys_input(keys.take(i + 1)) == keys_input(keys.take(i)) + spec_u64_to_le_bytes(SEP)
            + keys[i].push(TERM),
{
    assert(keys.take(i + 1).drop_last() =~= keys.take(i));
    assert(keys.take(i + 1).last() == keys[i]);
}

impl Hash {
    /// Hash corresponding to global function calls.
    pub fn global_module() -> (r: Hash)
        ensures
            r.0 == 0,
    {
        Hash(0)
    }

    /// Construct a simple hash of a byte stream.
    pub fn of(data: &[u8]) -> (r: Hash)
        ensures
            r.0 == xxh64(data@),
    {
        let mut hasher = IdentityHasher::new();
        hasher.write(data);
        proof {
            assert(hasher_bytes(hasher) =~= data@);
        }
        Hash(hasher.finish())
    }

    /// Construct a hash for a path under the given keyspace tag.
    fn path(kind: u64, path: &[&str]) -> (r: Hash)
        ensures
            r.0 == xxh64(path_input(kind, seg_bytes(path@))),
    {
        let mut hasher = IdentityHasher::new();
        let kind_bytes = u64_to_le_bytes(kind);
        hasher.write(kind_bytes.as_slice());
        proof {
            assert(hasher_bytes(hasher) =~= spec_u64_to_le_bytes(kind));
        }
        let ghost segs = seg_bytes(path@);
        let mut i: usize = 0;
        while i < path.len()
            invariant
                i <= path.len(),
                segs == seg_bytes(path@),
                segs.len() == path@.len(),
                hasher_bytes(hasher) == spec_u64_to_le_bytes(kind) + segs_input(
                    segs.take(i as int),
                ),
            decreases path.len() - i,
        {
            let part: &&str = vstd::slice::slice_index_get(path, i);
            hasher.write(part.as_bytes());
            let term: [u8; 1] = [TERM];
            hasher.write(term.as_slice());
            let sep_bytes = u64_to_le_bytes(SEP);
            hasher.write(sep_bytes.as_slice());
            proof {
                lemma_segs_input_step(segs, i as int);
                assert(term@ =~= seq![TERM]);
                assert(segs[i as int].push(TERM) =~= segs[i as int] + term@);
                assert(hasher_bytes(hasher) =~= spec_u64_to_le_bytes(kind) + segs_input(
                    segs.take(i as int + 1),
                ));
            }
            i += 1;
        }
        proof {
            assert(segs.take(path@.len() as int) =~= segs);
        }
        Hash(hasher.finish())
    }

    /// Get the hash of a type.
    pub fn of_type(path: &[&str]) -> (r: Hash)
        ensures
            r.0 == spec_type_hash(seg_bytes(path@)),
    {
        Self::path(TYPE, path)
    }

    /// Get the hash of a tuple match function.
    pub fn tuple_match(path: &[&str]) -> (r: Hash)
        ensures
            r.0 == spec_tuple_match_hash(seg_bytes(path@)),
    {
        Self::path(TUPLE_MATCH, path)
    }

    /// Construct a hash for a function in the given path.
    pub fn function(path: &[&str]) -> (r: Hash)
        ensures
            r.0 == spec_function_hash(seg_bytes(path@)),
    {
        Self::path(TYPE, path)
    }

    /// Hash the given sequence of object keys; their order matters and
    /// mirrors the object's insertion order.
    pub fn object_keys(keys: &[&str]) -> (r: Hash)
        ensures
            r.0 == spec_object_keys_hash(seg_bytes(keys@)),
    {
        let mut hasher = IdentityHasher::new();
        let tag_bytes = u64_to_le_bytes(OBJECT_KEYS);
        hasher.write(tag_bytes.as_slice());
        proof {
            assert(hasher_bytes(hasher) =~= spec_u64_to_le_bytes(OBJECT_KEYS));
        }
        let ghost segs = seg_bytes(keys@);
        let mut i: usize = 0;
        while i < keys.len()
            invariant
                i <= keys.len(),
                segs == seg_bytes(keys@),
                segs.len() == keys@.len(),
                hasher_bytes(hasher) == spec_u64_to_le_bytes(OBJECT_KEYS) + keys_input(
                    segs.take(i as int),
                ),
            decreases keys.len() - i,
        {
            let sep_bytes = u64_to_le_bytes(SEP);
            hasher.write(sep_bytes.as_slice());
            let key: &&str = vstd::slice::slice_index_get(keys, i);
            hasher.write(key.as_bytes());
            let term: [u8; 1] = [TERM];
            hasher.write(term.as_slice());
            proof {
                lemma_keys_input_step(segs, i as int);
                assert(term@ =~= seq![TERM]);
                assert(segs[i as int].push(TERM) =~= segs[i as int] + term@);
                assert(hasher_bytes(hasher) =~= spec_u64_to_le_bytes(OBJECT_KEYS) + keys_input(
                    segs.take(i as int + 1),
                ));
            }
            i += 1;
        }
        proof {
            assert(segs.take(keys@.len() as int) =~= segs);
        }
        Hash(hasher.finish())
    }

    /// Construct a hash to an instance function, where the instance is a
    /// pre-determined type.
    pub fn instance_function(ty: Hash, name: Hash) -> (r: Hash)
        ensures
            r.0 == spec_instance_function_hash(ty.0, name.0),
    {
        let mut hasher = IdentityHasher::new();
        let tag_bytes = u64_to_le_bytes(INSTANCE_FUNCTION);
        hasher.write(tag_bytes.as_slice());
        let ty_bytes = u64_to_le_bytes(ty.0);
        hasher.write(ty_bytes.as_slice());
        let sep_bytes = u64_to_le_bytes(SEP);
        hasher.write(sep_bytes.as_slice());
        let name_bytes = u64_to_le_bytes(name.0);
        hasher.write(name_bytes.as_slice());
        proof {
            assert(hasher_bytes(hasher) =~= instance_function_input(ty.0, name.0));
        }
        Hash(hasher.finish())
    }
}

/// The lowercase hex digit character for a value below sixteen.
pub open spec fn spec_hex_digit(d: nat) -> char {
    if d == 0 {
        '0'
    } else if d == 1 {
        '1'
    } else if d == 2 {
        '2'
    } else if d == 3 {
        '3'
    } else if d == 4 {
        '4'
    } else if d == 5 {
        '5'
    } else if d == 6 {
        '6'
    } else if d == 7 {
        '7'
    } else if d == 8 {
        '8'
    } else if d == 9 {
        '9'
    } else if d == 10 {
        'a'
    } else if d == 11 {
        'b'
    } else if d == 12 {
        'c'
    } else if d == 13 {
        'd'
    } else if d == 14 {
        'e'
    } else {
        'f'
    }
}

/// The hex digits of `n`, most significant first, without leading zeros;
/// zero itself is the single digit `0`.
pub open spec fn spec_hex_digits(n: nat) -> Seq<char>
    decreases n,
{
    if n < 16 {
        seq![spec_hex_digit(n)]
    } else {
        spec_hex_digits(n / 16).push(spec_hex_digit(n % 16))
    }
}

/// The lowercase hex digit for a value below sixteen, as a one-character
/// string slice.
fn hex_digit_str(d: u64) -> (r: &'static str)
    requires
        d < 16,
    ensures
        r@ == seq![spec_hex_digit(d as nat)],
{
    proof {
        reveal_strlit("0");
        reveal_strlit("1");
        reveal_strlit("2");
        reveal_strlit("3");
        reveal_strlit("4");
        reveal_strlit("5");
        reveal_strlit("6");
        reveal_strlit("7");
        reveal_strlit("8");
        reveal_strlit("9");
        reveal_strlit("a");
        reveal_strlit("b");
        reveal_strlit("c");
        reveal_strlit("d");
        reveal_strlit("e");
        reveal_strlit("f");
    }
    match d {
        0 => "0",
        1 => "1",
        2 => "2",
        3 => "3",
        4 => "4",
        5 => "5",
        6 => "6",
        7 => "7",
        8 => "8",
        9 => "9",
        10 => "a",
        11 => "b",
        12 => "c",
        13 => "d",
        14 => "e",
        _ => "f",
    }
}

/// Append the hex digits of `n`, most significant first.
fn push_hex(n: u64, out: &mut String)
    ensures
        final(out)@ == old(out)@ + spec_hex_digits(n as nat),
    decreases n,
{
    if n < 16 {
        out.append(hex_digit_str(n));
    } else {
        push_hex(n / 16, out);
        out.append(hex_digit_str(n % 16));
        proof {
            assert(out@ =~= old(out)@ + spec_hex_digits(n as nat));
        }
    }
}

impl Hash {
    /// The identity rendered as `0x` followed by its lowercase hex digits,
    /// the form the runtime reports hashes in.
    pub fn display_string(&self) -> (r: String)
        ensures
            r@ == seq!['0', 'x'] + spec_hex_digits(self.0 as nat),
    {
        proof {
            reveal_strlit("0x");
        }
        let mut out = <String as vstd::string::StringExecFns>::from_str("0x");
        proof {
            assert(out@ =~= seq!['0', 'x']);
        }
        push_hex(self.0, &mut out);
        out
    }
}

/// Types and functions share the TYPE keyspace: hashing a path as a type and
/// hashing it as a function yield the same identity.
pub proof fn lemma_type_function_same_keyspace(segs: Seq<Seq<u8>>)
    ensures
        spec_type_hash(segs) == spec_function_hash(segs),
{
}

} // verus!
