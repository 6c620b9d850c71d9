//! Versioned envelope for stored artifacts, and the metadata that says which
//! platform, circuit and hash function produced them.

use crate::text::str_eq;
use vstd::hash_map::StringHashMap;
use vstd::prelude::*;
use vstd::string::StringExecFns;

verus! {

/// Metadata key of the platform version.
pub const ZKVM_PLATFORM_VER: &'static str = "ZKVM_PLATFORM_VER";

/// Metadata key of the circuit version.
pub const ZKVM_CIRCUIT_VER: &'static str = "ZKVM_CIRCUIT_VER";

/// Metadata key of the hash function used by the prover.
pub const ZKVM_PROVER_HASH: &'static str = "ZKVM_PROVER_HASH";

/// Sha256 hash value
pub const ZKVM_HASH_SHA256: &'static str = "sha256";

/// Poseidon hash value
pub const ZKVM_HASH_POSEIDON: &'static str = "poseidon";

/// Version recorded for the platform and the circuit.
pub const PKG_VERSION: &'static str = "0.1.0";

/// Errors of the envelope layer.
#[derive(Debug)]
pub enum CommonErr {
    /// Invalid hashing string identifier
    InvalidHash(String),
    /// Inner [BodyType] does not match requested conversion
    InvalidDataType(String),
    /// Failure to decode the inner data; carries the decoder's message
    BincodeErr(String),
}

impl CommonErr {
    /// The message shown to a user.
    pub fn to_string(&self) -> (r: String)
        ensures
            r@ == match *self {
                CommonErr::InvalidHash(s) => "The requested hash `"@ + s@ + "` is not supported"@,
                CommonErr::InvalidDataType(s) => "Invalid inner data type: `"@ + s@ + "`"@,
                CommonErr::BincodeErr(_) => "bincode failed to deserialize inner type"@,
            },
    {
        match self {
            CommonErr::InvalidHash(s) => {
                let mut m = "The requested hash `".to_owned();
                m.append(s.as_str());
                m.append("` is not supported");
                m
            },
            CommonErr::InvalidDataType(s) => {
                let mut m = "Invalid inner data type: `".to_owned();
                m.append(s.as_str());
                m.append("`");
                m
            },
            CommonErr::BincodeErr(_) => "bincode failed to deserialize inner type".to_owned(),
        }
    }
}

/// Types of supported hashes in the zkvm
#[derive(Clone, Copy, Debug, PartialEq, Eq, Structural)]
pub enum Hashes {
    /// Sha256 hashing function
    Sha256,
    /// poseidon hashing function
    Poseidon,
}

impl Hashes {
    /// The identifier of a hash function.
    pub open spec fn name(self) -> Seq<char> {
        match self {
            Hashes::Sha256 => ZKVM_HASH_SHA256@,
            Hashes::Poseidon => ZKVM_HASH_POSEIDON@,
        }
    }

    /// Whether `s` identifies a supported hash function.
    pub open spec fn known(s: Seq<char>) -> bool {
        s == ZKVM_HASH_SHA256@ || s == ZKVM_HASH_POSEIDON@
    }

    /// Reads a hash identifier. Anything but the two supported identifiers
    /// is refused, and the error carries the text that was given.
    pub fn parse(s: &str) -> (r: Result<Hashes, CommonErr>)
        ensures
            s@ == ZKVM_HASH_SHA256@ ==> r == Ok::<Hashes, CommonErr>(Hashes::Sha256),
            s@ != ZKVM_HASH_SHA256@ && s@ == ZKVM_HASH_POSEIDON@ ==> r == Ok::<Hashes, CommonErr>(
                Hashes::Poseidon,
            ),
            !Self::known(s@) ==> (r matches Err(CommonErr::InvalidHash(t)) && t@ == s@),
            r matches Ok(h) ==> h.name() == s@,
    {
        if str_eq(s, ZKVM_HASH_SHA256) {
            Ok(Hashes::Sha256)
        } else if str_eq(s, ZKVM_HASH_POSEIDON) {
            Ok(Hashes::Poseidon)
        } else {
            Err(CommonErr::InvalidHash(s.to_owned()))
        }
    }

    /// The identifier of this hash function, as an owned string.
    pub fn to_string(&self) -> (r: String)
        ensures
            r@ == self.name(),
    {
        match self {
            Hashes::Sha256 => ZKVM_HASH_SHA256.to_owned(),
            Hashes::Poseidon => ZKVM_HASH_POSEIDON.to_owned(),
        }
    }
}

impl std::str::FromStr for Hashes {
    type Err = CommonErr;

    fn from_str(s: &str) -> (r: Result<Self, CommonErr>)
        ensures
            Hashes::known(s@) ==> (r matches Ok(h) && h.name() == s@),
            !Hashes::known(s@) ==> (r matches Err(CommonErr::InvalidHash(t)) && t@ == s@),
    {
        Hashes::parse(s)
    }
}

/// Metadata for the [Envelope]: a table from key to value
pub struct MetaData(pub StringHashMap<String>);

impl View for MetaData {
    type V = Map<Seq<char>, Seq<char>>;

    /// The table as a map from key to value, both as character sequences.
    open spec fn view(&self) -> Map<Seq<char>, Seq<char>> {
        Map::new(|k: Seq<char>| self.0@.contains_key(k), |k: Seq<char>| self.0@[k]@)
    }
}

/// The table that [`MetaData::from`] builds for the hash function named
/// `hash_name`.
pub open spec fn standard_metadata(hash_name: Seq<char>) -> Map<Seq<char>, Seq<char>> {
    Map::<Seq<char>, Seq<char>>::empty().insert(ZKVM_CIRCUIT_VER@, PKG_VERSION@).insert(
        ZKVM_PLATFORM_VER@,
        PKG_VERSION@,
    ).insert(ZKVM_PROVER_HASH@, hash_name)
}

/// Whether a table holds the three required keys.
pub open spec fn has_required_keys(m: Map<Seq<char>, Seq<char>>) -> bool {
    m.contains_key(ZKVM_PLATFORM_VER@) && m.contains_key(ZKVM_CIRCUIT_VER@) && m.contains_key(
        ZKVM_PROVER_HASH@,
    )
}

/// Whether a table holds `key` with exactly the value `val`.
pub open spec fn agrees(m: Map<Seq<char>, Seq<char>>, key: Seq<char>, val: Seq<char>) -> bool {
    m.contains_key(key) && m[key] == val
}

impl MetaData {
    /// A table without entries.
    pub fn empty() -> (r: Self)
        ensures
            r@ == Map::<Seq<char>, Seq<char>>::empty(),
    {
        let r = MetaData(StringHashMap::new());
        assert(r@ =~= Map::<Seq<char>, Seq<char>>::empty());
        r
    }

    /// Sets `key` to `value`, in place of what the table held under `key`.
    pub fn insert(&mut self, key: String, value: String)
        ensures
            final(self)@ == old(self)@.insert(key@, value@),
    {
        self.0.insert(key, value);
        assert(self@ =~= old(self)@.insert(key@, value@));
    }

    /// Construct [MetaData] from a [Hashes] selection
    pub fn from(hash: Hashes) -> (r: Self)
        ensures
            r@ == standard_metadata(hash.name()),
            has_required_keys(r@),
    {
        let mut inner: StringHashMap<String> = StringHashMap::new();
        inner.insert(ZKVM_CIRCUIT_VER.to_owned(), PKG_VERSION.to_owned());
        inner.insert(ZKVM_PLATFORM_VER.to_owned(), PKG_VERSION.to_owned());
        inner.insert(ZKVM_PROVER_HASH.to_owned(), hash.to_string());
        let r = MetaData(inner);
        assert(r@ =~= standard_metadata(hash.name()));
        r
    }

    /// Construct [MetaData] from the identifier of a hash function; an
    /// unsupported identifier is refused.
    pub fn parse(s: &str) -> (r: Result<Self, CommonErr>)
        ensures
            Hashes::known(s@) ==> (r matches Ok(m) && m@ == standard_metadata(s@)),
            !Hashes::known(s@) ==> (r matches Err(CommonErr::InvalidHash(t)) && t@ == s@),
    {
        match Hashes::parse(s) {
            Ok(hash) => Ok(MetaData::from(hash)),
            Err(e) => Err(e),
        }
    }

    /// Check if this [MetaData] has the required keys
    pub fn valid(&self) -> (r: bool)
        ensures
            r == has_required_keys(self@),
    {
        self.0.contains_key(ZKVM_PLATFORM_VER) && self.0.contains_key(ZKVM_CIRCUIT_VER)
            && self.0.contains_key(ZKVM_PROVER_HASH)
    }

    /// Check the if provided key-value pairs match the metadata
    pub fn compatible(&self, values: &[(&str, &str)]) -> (r: bool)
        ensures
            r == (forall|i: int|
                0 <= i < values@.len() ==> agrees(self@, (#[trigger] values@[i]).0@, values@[i].1@)),
    {
        let n: usize = values.len();
        let mut i: usize = 0;
        while i < n
            invariant
                n == values@.len(),
                i <= n,
                forall|j: int|
                    0 <= j < i ==> agrees(self@, (#[trigger] values@[j]).0@, values@[j].1@),
            decreases n - i,
        {
            let (key, val) = values[i];
            match self.0.get(key) {
                Some(self_val) => {
                    if !str_eq(self_val.as_str(), val) {
                        assert(!agrees(self@, values@[i as int].0@, values@[i as int].1@));
                        return false;
                    }
                },
                None => {
                    assert(!agrees(self@, values@[i as int].0@, values@[i as int].1@));
                    return false;
                },
            }
            i += 1;
        }
        true
    }

    /// Looks a key up; `None` where the table does not hold it.
    pub fn get(&self, key: &str) -> (r: Option<&str>)
        ensures
            r is Some == self@.contains_key(key@),
            r matches Some(v) ==> v@ == self@[key@],
    {
        match self.0.get(key) {
            Some(v) => Some(v.as_str()),
            None => None,
        }
    }

    /// Helper to access ZKVM_PLATFORM_VER
    pub fn zkvm_platform_version(&self) -> (r: &str)
        requires
            self@.contains_key(ZKVM_PLATFORM_VER@),
        ensures
            r@ == self@[ZKVM_PLATFORM_VER@],
    {
        self.0.get(ZKVM_PLATFORM_VER).unwrap().as_str()
    }

    /// Helper to access ZKVM_CIRCUIT_VER
    pub fn zkvm_circuit_version(&self) -> (r: &str)
        requires
            self@.contains_key(ZKVM_CIRCUIT_VER@),
        ensures
            r@ == self@[ZKVM_CIRCUIT_VER@],
    {
        self.0.get(ZKVM_CIRCUIT_VER).unwrap().as_str()
    }

    /// Helper to access ZKVM_PROVER_HASH
    pub fn zkvm_prover_hash(&self) -> (r: &str)
        requires
            self@.contains_key(ZKVM_PROVER_HASH@),
        ensures
            r@ == self@[ZKVM_PROVER_HASH@],
    {
        self.0.get(ZKVM_PROVER_HASH).unwrap().as_str()
    }
}

impl std::str::FromStr for MetaData {
    type Err = CommonErr;

    /// Construct [MetaData] from a hash String selection
    fn from_str(s: &str) -> (r: Result<Self, CommonErr>)
        ensures
            Hashes::known(s@) ==> (r matches Ok(m) && m@ == standard_metadata(s@)),
            !Hashes::known(s@) ==> (r matches Err(CommonErr::InvalidHash(t)) && t@ == s@),
    {
        MetaData::parse(s)
    }
}

/// Type of data contained within the [Envelope]
#[derive(Clone, Copy, Debug, PartialEq, Eq, Structural)]
pub enum BodyType {
    /// Segment data
    Segment,
    /// Session data
    Session,
    /// Memory Image Data
    MemoryImage,
    /// Segment Receipt Data
    SegmentReceipt,
    /// Session Receipt Data
    SessionReceipt,
}

impl BodyType {
    /// The tag's name.
    pub open spec fn name(self) -> Seq<char> {
        match self {
            BodyType::Segment => "Segment"@,
            BodyType::Session => "Session"@,
            BodyType::MemoryImage => "MemoryImage"@,
            BodyType::SegmentReceipt => "SegmentReceipt"@,
            BodyType::SessionReceipt => "SessionReceipt"@,
        }
    }

    /// The tag's name, as an owned string.
    pub fn to_string(&self) -> (r: String)
        ensures
            r@ == self.name(),
    {
        match self {
            BodyType::Segment => "Segment".to_owned(),
            BodyType::Session => "Session".to_owned(),
            BodyType::MemoryImage => "MemoryImage".to_owned(),
            BodyType::SegmentReceipt => "SegmentReceipt".to_owned(),
            BodyType::SessionReceipt => "SessionReceipt".to_owned(),
        }
    }
}

/// Version agnostic data wrapper
///
/// The body is the encoded artifact; the envelope never looks inside it.
pub struct Envelope {
    /// [MetaData] associated with the contained data
    pub metadata: MetaData,
    /// Type of data contained within the envelope
    pub body_type: BodyType,
    /// The encoded artifact
    pub body: Vec<u8>,
}

impl Envelope {
    /// Wraps an already encoded artifact of the given type, with the standard
    /// metadata for the hash function that `hash` names. An unsupported hash
    /// identifier is refused.
    pub fn try_from_hash(body_type: BodyType, body: Vec<u8>, hash: &str) -> (r: Result<
        Envelope,
        CommonErr,
    >)
        ensures
            Hashes::known(hash@) ==> (r matches Ok(e) && e.metadata@ == standard_metadata(hash@)
                && e.body_type == body_type && e.body@ == body@),
            !Hashes::known(hash@) ==> (r matches Err(CommonErr::InvalidHash(t)) && t@ == hash@),
    {
        match MetaData::parse(hash) {
            Ok(metadata) => Ok(Envelope { metadata, body_type, body }),
            Err(e) => Err(e),
        }
    }

    /// Hands out the encoded artifact if the envelope holds the expected
    /// type; otherwise the error names the type that it does hold.
    pub fn try_into_body(self, expected: BodyType) -> (r: Result<Vec<u8>, CommonErr>)
        ensures
            self.body_type == expected ==> (r matches Ok(b) && b@ == self.body@),
            self.body_type != expected ==> (r matches Err(CommonErr::InvalidDataType(t)) && t@
                == self.body_type.name()),
    {
        if self.body_type == expected {
            Ok(self.body)
        } else {
            Err(CommonErr::InvalidDataType(self.body_type.to_string()))
        }
    }
}

} // verus!
