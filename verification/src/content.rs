//! What the content store says of ingested bytes: their hash and their format.

use vstd::prelude::*;

use crate::bytes::same_bytes;
use crate::text::{hex_lower, to_hex_lower};

verus! {

/// The length in bytes of a content hash.
pub const HASH_LENGTH: usize = 32;

/// How the store took the bytes in: as one raw blob, or as a sequence of
/// hashes of further blobs.
#[derive(Debug, Clone, Copy, PartialEq, Eq, Structural)]
pub enum BlobFormat {
    /// A single raw blob.
    Raw,
    /// A blob that lists the hashes of other blobs.
    HashSeq,
}

impl BlobFormat {
    /// The format's name: `Raw` or `HashSeq`.
    pub open spec fn name(self) -> Seq<char> {
        match self {
            BlobFormat::Raw => seq!['R', 'a', 'w'],
            BlobFormat::HashSeq => seq!['H', 'a', 's', 'h', 'S', 'e', 'q'],
        }
    }

    /// The format's name as text.
    pub fn to_text(&self) -> (text: String)
        ensures
            text@ == self.name(),
    {
        proof {
            reveal_strlit("Raw");
            reveal_strlit("HashSeq");
        }
        let name = match self {
            BlobFormat::Raw => "Raw",
            BlobFormat::HashSeq => "HashSeq",
        };
        assert(name@ =~= self.name());
        name.to_owned()
    }

    /// Whether two formats are the same.
    pub fn same_as(&self, other: &BlobFormat) -> (same: bool)
        ensures
            same == (*self == *other),
    {
        match (self, other) {
            (BlobFormat::Raw, BlobFormat::Raw) => true,
            (BlobFormat::HashSeq, BlobFormat::HashSeq) => true,
            _ => false,
        }
    }
}

/// The hash by which the store addresses content: equal bytes, equal hash.
#[derive(Debug, Clone, Copy, PartialEq, Eq)]
pub struct ContentHash {
    bytes: [u8; 32],
}

impl View for ContentHash {
    type V = Seq<u8>;

    closed spec fn view(&self) -> Seq<u8> {
        self.bytes@
    }
}

impl ContentHash {
    /// Every content hash has 32 bytes.
    pub proof fn has_hash_length(self)
        ensures
            self@.len() == HASH_LENGTH,
    {
    }

    /// The hash made of `bytes`.
    pub fn from_bytes(bytes: [u8; 32]) -> (hash: ContentHash)
        ensures
            hash@ == bytes@,
    {
        ContentHash { bytes }
    }

    /// The hash's 32 bytes.
    pub fn as_bytes(&self) -> (bytes: &[u8; 32])
        ensures
            bytes@ == self@,
    {
        &self.bytes
    }

    /// Whether two hashes have the same bytes.
    pub fn same_as(&self, other: &ContentHash) -> (same: bool)
        ensures
            same == (self@ == other@),
    {
        same_bytes(&self.bytes, &other.bytes)
    }

    /// The hash as text: its bytes in lowercase hexadecimal, 64 characters.
    pub fn to_text(&self) -> (text: String)
        ensures
            text@ == hex_lower(self@),
    {
        to_hex_lower(self.bytes.as_slice())
    }
}

/// A descriptor as contracts see it.
pub struct DescriptorView {
    pub hash: Seq<u8>,
    pub format: BlobFormat,
}

/// The store's answer to an ingestion: the hash of the bytes and the format
/// in which they were taken in.
#[derive(Debug, Clone, Copy, PartialEq, Eq)]
pub struct ContentDescriptor {
    pub hash: ContentHash,
    pub format: BlobFormat,
}

impl View for ContentDescriptor {
    type V = DescriptorView;

    open spec fn view(&self) -> DescriptorView {
        DescriptorView { hash: self.hash@, format: self.format }
    }
}

impl ContentDescriptor {
    /// Whether two descriptors name the same content in the same format.
    pub fn same_as(&self, other: &ContentDescriptor) -> (same: bool)
        ensures
            same == (self@ == other@),
    {
        self.hash.same_as(&other.hash) && self.format.same_as(&other.format)
    }
}

} // verus!
