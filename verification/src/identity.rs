//! The node's persistent identity: a 32-byte secret key kept in one file, and
//! the public identity that belongs to it.
//!
//! Reading and writing the key file is left to the caller. This module decides
//! what a file's contents mean, when a new key has to be made, and what then
//! has to be written.

use vstd::prelude::*;

use crate::bytes::same_bytes;
use crate::text::{hex_lower, to_hex_lower};

verus! {

/// The length in bytes of a secret key, of a public identity and of the key file.
pub const KEY_LENGTH: usize = 32;

/// Why no identity could be provided. Either is fatal to startup.
#[derive(Debug, Clone, Copy, PartialEq, Eq, Structural)]
pub enum IdentityError {
    /// The key file does not hold exactly 32 bytes, or cannot be read.
    IdentityFileCorrupt,
    /// The operating system gave no random bytes for a new key.
    EntropyUnavailable,
}

/// The public key that belongs to a secret key: the bytes of what
/// `iroh::SecretKey::public` returns for the secret key made of `secret`.
pub uninterp spec fn public_key_of(secret: Seq<u8>) -> Seq<u8>;

/// Whether `bytes` encode a public key: whether `iroh::PublicKey::from_bytes`
/// accepts them.
pub uninterp spec fn is_public_key(bytes: Seq<u8>) -> bool;

/// Calls `iroh::SecretKey::from_bytes`, `public` and `as_bytes`.
///
/// Trusted: the result is a function of the secret bytes alone, and it is a
/// valid public key (`iroh::PublicKey::from_bytes` is documented never to fail
/// on bytes that `as_bytes` returned).
#[verifier::external_body]
fn derive_public_key(secret: &[u8; 32]) -> (public: [u8; 32])
    ensures
        public@ == public_key_of(secret@),
        is_public_key(public@),
{
    *iroh::SecretKey::from_bytes(secret).public().as_bytes()
}

/// Calls `iroh::PublicKey::from_bytes` and reports whether it accepted the bytes.
///
/// Trusted: the answer is a function of the bytes alone.
#[verifier::external_body]
fn accepts_public_key(bytes: &[u8; 32]) -> (accepted: bool)
    ensures
        accepted == is_public_key(bytes@),
{
    iroh::PublicKey::from_bytes(bytes).is_ok()
}

/// Calls `rand::TryRng::try_fill_bytes` on `rand::rngs::SysRng`, the operating
/// system's random number source, for 32 bytes.
///
/// Nothing is claimed of the bytes: two calls may give any two results. `None`
/// stands for the source's error.
#[verifier::external_body]
fn system_random_bytes() -> (drawn: Option<[u8; 32]>) {
    let mut bytes = [0u8; 32];
    match rand::TryRng::try_fill_bytes(&mut rand::rngs::SysRng, &mut bytes) {
        Ok(()) => Some(bytes),
        Err(_) => None,
    }
}

/// A node's secret key. It never leaves the node but for the key file.
pub struct SecretKey {
    bytes: [u8; 32],
}

/// A node's public identity (its node id), safe to share.
#[derive(Debug, Clone, Copy, PartialEq, Eq)]
pub struct PublicIdentity {
    bytes: [u8; 32],
}

impl View for SecretKey {
    type V = Seq<u8>;

    closed spec fn view(&self) -> Seq<u8> {
        self.bytes@
    }
}

impl View for PublicIdentity {
    type V = Seq<u8>;

    closed spec fn view(&self) -> Seq<u8> {
        self.bytes@
    }
}

/// What a key file of the given contents yields: the secret key's bytes, or
/// the reason why the file is no key.
pub open spec fn key_file_outcome(contents: Seq<u8>) -> Result<Seq<u8>, IdentityError> {
    if contents.len() == KEY_LENGTH {
        Ok(contents)
    } else {
        Err(IdentityError::IdentityFileCorrupt)
    }
}

/// What a draw from the system's random source yields as a new key.
pub open spec fn fresh_key_outcome(drawn: Option<[u8; 32]>) -> Result<Seq<u8>, IdentityError> {
    match drawn {
        Some(bytes) => Ok(bytes@),
        None => Err(IdentityError::EntropyUnavailable),
    }
}

/// The bytes of the key in `outcome`, where it holds one.
pub open spec fn key_bytes(outcome: Result<SecretKey, IdentityError>) -> Result<
    Seq<u8>,
    IdentityError,
> {
    match outcome {
        Ok(key) => Ok(key@),
        Err(error) => Err(error),
    }
}

impl SecretKey {
    /// Every secret key has 32 bytes.
    pub proof fn has_key_length(self)
        ensures
            self@.len() == KEY_LENGTH,
    {
    }

    /// The secret key made of `bytes`.
    pub fn from_bytes(bytes: [u8; 32]) -> (key: SecretKey)
        ensures
            key@ == bytes@,
    {
        SecretKey { bytes }
    }

    /// Reads a key file's contents: a key if and only if there are exactly 32
    /// bytes, and then the key made of them.
    pub fn from_file_bytes(contents: &[u8]) -> (outcome: Result<SecretKey, IdentityError>)
        ensures
            key_bytes(outcome) == key_file_outcome(contents@),
    {
        if contents.len() != KEY_LENGTH {
            return Err(IdentityError::IdentityFileCorrupt);
        }
        let mut bytes = [0u8; 32];
        let mut i: usize = 0;
        while i < KEY_LENGTH
            invariant
                i <= KEY_LENGTH,
                contents@.len() == KEY_LENGTH,
                forall|j: int| 0 <= j < i ==> bytes@[j] == contents@[j],
            decreases KEY_LENGTH - i,
        {
            bytes[i] = contents[i];
            i += 1;
        }
        assert(bytes@ =~= contents@);
        Ok(SecretKey { bytes })
    }

    /// Makes a key of what the system's random source gave, where it gave
    /// anything.
    pub fn from_entropy(drawn: Option<[u8; 32]>) -> (outcome: Result<SecretKey, IdentityError>)
        ensures
            key_bytes(outcome) == fresh_key_outcome(drawn),
    {
        match drawn {
            Some(bytes) => Ok(SecretKey { bytes }),
            None => Err(IdentityError::EntropyUnavailable),
        }
    }

    /// Generates a new key from the operating system's random source.
    ///
    /// The only error is `EntropyUnavailable`, for a source that gave
    /// nothing; which key comes back is not determined.
    pub fn generate() -> (outcome: Result<SecretKey, IdentityError>)
        ensures
            outcome matches Ok(key) ==> key@.len() == KEY_LENGTH,
            outcome matches Err(error) ==> error == IdentityError::EntropyUnavailable,
    {
        SecretKey::from_entropy(system_random_bytes())
    }

    /// The key's 32 bytes: the contents of its key file.
    pub fn to_bytes(&self) -> (bytes: [u8; 32])
        ensures
            bytes@ == self@,
    {
        self.bytes
    }

    /// The public identity of this key.
    pub fn public(&self) -> (identity: PublicIdentity)
        ensures
            identity@ == public_key_of(self@),
            is_public_key(identity@),
    {
        PublicIdentity { bytes: derive_public_key(&self.bytes) }
    }
}

impl PublicIdentity {
    /// Every public identity has 32 bytes.
    pub proof fn has_key_length(self)
        ensures
            self@.len() == KEY_LENGTH,
    {
    }

    /// The identity made of `bytes`, whether or not they encode a public key.
    pub fn from_bytes(bytes: [u8; 32]) -> (identity: PublicIdentity)
        ensures
            identity@ == bytes@,
    {
        PublicIdentity { bytes }
    }

    /// The identity's 32 bytes.
    pub fn as_bytes(&self) -> (bytes: &[u8; 32])
        ensures
            bytes@ == self@,
    {
        &self.bytes
    }

    /// Whether the identity encodes a public key, as every identity that was
    /// derived from a secret key does.
    pub fn is_valid(&self) -> (valid: bool)
        ensures
            valid == is_public_key(self@),
    {
        accepts_public_key(&self.bytes)
    }

    /// Whether two identities have the same bytes.
    pub fn same_as(&self, other: &PublicIdentity) -> (same: bool)
        ensures
            same == (self@ == other@),
    {
        same_bytes(&self.bytes, &other.bytes)
    }

    /// The identity as text: its bytes in lowercase hexadecimal, 64 characters.
    pub fn to_text(&self) -> (text: String)
        ensures
            text@ == hex_lower(self@),
    {
        to_hex_lower(self.bytes.as_slice())
    }
}

/// How the node came by its key.
pub enum KeyProvision {
    /// The key was read from the key file, which stays as it is.
    Loaded(SecretKey),
    /// There was no key file: the key is new, and its bytes have to be
    /// written to the key file before the node goes on.
    Created(SecretKey),
}

impl KeyProvision {
    /// The key, however the node came by it.
    pub open spec fn key_view(self) -> Seq<u8> {
        match self {
            KeyProvision::Loaded(key) => key@,
            KeyProvision::Created(key) => key@,
        }
    }

    /// The key, however the node came by it.
    pub fn key(&self) -> (key: &SecretKey)
        ensures
            key@ == self.key_view(),
    {
        match self {
            KeyProvision::Loaded(key) => key,
            KeyProvision::Created(key) => key,
        }
    }

    /// The key, however the node came by it.
    pub fn into_key(self) -> (key: SecretKey)
        ensures
            key@ == self.key_view(),
    {
        match self {
            KeyProvision::Loaded(key) => key,
            KeyProvision::Created(key) => key,
        }
    }

    /// What has to be written to the key file: the new key's 32 bytes, and
    /// nothing where the key came from the file.
    pub fn file_contents_to_write(&self) -> (contents: Option<[u8; 32]>)
        ensures
            self is Loaded ==> contents is None,
            self is Created ==> (contents matches Some(bytes) && bytes@ == self.key_view()),
    {
        match self {
            KeyProvision::Loaded(_) => None,
            KeyProvision::Created(key) => Some(key.to_bytes()),
        }
    }
}

/// What the caller found at the key file's path.
#[derive(Debug, PartialEq, Eq)]
pub enum KeyFile {
    /// There is no file.
    Absent,
    /// There is a file, but it could not be read.
    Unreadable,
    /// There is a file, and these are its contents in full.
    Contents(Vec<u8>),
}

/// A key file as contracts see it.
pub enum KeyFileView {
    Absent,
    Unreadable,
    Contents(Seq<u8>),
}

impl View for KeyFile {
    type V = KeyFileView;

    open spec fn view(&self) -> KeyFileView {
        match self {
            KeyFile::Absent => KeyFileView::Absent,
            KeyFile::Unreadable => KeyFileView::Unreadable,
            KeyFile::Contents(contents) => KeyFileView::Contents(contents@),
        }
    }
}

/// Whether `outcome` is an answer that `load_or_generate_secret_key` may give
/// for the key file `file`.
///
/// A file that is there decides the answer: its contents are the key where
/// they are exactly 32 bytes, and it is corrupt where they are not or where
/// it cannot be read. Without a file the key is new, and only a failure of
/// the random source stands in its way.
pub open spec fn provisioned(
    file: KeyFileView,
    outcome: Result<KeyProvision, IdentityError>,
) -> bool {
    match file {
        KeyFileView::Contents(contents) => match outcome {
            Ok(KeyProvision::Loaded(key)) => key_file_outcome(contents) == Ok::<
                Seq<u8>,
                IdentityError,
            >(key@),
            Ok(KeyProvision::Created(_)) => false,
            Err(error) => key_file_outcome(contents) == Err::<Seq<u8>, IdentityError>(error),
        },
        KeyFileView::Unreadable => outcome == Err::<KeyProvision, IdentityError>(
            IdentityError::IdentityFileCorrupt,
        ),
        KeyFileView::Absent => match outcome {
            Ok(KeyProvision::Loaded(_)) => false,
            Ok(KeyProvision::Created(_)) => true,
            Err(error) => error == IdentityError::EntropyUnavailable,
        },
    }
}

/// Provides the node's secret key from what was found at the key file's
/// path.
///
/// Where the file is there, its contents are the key if they are exactly 32
/// bytes; any other length, and a file that cannot be read, is
/// `IdentityFileCorrupt`. Such a file is never replaced. Where there is no
/// file, a new key is generated, to be written by the caller.
pub fn load_or_generate_secret_key(file: &KeyFile) -> (outcome: Result<KeyProvision, IdentityError>)
    ensures
        provisioned(file@, outcome),
{
    match file {
        KeyFile::Contents(contents) => match SecretKey::from_file_bytes(contents.as_slice()) {
            Ok(key) => Ok(KeyProvision::Loaded(key)),
            Err(error) => Err(error),
        },
        KeyFile::Unreadable => Err(IdentityError::IdentityFileCorrupt),
        KeyFile::Absent => match SecretKey::generate() {
            Ok(key) => Ok(KeyProvision::Created(key)),
            Err(error) => Err(error),
        },
    }
}

/// Loading the same key file twice gives the same public identity: the
/// identity is a function of the file's contents.
pub proof fn same_key_file_same_identity(
    contents: Seq<u8>,
    first: KeyProvision,
    second: KeyProvision,
)
    requires
        provisioned(KeyFileView::Contents(contents), Ok(first)),
        provisioned(KeyFileView::Contents(contents), Ok(second)),
    ensures
        contents.len() == KEY_LENGTH,
        first.key_view() == contents,
        public_key_of(first.key_view()) == public_key_of(second.key_view()),
{
}

/// A key that was created reloads: once its bytes are the key file, every
/// later start loads exactly that key, never fails on the file, and so has
/// the identity of the first start.
pub proof fn created_key_reloads(created: KeyProvision, later: Result<KeyProvision, IdentityError>)
    requires
        provisioned(KeyFileView::Absent, Ok(created)),
        provisioned(KeyFileView::Contents(created.key_view()), later),
    ensures
        created is Created,
        created.key_view().len() == KEY_LENGTH,
        later matches Ok(reloaded) && reloaded is Loaded && reloaded.key_view()
            == created.key_view() && public_key_of(reloaded.key_view()) == public_key_of(
            created.key_view(),
        ),
{
}

/// Whether a key file is corrupt: unreadable, or of any length but 32.
pub open spec fn is_corrupt(file: KeyFileView) -> bool {
    match file {
        KeyFileView::Absent => false,
        KeyFileView::Unreadable => true,
        KeyFileView::Contents(contents) => contents.len() != KEY_LENGTH,
    }
}

/// A corrupt key file is refused, whatever it holds, and no key is made in
/// its place.
pub proof fn corrupt_key_file_is_refused(
    file: KeyFileView,
    outcome: Result<KeyProvision, IdentityError>,
)
    requires
        is_corrupt(file),
        provisioned(file, outcome),
    ensures
        outcome == Err::<KeyProvision, IdentityError>(IdentityError::IdentityFileCorrupt),
{
}

} // verus!
