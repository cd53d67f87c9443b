//! Document-signature records: document hashes, signatures, binary blobs in
//! chunks, and encryption public keys, each kept under an account-scoped key.
//!
//! Every operation first checks its inputs and the store, in the order the
//! errors are declared below, and commits only when all checks pass; the
//! exact outcome of each operation is a spec function of the state and the
//! arguments.

use vstd::prelude::*;

use crate::bytes::clone_bytes;
use crate::store::lemma_eq_matches_view_pair;
use crate::store::lemma_eq_matches_view_triple;
use crate::store::lemma_eq_matches_view_u64;
use crate::store::KvMap;

verus! {

/// Account identifiers, as plain integers.
pub type AccountId = u64;

#[derive(Clone, Copy, Debug, PartialEq, Eq, Structural)]
pub enum Error {
    /// Document address is too long, cannot be more than 128
    DocumentTooLong,
    /// Document address is too short, cannot be less than 32
    DocumentTooShort,
    /// Id cannot be zero
    IdCannotBeZero,
    /// Document not found
    DocumentNotFound,
    /// Document already present
    DocumentAlreadyPresent,
    /// Document has been already signed from the sender
    DocumentAlreadySigned,
    /// Hash is too short
    HashTooShort,
    /// Hash is too long
    HashTooLong,
    /// The data in the blob is too short, it must be > 1
    BlobTooShort,
    /// The data in the blob cannot be more than 100K bytes
    BlobTooLong,
    /// The blob is already stored
    BlobAlreadyPresent,
    /// The blob is not present
    BlobNotFound,
    /// The public key is too short
    PublicKeyTooShort,
    /// The public key is too long
    PublicKeyTooLong,
}

#[derive(Debug, PartialEq, Eq)]
pub enum Event {
    DocumentCreated { account: AccountId, documentid: u32, documenthash: Vec<u8> },
    DocumentDestroyed { account: AccountId, documentid: u32 },
    DocumentSigned { account: AccountId, documentid: u32, documenthash: Vec<u8> },
    NewBlobCreated { account: AccountId, documentid: u32, chunkid: u32 },
    BlobDestroyed { account: AccountId, documentid: u32, chunkid: u32 },
    EncryptionPublicKeyStored { account: AccountId, publickey: Vec<u8> },
}

/// The document-signature records and the events they have emitted.
pub struct Pallet {
    documents: KvMap<(u64, u64), Vec<u8>>,
    signatures: KvMap<(u64, u64), Vec<u8>>,
    blobs: KvMap<(u64, u64, u64), Vec<u8>>,
    encryption_public_keys: KvMap<u64, Vec<u8>>,
    events: Vec<Event>,
}

impl Pallet {
    pub closed spec fn wf(&self) -> bool {
        &&& self.documents.wf()
        &&& self.signatures.wf()
        &&& self.blobs.wf()
        &&& self.encryption_public_keys.wf()
    }

    pub closed spec fn documents_map(&self) -> Map<(u64, u64), Seq<u8>> {
        self.documents@
    }

    pub closed spec fn signatures_map(&self) -> Map<(u64, u64), Seq<u8>> {
        self.signatures@
    }

    pub closed spec fn blobs_map(&self) -> Map<(u64, u64, u64), Seq<u8>> {
        self.blobs@
    }

    pub closed spec fn public_keys_map(&self) -> Map<u64, Seq<u8>> {
        self.encryption_public_keys@
    }

    pub closed spec fn events_log(&self) -> Seq<Event> {
        self.events@
    }

    pub fn new() -> (r: Pallet)
        ensures
            r.wf(),
            r.documents_map() == Map::<(u64, u64), Seq<u8>>::empty(),
            r.signatures_map() == Map::<(u64, u64), Seq<u8>>::empty(),
            r.blobs_map() == Map::<(u64, u64, u64), Seq<u8>>::empty(),
            r.public_keys_map() == Map::<u64, Seq<u8>>::empty(),
            r.events_log() == Seq::<Event>::empty(),
    {
        proof {
            lemma_eq_matches_view_pair();
            lemma_eq_matches_view_triple();
            lemma_eq_matches_view_u64();
        }
        Pallet {
            documents: KvMap::new(),
            signatures: KvMap::new(),
            blobs: KvMap::new(),
            encryption_public_keys: KvMap::new(),
            events: Vec::new(),
        }
    }

    /// The most recent event, if any.
    pub fn last_event(&self) -> (r: Option<&Event>)
        ensures
            match r {
                Some(e) => self.events_log().len() > 0 && *e == self.events_log().last(),
                None => self.events_log().len() == 0,
            },
    {
        if self.events.len() == 0 {
            None
        } else {
            Some(&self.events[self.events.len() - 1])
        }
    }

    /// The stored document hash, or an empty vector when none is stored.
    pub fn get_document(&self, account: AccountId, id: u32) -> (r: Vec<u8>)
        requires
            self.wf(),
        ensures
            self.documents_map().contains_key((account, id as u64))
                ==> r@ == self.documents_map()[(account, id as u64)],
            !self.documents_map().contains_key((account, id as u64)) ==> r@ == Seq::<u8>::empty(),
    {
        proof {
            lemma_eq_matches_view_pair();
        }
        match self.documents.get(&(account, id as u64)) {
            Some(v) => clone_bytes(v),
            None => Vec::new(),
        }
    }

    /// Outcome of `new_document` on the given state and arguments.
    pub open spec fn new_document_outcome(
        &self,
        sender: AccountId,
        id: u32,
        document: Seq<u8>,
    ) -> Result<(), Error> {
        if document.len() < 32 {
            Err(Error::DocumentTooShort)
        } else if document.len() > 128 {
            Err(Error::DocumentTooLong)
        } else if id == 0 {
            Err(Error::IdCannotBeZero)
        } else if self.documents_map().contains_key((sender, id as u64)) {
            Err(Error::DocumentAlreadyPresent)
        } else {
            Ok(())
        }
    }

    /// Store a new document hash to be signed.
    pub fn new_document(&mut self, sender: AccountId, id: u32, document: Vec<u8>) -> (r: Result<
        (),
        Error,
    >)
        requires
            old(self).wf(),
        ensures
            final(self).wf(),
            r == old(self).new_document_outcome(sender, id, document@),
            r is Ok ==> final(self).documents_map() == old(self).documents_map().insert(
                (sender, id as u64),
                document@,
            ),
            r is Ok ==> final(self).events_log() == old(self).events_log().push(
                Event::DocumentCreated { account: sender, documentid: id, documenthash: document },
            ),
            r is Err ==> final(self).documents_map() == old(self).documents_map()
                && final(self).events_log() == old(self).events_log(),
            final(self).signatures_map() == old(self).signatures_map(),
            final(self).blobs_map() == old(self).blobs_map(),
            final(self).public_keys_map() == old(self).public_keys_map(),
    {
        proof {
            lemma_eq_matches_view_pair();
        }
        if document.len() < 32 {
            return Err(Error::DocumentTooShort);
        }
        if document.len() > 128 {
            return Err(Error::DocumentTooLong);
        }
        if id == 0 {
            return Err(Error::IdCannotBeZero);
        }
        if self.documents.contains_key(&(sender, id as u64)) {
            return Err(Error::DocumentAlreadyPresent);
        }
        let stored = clone_bytes(&document);
        self.documents.insert((sender, id as u64), stored);
        self.events.push(
            Event::DocumentCreated { account: sender, documentid: id, documenthash: document },
        );
        Ok(())
    }

    /// Outcome of `destroy_document` on the given state and arguments.
    pub open spec fn destroy_document_outcome(&self, sender: AccountId, id: u32) -> Result<
        (),
        Error,
    > {
        if !self.documents_map().contains_key((sender, id as u64)) {
            Err(Error::DocumentNotFound)
        } else {
            Ok(())
        }
    }

    /// Remove a stored document hash.
    pub fn destroy_document(&mut self, sender: AccountId, id: u32) -> (r: Result<(), Error>)
        requires
            old(self).wf(),
        ensures
            final(self).wf(),
            r == old(self).destroy_document_outcome(sender, id),
            r is Ok ==> final(self).documents_map() == old(self).documents_map().remove(
                (sender, id as u64),
            ),
            r is Ok ==> final(self).events_log() == old(self).events_log().push(
                Event::DocumentDestroyed { account: sender, documentid: id },
            ),
            r is Err ==> final(self).documents_map() == old(self).documents_map()
                && final(self).events_log() == old(self).events_log(),
            final(self).signatures_map() == old(self).signatures_map(),
            final(self).blobs_map() == old(self).blobs_map(),
            final(self).public_keys_map() == old(self).public_keys_map(),
    {
        proof {
            lemma_eq_matches_view_pair();
        }
        if !self.documents.contains_key(&(sender, id as u64)) {
            return Err(Error::DocumentNotFound);
        }
        self.documents.remove(&(sender, id as u64));
        self.events.push(Event::DocumentDestroyed { account: sender, documentid: id });
        Ok(())
    }

    /// Outcome of `sign_document` on the given state and arguments.
    pub open spec fn sign_document_outcome(
        &self,
        sender: AccountId,
        id: u32,
        hash: Seq<u8>,
    ) -> Result<(), Error> {
        if hash.len() > 128 {
            Err(Error::HashTooLong)
        } else if hash.len() < 32 {
            Err(Error::HashTooShort)
        } else if id == 0 {
            Err(Error::IdCannotBeZero)
        } else if self.signatures_map().contains_key((sender, id as u64)) {
            Err(Error::DocumentAlreadySigned)
        } else {
            Ok(())
        }
    }

    /// Store the sender's signature hash for a document.
    pub fn sign_document(&mut self, sender: AccountId, id: u32, hash: Vec<u8>) -> (r: Result<
        (),
        Error,
    >)
        requires
            old(self).wf(),
        ensures
            final(self).wf(),
            r == old(self).sign_document_outcome(sender, id, hash@),
            r is Ok ==> final(self).signatures_map() == old(self).signatures_map().insert(
                (sender, id as u64),
                hash@,
            ),
            r is Ok ==> final(self).events_log() == old(self).events_log().push(
                Event::DocumentSigned { account: sender, documentid: id, documenthash: hash },
            ),
            r is Err ==> final(self).signatures_map() == old(self).signatures_map()
                && final(self).events_log() == old(self).events_log(),
            final(self).documents_map() == old(self).documents_map(),
            final(self).blobs_map() == old(self).blobs_map(),
            final(self).public_keys_map() == old(self).public_keys_map(),
    {
        proof {
            lemma_eq_matches_view_pair();
        }
        if hash.len() > 128 {
            return Err(Error::HashTooLong);
        }
        if hash.len() < 32 {
            return Err(Error::HashTooShort);
        }
        if id == 0 {
            return Err(Error::IdCannotBeZero);
        }
        if self.signatures.contains_key(&(sender, id as u64)) {
            return Err(Error::DocumentAlreadySigned);
        }
        let stored = clone_bytes(&hash);
        self.signatures.insert((sender, id as u64), stored);
        self.events.push(
            Event::DocumentSigned { account: sender, documentid: id, documenthash: hash },
        );
        Ok(())
    }

    /// Outcome of `store_publickey` on the given arguments.
    pub open spec fn store_publickey_outcome(&self, publickey: Seq<u8>) -> Result<(), Error> {
        if publickey.len() > 64 {
            Err(Error::PublicKeyTooLong)
        } else if publickey.len() < 32 {
            Err(Error::PublicKeyTooShort)
        } else {
            Ok(())
        }
    }

    /// Store the sender's encryption public key, replacing any previous one.
    pub fn store_publickey(&mut self, sender: AccountId, publickey: Vec<u8>) -> (r: Result<
        (),
        Error,
    >)
        requires
            old(self).wf(),
        ensures
            final(self).wf(),
            r == old(self).store_publickey_outcome(publickey@),
            r is Ok ==> final(self).public_keys_map() == old(self).public_keys_map().insert(
                sender,
                publickey@,
            ),
            r is Ok ==> final(self).events_log() == old(self).events_log().push(
                Event::EncryptionPublicKeyStored { account: sender, publickey },
            ),
            r is Err ==> final(self).public_keys_map() == old(self).public_keys_map()
                && final(self).events_log() == old(self).events_log(),
            final(self).documents_map() == old(self).documents_map(),
            final(self).signatures_map() == old(self).signatures_map(),
            final(self).blobs_map() == old(self).blobs_map(),
    {
        proof {
            lemma_eq_matches_view_u64();
        }
        if publickey.len() > 64 {
            return Err(Error::PublicKeyTooLong);
        }
        if publickey.len() < 32 {
            return Err(Error::PublicKeyTooShort);
        }
        if self.encryption_public_keys.contains_key(&sender) {
            self.encryption_public_keys.remove(&sender);
        }
        let stored = clone_bytes(&publickey);
        self.encryption_public_keys.insert(sender, stored);
        proof {
            assert(self.encryption_public_keys@ =~= old(self).public_keys_map().insert(
                sender,
                publickey@,
            ));
        }
        self.events.push(Event::EncryptionPublicKeyStored { account: sender, publickey });
        Ok(())
    }

    /// Outcome of `new_blob` on the given state and arguments.
    pub open spec fn new_blob_outcome(
        &self,
        account: AccountId,
        id: u32,
        chunkid: u32,
        blob: Seq<u8>,
    ) -> Result<(), Error> {
        if blob.len() <= 1 {
            Err(Error::BlobTooShort)
        } else if blob.len() > 100000 {
            Err(Error::BlobTooLong)
        } else if id == 0 {
            Err(Error::IdCannotBeZero)
        } else if self.blobs_map().contains_key((account, id as u64, chunkid as u64)) {
            Err(Error::BlobAlreadyPresent)
        } else {
            Ok(())
        }
    }

    /// Store one chunk of a binary object under the given account.
    pub fn new_blob(&mut self, account: AccountId, id: u32, chunkid: u32, blob: Vec<u8>) -> (r:
        Result<(), Error>)
        requires
            old(self).wf(),
        ensures
            final(self).wf(),
            r == old(self).new_blob_outcome(account, id, chunkid, blob@),
            r is Ok ==> final(self).blobs_map() == old(self).blobs_map().insert(
                (account, id as u64, chunkid as u64),
                blob@,
            ),
            r is Ok ==> final(self).events_log() == old(self).events_log().push(
                Event::NewBlobCreated { account, documentid: id, chunkid },
            ),
            r is Err ==> final(self).blobs_map() == old(self).blobs_map()
                && final(self).events_log() == old(self).events_log(),
            final(self).documents_map() == old(self).documents_map(),
            final(self).signatures_map() == old(self).signatures_map(),
            final(self).public_keys_map() == old(self).public_keys_map(),
    {
        proof {
            lemma_eq_matches_view_triple();
        }
        if blob.len() <= 1 {
            return Err(Error::BlobTooShort);
        }
        if blob.len() > 100000 {
            return Err(Error::BlobTooLong);
        }
        if id == 0 {
            return Err(Error::IdCannotBeZero);
        }
        if self.blobs.contains_key(&(account, id as u64, chunkid as u64)) {
            return Err(Error::BlobAlreadyPresent);
        }
        self.blobs.insert((account, id as u64, chunkid as u64), blob);
        self.events.push(Event::NewBlobCreated { account, documentid: id, chunkid });
        Ok(())
    }

    /// Outcome of `destroy_blob` on the given state and arguments.
    pub open spec fn destroy_blob_outcome(&self, sender: AccountId, id: u32, chunkid: u32) -> Result<
        (),
        Error,
    > {
        if self.signatures_map().contains_key((sender, id as u64)) {
            Err(Error::DocumentAlreadySigned)
        } else if !self.blobs_map().contains_key((sender, id as u64, chunkid as u64)) {
            Err(Error::BlobNotFound)
        } else {
            Ok(())
        }
    }

    /// Remove a blob chunk: only its creator can, and only while the matching
    /// document is unsigned.
    pub fn destroy_blob(&mut self, sender: AccountId, account: AccountId, id: u32, chunkid: u32) -> (r:
        Result<(), Error>)
        requires
            old(self).wf(),
        ensures
            final(self).wf(),
            r == old(self).destroy_blob_outcome(sender, id, chunkid),
            r is Ok ==> final(self).blobs_map() == old(self).blobs_map().remove(
                (sender, id as u64, chunkid as u64),
            ),
            r is Ok ==> final(self).events_log() == old(self).events_log().push(
                Event::BlobDestroyed { account, documentid: id, chunkid },
            ),
            r is Err ==> final(self).blobs_map() == old(self).blobs_map()
                && final(self).events_log() == old(self).events_log(),
            final(self).documents_map() == old(self).documents_map(),
            final(self).signatures_map() == old(self).signatures_map(),
            final(self).public_keys_map() == old(self).public_keys_map(),
    {
        proof {
            lemma_eq_matches_view_pair();
            lemma_eq_matches_view_triple();
        }
        if self.signatures.contains_key(&(sender, id as u64)) {
            return Err(Error::DocumentAlreadySigned);
        }
        if !self.blobs.contains_key(&(sender, id as u64, chunkid as u64)) {
            return Err(Error::BlobNotFound);
        }
        self.blobs.remove(&(sender, id as u64, chunkid as u64));
        self.events.push(Event::BlobDestroyed { account, documentid: id, chunkid });
        Ok(())
    }

    /// The stored signature hash, or an empty vector when none is stored.
    pub fn get_signature(&self, account: AccountId, id: u32) -> (r: Vec<u8>)
        requires
            self.wf(),
        ensures
            self.signatures_map().contains_key((account, id as u64))
                ==> r@ == self.signatures_map()[(account, id as u64)],
            !self.signatures_map().contains_key((account, id as u64)) ==> r@ == Seq::<u8>::empty(),
    {
        proof {
            lemma_eq_matches_view_pair();
        }
        match self.signatures.get(&(account, id as u64)) {
            Some(v) => clone_bytes(v),
            None => Vec::new(),
        }
    }

    /// The stored blob chunk, or an empty vector when none is stored.
    pub fn get_blob(&self, account: AccountId, id: u32, chunkid: u32) -> (r: Vec<u8>)
        requires
            self.wf(),
        ensures
            self.blobs_map().contains_key((account, id as u64, chunkid as u64))
                ==> r@ == self.blobs_map()[(account, id as u64, chunkid as u64)],
            !self.blobs_map().contains_key((account, id as u64, chunkid as u64))
                ==> r@ == Seq::<u8>::empty(),
    {
        proof {
            lemma_eq_matches_view_triple();
        }
        match self.blobs.get(&(account, id as u64, chunkid as u64)) {
            Some(v) => clone_bytes(v),
            None => Vec::new(),
        }
    }

    /// The stored encryption public key, or an empty vector when none is.
    pub fn get_encryption_public_key(&self, account: AccountId) -> (r: Vec<u8>)
        requires
            self.wf(),
        ensures
            self.public_keys_map().contains_key(account)
                ==> r@ == self.public_keys_map()[account],
            !self.public_keys_map().contains_key(account) ==> r@ == Seq::<u8>::empty(),
    {
        proof {
            lemma_eq_matches_view_u64();
        }
        match self.encryption_public_keys.get(&account) {
            Some(v) => clone_bytes(v),
            None => Vec::new(),
        }
    }
}

} // verus!
