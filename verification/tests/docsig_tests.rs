use aisland::docsig::Error;
use aisland::docsig::Event;
use aisland::docsig::Pallet;

// test new/destroy documents
#[test]
fn test_documents() {
    let mut docsig = Pallet::new();
    let id: u32 = 1;
    let mut document = Vec::<u8>::new();
    // generate an hash 128 bytes
    for _n in 0..128 {
        document.push(b'x');
    }
    // store a document hash
    assert!(docsig.new_document(1, id, document.clone()).is_ok());
    // check stored document
    assert_eq!(docsig.get_document(1u64, 1u32), document.clone());
    // check the event generated for new document
    assert_eq!(
        docsig.last_event(),
        Some(&Event::DocumentCreated { account: 1u64, documentid: id, documenthash: document.clone() })
    );
    // try to store again the same document, it should fail
    assert_eq!(
        docsig.new_document(1, id, document.clone()),
        Err(Error::DocumentAlreadyPresent)
    );
    // increase the size of document to 129, should fail
    let mut documentfail = Vec::<u8>::new();
    for _n in 0..129 {
        documentfail.push(b'x');
    }
    // should fail if the document is too long
    assert_eq!(docsig.new_document(1, 2u32, documentfail), Err(Error::DocumentTooLong));
    // making an hash shorter of 32 bytes, it should fail
    let mut documentfails = Vec::<u8>::new();
    for _n in 0..30 {
        documentfails.push(b'x');
    }
    assert_eq!(docsig.new_document(1, 3u32, documentfails), Err(Error::DocumentTooShort));
    // try to store a documentid with value 0, should fail
    assert_eq!(docsig.new_document(1, 0u32, document), Err(Error::IdCannotBeZero));
    // destroy document
    assert!(docsig.destroy_document(1, id).is_ok());
    // check the event generated for document destroyed
    assert_eq!(
        docsig.last_event(),
        Some(&Event::DocumentDestroyed { account: 1u64, documentid: id })
    );
    // destroy a not existing document should fail
    assert_eq!(docsig.destroy_document(1, id), Err(Error::DocumentNotFound));
}

// test signatures
#[test]
fn test_signature() {
    let mut docsig = Pallet::new();
    let id: u32 = 1;
    let mut documenthash = Vec::<u8>::new();
    // generate an hash 32 bytes
    for _n in 0..32 {
        documenthash.push(b'x');
    }
    // store a document hash
    assert!(docsig.new_document(1, id, documenthash.clone()).is_ok());
    // sign document
    assert!(docsig.sign_document(1, id, documenthash.clone()).is_ok());
    // check the event generated for new signature
    assert_eq!(
        docsig.last_event(),
        Some(&Event::DocumentSigned {
            account: 1u64,
            documentid: id,
            documenthash: documenthash.clone(),
        })
    );
    // try to sign an already signed document, should fail.
    assert_eq!(
        docsig.sign_document(1, id, documenthash.clone()),
        Err(Error::DocumentAlreadySigned)
    );
    // sign a short hash, it should fail
    let mut documenthashs = Vec::<u8>::new();
    for _ns in 0..29 {
        documenthashs.push(b'x');
    }
    assert_eq!(docsig.sign_document(1, 2u32, documenthashs), Err(Error::HashTooShort));
    // sign a long hash, it should fail
    let mut documenthashl = Vec::<u8>::new();
    for _nl in 0..129 {
        documenthashl.push(b'x');
    }
    assert_eq!(docsig.sign_document(1, 2u32, documenthashl), Err(Error::HashTooLong));
    // sign a document with id=0, it should fail
    assert_eq!(docsig.sign_document(1, 0u32, documenthash), Err(Error::IdCannotBeZero));
}

// test blobs
#[test]
fn test_blob() {
    let mut docsig = Pallet::new();
    let mut id: u32 = 1;
    let chunkid: u32 = 0;
    let mut document = Vec::<u8>::new();
    // generate a document of 100000 bytes
    for _n in 0..100000 {
        document.push(b'x');
    }
    // store a new blob
    assert!(docsig.new_blob(1, id, chunkid, document.clone()).is_ok());
    // check the event generated for new blob
    assert_eq!(
        docsig.last_event(),
        Some(&Event::NewBlobCreated { account: 1u64, documentid: id, chunkid })
    );
    // try to store a blob with 1000001 bytes, it should fail
    let mut documentl = Vec::<u8>::new();
    for _n in 0..1000001 {
        documentl.push(b'x');
    }
    id = 2;
    assert_eq!(
        docsig.new_blob(1, id, chunkid, documentl.clone()),
        Err(Error::BlobTooLong)
    );
    // try to store a blob with 1 byte only, it should fail
    let mut documents = Vec::<u8>::new();
    documents.push(b'x');
    assert_eq!(
        docsig.new_blob(1, id, chunkid, documents.clone()),
        Err(Error::BlobTooShort)
    );
    // try to store a document id =0, it should fail
    assert_eq!(
        docsig.new_blob(1, 0u32, chunkid, document.clone()),
        Err(Error::IdCannotBeZero)
    );
    id = 1;
    // delete a blob
    assert!(docsig.destroy_blob(1, 1, id, chunkid).is_ok());
    // check the event generated for destroy blob
    assert_eq!(
        docsig.last_event(),
        Some(&Event::BlobDestroyed { account: 1u64, documentid: id, chunkid })
    );
    // try to destroy a not existing blob, it should fail
    assert_eq!(docsig.destroy_blob(1, 1, 0u32, chunkid), Err(Error::BlobNotFound));
    // make a signature on the same document id
    let mut documenthash = Vec::<u8>::new();
    for _n in 0..32 {
        documenthash.push(b'x');
    }
    // store a document hash
    assert!(docsig.new_document(1, id, documenthash.clone()).is_ok());
    // sign document
    assert!(docsig.sign_document(1, id, documenthash.clone()).is_ok());
    // store a blob
    assert!(docsig.new_blob(1, id, chunkid, document.clone()).is_ok());
    // try to destroy a blob of a signed document, it should fail
    assert_eq!(
        docsig.destroy_blob(1, 1, 1u32, chunkid),
        Err(Error::DocumentAlreadySigned)
    );
}

// test public key storage
#[test]
fn test_publickey() {
    let mut docsig = Pallet::new();
    let mut publickey = Vec::<u8>::new();
    // generate a public key
    for _n in 0..63 {
        publickey.push(b'0');
    }
    // store the public key
    assert!(docsig.store_publickey(1, publickey.clone()).is_ok());
    // check the event generated for storage of a public key
    assert_eq!(
        docsig.last_event(),
        Some(&Event::EncryptionPublicKeyStored { account: 1u64, publickey: publickey.clone() })
    );
    // check it can be read back
    assert_eq!(docsig.get_encryption_public_key(1), publickey);
    // try to store a 65 bytes public key, it should fail
    let mut publickeyl = Vec::<u8>::new();
    for _n in 0..65 {
        publickeyl.push(b'0');
    }
    assert_eq!(docsig.store_publickey(1, publickeyl), Err(Error::PublicKeyTooLong));
    // try to store a 1 byte public key, it should fail
    let mut publickeys = Vec::<u8>::new();
    publickeys.push(b'0');
    assert_eq!(docsig.store_publickey(1, publickeys), Err(Error::PublicKeyTooShort));
}
