use std::str::FromStr;

use iroh_ffi::{BlobFormat, BlobTicket, IrohError, SetTagOption};

// The ed25519 base point, a valid endpoint identifier in hex form.
const VALID_PEER: &str = "5866666666666666666666666666666666666666666666666666666666666666";

fn real_ticket(format: iroh_blobs::BlobFormat) -> (String, [u8; 32], [u8; 32]) {
    let id = iroh::PublicKey::from_str(VALID_PEER).unwrap();
    let addr = iroh::EndpointAddr::new(id);
    let hash_bytes = [3u8; 32];
    let hash = iroh_blobs::Hash::from(hash_bytes);
    let ticket = iroh_blobs::ticket::BlobTicket::new(addr, hash, format);
    (format!("{}", ticket), hash_bytes, *id.as_bytes())
}

#[test]
fn test_blob_ticket_parses_real_ticket() {
    let (text, hash_bytes, id_bytes) = real_ticket(iroh_blobs::BlobFormat::Raw);
    let ticket = BlobTicket::new(text).unwrap();
    assert_eq!(ticket.hash().bytes, hash_bytes.to_vec());
    assert!(matches!(ticket.format(), BlobFormat::Raw));
    assert!(!ticket.recursive());
    let addr = ticket.node_addr();
    assert_eq!(addr.endpoint_id, id_bytes.to_vec());
    assert!(addr.relay_urls.is_empty());
    assert!(addr.direct_addresses.is_empty());
}

#[test]
fn test_blob_ticket_recursive_for_hash_seq() {
    let (text, _, _) = real_ticket(iroh_blobs::BlobFormat::HashSeq);
    let ticket = BlobTicket::new(text).unwrap();
    assert!(matches!(ticket.format(), BlobFormat::HashSeq));
    assert!(ticket.recursive());
}

#[test]
fn test_blob_ticket_rejects_garbage() {
    for bad in ["", "blob", "not a ticket", "blobaaaa"] {
        let got = BlobTicket::new(bad.to_string());
        assert_eq!(got, Err(IrohError::InvalidTicket));
    }
}

#[test]
fn test_blob_ticket_download_options() {
    let (text, _, id_bytes) = real_ticket(iroh_blobs::BlobFormat::Raw);
    let ticket = BlobTicket::new(text).unwrap();
    let options = ticket.as_download_options().unwrap();
    assert!(matches!(options.format, BlobFormat::Raw));
    assert!(matches!(options.tag, SetTagOption::Auto));
    assert_eq!(options.node.endpoint_id, id_bytes.to_vec());
}
