use blob_gateway::content::{BlobFormat, ContentDescriptor, ContentHash};
use blob_gateway::identity::{PublicIdentity, SecretKey};
use blob_gateway::ticket::Ticket;

const NODE_ID: [u8; 32] = [
    174, 88, 255, 136, 51, 36, 26, 200, 45, 111, 247, 97, 16, 70, 237, 103, 181, 7, 45, 20, 44, 88,
    141, 0, 99, 233, 66, 217, 167, 85, 2, 182,
];

const HASH: [u8; 32] = [
    11, 132, 211, 88, 228, 200, 190, 108, 56, 98, 107, 33, 130, 255, 87, 88, 24, 186, 107, 211,
    244, 185, 4, 100, 153, 75, 225, 76, 179, 84, 160, 114,
];

const RAW_TICKET: &str = "blobacxfr74igmsbvsbnn73wcecg5vt3kbzncqwfrdiampuufwnhkublmaaaaafyju2y4tel43bymjvsdax7k5mbrotl2p2lsbdetff6ctftksqhe";

const HASH_SEQ_TICKET: &str = "blobacxfr74igmsbvsbnn73wcecg5vt3kbzncqwfrdiampuufwnhkublmaaaaefyju2y4tel43bymjvsdax7k5mbrotl2p2lsbdetff6ctftksqhe";

fn ticket(format: BlobFormat) -> Ticket {
    Ticket::new(
        PublicIdentity::from_bytes(NODE_ID),
        ContentDescriptor { hash: ContentHash::from_bytes(HASH), format },
    )
}

fn invalid_node_id() -> [u8; 32] {
    for seed in 0..=255u8 {
        let mut bytes = [seed; 32];
        bytes[0] = seed.wrapping_mul(13).wrapping_add(1);
        if iroh::PublicKey::from_bytes(&bytes).is_err() {
            return bytes;
        }
    }
    panic!("no invalid key among the candidates");
}

#[test]
fn issued_ticket_has_the_known_text() {
    assert_eq!(ticket(BlobFormat::Raw).issue().as_deref(), Some(RAW_TICKET));
    assert_eq!(ticket(BlobFormat::HashSeq).issue().as_deref(), Some(HASH_SEQ_TICKET));
}

#[test]
fn issued_ticket_is_what_the_transport_makes() {
    let id = iroh::PublicKey::from_bytes(&NODE_ID).unwrap();
    let theirs = iroh_blobs::ticket::BlobTicket::new(
        iroh::EndpointAddr::new(id),
        iroh_blobs::Hash::from_bytes(HASH),
        iroh_blobs::BlobFormat::Raw,
    )
    .to_string();
    let ours = ticket(BlobFormat::Raw).issue().expect("a ticket for a valid node");
    assert_eq!(ours, theirs);
    assert!(ours.starts_with("blob"));
}

#[test]
fn ticket_round_trips_to_identity_and_descriptor() {
    for format in [BlobFormat::Raw, BlobFormat::HashSeq] {
        let made = ticket(format);
        let text = made.issue().expect("a ticket for a valid node");
        let parsed = Ticket::parse(&text).expect("an issued ticket parses");
        assert_eq!(parsed, made);
        assert_eq!(parsed.node_id.as_bytes(), &NODE_ID);
        assert_eq!(parsed.descriptor.hash.as_bytes(), &HASH);
        assert_eq!(parsed.descriptor.format, format);
        assert!(made.same_as(&parsed));
        assert!(made.read_back_as(&Some(parsed)));
    }
}

#[test]
fn ticket_round_trips_for_a_derived_identity() {
    let identity = SecretKey::from_bytes([42u8; 32]).public();
    let descriptor =
        ContentDescriptor { hash: ContentHash::from_bytes([3u8; 32]), format: BlobFormat::Raw };
    let made = Ticket::new(identity, descriptor);
    let text = made.issue().expect("a derived identity is valid");
    assert_eq!(Ticket::parse(&text), Some(made));
}

#[test]
fn known_text_parses_to_the_known_ticket() {
    assert_eq!(Ticket::parse(RAW_TICKET), Some(ticket(BlobFormat::Raw)));
    assert_eq!(Ticket::parse(HASH_SEQ_TICKET), Some(ticket(BlobFormat::HashSeq)));
}

#[test]
fn text_that_is_no_ticket_parses_to_nothing() {
    assert_eq!(Ticket::parse(""), None);
    assert_eq!(Ticket::parse("blob"), None);
    assert_eq!(Ticket::parse("not a ticket"), None);
    assert_eq!(Ticket::parse(&RAW_TICKET[4..]), None);
    assert_eq!(Ticket::parse(&RAW_TICKET[..RAW_TICKET.len() - 8]), None);
    assert_eq!(Ticket::parse(&RAW_TICKET.replacen("blob", "node", 1)), None);
}

#[test]
fn ticket_with_addresses_parses_to_its_node_and_content() {
    let id = iroh::PublicKey::from_bytes(&NODE_ID).unwrap();
    let socket = iroh::TransportAddr::Ip("127.0.0.1:1234".parse().unwrap());
    let addr = iroh::EndpointAddr::from_parts(id, [socket]);
    let text = iroh_blobs::ticket::BlobTicket::new(
        addr,
        iroh_blobs::Hash::from_bytes(HASH),
        iroh_blobs::BlobFormat::HashSeq,
    )
    .to_string();
    assert_ne!(text, HASH_SEQ_TICKET);
    assert_eq!(Ticket::parse(&text), Some(ticket(BlobFormat::HashSeq)));
}

#[test]
fn node_id_that_is_no_public_key_gets_no_ticket() {
    let identity = PublicIdentity::from_bytes(invalid_node_id());
    assert!(!identity.is_valid());
    let descriptor =
        ContentDescriptor { hash: ContentHash::from_bytes(HASH), format: BlobFormat::Raw };
    assert_eq!(Ticket::new(identity, descriptor).issue(), None);
}

#[test]
fn tickets_differ_where_node_or_content_differ() {
    let base = ticket(BlobFormat::Raw);
    let other_format = ticket(BlobFormat::HashSeq);
    let other_hash = Ticket::new(
        PublicIdentity::from_bytes(NODE_ID),
        ContentDescriptor { hash: ContentHash::from_bytes([0u8; 32]), format: BlobFormat::Raw },
    );
    let other_node = Ticket::new(
        SecretKey::from_bytes([1u8; 32]).public(),
        ContentDescriptor { hash: ContentHash::from_bytes(HASH), format: BlobFormat::Raw },
    );
    assert!(!base.same_as(&other_format));
    assert!(!base.same_as(&other_hash));
    assert!(!base.same_as(&other_node));
    assert!(!base.read_back_as(&None));
    assert!(!base.read_back_as(&Some(other_hash)));
    assert_ne!(base.issue(), other_node.issue());
}
