//! Tickets: a node's identity and a content descriptor in one shareable text,
//! enough for any peer to fetch the content from that node.
//!
//! The text form is that of `iroh_blobs::ticket::BlobTicket`. This module
//! holds a ticket as plain values, has the text made and read by that crate,
//! and hands out no text that does not read back as the ticket it was made of.

use vstd::prelude::*;

use crate::content::{BlobFormat, ContentDescriptor, ContentHash, DescriptorView};
use crate::identity::{is_public_key, PublicIdentity};

verus! {

/// A ticket as contracts see it.
pub struct TicketView {
    pub node_id: Seq<u8>,
    pub descriptor: DescriptorView,
}

/// A ticket: where the content is (the node's identity, without further
/// routing hints) and what it is.
#[derive(Debug, Clone, Copy, PartialEq, Eq)]
pub struct Ticket {
    pub node_id: PublicIdentity,
    pub descriptor: ContentDescriptor,
}

impl View for Ticket {
    type V = TicketView;

    open spec fn view(&self) -> TicketView {
        TicketView { node_id: self.node_id@, descriptor: self.descriptor@ }
    }
}

/// The text of a ticket: what `iroh_blobs::ticket::BlobTicket` displays for
/// the ticket made of this node id (as an address without relay or socket
/// addresses), hash and format.
pub uninterp spec fn ticket_text(ticket: TicketView) -> Seq<char>;

/// What a text says as a ticket: the node id, hash and format of what
/// `iroh_blobs::ticket::BlobTicket` parses from it, or `None` where it parses
/// nothing.
pub uninterp spec fn ticket_parse(text: Seq<char>) -> Option<TicketView>;

/// The ticket in `parsed`, where there is one, as contracts see it.
pub open spec fn parsed_view(parsed: Option<Ticket>) -> Option<TicketView> {
    match parsed {
        Some(ticket) => Some(ticket@),
        None => None,
    }
}

/// Node id, hash and format in `parts`, where they are there, as the ticket
/// that contracts see.
pub open spec fn parts_view(parts: Option<([u8; 32], [u8; 32], BlobFormat)>) -> Option<
    TicketView,
> {
    match parts {
        Some((node_id, hash, format)) => Some(
            TicketView { node_id: node_id@, descriptor: DescriptorView { hash: hash@, format } },
        ),
        None => None,
    }
}

/// The text in `text`, where there is one, as contracts see it.
pub open spec fn text_view(text: Option<String>) -> Option<Seq<char>> {
    match text {
        Some(text) => Some(text@),
        None => None,
    }
}

/// Calls `iroh_blobs::ticket::BlobTicket::new` on the address
/// `iroh::EndpointAddr::new` of the node id, and displays the ticket.
///
/// Trusted: the text is a function of node id, hash and format alone. The
/// node id has to be a public key, which is all that the conversion asks.
#[verifier::external_body]
fn encode_ticket(node_id: &[u8; 32], hash: &[u8; 32], format: BlobFormat) -> (text: String)
    requires
        is_public_key(node_id@),
    ensures
        text@ == ticket_text(
            TicketView { node_id: node_id@, descriptor: DescriptorView { hash: hash@, format } },
        ),
{
    let id = iroh::PublicKey::from_bytes(node_id).expect("the node id is a public key");
    let format = match format {
        BlobFormat::Raw => iroh_blobs::BlobFormat::Raw,
        BlobFormat::HashSeq => iroh_blobs::BlobFormat::HashSeq,
    };
    let hash = iroh_blobs::Hash::from_bytes(*hash);
    iroh_blobs::ticket::BlobTicket::new(iroh::EndpointAddr::new(id), hash, format).to_string()
}

/// Calls `str::parse` for `iroh_blobs::ticket::BlobTicket` and hands out the
/// parsed ticket's node id, hash and format; relay and socket addresses in
/// the ticket are left behind.
///
/// Trusted: the answer is a function of the text alone.
#[verifier::external_body]
fn decode_ticket(text: &str) -> (parts: Option<([u8; 32], [u8; 32], BlobFormat)>)
    ensures
        parts_view(parts) == ticket_parse(text@),
{
    let ticket = text.parse::<iroh_blobs::ticket::BlobTicket>().ok()?;
    let format = match ticket.format() {
        iroh_blobs::BlobFormat::Raw => BlobFormat::Raw,
        iroh_blobs::BlobFormat::HashSeq => BlobFormat::HashSeq,
    };
    Some((*ticket.addr().id.as_bytes(), *ticket.hash().as_bytes(), format))
}

/// The text that is issued for a ticket: its text form, on two conditions.
/// The node id is a public key, and the text reads back as this very ticket.
/// Otherwise no text is issued.
pub open spec fn issued_text(ticket: TicketView) -> Option<Seq<char>> {
    if is_public_key(ticket.node_id) && ticket_parse(ticket_text(ticket)) == Some(ticket) {
        Some(ticket_text(ticket))
    } else {
        None
    }
}

impl Ticket {
    /// The ticket for `descriptor` at the node `node_id`.
    pub fn new(node_id: PublicIdentity, descriptor: ContentDescriptor) -> (ticket: Ticket)
        ensures
            ticket@ == (TicketView { node_id: node_id@, descriptor: descriptor@ }),
    {
        Ticket { node_id, descriptor }
    }

    /// Whether two tickets name the same node and the same content.
    pub fn same_as(&self, other: &Ticket) -> (same: bool)
        ensures
            same == (self@ == other@),
    {
        self.node_id.same_as(&other.node_id) && self.descriptor.same_as(&other.descriptor)
    }

    /// Whether `parsed` holds this very ticket.
    pub fn read_back_as(&self, parsed: &Option<Ticket>) -> (confirmed: bool)
        ensures
            confirmed == (parsed_view(*parsed) == Some(self@)),
    {
        match parsed {
            Some(ticket) => self.same_as(ticket),
            None => false,
        }
    }

    /// Reads a ticket from its text form.
    pub fn parse(text: &str) -> (parsed: Option<Ticket>)
        ensures
            parsed_view(parsed) == ticket_parse(text@),
    {
        match decode_ticket(text) {
            Some((node_id, hash, format)) => Some(
                Ticket {
                    node_id: PublicIdentity::from_bytes(node_id),
                    descriptor: ContentDescriptor { hash: ContentHash::from_bytes(hash), format },
                },
            ),
            None => None,
        }
    }

    /// Issues the ticket as text.
    ///
    /// A text comes back exactly where the node id is a public key and the
    /// text form reads back as this ticket; so every issued text parses to
    /// the identity and the descriptor that it was made of.
    pub fn issue(&self) -> (text: Option<String>)
        ensures
            text_view(text) == issued_text(self@),
            text matches Some(issued) ==> ticket_parse(issued@) == Some(self@),
    {
        if !self.node_id.is_valid() {
            return None;
        }
        let text = encode_ticket(
            self.node_id.as_bytes(),
            self.descriptor.hash.as_bytes(),
            self.descriptor.format,
        );
        let parsed = Ticket::parse(text.as_str());
        if self.read_back_as(&parsed) {
            Some(text)
        } else {
            None
        }
    }
}

/// Round trip: whatever was issued for a ticket parses to that ticket, node
/// id, hash and format alike.
pub proof fn issued_text_reads_back(ticket: TicketView, text: Seq<char>)
    requires
        issued_text(ticket) == Some(text),
    ensures
        ticket_parse(text) == Some(ticket),
        text == ticket_text(ticket),
{
}

} // verus!
