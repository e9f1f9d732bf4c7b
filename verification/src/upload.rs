//! The upload gateway: from an uploaded form to the answer for the client.
//!
//! An upload takes two decisions, with the store's work between them: which
//! bytes to ingest (`select_file`), and what to answer once the store has
//! spoken (`finish_upload`). `upload_file` is both in one: it says what an
//! upload does next. Reading the form and talking to the store are the
//! caller's part.

use vstd::prelude::*;

use crate::content::{ContentDescriptor, DescriptorView};
use crate::identity::PublicIdentity;
use crate::text::{hex_lower, hex_lower_is_injective};
use crate::ticket::{issued_text, ticket_parse, Ticket, TicketView};

verus! {

/// One field of a multipart form, read in full. Every field counts as a file
/// part, with or without a file name.
#[derive(Debug, PartialEq, Eq)]
pub struct FormField {
    pub file_name: Option<String>,
    pub data: Vec<u8>,
}

/// Why an upload got no ticket.
#[derive(Debug, Clone, Copy, PartialEq, Eq, Structural)]
pub enum UploadError {
    /// The form held no file. The client's fault; nothing was ingested.
    MissingFile,
    /// The store did not take the bytes.
    IngestionFailed,
    /// The bytes are stored, but no ticket could be made for them.
    TicketConstructionFailed,
}

/// What the store answered to the ingestion of the selected bytes.
#[derive(Debug, Clone, Copy, PartialEq, Eq)]
pub enum Ingestion {
    /// The bytes are stored under this descriptor.
    Stored(ContentDescriptor),
    /// The store refused the bytes or failed to store them.
    Failed,
}

/// The answer to a successful upload, every part of it as text.
#[derive(Debug, PartialEq, Eq)]
pub struct UploadResponse {
    pub ticket: String,
    pub node_id: String,
    pub blob_hash: String,
    pub blob_format: String,
}

/// An upload response as contracts see it.
pub struct ResponseView {
    pub ticket: Seq<char>,
    pub node_id: Seq<char>,
    pub blob_hash: Seq<char>,
    pub blob_format: Seq<char>,
}

impl View for UploadResponse {
    type V = ResponseView;

    open spec fn view(&self) -> ResponseView {
        ResponseView {
            ticket: self.ticket@,
            node_id: self.node_id@,
            blob_hash: self.blob_hash@,
            blob_format: self.blob_format@,
        }
    }
}

/// The HTTP status of a successful upload.
pub const STATUS_OK: u16 = 200;

/// The HTTP status of an upload that the client got wrong.
pub const STATUS_BAD_REQUEST: u16 = 400;

/// The HTTP status of an upload that failed on the server's side.
pub const STATUS_INTERNAL_SERVER_ERROR: u16 = 500;

impl UploadError {
    /// The HTTP status that tells the client of this error: 400 for a missing
    /// file, 500 for the two failures on the server's side.
    pub open spec fn status(self) -> u16 {
        match self {
            UploadError::MissingFile => STATUS_BAD_REQUEST,
            UploadError::IngestionFailed => STATUS_INTERNAL_SERVER_ERROR,
            UploadError::TicketConstructionFailed => STATUS_INTERNAL_SERVER_ERROR,
        }
    }

    /// The HTTP status that tells the client of this error.
    pub fn status_code(&self) -> (code: u16)
        ensures
            code == self.status(),
    {
        match self {
            UploadError::MissingFile => STATUS_BAD_REQUEST,
            UploadError::IngestionFailed => STATUS_INTERNAL_SERVER_ERROR,
            UploadError::TicketConstructionFailed => STATUS_INTERNAL_SERVER_ERROR,
        }
    }
}

impl FormField {
    /// The name under which the file is spoken of: its file name, or
    /// `unknown` where the form gave none.
    pub open spec fn name(self) -> Seq<char> {
        match self.file_name {
            Some(name) => name@,
            None => seq!['u', 'n', 'k', 'n', 'o', 'w', 'n'],
        }
    }

    /// The name under which the file is spoken of.
    pub fn display_name(&self) -> (name: String)
        ensures
            name@ == self.name(),
    {
        match &self.file_name {
            Some(name) => name.clone(),
            None => {
                proof {
                    reveal_strlit("unknown");
                }
                let unknown = "unknown";
                assert(unknown@ =~= self.name());
                unknown.to_owned()
            },
        }
    }
}

/// The file of an upload: the first field of the form, whatever follows it.
/// A form without fields has no file.
pub open spec fn selection(fields: Seq<FormField>) -> Result<FormField, UploadError> {
    if fields.len() == 0 {
        Err(UploadError::MissingFile)
    } else {
        Ok(fields[0])
    }
}

/// Selects the file of an upload, whose bytes are then to be ingested. An
/// `Err` asks for no ingestion.
///
/// Only the first field is looked at, so a caller that reads the form field
/// by field may stop after one.
pub fn select_file(fields: &[FormField]) -> (selected: Result<&FormField, UploadError>)
    ensures
        selected matches Ok(field) ==> selection(fields@) == Ok::<FormField, UploadError>(*field),
        selected matches Err(error) ==> selection(fields@) == Err::<FormField, UploadError>(error),
{
    if fields.len() == 0 {
        Err(UploadError::MissingFile)
    } else {
        Ok(&fields[0])
    }
}

/// The answer that an upload is owed, from the node's identity and what the
/// store said.
///
/// A failed ingestion is `IngestionFailed`. For stored bytes the answer
/// carries the issued ticket, the node id and the hash in lowercase
/// hexadecimal, and the format's name; where no ticket is issued, it is
/// `TicketConstructionFailed`.
pub open spec fn upload_outcome(identity: Seq<u8>, ingestion: Ingestion) -> Result<
    ResponseView,
    UploadError,
> {
    match ingestion {
        Ingestion::Failed => Err(UploadError::IngestionFailed),
        Ingestion::Stored(descriptor) => match issued_text(
            TicketView { node_id: identity, descriptor: descriptor@ },
        ) {
            None => Err(UploadError::TicketConstructionFailed),
            Some(ticket) => Ok(
                ResponseView {
                    ticket,
                    node_id: hex_lower(identity),
                    blob_hash: hex_lower(descriptor@.hash),
                    blob_format: descriptor.format.name(),
                },
            ),
        },
    }
}

/// The response in `outcome`, where it holds one, as contracts see it.
pub open spec fn outcome_view(outcome: Result<UploadResponse, UploadError>) -> Result<
    ResponseView,
    UploadError,
> {
    match outcome {
        Ok(response) => Ok(response@),
        Err(error) => Err(error),
    }
}

/// Finishes an upload: makes the answer for the client from what the store
/// said of the selected bytes.
pub fn finish_upload(identity: &PublicIdentity, ingestion: Ingestion) -> (outcome: Result<
    UploadResponse,
    UploadError,
>)
    ensures
        outcome_view(outcome) == upload_outcome(identity@, ingestion),
{
    match ingestion {
        Ingestion::Failed => Err(UploadError::IngestionFailed),
        Ingestion::Stored(descriptor) => {
            let ticket = Ticket::new(*identity, descriptor);
            match ticket.issue() {
                None => Err(UploadError::TicketConstructionFailed),
                Some(text) => Ok(
                    UploadResponse {
                        ticket: text,
                        node_id: identity.to_text(),
                        blob_hash: descriptor.hash.to_text(),
                        blob_format: descriptor.format.to_text(),
                    },
                ),
            }
        },
    }
}

/// What an upload does next.
#[derive(Debug, PartialEq, Eq)]
pub enum UploadStep<'a> {
    /// Hand the data of this field to the store, and come back with what
    /// the store said.
    Ingest(&'a FormField),
    /// Answer the client; the upload is over.
    Respond(Result<UploadResponse, UploadError>),
}

/// A step of an upload as contracts see it.
pub enum StepView {
    Ingest(FormField),
    Respond(Result<ResponseView, UploadError>),
}

impl<'a> View for UploadStep<'a> {
    type V = StepView;

    open spec fn view(&self) -> StepView {
        match self {
            UploadStep::Ingest(file) => StepView::Ingest(**file),
            UploadStep::Respond(outcome) => StepView::Respond(outcome_view(*outcome)),
        }
    }
}

/// What an upload does next, from the form and from what the store has said
/// so far (`None` while it has not been asked).
///
/// A form without a file is answered at once, and the store is never asked.
/// Otherwise the store is asked once, for the selected file, and its answer
/// decides the response.
pub open spec fn upload_step(
    identity: Seq<u8>,
    fields: Seq<FormField>,
    ingestion: Option<Ingestion>,
) -> StepView {
    match selection(fields) {
        Err(error) => StepView::Respond(Err(error)),
        Ok(file) => match ingestion {
            None => StepView::Ingest(file),
            Some(said) => StepView::Respond(upload_outcome(identity, said)),
        },
    }
}

/// Handles an upload: says what is to be done next for the form `fields`,
/// given what the store has said so far.
///
/// The caller starts with `None` for `ingestion`. Where the step is
/// `Ingest`, it has the store ingest the file's data as a raw blob and calls
/// again with the store's answer; the step is then `Respond`.
pub fn upload_file<'a>(
    identity: &PublicIdentity,
    fields: &'a [FormField],
    ingestion: Option<Ingestion>,
) -> (step: UploadStep<'a>)
    ensures
        step@ == upload_step(identity@, fields@, ingestion),
{
    match select_file(fields) {
        Err(error) => UploadStep::Respond(Err(error)),
        Ok(file) => match ingestion {
            None => UploadStep::Ingest(file),
            Some(said) => UploadStep::Respond(finish_upload(identity, said)),
        },
    }
}

/// The HTTP status of an upload's outcome: 200 with a response, else the
/// error's status.
pub fn status_code(outcome: &Result<UploadResponse, UploadError>) -> (code: u16)
    ensures
        outcome is Ok ==> code == STATUS_OK,
        outcome matches Err(error) ==> code == error.status(),
{
    match outcome {
        Ok(_) => STATUS_OK,
        Err(error) => error.status_code(),
    }
}

/// An upload without a file is the client's error: it is answered with
/// `MissingFile`, whose status is 400, and at no point is the store asked to
/// ingest anything.
pub proof fn empty_form_is_a_bad_request(
    identity: Seq<u8>,
    fields: Seq<FormField>,
    ingestion: Option<Ingestion>,
)
    requires
        fields.len() == 0,
    ensures
        selection(fields) == Err::<FormField, UploadError>(UploadError::MissingFile),
        upload_step(identity, fields, ingestion) == StepView::Respond(
            Err(UploadError::MissingFile),
        ),
        UploadError::MissingFile.status() == 400,
{
}

/// An upload with a file asks the store once, for the first field, and once
/// the store has spoken it answers the client.
pub proof fn upload_asks_the_store_once(identity: Seq<u8>, fields: Seq<FormField>, said: Ingestion)
    requires
        fields.len() > 0,
    ensures
        upload_step(identity, fields, None) == StepView::Ingest(fields[0]),
        upload_step(identity, fields, Some(said)) == StepView::Respond(
            upload_outcome(identity, said),
        ),
{
}

/// Only a form without fields is refused, and whatever follows the first
/// field changes nothing.
pub proof fn first_field_is_selected(fields: Seq<FormField>, more: Seq<FormField>)
    requires
        fields.len() > 0,
    ensures
        selection(fields) == Ok::<FormField, UploadError>(fields[0]),
        selection(fields + more) == selection(fields),
{
}

/// Failures on the server's side answer with status 500, and a failed
/// ingestion gets no ticket, whoever the node is.
pub proof fn failed_ingestion_is_a_server_error(identity: Seq<u8>)
    ensures
        upload_outcome(identity, Ingestion::Failed) == Err::<ResponseView, UploadError>(
            UploadError::IngestionFailed,
        ),
        UploadError::IngestionFailed.status() == 500,
        UploadError::TicketConstructionFailed.status() == 500,
{
}

/// Content addressing carries through to the answer: two uploads for which
/// the store gave the same descriptor, as it does for the same bytes, are
/// answered with the same hash and the same format, at whichever node.
pub proof fn same_descriptor_same_hash_and_format(
    first_node: Seq<u8>,
    second_node: Seq<u8>,
    descriptor: ContentDescriptor,
    first: ResponseView,
    second: ResponseView,
)
    requires
        upload_outcome(first_node, Ingestion::Stored(descriptor)) == Ok::<
            ResponseView,
            UploadError,
        >(first),
        upload_outcome(second_node, Ingestion::Stored(descriptor)) == Ok::<
            ResponseView,
            UploadError,
        >(second),
    ensures
        first.blob_hash == second.blob_hash,
        first.blob_format == second.blob_format,
        first.blob_hash == hex_lower(descriptor@.hash),
        first.blob_format == descriptor.format.name(),
{
}

/// The hash in an answer names the content: two answers with the same hash
/// text are for descriptors with the same hash.
pub proof fn same_blob_hash_same_content(
    first_node: Seq<u8>,
    second_node: Seq<u8>,
    first_descriptor: ContentDescriptor,
    second_descriptor: ContentDescriptor,
    first: ResponseView,
    second: ResponseView,
)
    requires
        upload_outcome(first_node, Ingestion::Stored(first_descriptor)) == Ok::<
            ResponseView,
            UploadError,
        >(first),
        upload_outcome(second_node, Ingestion::Stored(second_descriptor)) == Ok::<
            ResponseView,
            UploadError,
        >(second),
        first.blob_hash == second.blob_hash,
    ensures
        first_descriptor@.hash == second_descriptor@.hash,
{
    hex_lower_is_injective(first_descriptor@.hash, second_descriptor@.hash);
}

/// The ticket of an answer reads back as the node's identity and the
/// store's descriptor.
pub proof fn answered_ticket_reads_back(
    identity: Seq<u8>,
    descriptor: ContentDescriptor,
    response: ResponseView,
)
    requires
        upload_outcome(identity, Ingestion::Stored(descriptor)) == Ok::<ResponseView, UploadError>(
            response,
        ),
    ensures
        ticket_parse(response.ticket) == Some(
            TicketView { node_id: identity, descriptor: descriptor@ },
        ),
{
}

} // verus!
