//! The data model: payloads, certificate records, the error taxonomy, and
//! the validation gate that guards creation.

use vstd::prelude::*;
use crate::text::{dec_str, is_blank, str_is_blank, u64_to_dec};

verus! {

/// What a caller supplies to create a certificate: the owning identity and
/// free-form metadata, both required to be non-blank.
pub struct NFTPayload {
    pub owner: String,
    pub metadata: String,
}

/// The mathematical content of a payload.
pub ghost struct PayloadView {
    pub owner: Seq<char>,
    pub metadata: Seq<char>,
}

impl View for NFTPayload {
    type V = PayloadView;

    open spec fn view(&self) -> PayloadView {
        PayloadView { owner: self.owner@, metadata: self.metadata@ }
    }
}

impl Default for NFTPayload {
    fn default() -> (r: Self)
        ensures
            r@.owner.len() == 0,
            r@.metadata.len() == 0,
    {
        NFTPayload { owner: String::new(), metadata: String::new() }
    }
}

/// A certificate record: the system-assigned id, the caller-supplied owner
/// and metadata, and the instant of creation in the host clock's units.
pub struct NFTCertificate {
    pub id: u64,
    pub owner: String,
    pub metadata: String,
    pub created_at: u64,
}

/// The mathematical content of a record.
pub ghost struct RecordView {
    pub id: u64,
    pub owner: Seq<char>,
    pub metadata: Seq<char>,
    pub created_at: u64,
}

impl View for NFTCertificate {
    type V = RecordView;

    open spec fn view(&self) -> RecordView {
        RecordView {
            id: self.id,
            owner: self.owner@,
            metadata: self.metadata@,
            created_at: self.created_at,
        }
    }
}

impl Clone for NFTCertificate {
    fn clone(&self) -> (r: Self)
        ensures
            r@ == self@,
    {
        NFTCertificate {
            id: self.id,
            owner: self.owner.clone(),
            metadata: self.metadata.clone(),
            created_at: self.created_at,
        }
    }
}

impl Default for NFTCertificate {
    fn default() -> (r: Self)
        ensures
            r@.id == 0,
            r@.owner.len() == 0,
            r@.metadata.len() == 0,
            r@.created_at == 0,
    {
        NFTCertificate { id: 0, owner: String::new(), metadata: String::new(), created_at: 0 }
    }
}

/// The two failure kinds the service reports: an id with no present record,
/// and caller input that fails validation.
#[derive(Debug)]
pub enum Error {
    NotFound { msg: String },
    InvalidInput { msg: String },
}

/// The mathematical content of an error.
pub ghost enum ErrorView {
    NotFound { msg: Seq<char> },
    InvalidInput { msg: Seq<char> },
}

impl View for Error {
    type V = ErrorView;

    open spec fn view(&self) -> ErrorView {
        match self {
            Error::NotFound { msg } => ErrorView::NotFound { msg: msg@ },
            Error::InvalidInput { msg } => ErrorView::InvalidInput { msg: msg@ },
        }
    }
}

impl Error {
    /// The human-readable message carried by either error kind.
    pub fn message(&self) -> (r: &str)
        ensures
            r@ == match self@ {
                ErrorView::NotFound { msg } => msg,
                ErrorView::InvalidInput { msg } => msg,
            },
    {
        match self {
            Error::NotFound { msg } => msg.as_str(),
            Error::InvalidInput { msg } => msg.as_str(),
        }
    }
}

/// The message reported when a fetch misses.
pub open spec fn get_not_found_msg(id: u64) -> Seq<char> {
    "An NFT with id="@ + dec_str(id as nat) + " not found"@
}

/// The message reported when a delete misses.
pub open spec fn delete_not_found_msg(id: u64) -> Seq<char> {
    "Couldn't delete an NFT with id="@ + dec_str(id as nat) + ". NFT not found."@
}

/// The message reported when the owner field is blank.
pub open spec fn owner_required_msg() -> Seq<char> {
    "Owner is required"@
}

/// The message reported when the metadata field is blank.
pub open spec fn metadata_required_msg() -> Seq<char> {
    "Metadata is required"@
}

pub(crate) fn make_get_not_found_msg(id: u64) -> (s: String)
    ensures
        s@ == get_not_found_msg(id),
{
    let mut s = String::from_str("An NFT with id=");
    s.append(u64_to_dec(id).as_str());
    s.append(" not found");
    s
}

pub(crate) fn make_delete_not_found_msg(id: u64) -> (s: String)
    ensures
        s@ == delete_not_found_msg(id),
{
    let mut s = String::from_str("Couldn't delete an NFT with id=");
    s.append(u64_to_dec(id).as_str());
    s.append(". NFT not found.");
    s
}

/// A payload passes validation exactly when neither field is blank.
pub open spec fn payload_valid(p: PayloadView) -> bool {
    !is_blank(p.owner) && !is_blank(p.metadata)
}

/// Checks the two input fields of a payload, reporting the first blank one.
pub fn validate_payload(payload: &NFTPayload) -> (r: Result<(), Error>)
    ensures
        r is Ok <==> payload_valid(payload@),
        is_blank(payload@.owner) ==> (r matches Err(e) && e@ == (ErrorView::InvalidInput {
            msg: owner_required_msg(),
        })),
        !is_blank(payload@.owner) && is_blank(payload@.metadata) ==> (r matches Err(e) && e@
            == (ErrorView::InvalidInput { msg: metadata_required_msg() })),
{
    if str_is_blank(payload.owner.as_str()) {
        return Err(Error::InvalidInput { msg: String::from_str("Owner is required") });
    }
    if str_is_blank(payload.metadata.as_str()) {
        return Err(Error::InvalidInput { msg: String::from_str("Metadata is required") });
    }
    Ok(())
}

} // verus!
