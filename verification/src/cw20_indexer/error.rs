//! Why the indexer refused a call.

use crate::host::Response;
use vstd::prelude::*;
use vstd::string::StringExecFns;

verus! {

pub type ContractResponse = Result<Response, Cw20IndexerError>;

pub type ContractResult<T> = Result<T, Cw20IndexerError>;

#[derive(Debug, Clone, PartialEq, Eq)]
pub enum Cw20IndexerError {
    /// A failure that a collaborator reported, with its message.
    Std(String),
    /// The denom does not have the three segments of a factory denom.
    MalformedIdentifier { denom: String },
    /// The denom is not a factory denom, or not one of the caller.
    IdentityMismatch { denom: String },
    /// The denom has its entry already.
    AlreadyRegistered { denom: String },
    /// The denom has no entry.
    NotFound { denom: String },
}

pub enum Cw20IndexerErrorView {
    Std(Seq<char>),
    MalformedIdentifier { denom: Seq<char> },
    IdentityMismatch { denom: Seq<char> },
    AlreadyRegistered { denom: Seq<char> },
    NotFound { denom: Seq<char> },
}

impl View for Cw20IndexerError {
    type V = Cw20IndexerErrorView;

    open spec fn view(&self) -> Cw20IndexerErrorView {
        match *self {
            Cw20IndexerError::Std(msg) => Cw20IndexerErrorView::Std(msg@),
            Cw20IndexerError::MalformedIdentifier {
                denom,
            } => Cw20IndexerErrorView::MalformedIdentifier { denom: denom@ },
            Cw20IndexerError::IdentityMismatch { denom } => Cw20IndexerErrorView::IdentityMismatch {
                denom: denom@,
            },
            Cw20IndexerError::AlreadyRegistered {
                denom,
            } => Cw20IndexerErrorView::AlreadyRegistered { denom: denom@ },
            Cw20IndexerError::NotFound { denom } => Cw20IndexerErrorView::NotFound {
                denom: denom@,
            },
        }
    }
}

/// The text that describes an error to a person.
pub open spec fn error_text(e: Cw20IndexerErrorView) -> Seq<char> {
    match e {
        Cw20IndexerErrorView::Std(msg) => msg,
        Cw20IndexerErrorView::MalformedIdentifier { denom } => "Invalid denom lenght: denom "@
            + denom + " is not format factory/contract/subdenom"@,
        Cw20IndexerErrorView::IdentityMismatch { denom } => "Invalid denom data: denom "@ + denom
            + " is not format factory/contract/subdenom"@,
        Cw20IndexerErrorView::AlreadyRegistered { denom } => "Denom already saved: "@ + denom,
        Cw20IndexerErrorView::NotFound { denom } => "Unable to load key "@ + denom
            + " on Map with namespace cw20_map"@,
    }
}

impl Cw20IndexerError {
    /// The error's description, as a caller of the contract reads it.
    pub fn message(&self) -> (s: String)
        ensures
            s@ == error_text(self@),
    {
        match self {
            Cw20IndexerError::Std(msg) => msg.clone(),
            Cw20IndexerError::MalformedIdentifier { denom } => {
                let mut s = String::from_str("Invalid denom lenght: denom ");
                s.append(denom.as_str());
                s.append(" is not format factory/contract/subdenom");
                s
            },
            Cw20IndexerError::IdentityMismatch { denom } => {
                let mut s = String::from_str("Invalid denom data: denom ");
                s.append(denom.as_str());
                s.append(" is not format factory/contract/subdenom");
                s
            },
            Cw20IndexerError::AlreadyRegistered { denom } => {
                let mut s = String::from_str("Denom already saved: ");
                s.append(denom.as_str());
                s
            },
            Cw20IndexerError::NotFound { denom } => {
                let mut s = String::from_str("Unable to load key ");
                s.append(denom.as_str());
                s.append(" on Map with namespace cw20_map");
                s
            },
        }
    }
}

} // verus!
