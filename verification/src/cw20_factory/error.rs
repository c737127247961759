//! Why an operation on the token was refused.

use crate::decimal::{decimal, u128_to_decimal};
use crate::host::Response;
use vstd::prelude::*;
use vstd::string::StringExecFns;

verus! {

pub type ContractResponse = Result<Response, Cw20FactoryError>;

pub type ContractResult<T> = Result<T, Cw20FactoryError>;

#[derive(Debug, Clone, PartialEq, Eq)]
pub enum Cw20FactoryError {
    /// A failure that a collaborator reported, with its message.
    Std(String),
    /// The caller is not the minter.
    Unauthorized,
    /// The mint would take the combined supply above the cap.
    CapExceeded,
    /// The payment is not denominated in the token's factory denom.
    WrongDenom { expected: String, received: String },
    /// The call did not carry exactly one coin.
    ExpectedExactlyOneCoin,
    /// The account holds less than is to be taken from it.
    InsufficientBalance { current: u128, requested: u128 },
    /// A burn without a payment named no amount, or zero.
    ZeroBurnAmount,
    /// The token already has its factory denom.
    AlreadyMaterialized,
    /// The token has no factory denom yet.
    NoExternalRepresentation,
    /// The ledger's total supply would not fit its counter.
    SupplyOverflow,
}

pub enum Cw20FactoryErrorView {
    Std(Seq<char>),
    Unauthorized,
    CapExceeded,
    WrongDenom { expected: Seq<char>, received: Seq<char> },
    ExpectedExactlyOneCoin,
    InsufficientBalance { current: nat, requested: nat },
    ZeroBurnAmount,
    AlreadyMaterialized,
    NoExternalRepresentation,
    SupplyOverflow,
}

impl View for Cw20FactoryError {
    type V = Cw20FactoryErrorView;

    open spec fn view(&self) -> Cw20FactoryErrorView {
        match *self {
            Cw20FactoryError::Std(msg) => Cw20FactoryErrorView::Std(msg@),
            Cw20FactoryError::Unauthorized => Cw20FactoryErrorView::Unauthorized,
            Cw20FactoryError::CapExceeded => Cw20FactoryErrorView::CapExceeded,
            Cw20FactoryError::WrongDenom { expected, received } => Cw20FactoryErrorView::WrongDenom {
                expected: expected@,
                received: received@,
            },
            Cw20FactoryError::ExpectedExactlyOneCoin => Cw20FactoryErrorView::ExpectedExactlyOneCoin,
            Cw20FactoryError::InsufficientBalance {
                current,
                requested,
            } => Cw20FactoryErrorView::InsufficientBalance {
                current: current as nat,
                requested: requested as nat,
            },
            Cw20FactoryError::ZeroBurnAmount => Cw20FactoryErrorView::ZeroBurnAmount,
            Cw20FactoryError::AlreadyMaterialized => Cw20FactoryErrorView::AlreadyMaterialized,
            Cw20FactoryError::NoExternalRepresentation => Cw20FactoryErrorView::NoExternalRepresentation,
            Cw20FactoryError::SupplyOverflow => Cw20FactoryErrorView::SupplyOverflow,
        }
    }
}

/// The text that describes an error to a person.
pub open spec fn error_text(e: Cw20FactoryErrorView) -> Seq<char> {
    match e {
        Cw20FactoryErrorView::Std(msg) => msg,
        Cw20FactoryErrorView::Unauthorized => "Unauthorized"@,
        Cw20FactoryErrorView::CapExceeded => "Minting cannot exceed the cap"@,
        Cw20FactoryErrorView::WrongDenom { expected, received } => "InvalidDenom: expected "@
            + expected + ", received "@ + received,
        Cw20FactoryErrorView::ExpectedExactlyOneCoin => "Not one coin"@,
        Cw20FactoryErrorView::InsufficientBalance {
            current,
            requested,
        } => "Insufficient cw20 balance: current: "@ + decimal(current) + ", requested: "@
            + decimal(requested),
        Cw20FactoryErrorView::ZeroBurnAmount => "Invalid zero burn amount"@,
        Cw20FactoryErrorView::AlreadyMaterialized => "Native token alredy created"@,
        Cw20FactoryErrorView::NoExternalRepresentation => "Item factory_denom on contract cw20_factory can't be loaded"@,
        Cw20FactoryErrorView::SupplyOverflow => "Total supply overflow"@,
    }
}

impl Cw20FactoryError {
    /// The error's description, as a caller of the contract reads it.
    pub fn message(&self) -> (s: String)
        ensures
            s@ == error_text(self@),
    {
        match self {
            Cw20FactoryError::Std(msg) => msg.clone(),
            Cw20FactoryError::Unauthorized => String::from_str("Unauthorized"),
            Cw20FactoryError::CapExceeded => String::from_str("Minting cannot exceed the cap"),
            Cw20FactoryError::WrongDenom { expected, received } => {
                let mut s = String::from_str("InvalidDenom: expected ");
                s.append(expected.as_str());
                s.append(", received ");
                s.append(received.as_str());
                s
            },
            Cw20FactoryError::ExpectedExactlyOneCoin => String::from_str("Not one coin"),
            Cw20FactoryError::InsufficientBalance { current, requested } => {
                let mut s = String::from_str("Insufficient cw20 balance: current: ");
                s.append(u128_to_decimal(*current).as_str());
                s.append(", requested: ");
                s.append(u128_to_decimal(*requested).as_str());
                s
            },
            Cw20FactoryError::ZeroBurnAmount => String::from_str("Invalid zero burn amount"),
            Cw20FactoryError::AlreadyMaterialized => String::from_str(
                "Native token alredy created",
            ),
            Cw20FactoryError::NoExternalRepresentation => String::from_str(
                "Item factory_denom on contract cw20_factory can't be loaded",
            ),
            Cw20FactoryError::SupplyOverflow => String::from_str("Total supply overflow"),
        }
    }
}

/// The view of a result whose value has a view.
pub open spec fn result_view<T: View>(r: Result<T, Cw20FactoryError>) -> Result<
    T::V,
    Cw20FactoryErrorView,
> {
    match r {
        Ok(v) => Ok(v@),
        Err(e) => Err(e@),
    }
}

} // verus!
