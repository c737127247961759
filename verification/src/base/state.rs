//! The records that a token keeps beside its ledger.

use vstd::prelude::*;

verus! {

/// The denom under which a token factory issues this token's coins.
#[derive(Debug, Clone, PartialEq, Eq)]
pub struct FactoryDenom(String);

impl View for FactoryDenom {
    type V = Seq<char>;

    closed spec fn view(&self) -> Seq<char> {
        self.0@
    }
}

impl FactoryDenom {
    pub fn new(denom: String) -> (d: Self)
        ensures
            d@ == denom@,
    {
        FactoryDenom(denom)
    }

    pub fn inner(&self) -> (denom: String)
        ensures
            denom@ == self@,
    {
        self.0.clone()
    }
}

/// Who may mint, and up to which combined supply.
#[derive(Debug, Clone, PartialEq, Eq)]
pub struct MinterData {
    pub minter: String,
    /// The combined supply that no mint may pass; none for no limit.
    pub cap: Option<u128>,
}

pub struct MinterDataView {
    pub minter: Seq<char>,
    pub cap: Option<nat>,
}

impl View for MinterData {
    type V = MinterDataView;

    open spec fn view(&self) -> MinterDataView {
        MinterDataView {
            minter: self.minter@,
            cap: match self.cap {
                Some(cap) => Some(cap as nat),
                None => None,
            },
        }
    }
}

/// The metadata of a token. It is fixed when the token is set up.
#[derive(Debug, Clone, PartialEq, Eq)]
pub struct TokenInfo {
    pub name: String,
    pub symbol: String,
    pub decimals: u8,
    pub mint: Option<MinterData>,
}

pub struct TokenInfoView {
    pub name: Seq<char>,
    pub symbol: Seq<char>,
    pub decimals: u8,
    pub mint: Option<MinterDataView>,
}

impl View for TokenInfo {
    type V = TokenInfoView;

    open spec fn view(&self) -> TokenInfoView {
        TokenInfoView {
            name: self.name@,
            symbol: self.symbol@,
            decimals: self.decimals,
            mint: match self.mint {
                Some(m) => Some(m@),
                None => None,
            },
        }
    }
}

} // verus!
