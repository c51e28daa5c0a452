//! The settlement asset: a tagged choice between a native ledger
//! denomination and a fungible-token contract address.
//!
//! The engine itself never performs a transfer; it hands back plain
//! [`TransferMsg`] / [`BurnMsg`] instructions for the host to dispatch.
use vstd::prelude::*;

use crate::error::ContractError;

verus! {

#[derive(Debug)]
pub enum Token {
    /// A native ledger denomination.
    Denom(String),
    /// The address of a fungible-token contract.
    Address(String),
}

/// One (denomination, amount) pair of funds attached to a request.
#[derive(Debug)]
pub struct Coin {
    pub denom: String,
    pub amount: u128,
}

/// A value-movement instruction handed back to the host for dispatch.
#[derive(Debug)]
pub struct TransferMsg {
    pub token: Token,
    pub recipient: String,
    pub amount: u128,
}

/// A burn instruction for a fungible-token contract.
#[derive(Debug)]
pub struct BurnMsg {
    pub contract: String,
    pub amount: u128,
}

impl Token {
    /// An owned copy of this descriptor.
    pub fn dup(&self) -> (r: Token)
        ensures
            r == *self,
    {
        match self {
            Token::Denom(d) => Token::Denom(d.clone()),
            Token::Address(a) => Token::Address(a.clone()),
        }
    }

    /// The characters that identify this token, whichever variant it is.
    pub open spec fn spec_key(&self) -> Seq<char> {
        match self {
            Token::Denom(d) => d@,
            Token::Address(a) => a@,
        }
    }

    pub fn to_key(&self) -> (r: String)
        ensures
            r@ == self.spec_key(),
    {
        match self {
            Token::Denom(d) => d.clone(),
            Token::Address(a) => a.clone(),
        }
    }

    pub fn get_denom(&self) -> (r: Option<String>)
        ensures
            self matches Token::Denom(d) ==> (r matches Some(v) && v == d),
            self is Address ==> r is None,
    {
        if let Token::Denom(denom) = self {
            Some(denom.clone())
        } else {
            None
        }
    }

    pub fn get_address(&self) -> (r: Option<String>)
        ensures
            self matches Token::Address(a) ==> (r matches Some(v) && v == a),
            self is Denom ==> r is None,
    {
        if let Token::Address(addr) = self {
            Some(addr.clone())
        } else {
            None
        }
    }

    /// Whether `funds` carry enough of this token: some attached coin has
    /// this denomination and at least the required amount. Always false for
    /// a contract-token, whose value cannot be attached natively.
    pub open spec fn spec_has_in_funds(&self, funds: Seq<Coin>, required_amount: Option<u128>) -> bool {
        match self {
            Token::Denom(d) => exists|i: int|
                0 <= i < funds.len() && funds[i].denom@ == d@ && (match required_amount {
                    Some(n) => funds[i].amount >= n,
                    None => true,
                }),
            Token::Address(_) => false,
        }
    }

    pub fn has_in_funds(&self, funds_to_search: &Vec<Coin>, required_amount: Option<u128>) -> (r: bool)
        ensures
            r == self.spec_has_in_funds(funds_to_search@, required_amount),
    {
        if let Token::Denom(denom) = self {
            let n = funds_to_search.len();
            let mut i: usize = 0;
            while i < n
                invariant
                    n == funds_to_search@.len(),
                    i <= n,
                    *self matches Token::Denom(s) && s@ == denom@,
                    forall|j: int| 0 <= j < i ==> !(funds_to_search@[j].denom@ == denom@
                        && (match required_amount {
                            Some(m) => funds_to_search@[j].amount >= m,
                            None => true,
                        })),
                decreases n - i,
            {
                let c = &funds_to_search[i];
                if c.denom.eq(denom) {
                    match required_amount {
                        Some(m) => {
                            if c.amount >= m {
                                proof {
                                    let w = i as int;
                                    assert(funds_to_search@[w].denom@ == denom@
                                        && funds_to_search@[w].amount >= m);
                                }
                                return true;
                            }
                        },
                        None => {
                            proof {
                                let w = i as int;
                                assert(funds_to_search@[w].denom@ == denom@);
                            }
                            return true;
                        },
                    }
                }
                i += 1;
            }
            false
        } else {
            false
        }
    }

    /// The instruction that moves `amount` of this token to `recipient`.
    pub fn transfer(&self, recipient: &String, amount: u128) -> (r: TransferMsg)
        ensures
            r == (TransferMsg { token: *self, recipient: *recipient, amount }),
    {
        TransferMsg { token: self.dup(), recipient: recipient.clone(), amount }
    }

    /// The instruction that burns `amount` of a contract-token; burning a
    /// native denomination is not implemented.
    pub fn burn(&self, amount: u128) -> (r: Result<BurnMsg, ContractError>)
        ensures
            self matches Token::Address(a) ==> (r matches Ok(m) && m == (BurnMsg { contract: *a, amount })),
            self is Denom ==> (r matches Err(e) && e is NotImplemented),
    {
        match self {
            Token::Denom(_) => Err(ContractError::NotImplemented {
                msg: "tokenfactory burn not implemented".to_owned(),
            }),
            Token::Address(addr) => Ok(BurnMsg { contract: addr.clone(), amount }),
        }
    }
}

} // verus!
