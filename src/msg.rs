use vstd::prelude::*;

verus! {

/// An amount of one denomination attached to a command.
pub struct Coin {
    pub denom: String,
    pub amount: u128,
}

/// Who sent a command, and the funds it carried.
pub struct MessageInfo {
    pub sender: String,
    pub funds: Vec<Coin>,
}

/// The configuration a ledger starts from.
pub struct InstantiateMsg {
    pub token_denom: String,
}

/// A state-changing command.
///
/// An account address appears as the outcome of the host's address check:
/// `Some(address)` where the host accepted it, `None` where it rejected it.
pub enum ExecuteMsg {
    Deposit {},
    Reward { recipient: Option<String>, amount: u128, reason: String },
    RewardBulk { recipients: Vec<Option<String>>, amounts: Vec<u128>, reasons: Vec<String> },
    Withdraw { amount: u128 },
    UpdateOwnership { new_owner: Option<String> },
    SetTokenDenom { denom: String },
}

/// A read-only request; the address is checked by the host as in `ExecuteMsg`.
pub enum QueryMsg {
    GetBalance { address: Option<String> },
    GetTokenDenom {},
}

/// The answer to a `QueryMsg`.
#[derive(Debug, PartialEq, Eq)]
pub enum QueryResponse {
    Balance(u128),
    TokenDenom(String),
}

/// The amount of the first coin of `funds` in denomination `denom`, or zero.
pub open spec fn funds_in(funds: Seq<Coin>, denom: Seq<char>) -> u128
    decreases funds.len(),
{
    if funds.len() == 0 {
        0
    } else if funds[0].denom@ == denom {
        funds[0].amount
    } else {
        funds_in(funds.drop_first(), denom)
    }
}

/// The amount of `denom` attached to a command.
pub fn attached_amount(funds: &Vec<Coin>, denom: &String) -> (r: u128)
    ensures
        r == funds_in(funds@, denom@),
{
    let mut i: usize = 0;
    assert(funds@.subrange(0, funds@.len() as int) =~= funds@);
    while i < funds.len()
        invariant
            i <= funds@.len(),
            funds_in(funds@, denom@) == funds_in(funds@.subrange(i as int, funds@.len() as int), denom@),
        decreases funds@.len() - i,
    {
        let ghost rest = funds@.subrange(i as int, funds@.len() as int);
        assert(rest.drop_first() =~= funds@.subrange(i + 1, funds@.len() as int));
        if funds[i].denom == *denom {
            return funds[i].amount;
        }
        i = i + 1;
    }
    proof {
        assert(funds@.subrange(i as int, funds@.len() as int).len() == 0);
    }
    0
}

} // verus!
