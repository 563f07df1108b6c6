use vstd::prelude::*;
use crate::balances::{amount_of, Balances};
use crate::error::ContractError;
use crate::msg::Coin;
use crate::response::{decimal, Response};

verus! {

/// The owner record.
pub struct State {
    pub owner: String,
}

/// The whole ledger context: owner, configured denomination and balances.
pub struct Ledger {
    pub state: State,
    pub token_denom: String,
    pub balances: Balances,
}

/// The mathematical value of a ledger.
pub struct LedgerModel {
    pub owner: Seq<char>,
    pub denom: Seq<char>,
    pub balances: Map<Seq<char>, u128>,
}

impl View for Ledger {
    type V = LedgerModel;

    open spec fn view(&self) -> LedgerModel {
        LedgerModel {
            owner: self.state.owner@,
            denom: self.token_denom@,
            balances: self.balances@,
        }
    }
}

impl Ledger {
    pub open spec fn wf(&self) -> bool {
        self.balances.wf()
    }

    /// A ledger with the given owner and denomination and no balances.
    pub fn new(owner: String, token_denom: String) -> (r: Ledger)
        ensures
            r.wf(),
            r@ == (LedgerModel {
                owner: owner@,
                denom: token_denom@,
                balances: Map::empty(),
            }),
    {
        Ledger { state: State { owner }, token_denom, balances: Balances::new() }
    }
}

/// An address as the host's check returned it.
pub open spec fn addr_view(a: Option<String>) -> Option<Seq<char>> {
    match a {
        Some(s) => Some(s@),
        None => None,
    }
}

/// `m` with `a` added to the balance of `to`, or `None` where that sum leaves `u128`.
pub open spec fn credit(m: Map<Seq<char>, u128>, to: Seq<char>, a: u128) -> Option<
    Map<Seq<char>, u128>,
> {
    let b = amount_of(m, to) as int + a as int;
    if b > u128::MAX {
        None
    } else {
        Some(m.insert(to, b as u128))
    }
}

/// The first `n` credits of `to` and `amounts`, applied in order to `m`.
pub open spec fn credit_all(
    m: Map<Seq<char>, u128>,
    to: Seq<Seq<char>>,
    amounts: Seq<u128>,
    n: nat,
) -> Option<Map<Seq<char>, u128>>
    decreases n,
{
    if n == 0 {
        Some(m)
    } else {
        match credit_all(m, to, amounts, (n - 1) as nat) {
            None => None,
            Some(m1) => credit(m1, to[n - 1], amounts[n - 1]),
        }
    }
}

/// The recipients of a bulk reward as keys; only read where every address was accepted.
pub open spec fn addr_keys(rs: Seq<Option<String>>) -> Seq<Seq<char>> {
    rs.map_values(|o: Option<String>| match o {
        Some(s) => s@,
        None => Seq::empty(),
    })
}

/// The command failed with `e` and the ledger is unchanged.
pub open spec fn refused(
    pre: LedgerModel,
    post: LedgerModel,
    r: Result<Response, ContractError>,
    e: ContractError,
) -> bool {
    r == Err::<Response, ContractError>(e) && post == pre
}

/// The command succeeded, the ledger became `post_m`, and the response has these records.
pub open spec fn done(
    post: LedgerModel,
    post_m: LedgerModel,
    r: Result<Response, ContractError>,
    attrs: Seq<(Seq<char>, Seq<char>)>,
    events: Seq<(Seq<char>, Seq<(Seq<char>, Seq<char>)>)>,
    sends: Seq<(Seq<char>, Seq<char>, u128)>,
) -> bool {
    post == post_m && match r {
        Ok(resp) => resp.attrs() == attrs && resp.event_list() == events && resp.sends() == sends,
        Err(_) => false,
    }
}

pub open spec fn with_balances(m: LedgerModel, b: Map<Seq<char>, u128>) -> LedgerModel {
    LedgerModel { balances: b, ..m }
}

/// Deposit by `sender` of the funds `funds`.
pub open spec fn deposit_post(
    pre: LedgerModel,
    post: LedgerModel,
    sender: Seq<char>,
    funds: Seq<Coin>,
    r: Result<Response, ContractError>,
) -> bool {
    let a = crate::msg::funds_in(funds, pre.denom);
    if a == 0 {
        refused(pre, post, r, ContractError::InvalidDepositAmount)
    } else {
        match credit(pre.balances, sender, a) {
            None => refused(pre, post, r, ContractError::Overflow),
            Some(b) => done(
                post,
                with_balances(pre, b),
                r,
                seq![("action"@, "deposit"@), ("sender"@, sender), ("amount"@, decimal(a as nat))],
                Seq::empty(),
                Seq::empty(),
            ),
        }
    }
}

/// Reward of `amount` to `recipient` for `reason`, asked by `sender`.
pub open spec fn reward_post(
    pre: LedgerModel,
    post: LedgerModel,
    sender: Seq<char>,
    recipient: Option<Seq<char>>,
    amount: u128,
    reason: Seq<char>,
    r: Result<Response, ContractError>,
) -> bool {
    if sender != pre.owner {
        refused(pre, post, r, ContractError::Unauthorized)
    } else {
        match recipient {
            None => refused(pre, post, r, ContractError::InvalidAddress),
            Some(to) => match credit(pre.balances, to, amount) {
                None => refused(pre, post, r, ContractError::Overflow),
                Some(b) => done(
                    post,
                    with_balances(pre, b),
                    r,
                    seq![
                        ("action"@, "reward"@),
                        ("recipient"@, to),
                        ("amount"@, decimal(amount as nat)),
                        ("reason"@, reason),
                    ],
                    seq![
                        ("Reward"@, seq![
                            ("recipient"@, to),
                            ("amount"@, decimal(amount as nat)),
                            ("reason"@, reason),
                        ]),
                    ],
                    Seq::empty(),
                ),
            },
        }
    }
}

/// Bulk reward asked by `sender`: every check comes before any credit.
pub open spec fn reward_bulk_post(
    pre: LedgerModel,
    post: LedgerModel,
    sender: Seq<char>,
    recipients: Seq<Option<String>>,
    amounts: Seq<u128>,
    n_reasons: nat,
    r: Result<Response, ContractError>,
) -> bool {
    if sender != pre.owner {
        refused(pre, post, r, ContractError::Unauthorized)
    } else if recipients.len() != amounts.len() || recipients.len() != n_reasons {
        refused(pre, post, r, ContractError::LengthMismatch)
    } else if exists|i: int| 0 <= i < recipients.len() && recipients[i] is None {
        refused(pre, post, r, ContractError::InvalidAddress)
    } else {
        match credit_all(pre.balances, addr_keys(recipients), amounts, recipients.len()) {
            None => refused(pre, post, r, ContractError::Overflow),
            Some(b) => done(
                post,
                with_balances(pre, b),
                r,
                seq![("action"@, "reward_bulk"@)],
                Seq::empty(),
                Seq::empty(),
            ),
        }
    }
}

/// Withdrawal of `amount` by `sender`.
pub open spec fn withdraw_post(
    pre: LedgerModel,
    post: LedgerModel,
    sender: Seq<char>,
    amount: u128,
    r: Result<Response, ContractError>,
) -> bool {
    let cur = amount_of(pre.balances, sender);
    if amount == 0 {
        refused(pre, post, r, ContractError::InvalidWithdrawAmount)
    } else if amount > cur {
        refused(pre, post, r, ContractError::InsufficientBalance)
    } else {
        done(
            post,
            with_balances(pre, pre.balances.insert(sender, (cur - amount) as u128)),
            r,
            seq![("action"@, "withdraw"@), ("amount"@, decimal(amount as nat))],
            seq![
                ("Withdrawal"@, seq![("sender"@, sender), ("amount"@, decimal(amount as nat))]),
            ],
            seq![(sender, pre.denom, amount)],
        )
    }
}

/// Transfer of ownership to `new_owner`, asked by `sender`.
pub open spec fn update_ownership_post(
    pre: LedgerModel,
    post: LedgerModel,
    sender: Seq<char>,
    new_owner: Option<Seq<char>>,
    r: Result<Response, ContractError>,
) -> bool {
    if sender != pre.owner {
        refused(pre, post, r, ContractError::Unauthorized)
    } else {
        match new_owner {
            None => refused(pre, post, r, ContractError::InvalidAddress),
            Some(o) => done(
                post,
                LedgerModel { owner: o, ..pre },
                r,
                seq![("action"@, "update_ownership"@), ("new_owner"@, o)],
                Seq::empty(),
                Seq::empty(),
            ),
        }
    }
}

/// Change of the denomination to `denom`, asked by `sender`.
pub open spec fn set_token_denom_post(
    pre: LedgerModel,
    post: LedgerModel,
    sender: Seq<char>,
    denom: Seq<char>,
    r: Result<Response, ContractError>,
) -> bool {
    if sender != pre.owner {
        refused(pre, post, r, ContractError::Unauthorized)
    } else if denom.len() == 0 {
        refused(pre, post, r, ContractError::InvalidDenom)
    } else {
        done(
            post,
            LedgerModel { denom, ..pre },
            r,
            seq![("action"@, "set_token_denom"@), ("denom"@, denom)],
            Seq::empty(),
            Seq::empty(),
        )
    }
}

/// `credit_all` stays failed once a prefix fails.
pub proof fn lemma_credit_all_fails_on(
    m: Map<Seq<char>, u128>,
    to: Seq<Seq<char>>,
    amounts: Seq<u128>,
    i: nat,
    n: nat,
)
    requires
        i <= n,
        credit_all(m, to, amounts, i) is None,
    ensures
        credit_all(m, to, amounts, n) is None,
    decreases n - i,
{
    if i < n {
        lemma_credit_all_fails_on(m, to, amounts, i, (n - 1) as nat);
    }
}

} // verus!
