use vstd::prelude::*;
use crate::balances::amount_of;
use crate::error::ContractError;
use crate::ledger::{
    addr_keys, addr_view, credit_all, deposit_post, lemma_credit_all_fails_on, reward_bulk_post,
    reward_post, set_token_denom_post, update_ownership_post, withdraw_post, Ledger, LedgerModel, State,
};
use crate::msg::{attached_amount, ExecuteMsg, InstantiateMsg, MessageInfo, QueryMsg, QueryResponse};
use crate::response::{amount_text, attr, BankSend, Event, Response};

verus! {

/// Succeeds exactly when `info.sender` is the current owner.
pub fn validate_owner(ledger: &Ledger, info: &MessageInfo) -> (r: Result<(), ContractError>)
    ensures
        r == (if info.sender@ == ledger@.owner {
            Ok::<(), ContractError>(())
        } else {
            Err(ContractError::Unauthorized)
        }),
{
    if info.sender != ledger.state.owner {
        return Err(ContractError::Unauthorized);
    }
    Ok(())
}

/// Credits the funds of the configured denomination attached by the sender.
pub fn execute_deposit(ledger: &mut Ledger, info: &MessageInfo) -> (r: Result<
    Response,
    ContractError,
>)
    requires
        old(ledger).wf(),
    ensures
        final(ledger).wf(),
        deposit_post(old(ledger)@, final(ledger)@, info.sender@, info.funds@, r),
{
    let amount = attached_amount(&info.funds, &ledger.token_denom);
    if amount == 0 {
        return Err(ContractError::InvalidDepositAmount);
    }
    let current = ledger.balances.get(&info.sender);
    let total = match current.checked_add(amount) {
        Some(t) => t,
        None => return Err(ContractError::Overflow),
    };
    ledger.balances.set(&info.sender, total);
    let resp = Response {
        messages: Vec::new(),
        attributes: vec![
            attr("action", "deposit".to_owned()),
            attr("sender", info.sender.clone()),
            attr("amount", amount_text(amount)),
        ],
        events: Vec::new(),
    };
    assert(resp.attrs() =~= seq![
        ("action"@, "deposit"@),
        ("sender"@, info.sender@),
        ("amount"@, crate::response::decimal(amount as nat)),
    ]);
    assert(resp.event_list() =~= Seq::empty());
    assert(resp.sends() =~= Seq::empty());
    Ok(resp)
}

/// Debits `amount` from the sender and instructs the host to pay it out.
pub fn execute_withdraw(ledger: &mut Ledger, info: &MessageInfo, amount: u128) -> (r: Result<
    Response,
    ContractError,
>)
    requires
        old(ledger).wf(),
    ensures
        final(ledger).wf(),
        withdraw_post(old(ledger)@, final(ledger)@, info.sender@, amount, r),
{
    if amount == 0 {
        return Err(ContractError::InvalidWithdrawAmount);
    }
    let current = ledger.balances.get(&info.sender);
    if amount > current {
        return Err(ContractError::InsufficientBalance);
    }
    let send = BankSend {
        to_address: info.sender.clone(),
        denom: ledger.token_denom.clone(),
        amount,
    };
    ledger.balances.set(&info.sender, current - amount);
    let event = Event {
        ty: "Withdrawal".to_owned(),
        attributes: vec![attr("sender", info.sender.clone()), attr("amount", amount_text(amount))],
    };
    let resp = Response {
        messages: vec![send],
        attributes: vec![attr("action", "withdraw".to_owned()), attr("amount", amount_text(amount))],
        events: vec![event],
    };
    let ghost d = crate::response::decimal(amount as nat);
    assert(resp.attrs() =~= seq![("action"@, "withdraw"@), ("amount"@, d)]);
    assert(crate::response::attrs_view(event.attributes@) =~= seq![
        ("sender"@, info.sender@),
        ("amount"@, d),
    ]);
    assert(resp.event_list() =~= seq![
        ("Withdrawal"@, seq![("sender"@, info.sender@), ("amount"@, d)]),
    ]);
    assert(resp.sends() =~= seq![(info.sender@, old(ledger)@.denom, amount)]);
    Ok(resp)
}

/// Credits `amount` to `recipient`; owner only.
pub fn execute_reward(
    ledger: &mut Ledger,
    info: &MessageInfo,
    recipient: Option<String>,
    amount: u128,
    reason: String,
) -> (r: Result<Response, ContractError>)
    requires
        old(ledger).wf(),
    ensures
        final(ledger).wf(),
        reward_post(
            old(ledger)@,
            final(ledger)@,
            info.sender@,
            addr_view(recipient),
            amount,
            reason@,
            r,
        ),
{
    validate_owner(ledger, info)?;
    let to = match recipient {
        Some(a) => a,
        None => return Err(ContractError::InvalidAddress),
    };
    let current = ledger.balances.get(&to);
    let total = match current.checked_add(amount) {
        Some(t) => t,
        None => return Err(ContractError::Overflow),
    };
    ledger.balances.set(&to, total);
    let event = Event {
        ty: "Reward".to_owned(),
        attributes: vec![
            attr("recipient", to.clone()),
            attr("amount", amount_text(amount)),
            attr("reason", reason.clone()),
        ],
    };
    let resp = Response {
        messages: Vec::new(),
        attributes: vec![
            attr("action", "reward".to_owned()),
            attr("recipient", to.clone()),
            attr("amount", amount_text(amount)),
            attr("reason", reason),
        ],
        events: vec![event],
    };
    let ghost d = crate::response::decimal(amount as nat);
    assert(resp.attrs() =~= seq![
        ("action"@, "reward"@),
        ("recipient"@, to@),
        ("amount"@, d),
        ("reason"@, reason@),
    ]);
    assert(crate::response::attrs_view(event.attributes@) =~= seq![
        ("recipient"@, to@),
        ("amount"@, d),
        ("reason"@, reason@),
    ]);
    assert(resp.event_list() =~= seq![
        ("Reward"@, seq![("recipient"@, to@), ("amount"@, d), ("reason"@, reason@)]),
    ]);
    assert(resp.sends() =~= Seq::empty());
    Ok(resp)
}

/// Credits each `amounts[i]` to `recipients[i]`, in order, as one all-or-nothing batch;
/// owner only. Every check is made before any balance changes.
pub fn execute_reward_bulk(
    ledger: &mut Ledger,
    info: &MessageInfo,
    recipients: Vec<Option<String>>,
    amounts: Vec<u128>,
    reasons: Vec<String>,
) -> (r: Result<Response, ContractError>)
    requires
        old(ledger).wf(),
    ensures
        final(ledger).wf(),
        reward_bulk_post(
            old(ledger)@,
            final(ledger)@,
            info.sender@,
            recipients@,
            amounts@,
            reasons@.len(),
            r,
        ),
{
    validate_owner(ledger, info)?;
    let n = recipients.len();
    if n != amounts.len() || n != reasons.len() {
        return Err(ContractError::LengthMismatch);
    }
    let mut i: usize = 0;
    while i < n
        invariant
            n == recipients@.len(),
            i <= n,
            ledger.wf(),
            ledger@ == old(ledger)@,
            info.sender@ == ledger@.owner,
            n == amounts@.len(),
            n == reasons@.len(),
            forall|j: int| 0 <= j < i ==> recipients@[j] is Some,
        decreases n - i,
    {
        if recipients[i].is_none() {
            return Err(ContractError::InvalidAddress);
        }
        i = i + 1;
    }
    let ghost pre = ledger@;
    let ghost keys = addr_keys(recipients@);
    let mut work = ledger.balances.duplicate();
    let mut i: usize = 0;
    while i < n
        invariant
            n == recipients@.len(),
            n == amounts@.len(),
            i <= n,
            forall|j: int| 0 <= j < n ==> recipients@[j] is Some,
            keys == addr_keys(recipients@),
            ledger.wf(),
            ledger@ == old(ledger)@,
            pre == old(ledger)@,
            info.sender@ == pre.owner,
            n == reasons@.len(),
            work.wf(),
            credit_all(pre.balances, keys, amounts@, i as nat) == Some(work@),
        decreases n - i,
    {
        if let Some(to) = &recipients[i] {
            assert(keys[i as int] == to@);
            let current = work.get(to);
            match current.checked_add(amounts[i]) {
                Some(t) => {
                    work.set(to, t);
                },
                None => {
                    proof {
                        lemma_credit_all_fails_on(pre.balances, keys, amounts@, (i + 1) as nat, n as nat);
                    }
                    return Err(ContractError::Overflow);
                },
            }
        }
        i = i + 1;
    }
    ledger.balances = work;
    let resp = Response {
        messages: Vec::new(),
        attributes: vec![attr("action", "reward_bulk".to_owned())],
        events: Vec::new(),
    };
    assert(resp.attrs() =~= seq![("action"@, "reward_bulk"@)]);
    assert(resp.event_list() =~= Seq::empty());
    assert(resp.sends() =~= Seq::empty());
    Ok(resp)
}

/// Hands the owner capability to `new_owner`; owner only.
pub fn update_ownership(ledger: &mut Ledger, info: &MessageInfo, new_owner: Option<String>) -> (r:
    Result<Response, ContractError>)
    requires
        old(ledger).wf(),
    ensures
        final(ledger).wf(),
        update_ownership_post(old(ledger)@, final(ledger)@, info.sender@, addr_view(new_owner), r),
{
    validate_owner(ledger, info)?;
    let owner = match new_owner {
        Some(a) => a,
        None => return Err(ContractError::InvalidAddress),
    };
    let resp = Response {
        messages: Vec::new(),
        attributes: vec![
            attr("action", "update_ownership".to_owned()),
            attr("new_owner", owner.clone()),
        ],
        events: Vec::new(),
    };
    assert(resp.attrs() =~= seq![("action"@, "update_ownership"@), ("new_owner"@, owner@)]);
    assert(resp.event_list() =~= Seq::empty());
    assert(resp.sends() =~= Seq::empty());
    ledger.state = State { owner };
    Ok(resp)
}

/// Replaces the configured denomination; owner only, and never with an empty one.
pub fn set_token_denom(ledger: &mut Ledger, info: &MessageInfo, denom: String) -> (r: Result<
    Response,
    ContractError,
>)
    requires
        old(ledger).wf(),
    ensures
        final(ledger).wf(),
        set_token_denom_post(old(ledger)@, final(ledger)@, info.sender@, denom@, r),
{
    validate_owner(ledger, info)?;
    if denom.as_str().is_empty() {
        return Err(ContractError::InvalidDenom);
    }
    let resp = Response {
        messages: Vec::new(),
        attributes: vec![attr("action", "set_token_denom".to_owned()), attr("denom", denom.clone())],
        events: Vec::new(),
    };
    assert(resp.attrs() =~= seq![("action"@, "set_token_denom"@), ("denom"@, denom@)]);
    assert(resp.event_list() =~= Seq::empty());
    assert(resp.sends() =~= Seq::empty());
    ledger.token_denom = denom;
    Ok(resp)
}

/// Starts a ledger owned by the sender, in the denomination `msg.token_denom`.
pub fn instantiate(info: &MessageInfo, msg: InstantiateMsg) -> (r: Result<
    (Ledger, Response),
    ContractError,
>)
    ensures
        msg.token_denom@.len() == 0 ==> r is Err && r->Err_0 == ContractError::InvalidDenom,
        msg.token_denom@.len() > 0 ==> r is Ok && ({
            let (ledger, resp) = r->Ok_0;
            &&& ledger.wf()
            &&& ledger@ == (LedgerModel {
                owner: info.sender@,
                denom: msg.token_denom@,
                balances: Map::empty(),
            })
            &&& resp.attrs() == seq![
                ("action"@, "instantiate"@),
                ("owner"@, info.sender@),
                ("token_denom"@, msg.token_denom@),
            ]
            &&& resp.event_list() == Seq::<(Seq<char>, Seq<(Seq<char>, Seq<char>)>)>::empty()
            &&& resp.sends() == Seq::<(Seq<char>, Seq<char>, u128)>::empty()
        }),
{
    if msg.token_denom.as_str().is_empty() {
        return Err(ContractError::InvalidDenom);
    }
    let resp = Response {
        messages: Vec::new(),
        attributes: vec![
            attr("action", "instantiate".to_owned()),
            attr("owner", info.sender.clone()),
            attr("token_denom", msg.token_denom.clone()),
        ],
        events: Vec::new(),
    };
    assert(resp.attrs() =~= seq![
        ("action"@, "instantiate"@),
        ("owner"@, info.sender@),
        ("token_denom"@, msg.token_denom@),
    ]);
    assert(resp.event_list() =~= Seq::empty());
    assert(resp.sends() =~= Seq::empty());
    let ledger = Ledger::new(info.sender.clone(), msg.token_denom);
    Ok((ledger, resp))
}

/// What executing `msg` from `sender` with `funds` does to a ledger `pre`.
pub open spec fn execute_post(
    pre: LedgerModel,
    post: LedgerModel,
    sender: Seq<char>,
    funds: Seq<crate::msg::Coin>,
    msg: ExecuteMsg,
    r: Result<Response, ContractError>,
) -> bool {
    match msg {
        ExecuteMsg::Deposit {  } => deposit_post(pre, post, sender, funds, r),
        ExecuteMsg::Reward { recipient, amount, reason } => reward_post(
            pre,
            post,
            sender,
            addr_view(recipient),
            amount,
            reason@,
            r,
        ),
        ExecuteMsg::RewardBulk { recipients, amounts, reasons } => reward_bulk_post(
            pre,
            post,
            sender,
            recipients@,
            amounts@,
            reasons@.len(),
            r,
        ),
        ExecuteMsg::Withdraw { amount } => withdraw_post(pre, post, sender, amount, r),
        ExecuteMsg::UpdateOwnership { new_owner } => update_ownership_post(
            pre,
            post,
            sender,
            addr_view(new_owner),
            r,
        ),
        ExecuteMsg::SetTokenDenom { denom } => set_token_denom_post(pre, post, sender, denom@, r),
    }
}

/// Runs one command against the ledger.
pub fn execute(ledger: &mut Ledger, info: &MessageInfo, msg: ExecuteMsg) -> (r: Result<
    Response,
    ContractError,
>)
    requires
        old(ledger).wf(),
    ensures
        final(ledger).wf(),
        execute_post(old(ledger)@, final(ledger)@, info.sender@, info.funds@, msg, r),
{
    match msg {
        ExecuteMsg::Deposit {  } => execute_deposit(ledger, info),
        ExecuteMsg::Reward { recipient, amount, reason } => execute_reward(
            ledger,
            info,
            recipient,
            amount,
            reason,
        ),
        ExecuteMsg::RewardBulk { recipients, amounts, reasons } => execute_reward_bulk(
            ledger,
            info,
            recipients,
            amounts,
            reasons,
        ),
        ExecuteMsg::Withdraw { amount } => execute_withdraw(ledger, info, amount),
        ExecuteMsg::UpdateOwnership { new_owner } => update_ownership(ledger, info, new_owner),
        ExecuteMsg::SetTokenDenom { denom } => set_token_denom(ledger, info, denom),
    }
}

/// The balance of a checked address; zero for an account never credited.
pub fn query_balance(ledger: &Ledger, address: Option<String>) -> (r: Result<u128, ContractError>)
    requires
        ledger.wf(),
    ensures
        r == (match addr_view(address) {
            Some(a) => Ok(amount_of(ledger@.balances, a)),
            None => Err(ContractError::InvalidAddress),
        }),
{
    match address {
        Some(a) => Ok(ledger.balances.get(&a)),
        None => Err(ContractError::InvalidAddress),
    }
}

/// The configured denomination.
pub fn query_token_denom(ledger: &Ledger) -> (r: String)
    ensures
        r@ == ledger@.denom,
{
    ledger.token_denom.clone()
}

/// Answers a read-only request; the ledger is only borrowed, never changed.
pub fn query(ledger: &Ledger, msg: QueryMsg) -> (r: Result<QueryResponse, ContractError>)
    requires
        ledger.wf(),
    ensures
        match msg {
            QueryMsg::GetBalance { address } => match addr_view(address) {
                Some(a) => r == Ok::<QueryResponse, ContractError>(
                    QueryResponse::Balance(amount_of(ledger@.balances, a)),
                ),
                None => r == Err::<QueryResponse, ContractError>(ContractError::InvalidAddress),
            },
            QueryMsg::GetTokenDenom {  } => match r {
                Ok(QueryResponse::TokenDenom(d)) => d@ == ledger@.denom,
                _ => false,
            },
        },
{
    match msg {
        QueryMsg::GetBalance { address } => match query_balance(ledger, address) {
            Ok(b) => Ok(QueryResponse::Balance(b)),
            Err(e) => Err(e),
        },
        QueryMsg::GetTokenDenom {  } => Ok(QueryResponse::TokenDenom(query_token_denom(ledger))),
    }
}

} // verus!
