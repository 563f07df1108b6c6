use vstd::prelude::*;
use crate::balances::amount_of;
use crate::contract::execute_post;
use crate::error::ContractError;
use crate::ledger::{
    addr_keys, credit, credit_all, deposit_post, reward_bulk_post, update_ownership_post,
    with_balances, withdraw_post, LedgerModel,
};
use crate::msg::{funds_in, Coin, ExecuteMsg};
use crate::response::Response;

verus! {

/// The sum of the first `n` amounts.
pub open spec fn sum(amounts: Seq<u128>, n: nat) -> int
    decreases n,
{
    if n == 0 {
        0
    } else {
        sum(amounts, (n - 1) as nat) + amounts[n - 1] as int
    }
}

/// Funds that hold no coin of `denom` carry an amount of zero in it.
pub proof fn lemma_other_denoms_carry_nothing(funds: Seq<Coin>, denom: Seq<char>)
    requires
        forall|i: int| 0 <= i < funds.len() ==> funds[i].denom@ != denom,
    ensures
        funds_in(funds, denom) == 0,
    decreases funds.len(),
{
    if funds.len() > 0 {
        lemma_other_denoms_carry_nothing(funds.drop_first(), denom);
    }
}

/// A deposit raises the sender's balance by exactly the attached amount `a` of the
/// current denomination and leaves every other account as it was; where `a` is zero
/// (nothing attached, or only other denominations) it fails and changes nothing.
pub proof fn lemma_deposit_credits_exactly(
    pre: LedgerModel,
    post: LedgerModel,
    sender: Seq<char>,
    funds: Seq<Coin>,
    r: Result<Response, ContractError>,
)
    requires
        deposit_post(pre, post, sender, funds, r),
    ensures
        (forall|i: int| 0 <= i < funds.len() ==> funds[i].denom@ != pre.denom) ==> r == Err::<
            Response,
            ContractError,
        >(ContractError::InvalidDepositAmount) && post == pre,
        funds_in(funds, pre.denom) == 0 ==> r == Err::<Response, ContractError>(
            ContractError::InvalidDepositAmount,
        ) && post == pre,
        ({
            let a = funds_in(funds, pre.denom);
            a > 0 && amount_of(pre.balances, sender) + a <= u128::MAX ==> {
                &&& r is Ok
                &&& amount_of(post.balances, sender) == amount_of(pre.balances, sender) + a
                &&& forall|x: Seq<char>|
                    x != sender ==> #[trigger] amount_of(post.balances, x) == amount_of(
                        pre.balances,
                        x,
                    )
                &&& post.owner == pre.owner && post.denom == pre.denom
            }
        }),
{
    if forall|i: int| 0 <= i < funds.len() ==> funds[i].denom@ != pre.denom {
        lemma_other_denoms_carry_nothing(funds, pre.denom);
    }
}

/// Crediting the one account `x` again and again adds up: its balance grows by the
/// sum of the amounts, as long as no step overflows.
pub proof fn lemma_credits_add_up(
    m: Map<Seq<char>, u128>,
    x: Seq<char>,
    amounts: Seq<u128>,
    n: nat,
)
    requires
        n <= amounts.len(),
        amount_of(m, x) + sum(amounts, n) <= u128::MAX,
    ensures
        credit_all(m, Seq::new(amounts.len(), |i: int| x), amounts, n) is Some,
        amount_of(credit_all(m, Seq::new(amounts.len(), |i: int| x), amounts, n)->Some_0, x)
            == amount_of(m, x) + sum(amounts, n),
    decreases n,
{
    if n > 0 {
        lemma_sum_monotone(amounts, (n - 1) as nat, n);
        lemma_credits_add_up(m, x, amounts, (n - 1) as nat);
    }
}

proof fn lemma_sum_monotone(amounts: Seq<u128>, i: nat, n: nat)
    requires
        i <= n,
    ensures
        sum(amounts, i) <= sum(amounts, n),
    decreases n - i,
{
    if i < n {
        lemma_sum_monotone(amounts, i, (n - 1) as nat);
    }
}

/// Withdrawal undoes credit: after credits to `x` summing to `s` on an empty account,
/// a withdrawal of `0 < a <= s` succeeds and leaves `s - a`; one of `a > s` fails with
/// `InsufficientBalance` and one of zero with `InvalidWithdrawAmount`, both changing nothing.
pub proof fn lemma_withdraw_inverts_credits(
    pre: LedgerModel,
    x: Seq<char>,
    amounts: Seq<u128>,
    a: u128,
    post: LedgerModel,
    r: Result<Response, ContractError>,
)
    requires
        amount_of(pre.balances, x) == 0,
        sum(amounts, amounts.len()) <= u128::MAX,
        withdraw_post(
            with_balances(
                pre,
                credit_all(
                    pre.balances,
                    Seq::new(amounts.len(), |i: int| x),
                    amounts,
                    amounts.len(),
                )->Some_0,
            ),
            post,
            x,
            a,
            r,
        ),
    ensures
        ({
            let mid = with_balances(
                pre,
                credit_all(
                    pre.balances,
                    Seq::new(amounts.len(), |i: int| x),
                    amounts,
                    amounts.len(),
                )->Some_0,
            );
            let s = sum(amounts, amounts.len());
            &&& amount_of(mid.balances, x) == s
            &&& 0 < a <= s ==> r is Ok && amount_of(post.balances, x) == s - a
            &&& a > s ==> r == Err::<Response, ContractError>(ContractError::InsufficientBalance)
                && post == mid
            &&& a == 0 ==> r == Err::<Response, ContractError>(
                ContractError::InvalidWithdrawAmount,
            ) && post == mid
        }),
{
    lemma_credits_add_up(pre.balances, x, amounts, amounts.len());
}

/// A credit followed by a withdrawal of the same amount restores the balance.
pub proof fn lemma_withdraw_after_deposit(
    pre: LedgerModel,
    mid: LedgerModel,
    post: LedgerModel,
    x: Seq<char>,
    funds: Seq<Coin>,
    r1: Result<Response, ContractError>,
    r2: Result<Response, ContractError>,
)
    requires
        deposit_post(pre, mid, x, funds, r1),
        r1 is Ok,
        withdraw_post(mid, post, x, funds_in(funds, pre.denom), r2),
    ensures
        r2 is Ok,
        amount_of(post.balances, x) == amount_of(pre.balances, x),
{
}

/// Reward, bulk reward, ownership transfer and denomination change are refused with
/// `Unauthorized`, and change nothing, for every caller but the current owner.
pub proof fn lemma_only_owner_administers(
    pre: LedgerModel,
    post: LedgerModel,
    sender: Seq<char>,
    funds: Seq<Coin>,
    msg: ExecuteMsg,
    r: Result<Response, ContractError>,
)
    requires
        execute_post(pre, post, sender, funds, msg, r),
        sender != pre.owner,
        msg is Reward || msg is RewardBulk || msg is UpdateOwnership || msg is SetTokenDenom,
    ensures
        r == Err::<Response, ContractError>(ContractError::Unauthorized),
        post == pre,
{
}

/// A bulk reward is all or nothing: a failed batch changes nothing; unequal lengths, or
/// one address the host rejected, fail it before any credit; a batch that succeeds
/// credits every item in order exactly as a single reward would.
pub proof fn lemma_reward_bulk_all_or_nothing(
    pre: LedgerModel,
    post: LedgerModel,
    sender: Seq<char>,
    recipients: Seq<Option<String>>,
    amounts: Seq<u128>,
    n_reasons: nat,
    r: Result<Response, ContractError>,
)
    requires
        reward_bulk_post(pre, post, sender, recipients, amounts, n_reasons, r),
    ensures
        r is Err ==> post == pre,
        sender == pre.owner && (recipients.len() != amounts.len() || recipients.len()
            != n_reasons) ==> r == Err::<Response, ContractError>(ContractError::LengthMismatch),
        sender == pre.owner && recipients.len() == amounts.len() && recipients.len() == n_reasons
            && (exists|i: int| 0 <= i < recipients.len() && recipients[i] is None) ==> r == Err::<
            Response,
            ContractError,
        >(ContractError::InvalidAddress),
        r is Ok ==> post.owner == pre.owner && post.denom == pre.denom && credit_all(
            pre.balances,
            addr_keys(recipients),
            amounts,
            recipients.len(),
        ) == Some(post.balances),
{
}

/// One step of a bulk reward is the credit of a single reward.
pub proof fn lemma_bulk_step_is_single_credit(
    m: Map<Seq<char>, u128>,
    to: Seq<Seq<char>>,
    amounts: Seq<u128>,
    n: nat,
)
    requires
        n > 0,
        credit_all(m, to, amounts, (n - 1) as nat) is Some,
    ensures
        credit_all(m, to, amounts, n) == credit(
            credit_all(m, to, amounts, (n - 1) as nat)->Some_0,
            to[n - 1],
            amounts[n - 1],
        ),
{
}

/// Ownership passes in one step: once the owner has handed it to `new_owner`, the
/// former owner (if another account) is refused every owner-only command, and the
/// new owner is never refused one as unauthorized.
pub proof fn lemma_ownership_transfer(
    pre: LedgerModel,
    mid: LedgerModel,
    new_owner: Seq<char>,
    r1: Result<Response, ContractError>,
    post: LedgerModel,
    caller: Seq<char>,
    funds: Seq<Coin>,
    msg: ExecuteMsg,
    r2: Result<Response, ContractError>,
)
    requires
        update_ownership_post(pre, mid, pre.owner, Some(new_owner), r1),
        execute_post(mid, post, caller, funds, msg, r2),
        msg is Reward || msg is RewardBulk || msg is UpdateOwnership || msg is SetTokenDenom,
    ensures
        r1 is Ok,
        mid.owner == new_owner,
        caller == pre.owner && pre.owner != new_owner ==> r2 == Err::<Response, ContractError>(
            ContractError::Unauthorized,
        ) && post == mid,
        caller == new_owner ==> r2 != Err::<Response, ContractError>(ContractError::Unauthorized),
{
}

} // verus!
