use native_reward::contract::{
    execute, execute_deposit, execute_reward, execute_reward_bulk, execute_withdraw, instantiate,
    query, query_balance, query_token_denom, set_token_denom, update_ownership, validate_owner,
};
use native_reward::error::ContractError;
use native_reward::ledger::Ledger;
use native_reward::msg::{Coin, ExecuteMsg, InstantiateMsg, MessageInfo, QueryMsg, QueryResponse};
use native_reward::response::Response;

const OWNER: &str = "owner";
const USER: &str = "user";
const DENOM: &str = "utoken";

fn mock_info(sender: &str, funds: &[(u128, &str)]) -> MessageInfo {
    MessageInfo {
        sender: sender.to_string(),
        funds: funds
            .iter()
            .map(|(amount, denom)| Coin { denom: denom.to_string(), amount: *amount })
            .collect(),
    }
}

fn coins(amount: u128, denom: &str) -> Vec<(u128, &str)> {
    vec![(amount, denom)]
}

fn addr(a: &str) -> Option<String> {
    Some(a.to_string())
}

fn attrs(res: &Response) -> Vec<(String, String)> {
    res.attributes.iter().map(|a| (a.key.clone(), a.value.clone())).collect()
}

fn attr(k: &str, v: &str) -> (String, String) {
    (k.to_string(), v.to_string())
}

fn setup() -> (Ledger, MessageInfo) {
    let info = mock_info(OWNER, &[]);
    let msg = InstantiateMsg { token_denom: DENOM.to_string() };
    let (ledger, _) = instantiate(&info, msg).unwrap();
    (ledger, info)
}

fn balance(ledger: &Ledger, a: &str) -> u128 {
    ledger.balances.get(&a.to_string())
}

#[test]
fn proper_initialization() {
    let msg = InstantiateMsg { token_denom: DENOM.to_string() };
    let info = mock_info(OWNER, &[]);
    let (ledger, res) = instantiate(&info, msg).unwrap();
    assert_eq!(
        attrs(&res),
        vec![attr("action", "instantiate"), attr("owner", OWNER), attr("token_denom", DENOM)]
    );
    assert_eq!(ledger.state.owner, OWNER.to_string());
    assert_eq!(ledger.token_denom, DENOM.to_string());
}

#[test]
fn deposit_works() {
    let (mut ledger, _) = setup();
    let deposit_info = mock_info(USER, &coins(100, DENOM));
    let res = execute(&mut ledger, &deposit_info, ExecuteMsg::Deposit {}).unwrap();
    assert_eq!(
        attrs(&res),
        vec![attr("action", "deposit"), attr("sender", USER), attr("amount", "100")]
    );
    assert_eq!(balance(&ledger, USER), 100);
}

#[test]
fn deposit_fails_for_zero_amount() {
    let (mut ledger, _) = setup();
    let deposit_info = mock_info(USER, &coins(0, DENOM));
    let err = execute(&mut ledger, &deposit_info, ExecuteMsg::Deposit {}).unwrap_err();
    assert_eq!(err, ContractError::InvalidDepositAmount);
    assert_eq!(err.message(), "Deposit amount must be greater than zero");
}

#[test]
fn withdraw_works() {
    let (mut ledger, _) = setup();
    let deposit_info = mock_info(USER, &coins(200, DENOM));
    execute(&mut ledger, &deposit_info, ExecuteMsg::Deposit {}).unwrap();
    let res = execute(&mut ledger, &deposit_info, ExecuteMsg::Withdraw { amount: 100 }).unwrap();
    assert_eq!(attrs(&res), vec![attr("action", "withdraw"), attr("amount", "100")]);
    assert_eq!(balance(&ledger, USER), 100);
}

#[test]
fn withdraw_fails_for_zero_amount() {
    let (mut ledger, info) = setup();
    let err = execute(&mut ledger, &info, ExecuteMsg::Withdraw { amount: 0 }).unwrap_err();
    assert_eq!(err, ContractError::InvalidWithdrawAmount);
    assert_eq!(err.message(), "Withdraw amount must be greater than zero");
}

#[test]
fn withdraw_fails_for_insufficient_balance() {
    let (mut ledger, info) = setup();
    let err = execute(&mut ledger, &info, ExecuteMsg::Withdraw { amount: 100 }).unwrap_err();
    assert_eq!(err, ContractError::InsufficientBalance);
    assert_eq!(err.message(), "Insufficient balance");
}

#[test]
fn reward_bulk_fails_for_mismatched_lengths() {
    let (mut ledger, info) = setup();
    let msg = ExecuteMsg::RewardBulk {
        recipients: vec![addr(USER)],
        amounts: vec![100, 50],
        reasons: vec!["Reason1".to_string()],
    };
    let err = execute(&mut ledger, &info, msg).unwrap_err();
    assert_eq!(err, ContractError::LengthMismatch);
    assert_eq!(err.message(), "Array lengths mismatch");
}

#[test]
fn reward_works() {
    let (mut ledger, info) = setup();
    let msg = ExecuteMsg::Reward {
        recipient: addr(USER),
        amount: 50,
        reason: "Test reward".to_string(),
    };
    let res = execute(&mut ledger, &info, msg).unwrap();
    assert_eq!(
        attrs(&res),
        vec![
            attr("action", "reward"),
            attr("recipient", USER),
            attr("amount", "50"),
            attr("reason", "Test reward"),
        ]
    );
    assert_eq!(balance(&ledger, USER), 50);
}

#[test]
fn reward_bulk_works() {
    let (mut ledger, info) = setup();
    let msg = ExecuteMsg::RewardBulk {
        recipients: vec![addr(USER), addr("user2")],
        amounts: vec![100, 50],
        reasons: vec!["Reason1".to_string(), "Reason2".to_string()],
    };
    let res = execute(&mut ledger, &info, msg).unwrap();
    assert_eq!(attrs(&res), vec![attr("action", "reward_bulk")]);
    assert_eq!(balance(&ledger, USER), 100);
    assert_eq!(balance(&ledger, "user2"), 50);
}

#[test]
fn query_balance_works() {
    let (mut ledger, _) = setup();
    let deposit_info = mock_info(USER, &coins(100, DENOM));
    execute(&mut ledger, &deposit_info, ExecuteMsg::Deposit {}).unwrap();
    let balance = query_balance(&ledger, addr(USER)).unwrap();
    assert_eq!(balance, 100);
}

#[test]
fn update_ownership_works() {
    let (mut ledger, info) = setup();
    let new_owner = "new_owner";
    let msg = ExecuteMsg::UpdateOwnership { new_owner: addr(new_owner) };
    let res = execute(&mut ledger, &info, msg).unwrap();
    assert_eq!(
        attrs(&res),
        vec![attr("action", "update_ownership"), attr("new_owner", new_owner)]
    );
    assert_eq!(ledger.state.owner, new_owner.to_string());
}

#[test]
fn set_token_denom_works() {
    let (mut ledger, info) = setup();
    let new_denom = "utest";
    let res = set_token_denom(&mut ledger, &info, new_denom.to_string()).unwrap();
    assert_eq!(attrs(&res), vec![attr("action", "set_token_denom"), attr("denom", new_denom)]);
    assert_eq!(ledger.token_denom, new_denom);
}

#[test]
fn set_token_denom_fails_for_unauthorized() {
    let (mut ledger, _) = setup();
    let unauthorized_info = mock_info(USER, &[]);
    let err = set_token_denom(&mut ledger, &unauthorized_info, "utest".to_string()).unwrap_err();
    assert_eq!(err, ContractError::Unauthorized);
    assert_eq!(err.message(), "Unauthorized: Only the owner can call this");
}

#[test]
fn query_token_denom_works() {
    let (ledger, _) = setup();
    let token_denom = query_token_denom(&ledger);
    assert_eq!(token_denom, DENOM);
}

#[test]
fn validate_owner_works() {
    let (ledger, _) = setup();
    let unauthorized_info = mock_info(USER, &[]);
    let err = validate_owner(&ledger, &unauthorized_info).unwrap_err();
    assert_eq!(err, ContractError::Unauthorized);
    assert_eq!(err.message(), "Unauthorized: Only the owner can call this");
}

#[test]
fn owner_passes_validation() {
    let (ledger, info) = setup();
    assert_eq!(validate_owner(&ledger, &info), Ok(()));
}

#[test]
fn end_to_end_scenario() {
    let (mut ledger, owner) = setup();
    let user = mock_info(USER, &coins(100, DENOM));
    execute_deposit(&mut ledger, &user).unwrap();
    assert_eq!(query_balance(&ledger, addr(USER)), Ok(100));
    execute_reward(&mut ledger, &owner, addr(USER), 50, "bonus".to_string()).unwrap();
    assert_eq!(query_balance(&ledger, addr(USER)), Ok(150));
    let res = execute_withdraw(&mut ledger, &user, 60).unwrap();
    assert_eq!(query_balance(&ledger, addr(USER)), Ok(90));
    assert_eq!(res.messages.len(), 1);
    assert_eq!(res.messages[0].to_address, USER);
    assert_eq!(res.messages[0].denom, DENOM);
    assert_eq!(res.messages[0].amount, 60);
    let err = execute_withdraw(&mut ledger, &user, 1000).unwrap_err();
    assert_eq!(err, ContractError::InsufficientBalance);
    assert_eq!(query_balance(&ledger, addr(USER)), Ok(90));
}

#[test]
fn deposit_in_other_denom_fails() {
    let (mut ledger, _) = setup();
    let info = mock_info(USER, &coins(100, "uother"));
    let err = execute_deposit(&mut ledger, &info).unwrap_err();
    assert_eq!(err, ContractError::InvalidDepositAmount);
    assert_eq!(balance(&ledger, USER), 0);
}

#[test]
fn deposit_without_funds_fails() {
    let (mut ledger, _) = setup();
    let err = execute_deposit(&mut ledger, &mock_info(USER, &[])).unwrap_err();
    assert_eq!(err, ContractError::InvalidDepositAmount);
}

#[test]
fn deposit_takes_the_current_denom_among_several_coins() {
    let (mut ledger, _) = setup();
    let info = mock_info(USER, &[(7, "uother"), (40, DENOM), (9, DENOM)]);
    let res = execute_deposit(&mut ledger, &info).unwrap();
    assert_eq!(balance(&ledger, USER), 40);
    assert_eq!(attrs(&res)[2], attr("amount", "40"));
    execute_deposit(&mut ledger, &info).unwrap();
    assert_eq!(balance(&ledger, USER), 80);
}

#[test]
fn deposit_amount_text_is_decimal() {
    let (mut ledger, _) = setup();
    let info = mock_info(USER, &coins(1234567, DENOM));
    let res = execute_deposit(&mut ledger, &info).unwrap();
    assert_eq!(attrs(&res)[2], attr("amount", "1234567"));
}

#[test]
fn deposit_overflow_fails_and_keeps_balance() {
    let (mut ledger, _) = setup();
    execute_deposit(&mut ledger, &mock_info(USER, &coins(u128::MAX, DENOM))).unwrap();
    let err = execute_deposit(&mut ledger, &mock_info(USER, &coins(1, DENOM))).unwrap_err();
    assert_eq!(err, ContractError::Overflow);
    assert_eq!(balance(&ledger, USER), u128::MAX);
}

#[test]
fn withdraw_inverts_credits() {
    let (mut ledger, owner) = setup();
    let user = mock_info(USER, &coins(30, DENOM));
    execute_deposit(&mut ledger, &user).unwrap();
    execute_reward(&mut ledger, &owner, addr(USER), 12, "a".to_string()).unwrap();
    execute_deposit(&mut ledger, &user).unwrap();
    assert_eq!(balance(&ledger, USER), 72);
    execute_withdraw(&mut ledger, &user, 72).unwrap();
    assert_eq!(balance(&ledger, USER), 0);
    assert_eq!(
        execute_withdraw(&mut ledger, &user, 1).unwrap_err(),
        ContractError::InsufficientBalance
    );
}

#[test]
fn withdraw_emits_settlement_and_event() {
    let (mut ledger, _) = setup();
    let user = mock_info(USER, &coins(500, DENOM));
    execute_deposit(&mut ledger, &user).unwrap();
    let res = execute_withdraw(&mut ledger, &user, 125).unwrap();
    assert_eq!(res.events.len(), 1);
    assert_eq!(res.events[0].ty, "Withdrawal");
    let ev: Vec<(String, String)> =
        res.events[0].attributes.iter().map(|a| (a.key.clone(), a.value.clone())).collect();
    assert_eq!(ev, vec![attr("sender", USER), attr("amount", "125")]);
    assert_eq!(res.messages[0].amount, 125);
}

#[test]
fn withdraw_uses_current_denom() {
    let (mut ledger, owner) = setup();
    execute_reward(&mut ledger, &owner, addr(USER), 10, "r".to_string()).unwrap();
    set_token_denom(&mut ledger, &owner, "unew".to_string()).unwrap();
    let res = execute_withdraw(&mut ledger, &mock_info(USER, &[]), 4).unwrap();
    assert_eq!(res.messages[0].denom, "unew");
    assert_eq!(balance(&ledger, USER), 6);
}

#[test]
fn reward_emits_event() {
    let (mut ledger, owner) = setup();
    let res = execute_reward(&mut ledger, &owner, addr(USER), 5, "why".to_string()).unwrap();
    assert_eq!(res.events[0].ty, "Reward");
    let ev: Vec<(String, String)> =
        res.events[0].attributes.iter().map(|a| (a.key.clone(), a.value.clone())).collect();
    assert_eq!(ev, vec![attr("recipient", USER), attr("amount", "5"), attr("reason", "why")]);
}

#[test]
fn reward_zero_is_accepted() {
    let (mut ledger, owner) = setup();
    execute_reward(&mut ledger, &owner, addr(USER), 0, "none".to_string()).unwrap();
    assert_eq!(balance(&ledger, USER), 0);
}

#[test]
fn reward_to_malformed_address_fails() {
    let (mut ledger, owner) = setup();
    let err = execute_reward(&mut ledger, &owner, None, 5, "r".to_string()).unwrap_err();
    assert_eq!(err, ContractError::InvalidAddress);
    assert_eq!(err.message(), "Invalid address");
}

#[test]
fn reward_overflow_fails() {
    let (mut ledger, owner) = setup();
    execute_reward(&mut ledger, &owner, addr(USER), u128::MAX, "r".to_string()).unwrap();
    let err = execute_reward(&mut ledger, &owner, addr(USER), 1, "r".to_string()).unwrap_err();
    assert_eq!(err, ContractError::Overflow);
    assert_eq!(err.message(), "Balance overflow");
    assert_eq!(balance(&ledger, USER), u128::MAX);
}

#[test]
fn only_owner_administers() {
    let (mut ledger, _) = setup();
    let other = mock_info(USER, &[]);
    let msgs = vec![
        ExecuteMsg::Reward { recipient: addr(USER), amount: 1, reason: "r".to_string() },
        ExecuteMsg::RewardBulk {
            recipients: vec![addr(USER)],
            amounts: vec![1],
            reasons: vec!["r".to_string()],
        },
        ExecuteMsg::UpdateOwnership { new_owner: addr(USER) },
        ExecuteMsg::SetTokenDenom { denom: "ux".to_string() },
    ];
    for msg in msgs {
        assert_eq!(execute(&mut ledger, &other, msg).unwrap_err(), ContractError::Unauthorized);
    }
    assert_eq!(ledger.state.owner, OWNER);
    assert_eq!(ledger.token_denom, DENOM);
    assert_eq!(balance(&ledger, USER), 0);
}

#[test]
fn reward_bulk_with_malformed_recipient_changes_nothing() {
    let (mut ledger, owner) = setup();
    let err = execute_reward_bulk(
        &mut ledger,
        &owner,
        vec![addr("alice"), None],
        vec![10, 20],
        vec!["a".to_string(), "b".to_string()],
    )
    .unwrap_err();
    assert_eq!(err, ContractError::InvalidAddress);
    assert_eq!(balance(&ledger, "alice"), 0);
    let err = execute_reward_bulk(
        &mut ledger,
        &owner,
        vec![addr("alice"), addr("bob")],
        vec![10],
        vec!["a".to_string(), "b".to_string()],
    )
    .unwrap_err();
    assert_eq!(err, ContractError::LengthMismatch);
    assert_eq!(balance(&ledger, "alice"), 0);
    assert_eq!(balance(&ledger, "bob"), 0);
}

#[test]
fn reward_bulk_overflow_changes_nothing() {
    let (mut ledger, owner) = setup();
    execute_reward(&mut ledger, &owner, addr("bob"), u128::MAX, "r".to_string()).unwrap();
    let err = execute_reward_bulk(
        &mut ledger,
        &owner,
        vec![addr("alice"), addr("bob")],
        vec![10, 1],
        vec!["a".to_string(), "b".to_string()],
    )
    .unwrap_err();
    assert_eq!(err, ContractError::Overflow);
    assert_eq!(balance(&ledger, "alice"), 0);
    assert_eq!(balance(&ledger, "bob"), u128::MAX);
}

#[test]
fn reward_bulk_repeated_recipient_accumulates() {
    let (mut ledger, owner) = setup();
    execute_reward_bulk(
        &mut ledger,
        &owner,
        vec![addr("alice"), addr("alice"), addr("bob")],
        vec![1, 2, 3],
        vec!["a".to_string(), "b".to_string(), "c".to_string()],
    )
    .unwrap();
    assert_eq!(balance(&ledger, "alice"), 3);
    assert_eq!(balance(&ledger, "bob"), 3);
}

#[test]
fn ownership_transfer_moves_every_capability() {
    let (mut ledger, old_owner) = setup();
    update_ownership(&mut ledger, &old_owner, addr("boss")).unwrap();
    let err = set_token_denom(&mut ledger, &old_owner, "ux".to_string()).unwrap_err();
    assert_eq!(err, ContractError::Unauthorized);
    let err = execute_reward(&mut ledger, &old_owner, addr(USER), 1, "r".to_string()).unwrap_err();
    assert_eq!(err, ContractError::Unauthorized);
    let boss = mock_info("boss", &[]);
    set_token_denom(&mut ledger, &boss, "ux".to_string()).unwrap();
    execute_reward(&mut ledger, &boss, addr(USER), 1, "r".to_string()).unwrap();
    assert_eq!(ledger.token_denom, "ux");
    assert_eq!(balance(&ledger, USER), 1);
}

#[test]
fn update_ownership_to_malformed_address_fails() {
    let (mut ledger, owner) = setup();
    let err = update_ownership(&mut ledger, &owner, None).unwrap_err();
    assert_eq!(err, ContractError::InvalidAddress);
    assert_eq!(ledger.state.owner, OWNER);
}

#[test]
fn empty_denom_is_refused() {
    let (mut ledger, owner) = setup();
    let err = set_token_denom(&mut ledger, &owner, String::new()).unwrap_err();
    assert_eq!(err, ContractError::InvalidDenom);
    assert_eq!(ledger.token_denom, DENOM);
    let err = instantiate(&owner, InstantiateMsg { token_denom: String::new() }).err().unwrap();
    assert_eq!(err, ContractError::InvalidDenom);
}

#[test]
fn reads_do_not_change_the_ledger() {
    let (mut ledger, _) = setup();
    execute_deposit(&mut ledger, &mock_info(USER, &coins(8, DENOM))).unwrap();
    for _ in 0..3 {
        assert_eq!(
            query(&ledger, QueryMsg::GetBalance { address: addr(USER) }),
            Ok(QueryResponse::Balance(8))
        );
        assert_eq!(
            query(&ledger, QueryMsg::GetTokenDenom {}),
            Ok(QueryResponse::TokenDenom(DENOM.to_string()))
        );
    }
    assert_eq!(balance(&ledger, USER), 8);
    assert_eq!(query(&ledger, QueryMsg::GetBalance { address: addr("nobody") }), Ok(QueryResponse::Balance(0)));
    assert_eq!(
        query(&ledger, QueryMsg::GetBalance { address: None }),
        Err(ContractError::InvalidAddress)
    );
}

#[test]
fn error_texts() {
    assert_eq!(ContractError::InvalidDenom.message(), "Token denomination must not be empty");
    assert_eq!(ContractError::LengthMismatch.message(), "Array lengths mismatch");
}
