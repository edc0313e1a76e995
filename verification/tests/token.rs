use food_bank_token::{ContributionMetrics, FoodBankToken, TokenError};

fn metrics(data_quality: u8, model_improvement: u8, participation_frequency: u8, timestamp: u64) -> ContributionMetrics {
    ContributionMetrics { data_quality, model_improvement, participation_frequency, timestamp }
}

fn fresh(owner: &str, supply: u128) -> FoodBankToken {
    FoodBankToken::new(owner.to_string(), supply)
}

#[test]
fn reward_at_threshold_rounds_to_zero() {
    // Average 10 meets the default threshold of 10, yet 10 * 5 / 100
    // truncates to zero.
    assert_eq!(food_bank_token::reward::compute(&metrics(10, 10, 10, 1), 10, 5), 0);
}

#[test]
fn reward_at_maximum_metrics() {
    // Average 100, so the reward is 100 * 5 / 100 = 5.
    assert_eq!(food_bank_token::reward::compute(&metrics(100, 100, 100, 1), 10, 5), 5);
}

#[test]
fn reward_below_threshold_is_zero() {
    assert_eq!(food_bank_token::reward::compute(&metrics(5, 5, 5, 1), 10, 5), 0);
}

#[test]
fn contribution_end_to_end() {
    let owner = "o".to_string();
    let account = "a".to_string();
    let mut token = fresh("o", 0);
    let r = token.record_contribution(&owner, &account, metrics(100, 100, 100, 42));
    assert_eq!(r, Ok(()));
    assert_eq!(token.get_balance(&account), 5);
    assert_eq!(token.total_supply(), 5);
    let history = token.get_contributions(&account);
    assert_eq!(history.len(), 1);
    assert_eq!(history[0], metrics(100, 100, 100, 42));
}

#[test]
fn contribution_below_threshold_logs_without_minting() {
    let owner = "o".to_string();
    let account = "a".to_string();
    let mut token = fresh("o", 0);
    let r = token.record_contribution(&owner, &account, metrics(5, 5, 5, 1));
    assert_eq!(r, Ok(()));
    assert_eq!(token.get_contributions(&account).len(), 1);
    assert_eq!(token.get_balance(&account), 0);
    assert_eq!(token.total_supply(), 0);
}

#[test]
fn two_contributions_kept_in_submission_order() {
    let owner = "o".to_string();
    let account = "a".to_string();
    let mut token = fresh("o", 0);
    let first = metrics(10, 20, 30, 1);
    let second = metrics(40, 50, 60, 2);
    assert_eq!(token.record_contribution(&owner, &account, first), Ok(()));
    assert_eq!(token.record_contribution(&owner, &account, second), Ok(()));
    let history = token.get_contributions(&account);
    assert_eq!(history.len(), 2);
    assert_eq!(history[0], first);
    assert_eq!(history[1], second);
}

#[test]
fn invalid_metric_rejected_without_effect() {
    let owner = "o".to_string();
    let account = "a".to_string();
    let mut token = fresh("o", 0);
    let r = token.record_contribution(&owner, &account, metrics(101, 50, 50, 1));
    assert_eq!(r, Err(TokenError::InvalidMetric));
    assert_eq!(token.get_contributions(&account).len(), 0);
    assert_eq!(token.get_balance(&account), 0);
    assert_eq!(token.total_supply(), 0);
}

#[test]
fn unauthorized_record_changes_nothing() {
    let intruder = "i".to_string();
    let account = "a".to_string();
    let mut token = fresh("o", 0);
    let r = token.record_contribution(&intruder, &account, metrics(100, 100, 100, 1));
    assert_eq!(r, Err(TokenError::Unauthorized));
    assert_eq!(token.get_contributions(&account).len(), 0);
    assert_eq!(token.get_balance(&account), 0);
}

#[test]
fn unauthorized_add_option_changes_nothing() {
    let intruder = "i".to_string();
    let mut token = fresh("o", 0);
    let r = token.add_redemption_option(
        &intruder,
        &"extra_benefit".to_string(),
        50,
        "An extra benefit".to_string(),
    );
    assert_eq!(r, Err(TokenError::Unauthorized));
    let options = token.get_redemption_options();
    assert_eq!(options.len(), 3);
    assert!(!options.iter().any(|entry| entry.0 == "extra_benefit"));
}

#[test]
fn default_catalog_has_exactly_three_options() {
    let token = fresh("o", 0);
    let options = token.get_redemption_options();
    assert_eq!(options.len(), 3);
    let discount = options.iter().find(|entry| entry.0 == "supplier_discount").unwrap();
    assert_eq!(discount.1.cost, 100);
    assert!(discount.1.available);
    assert_eq!(discount.1.description, "10% discount on supplier purchases");
    let analytics = options.iter().find(|entry| entry.0 == "analytics_access").unwrap();
    assert_eq!(analytics.1.cost, 200);
    assert!(analytics.1.available);
    assert_eq!(analytics.1.description, "Access to advanced analytics dashboard");
    let grant = options.iter().find(|entry| entry.0 == "grant_opportunity").unwrap();
    assert_eq!(grant.1.cost, 500);
    assert!(grant.1.available);
    assert_eq!(grant.1.description, "Priority consideration for grant programs");
}

#[test]
fn redemption_end_to_end() {
    let owner = "o".to_string();
    let account = "a".to_string();
    let mut token = fresh("o", 0);
    assert_eq!(token.update_reward_rate(&owner, 100), Ok(()));
    assert_eq!(token.record_contribution(&owner, &account, metrics(100, 100, 100, 1)), Ok(()));
    assert_eq!(token.get_balance(&account), 100);
    let r = token.redeem_tokens(&account, &"supplier_discount".to_string(), 100);
    let request = r.unwrap();
    assert_eq!(request.account, "a");
    assert_eq!(request.option_name, "supplier_discount");
    assert_eq!(request.method_name, "apply_supplier_discount");
    assert_eq!(token.get_balance(&account), 0);
    assert_eq!(token.total_supply(), 0);
}

#[test]
fn redemption_burns_full_amount_above_cost() {
    let owner = "o".to_string();
    let mut token = fresh("o", 0);
    assert_eq!(token.update_reward_rate(&owner, 100), Ok(()));
    assert_eq!(token.record_contribution(&owner, &owner, metrics(100, 100, 100, 1)), Ok(()));
    assert_eq!(token.record_contribution(&owner, &owner, metrics(100, 100, 100, 2)), Ok(()));
    assert_eq!(token.get_balance(&owner), 200);
    let r = token.redeem_tokens(&owner, &"supplier_discount".to_string(), 150);
    assert!(r.is_ok());
    assert_eq!(token.get_balance(&owner), 50);
    assert_eq!(token.total_supply(), 50);
}

#[test]
fn unknown_option_redemption_changes_nothing() {
    let owner = "o".to_string();
    let mut token = fresh("o", 0);
    assert_eq!(token.update_reward_rate(&owner, 100), Ok(()));
    assert_eq!(token.record_contribution(&owner, &owner, metrics(100, 100, 100, 1)), Ok(()));
    let r = token.redeem_tokens(&owner, &"mystery_prize".to_string(), 100);
    assert_eq!(r, Err(TokenError::OptionNotFound));
    assert_eq!(token.get_balance(&owner), 100);
    assert_eq!(token.total_supply(), 100);
}

#[test]
fn unavailable_option_rejected() {
    let owner = "o".to_string();
    let mut token = fresh("o", 0);
    assert_eq!(token.update_reward_rate(&owner, 100), Ok(()));
    assert_eq!(token.record_contribution(&owner, &owner, metrics(100, 100, 100, 1)), Ok(()));
    let id = "supplier_discount".to_string();
    assert_eq!(token.set_option_availability(&owner, &id, false), Ok(()));
    let r = token.redeem_tokens(&owner, &id, 100);
    assert_eq!(r, Err(TokenError::OptionUnavailable));
    assert_eq!(token.get_balance(&owner), 100);
}

#[test]
fn amount_below_cost_rejected() {
    let owner = "o".to_string();
    let mut token = fresh("o", 0);
    assert_eq!(token.update_reward_rate(&owner, 100), Ok(()));
    assert_eq!(token.record_contribution(&owner, &owner, metrics(100, 100, 100, 1)), Ok(()));
    let r = token.redeem_tokens(&owner, &"supplier_discount".to_string(), 99);
    assert_eq!(r, Err(TokenError::InsufficientRedemptionAmount));
    assert_eq!(token.get_balance(&owner), 100);
}

#[test]
fn balance_below_amount_rejected() {
    let account = "a".to_string();
    let mut token = fresh("o", 0);
    let r = token.redeem_tokens(&account, &"supplier_discount".to_string(), 100);
    assert_eq!(r, Err(TokenError::InsufficientBalance));
    assert_eq!(token.get_balance(&account), 0);
    assert_eq!(token.total_supply(), 0);
}

#[test]
fn corrupt_benefit_name_aborts_before_debit() {
    let owner = "o".to_string();
    let mut token = fresh("o", 0);
    assert_eq!(token.update_reward_rate(&owner, 100), Ok(()));
    assert_eq!(token.record_contribution(&owner, &owner, metrics(100, 100, 100, 1)), Ok(()));
    let id = "custom_benefit".to_string();
    assert_eq!(
        token.add_redemption_option(&owner, &id, 50, "A benefit nothing delivers".to_string()),
        Ok(())
    );
    let r = token.redeem_tokens(&owner, &id, 50);
    assert_eq!(r, Err(TokenError::InvalidRedemptionOption));
    assert_eq!(token.get_balance(&owner), 100);
    assert_eq!(token.total_supply(), 100);
}

#[test]
fn zero_cost_option_rejected() {
    let owner = "o".to_string();
    let mut token = fresh("o", 0);
    let r = token.add_redemption_option(&owner, &"free_lunch".to_string(), 0, "Nothing".to_string());
    assert_eq!(r, Err(TokenError::InvalidCost));
    assert_eq!(token.get_redemption_options().len(), 3);
}

#[test]
fn add_option_overwrites_and_restores_availability() {
    let owner = "o".to_string();
    let id = "supplier_discount".to_string();
    let mut token = fresh("o", 0);
    assert_eq!(token.set_option_availability(&owner, &id, false), Ok(()));
    let r = token.add_redemption_option(&owner, &id, 250, "A steeper discount".to_string());
    assert_eq!(r, Ok(()));
    let options = token.get_redemption_options();
    assert_eq!(options.len(), 3);
    let updated = options.iter().find(|entry| entry.0 == "supplier_discount").unwrap();
    assert_eq!(updated.1.cost, 250);
    assert!(updated.1.available);
    assert_eq!(updated.1.description, "A steeper discount");
}

#[test]
fn unauthorized_admin_calls_rejected() {
    let intruder = "i".to_string();
    let mut token = fresh("o", 0);
    assert_eq!(token.update_reward_rate(&intruder, 10), Err(TokenError::Unauthorized));
    assert_eq!(
        token.set_option_availability(&intruder, &"supplier_discount".to_string(), false),
        Err(TokenError::Unauthorized)
    );
}

#[test]
fn toggling_unknown_option_rejected() {
    let owner = "o".to_string();
    let mut token = fresh("o", 0);
    let r = token.set_option_availability(&owner, &"mystery_prize".to_string(), false);
    assert_eq!(r, Err(TokenError::OptionNotFound));
}

#[test]
fn reward_rate_change_governs_later_rewards() {
    let owner = "o".to_string();
    let account = "a".to_string();
    let mut token = fresh("o", 0);
    assert_eq!(token.update_reward_rate(&owner, 50), Ok(()));
    assert_eq!(token.record_contribution(&owner, &account, metrics(100, 100, 100, 1)), Ok(()));
    assert_eq!(token.get_balance(&account), 50);
}

#[test]
fn unknown_account_reads_are_empty() {
    let token = fresh("o", 0);
    let nobody = "n".to_string();
    assert_eq!(token.get_balance(&nobody), 0);
    assert_eq!(token.get_contributions(&nobody).len(), 0);
}

#[test]
fn initial_supply_is_stored() {
    let token = fresh("o", 1000);
    assert_eq!(token.total_supply(), 1000);
    assert_eq!(token.get_balance(&"o".to_string()), 0);
}

#[test]
fn supply_tracks_sum_of_balances_across_flows() {
    let owner = "o".to_string();
    let first = "a".to_string();
    let second = "b".to_string();
    let mut token = fresh("o", 0);
    assert_eq!(token.update_reward_rate(&owner, 100), Ok(()));
    assert_eq!(token.record_contribution(&owner, &first, metrics(100, 100, 100, 1)), Ok(()));
    assert_eq!(token.record_contribution(&owner, &second, metrics(60, 60, 60, 2)), Ok(()));
    assert_eq!(
        token.total_supply(),
        token.get_balance(&first) + token.get_balance(&second)
    );
    assert!(token.redeem_tokens(&first, &"supplier_discount".to_string(), 100).is_ok());
    assert_eq!(
        token.total_supply(),
        token.get_balance(&first) + token.get_balance(&second)
    );
}
