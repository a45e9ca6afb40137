use near_sdk::{AccountId, PromiseError};
use xcc_proxy::error::ContinuationError;
use xcc_proxy::normalize::{
    normalize_status, normalize_text, CONTACT_FAILED, SET_GREETING_FAILED, SET_GREETING_SUCCEEDED,
};
use xcc_proxy::registry::{authorize, resolve_status, resolve_text};
use xcc_proxy::Contract;

fn account(name: &str) -> AccountId {
    name.parse().unwrap()
}

fn proxy() -> Contract {
    Contract { xcc_contract_address: account("hello.near") }
}

#[test]
fn log_lines_have_their_texts() {
    assert_eq!(CONTACT_FAILED, "There was an error contacting NearRustHello");
    assert_eq!(SET_GREETING_FAILED, "set_greeting failed...");
    assert_eq!(SET_GREETING_SUCCEEDED, "set_greeting was successful!");
}

#[test]
fn normalize_text_returns_the_text_of_a_success() {
    let mut log: Vec<String> = vec![];
    assert_eq!(normalize_text(Ok("hello".to_string()), &mut log), "hello");
    assert_eq!(normalize_text(Ok(String::new()), &mut log), "");
    assert_eq!(normalize_text(Ok("Grüße, 世界\n".to_string()), &mut log), "Grüße, 世界\n");
    assert!(log.is_empty());
}

#[test]
fn normalize_text_turns_a_failure_into_the_empty_text() {
    let mut log: Vec<String> = vec!["earlier".to_string()];
    assert_eq!(normalize_text(Err(PromiseError::Failed), &mut log), "");
    assert_eq!(
        log,
        vec!["earlier".to_string(), "There was an error contacting NearRustHello".to_string()]
    );
    assert_eq!(normalize_text(Err(PromiseError::NotReady), &mut log), "");
    assert_eq!(log.len(), 3);
    assert_eq!(log[2], "There was an error contacting NearRustHello");
}

#[test]
fn normalize_status_is_true_for_a_success() {
    let mut log: Vec<String> = vec![];
    assert!(normalize_status(Ok(()), &mut log));
    assert_eq!(log, vec!["set_greeting was successful!".to_string()]);
}

#[test]
fn normalize_status_is_false_for_a_failure() {
    let mut log: Vec<String> = vec!["earlier".to_string()];
    assert!(!normalize_status(Err(PromiseError::Failed), &mut log));
    assert_eq!(log, vec!["earlier".to_string(), "set_greeting failed...".to_string()]);
    assert!(!normalize_status(Err(PromiseError::NotReady), &mut log));
    assert_eq!(log.len(), 3);
    assert_eq!(log[2], "set_greeting failed...");
}

#[test]
fn authorize_lets_the_proxy_through() {
    assert_eq!(authorize(&account("proxy.near"), &account("proxy.near")), Ok(()));
}

#[test]
fn authorize_refuses_everyone_else() {
    assert_eq!(
        authorize(&account("proxy.near"), &account("mallory.near")),
        Err(ContinuationError::Unauthorized)
    );
    assert_eq!(
        authorize(&account("proxy.near"), &account("hello.near")),
        Err(ContinuationError::Unauthorized)
    );
    assert_eq!(
        authorize(&account("proxy.near"), &account("sub.proxy.near")),
        Err(ContinuationError::Unauthorized)
    );
}

#[test]
fn resolve_text_runs_for_the_proxy_only() {
    let me = account("proxy.near");
    let mut log: Vec<String> = vec![];
    assert_eq!(resolve_text(&me, &me, Ok("hello".to_string()), &mut log), Ok("hello".to_string()));
    assert!(log.is_empty());
    assert_eq!(
        resolve_text(&me, &account("mallory.near"), Ok("hello".to_string()), &mut log),
        Err(ContinuationError::Unauthorized)
    );
    assert_eq!(
        resolve_text(&me, &account("mallory.near"), Err(PromiseError::Failed), &mut log),
        Err(ContinuationError::Unauthorized)
    );
    assert!(log.is_empty());
    assert_eq!(resolve_text(&me, &me, Err(PromiseError::Failed), &mut log), Ok(String::new()));
    assert_eq!(log, vec!["There was an error contacting NearRustHello".to_string()]);
}

#[test]
fn resolve_status_runs_for_the_proxy_only() {
    let me = account("proxy.near");
    let mut log: Vec<String> = vec![];
    assert_eq!(
        resolve_status(&me, &account("mallory.near"), Ok(()), &mut log),
        Err(ContinuationError::Unauthorized)
    );
    assert_eq!(
        resolve_status(&me, &account("mallory.near"), Err(PromiseError::Failed), &mut log),
        Err(ContinuationError::Unauthorized)
    );
    assert!(log.is_empty());
    assert_eq!(resolve_status(&me, &me, Ok(()), &mut log), Ok(true));
    assert_eq!(resolve_status(&me, &me, Err(PromiseError::Failed), &mut log), Ok(false));
    assert_eq!(
        log,
        vec!["set_greeting was successful!".to_string(), "set_greeting failed...".to_string()]
    );
}

#[test]
fn greeting_query_resolves_to_the_peers_text() {
    let me = account("proxy.near");
    let mut log: Vec<String> = vec![];
    let resolved = proxy().query_greeting_callback(&me, &me, Ok("hello".to_string()), &mut log);
    assert_eq!(resolved, Ok("hello".to_string()));
    assert!(log.is_empty());
}

#[test]
fn failed_greeting_query_resolves_to_the_empty_text() {
    let me = account("proxy.near");
    let mut log: Vec<String> = vec![];
    let resolved = proxy().query_greeting_callback(&me, &me, Err(PromiseError::Failed), &mut log);
    assert_eq!(resolved, Ok(String::new()));
    assert_eq!(log, vec!["There was an error contacting NearRustHello".to_string()]);
}

#[test]
fn confirmed_change_resolves_to_true() {
    let me = account("proxy.near");
    let mut contract = proxy();
    let pending = contract.change_greeting("hi".to_string(), account("proxy.near"));
    assert_eq!(pending.call.arguments[0].value, "hi");
    let mut log: Vec<String> = vec![];
    let resolved = contract.change_greeting_callback(&me, &me, Ok(()), &mut log);
    assert_eq!(resolved, Ok(true));
    assert_eq!(log, vec!["set_greeting was successful!".to_string()]);
    assert_eq!(contract, proxy());
}

#[test]
fn failed_change_resolves_to_false() {
    let me = account("proxy.near");
    let mut contract = proxy();
    let pending = contract.change_greeting("hi".to_string(), account("proxy.near"));
    assert_eq!(pending.call.arguments[0].value, "hi");
    let mut log: Vec<String> = vec![];
    let resolved = contract.change_greeting_callback(&me, &me, Err(PromiseError::Failed), &mut log);
    assert_eq!(resolved, Ok(false));
    assert_eq!(log, vec!["set_greeting failed...".to_string()]);
    assert_eq!(contract, proxy());
}

#[test]
fn failed_change_and_failed_query_log_different_lines() {
    let me = account("proxy.near");
    let mut contract = proxy();
    let mut query_log: Vec<String> = vec![];
    let mut change_log: Vec<String> = vec![];
    let _ = contract.query_greeting_callback(&me, &me, Err(PromiseError::Failed), &mut query_log);
    let _ = contract.change_greeting_callback(&me, &me, Err(PromiseError::Failed), &mut change_log);
    assert_eq!(query_log.len(), 1);
    assert_eq!(change_log.len(), 1);
    assert_ne!(query_log[0], change_log[0]);
}

#[test]
fn concurrent_queries_resolve_independently() {
    let me = account("proxy.near");
    let contract = proxy();
    let for_alice = contract.query_greeting(account("proxy.near"));
    let for_bob = contract.query_greeting(account("proxy.near"));
    assert_eq!(for_alice.continuation.method_name, "query_greeting_callback");
    assert_eq!(for_bob.continuation.method_name, "query_greeting_callback");

    let mut log: Vec<String> = vec![];
    let bob = contract.query_greeting_callback(&me, &me, Err(PromiseError::Failed), &mut log);
    let alice = contract.query_greeting_callback(&me, &me, Ok("hello".to_string()), &mut log);
    assert_eq!(alice, Ok("hello".to_string()));
    assert_eq!(bob, Ok(String::new()));
    assert_eq!(log.len(), 1);

    let mut log: Vec<String> = vec![];
    let alice = contract.query_greeting_callback(&me, &me, Ok("hello".to_string()), &mut log);
    let bob = contract.query_greeting_callback(&me, &me, Err(PromiseError::Failed), &mut log);
    assert_eq!(alice, Ok("hello".to_string()));
    assert_eq!(bob, Ok(String::new()));
    assert_eq!(log.len(), 1);
}

#[test]
fn signer_query_resolves_like_the_greeting_query() {
    let me = account("proxy.near");
    let mut contract = proxy();
    let mut log: Vec<String> = vec![];
    assert_eq!(
        contract.query_get_signer_account_id_callback(
            &me,
            &me,
            Ok("alice.near".to_string()),
            &mut log
        ),
        Ok("alice.near".to_string())
    );
    assert!(log.is_empty());
    assert_eq!(
        contract.query_get_signer_account_id_callback(&me, &me, Err(PromiseError::Failed), &mut log),
        Ok(String::new())
    );
    assert_eq!(log, vec!["There was an error contacting NearRustHello".to_string()]);
    assert_eq!(contract, proxy());
}

#[test]
fn current_account_query_resolves_like_the_greeting_query() {
    let me = account("proxy.near");
    let mut contract = proxy();
    let mut log: Vec<String> = vec![];
    assert_eq!(
        contract.query_get_current_account_id_callback(
            &me,
            &me,
            Ok("hello.near".to_string()),
            &mut log
        ),
        Ok("hello.near".to_string())
    );
    assert!(log.is_empty());
    assert_eq!(
        contract.query_get_current_account_id_callback(
            &me,
            &me,
            Err(PromiseError::Failed),
            &mut log
        ),
        Ok(String::new())
    );
    assert_eq!(log, vec!["There was an error contacting NearRustHello".to_string()]);
    assert_eq!(contract, proxy());
}

#[test]
fn predecessor_query_resolves_like_the_greeting_query() {
    let me = account("proxy.near");
    let mut contract = proxy();
    let mut log: Vec<String> = vec![];
    assert_eq!(
        contract.query_get_predecessor_account_id_callback(
            &me,
            &me,
            Ok("proxy.near".to_string()),
            &mut log
        ),
        Ok("proxy.near".to_string())
    );
    assert!(log.is_empty());
    assert_eq!(
        contract.query_get_predecessor_account_id_callback(
            &me,
            &me,
            Err(PromiseError::Failed),
            &mut log
        ),
        Ok(String::new())
    );
    assert_eq!(log, vec!["There was an error contacting NearRustHello".to_string()]);
    assert_eq!(contract, proxy());
}

#[test]
fn every_callback_refuses_a_stranger() {
    let me = account("proxy.near");
    let stranger = account("mallory.near");
    let mut contract = proxy();
    let mut log: Vec<String> = vec![];
    assert_eq!(
        contract.query_greeting_callback(&me, &stranger, Ok("forged".to_string()), &mut log),
        Err(ContinuationError::Unauthorized)
    );
    assert_eq!(
        contract.change_greeting_callback(&me, &stranger, Ok(()), &mut log),
        Err(ContinuationError::Unauthorized)
    );
    assert_eq!(
        contract.query_get_signer_account_id_callback(
            &me,
            &stranger,
            Ok("forged".to_string()),
            &mut log
        ),
        Err(ContinuationError::Unauthorized)
    );
    assert_eq!(
        contract.query_get_current_account_id_callback(
            &me,
            &stranger,
            Err(PromiseError::Failed),
            &mut log
        ),
        Err(ContinuationError::Unauthorized)
    );
    assert_eq!(
        contract.query_get_predecessor_account_id_callback(
            &me,
            &stranger,
            Ok("forged".to_string()),
            &mut log
        ),
        Err(ContinuationError::Unauthorized)
    );
    assert!(log.is_empty());
    assert_eq!(contract, proxy());
}

#[test]
fn the_peer_itself_is_a_stranger_to_the_callbacks() {
    let me = account("proxy.near");
    let mut log: Vec<String> = vec![];
    assert_eq!(
        proxy().query_greeting_callback(&me, &account("hello.near"), Ok("x".to_string()), &mut log),
        Err(ContinuationError::Unauthorized)
    );
    assert!(log.is_empty());
}
