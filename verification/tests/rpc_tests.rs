use chainrpc::rpc::{RpcClientT, RpcError, Subscription};
use chainrpc::runtime_api::{resolve_block_hash, RuntimeApiClient};
use chainrpc::stub::StubTransport;

fn stub_with_table() -> StubTransport<u64> {
    let mut stub: StubTransport<u64> = StubTransport::new(42);
    stub.add_response(String::from("system_name"), String::from("alpha"));
    stub.add_response(String::from("system_version"), String::from("beta"));
    stub
}

#[test]
fn requests_answer_from_the_table() {
    let mut stub = stub_with_table();
    assert_eq!(stub.request("system_name", None).unwrap(), "alpha");
    assert_eq!(stub.request("system_version", None).unwrap(), "beta");
    assert!(stub.request("system_chain", None).is_err());
    assert_eq!(stub.requests_made(), 3);
}

#[test]
fn concurrent_handles_get_their_own_correlated_results() {
    // Two callers share one transport by cloning its handle; their
    // interleaved requests stay correlated to their own methods.
    let shared = stub_with_table();
    let mut first = shared.clone();
    let mut second = shared.clone();
    let a1 = first.request("system_name", None);
    let b1 = second.request("system_version", None);
    let a2 = first.request("system_name", None);
    let b2 = second.request("system_version", None);
    assert_eq!(a1.unwrap(), "alpha");
    assert_eq!(a2.unwrap(), "alpha");
    assert_eq!(b1.unwrap(), "beta");
    assert_eq!(b2.unwrap(), "beta");
}

#[test]
fn subscription_yields_items_in_push_order() {
    let mut stub = stub_with_table();
    stub.add_push(Ok(String::from("one")));
    stub.add_push(Err(RpcError(String::from("malformed push"))));
    stub.add_push(Ok(String::from("three")));
    let mut sub = stub
        .subscribe("chain_subscribeNewHeads", None, "chain_unsubscribeNewHeads")
        .unwrap();
    assert_eq!(stub.subscribes_made(), 1);
    assert_eq!(sub.next_item().unwrap().unwrap(), "one");
    let failed = sub.next_item().unwrap();
    assert_eq!(failed.unwrap_err().0, "malformed push");
    assert_eq!(sub.next_item().unwrap().unwrap(), "three");
    assert!(sub.next_item().is_none());
}

#[test]
fn dropping_a_subscription_early_unsubscribes_exactly_once() {
    let mut stub = stub_with_table();
    stub.add_push(Ok(String::from("never seen")));
    let mut sub = stub
        .subscribe("chain_subscribeNewHeads", None, "chain_unsubscribeNewHeads")
        .unwrap();
    // Tear the subscription down before any item is taken.
    assert_eq!(sub.unsubscribes(), 0);
    assert!(sub.open_now());
    assert!(sub.end());
    assert_eq!(sub.unsubscribes(), 1);
    assert!(!sub.open_now());
    // A second teardown issues nothing more.
    assert!(!sub.end());
    assert_eq!(sub.unsubscribes(), 1);
    // An ended subscription never yields.
    assert!(sub.next_item().is_none());
}

#[test]
fn resolver_uses_a_given_hash_without_any_lookup() {
    let mut stub: StubTransport<u64> = StubTransport::new(42);
    let r = resolve_block_hash(&mut stub, Some(7u64)).unwrap();
    assert_eq!(r, 7);
    assert_eq!(stub.lookups_made(), 0);
}

#[test]
fn resolver_falls_back_to_the_best_block() {
    let mut stub: StubTransport<u64> = StubTransport::new(42);
    let r = resolve_block_hash(&mut stub, None).unwrap();
    assert_eq!(r, 42);
    assert_eq!(stub.lookups_made(), 1);
}

#[test]
fn at_binds_a_handle_to_the_resolved_block() {
    let stub: StubTransport<u64> = StubTransport::new(42);
    let client = RuntimeApiClient::new(stub);
    let api = client.at(Some(9u64)).unwrap();
    assert_eq!(api.block_hash(), 9);
    let api = client.at(None::<u64>).unwrap();
    assert_eq!(api.block_hash(), 42);
}

#[test]
fn cloned_handles_stay_bound_and_outlive_the_original() {
    let stub: StubTransport<u64> = StubTransport::new(42);
    let client = RuntimeApiClient::new(stub);
    let original = client.at(None::<u64>).unwrap();
    let first = original.clone();
    let second = original.clone();
    drop(original);
    assert_eq!(first.block_hash(), 42);
    assert_eq!(second.block_hash(), 42);
    assert_eq!(first.block_hash(), second.block_hash());
}

#[test]
fn subscriptions_are_one_shot_and_independent() {
    let mut stub = stub_with_table();
    stub.add_push(Ok(String::from("head-1")));
    let mut a = stub.subscribe("sub", None, "unsub").unwrap();
    let mut b = stub.subscribe("sub", None, "unsub").unwrap();
    assert_eq!(stub.subscribes_made(), 2);
    assert_eq!(a.next_item().unwrap().unwrap(), "head-1");
    // Consuming one subscription leaves the other fresh.
    assert_eq!(b.next_item().unwrap().unwrap(), "head-1");
    assert!(a.end());
    assert!(b.open_now());
}

#[test]
fn ending_after_delivery_still_unsubscribes_once() {
    let mut stub = stub_with_table();
    stub.add_push(Ok(String::from("head-1")));
    let mut sub = stub.subscribe("sub", None, "unsub").unwrap();
    assert!(sub.next_item().is_some());
    assert!(sub.next_item().is_none());
    assert!(sub.end());
    assert!(!sub.end());
    assert_eq!(sub.unsubscribes(), 1);
}

#[test]
fn fresh_subscriptions_can_be_built_directly() {
    let mut sub = Subscription::new(
        vec![Ok(String::from("only"))],
        String::from("chain_unsubscribeNewHeads"),
    );
    assert!(sub.open_now());
    assert_eq!(sub.unsubscribes(), 0);
    assert_eq!(sub.next_item().unwrap().unwrap(), "only");
    assert!(sub.next_item().is_none());
}
