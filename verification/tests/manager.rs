use std::cell::Cell;
use std::rc::Rc;

use novelsaga::bridge::error::BridgeError;
use novelsaga::bridge::manager::bridge::Bridge;
use novelsaga::bridge::manager::{
    after_failed_attempt, Acquire, BridgeManager, CallProgress, RetryDecision, DEFAULT_MAX_RETRIES,
};
use novelsaga::bridge::rpc::client::RpcClient;
use novelsaga::bridge::rpc::types::{RpcRequest, RpcResponse};
use novelsaga::bridge::transport::stdio::{receive_from_lines, StdioTransport, WaitResult};
use novelsaga::bridge::transport::Transport;
use novelsaga::json::Json;

/// A peer that writes the same lines in answer to every request.
struct Peer {
    state: StdioTransport,
    output: Vec<String>,
    received: Rc<Cell<usize>>,
}

impl Transport for Peer {
    fn send(&mut self, message: &RpcRequest) -> Result<(), BridgeError> {
        self.state.frame(message)?;
        self.received.set(self.received.get() + 1);
        Ok(())
    }

    fn receive(&mut self) -> Result<RpcResponse, BridgeError> {
        let output = &self.output;
        self.state.receive(|_| WaitResult::Delivered(receive_from_lines(output).1))
    }

    fn close(&mut self) -> Result<(), BridgeError> {
        self.state.close()
    }

    fn is_closed(&self) -> bool {
        self.state.is_closed()
    }
}

struct TestBridge {
    client: RpcClient<Peer>,
    healthy: Rc<Cell<bool>>,
    shutdown_fails: bool,
}

impl Bridge for TestBridge {
    fn name(&self) -> &str {
        "test-bridge"
    }

    fn call(&mut self, method: &str, params: Json) -> Result<Json, BridgeError> {
        self.client.call(method, params)
    }

    fn is_healthy(&self) -> bool {
        self.healthy.get()
    }

    fn shutdown(&mut self) -> Result<(), BridgeError> {
        self.healthy.set(false);
        if self.shutdown_fails {
            Err(BridgeError::Other("will not stop".to_string()))
        } else {
            Ok(())
        }
    }
}

type Factory = Box<dyn Fn() -> Result<TestBridge, BridgeError>>;

struct Setup {
    attempts: Rc<Cell<u32>>,
    requests: Rc<Cell<usize>>,
    healthy: Rc<Cell<bool>>,
}

/// A factory that fails `failures` times and then makes a bridge whose peer
/// answers with `reply`.
fn factory(failures: u32, reply: &str, shutdown_fails: bool) -> (Factory, Setup) {
    let attempts = Rc::new(Cell::new(0));
    let requests = Rc::new(Cell::new(0));
    let healthy = Rc::new(Cell::new(true));
    let setup = Setup { attempts: attempts.clone(), requests: requests.clone(), healthy: healthy.clone() };
    let reply = reply.to_string();
    let f: Factory = Box::new(move || {
        attempts.set(attempts.get() + 1);
        if attempts.get() <= failures {
            return Err(BridgeError::Other(format!("attempt {} failed", attempts.get())));
        }
        healthy.set(true);
        let peer = Peer {
            state: StdioTransport::new(),
            output: vec!["starting".to_string(), reply.clone()],
            received: requests.clone(),
        };
        Ok(TestBridge { client: RpcClient::new(peer), healthy: healthy.clone(), shutdown_fails })
    });
    (f, setup)
}

/// Runs a call to its end, and returns the pauses that it asked for.
fn run_call(
    manager: &mut BridgeManager<TestBridge, Factory>,
    name: &str,
    method: &str,
    params: Json,
) -> (Vec<u64>, Result<Json, BridgeError>) {
    let mut pauses = Vec::new();
    let mut progress = manager.call(name, method, params);
    loop {
        match progress {
            CallProgress::Finished(result) => return (pauses, result),
            CallProgress::Backoff { delay_ms, next_attempt, params, error } => {
                // A pause follows a failed attempt, and says which.
                assert_eq!(error.message(), format!("attempt {} failed", next_attempt - 1));
                pauses.push(delay_ms);
                progress = manager.resume_call(name, method, params, next_attempt);
            }
        }
    }
}

const CONFIG_REPLY: &str = r#"{"jsonrpc":"2.0","id":1,"result":{"workspace":{"cache_dir":".novelsaga/cache"}}}"#;

#[test]
fn register_and_call() {
    let mut manager = BridgeManager::new();
    let (f, setup) = factory(0, CONFIG_REPLY, false);
    manager.register("cfg", f);
    assert_eq!(manager.factory_count(), 1);
    assert_eq!(manager.bridge_count(), 0);
    assert!(!manager.is_healthy("cfg"));
    // Nothing is made before the first call.
    assert_eq!(setup.attempts.get(), 0);

    let (pauses, result) = run_call(&mut manager, "cfg", "config.get", Json::empty_object());
    let result = result.unwrap();
    assert!(result.is_object());
    assert!(result.get("workspace").is_some());
    assert_eq!(result.get("workspace").unwrap().get("cache_dir").unwrap().as_str(), "\".novelsaga/cache\"");
    assert!(pauses.is_empty());
    assert_eq!(setup.attempts.get(), 1);
    assert_eq!(setup.requests.get(), 1);
    assert_eq!(manager.bridge_count(), 1);
    assert!(manager.is_healthy("cfg"));
    assert!(manager.bridge("cfg").is_some());
    assert!(manager.bridge("other").is_none());
    assert_eq!(manager.bridge("cfg").unwrap().name(), "test-bridge");
    assert_eq!(manager.retry_limit(), 3);
}

#[test]
fn an_unregistered_name_is_not_found() {
    let mut manager = BridgeManager::new();
    let (f, setup) = factory(0, CONFIG_REPLY, false);
    manager.register("cfg", f);
    let (pauses, result) = run_call(&mut manager, "other", "config.get", Json::empty_object());
    match result {
        Err(e @ BridgeError::BridgeNotFound { .. }) => {
            assert!(e.message().starts_with("Bridge not found: other\n\n"));
        }
        other => panic!("unexpected: {:?}", other),
    }
    assert!(pauses.is_empty());
    assert_eq!(setup.attempts.get(), 0);
    assert_eq!(manager.bridge_count(), 0);
    assert!(matches!(manager.get_or_create_bridge("other"), Acquire::Failed(BridgeError::BridgeNotFound { .. })));
    assert!(matches!(manager.retry_create("other", 2), Acquire::Failed(BridgeError::BridgeNotFound { .. })));
}

#[test]
fn a_healthy_bridge_is_used_again() {
    let mut manager = BridgeManager::new();
    let reply = r#"{"jsonrpc":"2.0","id":1,"result":1}"#;
    let (f, setup) = factory(0, reply, false);
    manager.register("cfg", f);
    assert!(run_call(&mut manager, "cfg", "config.get", Json::empty_object()).1.is_ok());
    // The same bridge takes the second call: its client gives the id 2,
    // which the peer does not answer.
    let (_, second) = run_call(&mut manager, "cfg", "config.get", Json::empty_object());
    assert!(matches!(second, Err(BridgeError::InvalidResponseId { .. })));
    assert_eq!(setup.attempts.get(), 1);
    assert_eq!(setup.requests.get(), 2);
}

#[test]
fn an_unhealthy_bridge_is_made_anew() {
    let mut manager = BridgeManager::new();
    let reply = r#"{"jsonrpc":"2.0","id":1,"result":1}"#;
    let (f, setup) = factory(0, reply, false);
    manager.register("cfg", f);
    assert!(run_call(&mut manager, "cfg", "config.get", Json::empty_object()).1.is_ok());
    setup.healthy.set(false);
    assert!(!manager.is_healthy("cfg"));
    // The new bridge has a new client, which counts from one again.
    let (_, second) = run_call(&mut manager, "cfg", "config.get", Json::empty_object());
    assert_eq!(second.unwrap().as_str(), "1");
    assert_eq!(setup.attempts.get(), 2);
    assert_eq!(manager.bridge_count(), 1);
}

#[test]
fn a_factory_that_fails_twice_succeeds_with_the_third_attempt() {
    let mut manager = BridgeManager::new();
    let (f, setup) = factory(2, CONFIG_REPLY, false);
    manager.register("cfg", f);
    let (pauses, result) = run_call(&mut manager, "cfg", "config.get", Json::empty_object());
    assert!(result.unwrap().get("workspace").is_some());
    assert_eq!(setup.attempts.get(), 3);
    assert_eq!(pauses, vec![100, 200]);
    assert!(manager.is_healthy("cfg"));
}

#[test]
fn a_factory_that_always_fails_gives_its_last_error() {
    let mut manager = BridgeManager::new();
    let (f, setup) = factory(u32::MAX, CONFIG_REPLY, false);
    manager.register("cfg", f);
    let (pauses, result) = run_call(&mut manager, "cfg", "config.get", Json::empty_object());
    match result {
        Err(BridgeError::Other(m)) => assert_eq!(m, "attempt 3 failed"),
        other => panic!("unexpected: {:?}", other),
    }
    assert_eq!(setup.attempts.get(), 3);
    assert_eq!(pauses, vec![100, 200]);
    assert_eq!(setup.requests.get(), 0);
    assert_eq!(manager.bridge_count(), 0);
}

#[test]
fn the_number_of_attempts_can_be_set() {
    let mut manager = BridgeManager::new().with_max_retries(1);
    let (f, setup) = factory(1, CONFIG_REPLY, false);
    manager.register("cfg", f);
    let (pauses, result) = run_call(&mut manager, "cfg", "config.get", Json::empty_object());
    assert!(matches!(result, Err(BridgeError::Other(_))));
    assert!(pauses.is_empty());
    assert_eq!(setup.attempts.get(), 1);

    let mut manager = BridgeManager::new().with_max_retries(5);
    let (f, setup) = factory(4, CONFIG_REPLY, false);
    manager.register("cfg", f);
    let (pauses, result) = run_call(&mut manager, "cfg", "config.get", Json::empty_object());
    assert!(result.is_ok());
    assert_eq!(pauses, vec![100, 200, 300, 400]);
    assert_eq!(setup.attempts.get(), 5);
}

#[test]
fn retry_decisions() {
    assert_eq!(DEFAULT_MAX_RETRIES, 3);
    assert_eq!(after_failed_attempt(1, 3), RetryDecision::Backoff { delay_ms: 100, next_attempt: 2 });
    assert_eq!(after_failed_attempt(2, 3), RetryDecision::Backoff { delay_ms: 200, next_attempt: 3 });
    assert_eq!(after_failed_attempt(3, 3), RetryDecision::GiveUp);
    assert_eq!(after_failed_attempt(4, 3), RetryDecision::GiveUp);
    assert_eq!(after_failed_attempt(1, 1), RetryDecision::GiveUp);
    assert_eq!(
        after_failed_attempt(u32::MAX - 1, u32::MAX),
        RetryDecision::Backoff { delay_ms: 429_496_729_400, next_attempt: u32::MAX }
    );
}

#[test]
fn registering_again_replaces_the_factory() {
    let mut manager = BridgeManager::new();
    let (first, first_setup) = factory(0, CONFIG_REPLY, false);
    let (second, second_setup) = factory(0, r#"{"jsonrpc":"2.0","id":1,"result":"second"}"#, false);
    manager.register("cfg", first);
    manager.register("cfg", second);
    assert_eq!(manager.factory_count(), 1);
    let (_, result) = run_call(&mut manager, "cfg", "config.get", Json::empty_object());
    assert_eq!(result.unwrap().as_str(), "\"second\"");
    assert_eq!(first_setup.attempts.get(), 0);
    assert_eq!(second_setup.attempts.get(), 1);
}

#[test]
fn shutdown_of_one_bridge() {
    let mut manager = BridgeManager::new();
    let (f, setup) = factory(0, CONFIG_REPLY, false);
    manager.register("cfg", f);
    assert!(manager.shutdown_bridge("cfg").is_ok());
    assert!(run_call(&mut manager, "cfg", "config.get", Json::empty_object()).1.is_ok());
    assert!(manager.shutdown_bridge("cfg").is_ok());
    assert!(!setup.healthy.get());
    assert_eq!(manager.bridge_count(), 0);
    assert_eq!(manager.factory_count(), 1);
    // A second shutdown finds nothing to do.
    assert!(manager.shutdown_bridge("cfg").is_ok());
    assert!(manager.shutdown_bridge("never").is_ok());
}

#[test]
fn shutdown_all_goes_on_after_a_failure() {
    let mut manager = BridgeManager::new();
    let (a, a_setup) = factory(0, CONFIG_REPLY, true);
    let (b, b_setup) = factory(0, CONFIG_REPLY, false);
    let (c, c_setup) = factory(0, CONFIG_REPLY, true);
    manager.register("a", a);
    manager.register("b", b);
    manager.register("c", c);
    for name in ["a", "b", "c"] {
        assert!(run_call(&mut manager, name, "config.get", Json::empty_object()).1.is_ok());
    }
    assert_eq!(manager.bridge_count(), 3);
    let mut failures = manager.shutdown_all();
    failures.sort_by(|x, y| x.0.cmp(&y.0));
    let names: Vec<&str> = failures.iter().map(|f| f.0.as_str()).collect();
    assert_eq!(names, vec!["a", "c"]);
    assert!(matches!(&failures[0].1, BridgeError::Other(m) if m == "will not stop"));
    assert_eq!(manager.bridge_count(), 0);
    assert_eq!(manager.factory_count(), 3);
    assert!(!a_setup.healthy.get() && !b_setup.healthy.get() && !c_setup.healthy.get());
    assert!(manager.shutdown_all().is_empty());
}
