//! The manager of bridges: named factories, and the bridges made from them
//! on demand.
//!
//! A bridge is made when it is first called, by the factory that is
//! registered under its name. A factory that fails is tried again, after a
//! pause that grows with each failure, up to a number of attempts. A bridge
//! that is found unhealthy when it is called is dropped and made anew.
//!
//! The manager never pauses itself. Where a pause is due it says so and how
//! long, and goes on when it is called again.

pub mod bridge;
pub mod config_bridge;
pub mod registry;

use crate::bridge::error::BridgeError;
use crate::bridge::manager::bridge::Bridge;
use crate::bridge::manager::registry::Registry;
use crate::json::Json;
use vstd::prelude::*;

verus! {

/// How often a factory is tried unless the manager is told otherwise.
pub const DEFAULT_MAX_RETRIES: u32 = 3;

/// The pause after the first failed attempt, in milliseconds. After the
/// `n`-th failure the pause is `n` times as long.
pub const RETRY_DELAY_MS: u64 = 100;

/// What follows a failed attempt to make a bridge.
#[derive(Debug, Clone, Copy, PartialEq, Eq, Structural)]
pub enum RetryDecision {
    /// A pause of `delay_ms` milliseconds and then attempt number
    /// `next_attempt`.
    Backoff { delay_ms: u64, next_attempt: u32 },
    /// No further attempt.
    GiveUp,
}

/// What follows the failure of attempt number `attempt`, the first being
/// number one, when `max_retries` attempts are allowed.
pub open spec fn retry_after_failure(attempt: u32, max_retries: u32) -> RetryDecision {
    if attempt < max_retries {
        RetryDecision::Backoff {
            delay_ms: (RETRY_DELAY_MS * attempt) as u64,
            next_attempt: (attempt + 1) as u32,
        }
    } else {
        RetryDecision::GiveUp
    }
}

/// Decides what follows the failure of attempt number `attempt`.
pub fn after_failed_attempt(attempt: u32, max_retries: u32) -> (d: RetryDecision)
    ensures
        d == retry_after_failure(attempt, max_retries),
{
    if attempt < max_retries {
        let delay_ms: u64 = RETRY_DELAY_MS * (attempt as u64);
        RetryDecision::Backoff { delay_ms, next_attempt: attempt + 1 }
    } else {
        RetryDecision::GiveUp
    }
}

/// How the making of a bridge ends when attempt number `i + 1` succeeds
/// exactly if `outcomes[i]` says so, starting with attempt number
/// `attempt`: the number of the last attempt that is made, and whether it
/// made the bridge.
pub open spec fn retry_run(outcomes: Seq<bool>, max_retries: u32, attempt: u32) -> (u32, bool)
    decreases max_retries - attempt,
{
    if 1 <= attempt <= outcomes.len() && outcomes[attempt - 1] {
        (attempt, true)
    } else {
        match retry_after_failure(attempt, max_retries) {
            RetryDecision::Backoff { delay_ms, next_attempt } => retry_run(
                outcomes,
                max_retries,
                next_attempt,
            ),
            RetryDecision::GiveUp => (attempt, false),
        }
    }
}

/// A factory that fails until its `k`-th attempt succeeds makes the bridge
/// with exactly `k` attempts, where that many are allowed. With three
/// attempts allowed, two failures and a success make the bridge with the
/// third attempt.
pub proof fn lemma_retry_until_success(outcomes: Seq<bool>, max_retries: u32, k: u32)
    requires
        1 <= k <= max_retries,
        k <= outcomes.len(),
        forall|i: int| 0 <= i < k - 1 ==> !outcomes[i],
        outcomes[k - 1],
    ensures
        retry_run(outcomes, max_retries, 1) == (k, true),
{
    lemma_retry_from(outcomes, max_retries, k, 1);
}

/// The run from attempt number `attempt` on, when the first success is that
/// of attempt number `k`.
proof fn lemma_retry_from(outcomes: Seq<bool>, max_retries: u32, k: u32, attempt: u32)
    requires
        1 <= attempt <= k <= max_retries,
        k <= outcomes.len(),
        forall|i: int| attempt - 1 <= i < k - 1 ==> !outcomes[i],
        outcomes[k - 1],
    ensures
        retry_run(outcomes, max_retries, attempt) == (k, true),
    decreases k - attempt,
{
    if attempt < k {
        assert(!outcomes[attempt - 1]);
        lemma_retry_from(outcomes, max_retries, k, (attempt + 1) as u32);
    }
}

/// A factory that always fails is tried as often as is allowed and no more,
/// and the attempt that ends the run is the last one: it is its error that
/// [`BridgeManager::retry_create`] hands on.
pub proof fn lemma_retry_exhausted(outcomes: Seq<bool>, max_retries: u32)
    requires
        1 <= max_retries,
        forall|i: int| 0 <= i < outcomes.len() && i < max_retries ==> !outcomes[i],
    ensures
        retry_run(outcomes, max_retries, 1) == (max_retries, false),
{
    lemma_retry_exhausted_from(outcomes, max_retries, 1);
}

/// The run of a factory that always fails, from attempt number `attempt`.
proof fn lemma_retry_exhausted_from(outcomes: Seq<bool>, max_retries: u32, attempt: u32)
    requires
        1 <= attempt <= max_retries,
        forall|i: int| 0 <= i < outcomes.len() && i < max_retries ==> !outcomes[i],
    ensures
        retry_run(outcomes, max_retries, attempt) == (max_retries, false),
    decreases max_retries - attempt,
{
    if attempt <= outcomes.len() {
        assert(!outcomes[attempt - 1]);
    }
    if attempt < max_retries {
        lemma_retry_exhausted_from(outcomes, max_retries, (attempt + 1) as u32);
    }
}

/// What came of getting a bridge ready.
#[derive(Debug)]
pub enum Acquire {
    /// The bridge is there. It was healthy when it was looked at, or it
    /// has just been made.
    Ready,
    /// The factory failed with `error` and is to be tried again, as
    /// attempt number `next_attempt`, after `delay_ms` milliseconds.
    Backoff { delay_ms: u64, next_attempt: u32, error: BridgeError },
    /// There is no bridge: no factory is registered, or its last attempt
    /// failed with this error.
    Failed(BridgeError),
}

/// What came of a call through the manager.
#[derive(Debug)]
pub enum CallProgress {
    /// The call is over.
    Finished(Result<Json, BridgeError>),
    /// The bridge could not be made yet: the factory failed with `error`.
    /// After `delay_ms` milliseconds the call is to be resumed as attempt
    /// number `next_attempt`, with the parameters that are handed back.
    Backoff { delay_ms: u64, next_attempt: u32, params: Json, error: BridgeError },
}

/// Whether `failures` holds the failure of the bridge named `name` with
/// the error `error`.
pub open spec fn lists_failure(
    failures: Seq<(String, BridgeError)>,
    name: Seq<char>,
    error: BridgeError,
) -> bool {
    exists|i: int|
        0 <= i < failures.len() && (#[trigger] failures[i]).0@ == name && failures[i].1 == error
}

/// Whether the bridge `bridge`, named `name`, was shut down: it was asked
/// to, and if that failed, the failure is in `failures`.
pub open spec fn was_shut_down<B: Bridge>(
    bridge: B,
    name: Seq<char>,
    failures: Seq<(String, BridgeError)>,
) -> bool {
    exists|asked: &mut B, r: Result<(), BridgeError>|
        {
            &&& *asked == bridge
            &&& #[trigger] call_ensures(B::shutdown, (asked,), r)
            &&& r matches Err(e) ==> lists_failure(failures, name, e)
        }
}

/// A bridge that was shut down stays so when a further failure is noted.
proof fn lemma_shut_down_stays<B: Bridge>(
    bridge: B,
    name: Seq<char>,
    failures: Seq<(String, BridgeError)>,
    more: (String, BridgeError),
)
    requires
        was_shut_down(bridge, name, failures),
    ensures
        was_shut_down(bridge, name, failures.push(more)),
{
    let (asked, r) = choose|asked: &mut B, r: Result<(), BridgeError>|
        {
            &&& *asked == bridge
            &&& #[trigger] call_ensures(B::shutdown, (asked,), r)
            &&& r matches Err(e) ==> lists_failure(failures, name, e)
        };
    if let Err(e) = r {
        let i = choose|i: int|
            0 <= i < failures.len() && (#[trigger] failures[i]).0@ == name && failures[i].1 == e;
        assert(failures.push(more)[i] == failures[i]);
        assert(lists_failure(failures.push(more), name, e));
    }
    assert(call_ensures(B::shutdown, (asked,), r));
}

/// The advice for a name without factory.
pub open spec fn not_found_suggestion() -> Seq<char> {
    "Register a factory under this name before the bridge is called"@
}

/// Named factories of bridges and the bridges made from them.
#[verifier::reject_recursive_types(B)]
#[verifier::reject_recursive_types(F)]
pub struct BridgeManager<B: Bridge, F: Fn() -> Result<B, BridgeError>> {
    bridges: Registry<B>,
    factories: Registry<F>,
    max_retries: u32,
}

impl<B: Bridge, F: Fn() -> Result<B, BridgeError>> BridgeManager<B, F> {
    /// The bridges that there are, by name.
    pub closed spec fn bridges(&self) -> Map<Seq<char>, B> {
        self.bridges.map()
    }

    /// The factories that are registered, by name.
    pub closed spec fn factories(&self) -> Map<Seq<char>, F> {
        self.factories.map()
    }

    /// How often a factory is tried.
    pub closed spec fn max_retries(&self) -> u32 {
        self.max_retries
    }

    /// What holds of every manager: no name stands for two things, every
    /// factory can be called, and at least one attempt is allowed.
    pub closed spec fn wf(&self) -> bool {
        &&& self.bridges.wf()
        &&& self.factories.wf()
        &&& self.max_retries >= 1
        &&& forall|name: Seq<char>| #[trigger]
            self.factories.map().contains_key(name) ==> call_requires(
                self.factories.map()[name],
                (),
            )
    }

    /// Whether the two managers hold the same bridges but for the one named
    /// `name`.
    pub open spec fn same_bridges_but(&self, other: &Self, name: Seq<char>) -> bool {
        forall|k: Seq<char>|
            k != name ==> (#[trigger] self.bridges().contains_key(k)
                == other.bridges().contains_key(k)) && (self.bridges().contains_key(k)
                ==> self.bridges()[k] == other.bridges()[k])
    }

    /// A manager without factories and bridges, that tries a factory up to
    /// three times.
    pub fn new() -> (m: Self)
        ensures
            m.wf(),
            m.bridges() == Map::<Seq<char>, B>::empty(),
            m.factories() == Map::<Seq<char>, F>::empty(),
            m.max_retries() == DEFAULT_MAX_RETRIES,
    {
        BridgeManager {
            bridges: Registry::new(),
            factories: Registry::new(),
            max_retries: DEFAULT_MAX_RETRIES,
        }
    }

    /// The same manager with another number of attempts.
    pub fn with_max_retries(self, max_retries: u32) -> (m: Self)
        requires
            self.wf(),
            max_retries >= 1,
        ensures
            m.wf(),
            m.bridges() == self.bridges(),
            m.factories() == self.factories(),
            m.max_retries() == max_retries,
    {
        BridgeManager { bridges: self.bridges, factories: self.factories, max_retries }
    }

    /// Registers `factory` under `name`, in place of the factory that was
    /// registered under it, if one was.
    pub fn register(&mut self, name: &str, factory: F)
        requires
            old(self).wf(),
            call_requires(factory, ()),
        ensures
            final(self).wf(),
            final(self).factories() == old(self).factories().insert(name@, factory),
            final(self).bridges() == old(self).bridges(),
            final(self).max_retries() == old(self).max_retries(),
    {
        self.factories.insert(String::from_str(name), factory);
    }

    /// How often a factory is tried.
    pub fn retry_limit(&self) -> (n: u32)
        ensures
            n == self.max_retries(),
    {
        self.max_retries
    }

    /// The bridge named `name`, if there is one.
    pub fn bridge(&self, name: &str) -> (r: Option<&B>)
        requires
            self.wf(),
        ensures
            r is Some <==> self.bridges().contains_key(name@),
            r matches Some(b) ==> *b == self.bridges()[name@],
    {
        self.bridges.get(name)
    }

    /// The number of bridges that there are.
    pub fn bridge_count(&self) -> (n: usize)
        requires
            self.wf(),
        ensures
            n == self.bridges().dom().len(),
    {
        self.bridges.len()
    }

    /// The number of factories that are registered.
    pub fn factory_count(&self) -> (n: usize)
        requires
            self.wf(),
        ensures
            n == self.factories().dom().len(),
    {
        self.factories.len()
    }

    /// Whether there is a bridge named `name` that says it is healthy:
    /// `false` without such a bridge, and else what the bridge answers.
    pub fn is_healthy(&self, name: &str) -> (r: bool)
        requires
            self.wf(),
        ensures
            !self.bridges().contains_key(name@) ==> !r,
            self.bridges().contains_key(name@) ==> call_ensures(
                B::is_healthy,
                (&self.bridges()[name@],),
                r,
            ),
    {
        match self.bridges.get(name) {
            Some(bridge) => bridge.is_healthy(),
            None => false,
        }
    }

    /// Makes one attempt, number `attempt`, to make the bridge named
    /// `name`.
    ///
    /// Without a factory of that name it fails with "bridge not found", and
    /// nothing is called. Else the factory is called once. The bridge that
    /// it made is kept under the name. Where it failed,
    /// [`retry_after_failure`] decides: a pause and a further attempt, or
    /// failure with the error of this attempt.
    pub fn retry_create(&mut self, name: &str, attempt: u32) -> (r: Acquire)
        requires
            old(self).wf(),
        ensures
            final(self).wf(),
            final(self).factories() == old(self).factories(),
            final(self).max_retries() == old(self).max_retries(),
            !old(self).factories().contains_key(name@) ==> (r matches Acquire::Failed(
                BridgeError::BridgeNotFound { name: n, suggestion },
            ) && n@ == name@ && suggestion@ == not_found_suggestion()),
            match r {
                Acquire::Ready => {
                    &&& old(self).factories().contains_key(name@)
                    &&& final(self).bridges().contains_key(name@)
                    &&& final(self).bridges() == old(self).bridges().insert(
                        name@,
                        final(self).bridges()[name@],
                    )
                    &&& call_ensures(
                        old(self).factories()[name@],
                        (),
                        Ok::<B, BridgeError>(final(self).bridges()[name@]),
                    )
                },
                Acquire::Backoff { delay_ms, next_attempt, error } => {
                    &&& old(self).factories().contains_key(name@)
                    &&& final(self).bridges() == old(self).bridges()
                    &&& retry_after_failure(attempt, old(self).max_retries())
                        == (RetryDecision::Backoff { delay_ms, next_attempt })
                    &&& call_ensures(
                        old(self).factories()[name@],
                        (),
                        Err::<B, BridgeError>(error),
                    )
                },
                Acquire::Failed(e) => {
                    &&& final(self).bridges() == old(self).bridges()
                    &&& old(self).factories().contains_key(name@) ==> {
                        &&& retry_after_failure(attempt, old(self).max_retries()) is GiveUp
                        &&& call_ensures(
                            old(self).factories()[name@],
                            (),
                            Err::<B, BridgeError>(e),
                        )
                    }
                },
            },
    {
        let outcome = match self.factories.get(name) {
            Some(factory) => factory(),
            None => {
                return Acquire::Failed(
                    BridgeError::BridgeNotFound {
                        name: String::from_str(name),
                        suggestion: String::from_str(
                            "Register a factory under this name before the bridge is called",
                        ),
                    },
                );
            },
        };
        match outcome {
            Ok(bridge) => {
                self.bridges.insert(String::from_str(name), bridge);
                Acquire::Ready
            },
            Err(e) => match after_failed_attempt(attempt, self.max_retries) {
                RetryDecision::Backoff { delay_ms, next_attempt } => Acquire::Backoff {
                    delay_ms,
                    next_attempt,
                    error: e,
                },
                RetryDecision::GiveUp => Acquire::Failed(e),
            },
        }
    }

    /// Gets the bridge named `name` ready.
    ///
    /// A bridge of that name that says it is healthy is left as it is. One
    /// that does not is dropped. Where there is none then, the first attempt
    /// to make one is made, as [`BridgeManager::retry_create`] says.
    pub fn get_or_create_bridge(&mut self, name: &str) -> (r: Acquire)
        requires
            old(self).wf(),
        ensures
            final(self).wf(),
            final(self).factories() == old(self).factories(),
            final(self).max_retries() == old(self).max_retries(),
            final(self).same_bridges_but(old(self), name@),
            !old(self).bridges().contains_key(name@) && !old(self).factories().contains_key(name@)
                ==> (r matches Acquire::Failed(BridgeError::BridgeNotFound { name: n, suggestion })
                && n@ == name@ && suggestion@ == not_found_suggestion() && final(self).bridges()
                == old(self).bridges()),
            old(self).bridges().contains_key(name@) ==> {
                ||| {
                    &&& call_ensures(B::is_healthy, (&old(self).bridges()[name@],), true)
                    &&& r is Ready
                    &&& final(self).bridges() == old(self).bridges()
                }
                ||| {
                    &&& call_ensures(B::is_healthy, (&old(self).bridges()[name@],), false)
                    &&& r is Ready ==> old(self).factories().contains_key(name@) && call_ensures(
                        old(self).factories()[name@],
                        (),
                        Ok::<B, BridgeError>(final(self).bridges()[name@]),
                    )
                }
            },
            match r {
                Acquire::Ready => {
                    &&& final(self).bridges().contains_key(name@)
                    &&& final(self).bridges() == old(self).bridges() || (old(
                        self,
                    ).factories().contains_key(name@) && call_ensures(
                        old(self).factories()[name@],
                        (),
                        Ok::<B, BridgeError>(final(self).bridges()[name@]),
                    ))
                },
                Acquire::Backoff { delay_ms, next_attempt, error } => {
                    &&& old(self).factories().contains_key(name@)
                    &&& !final(self).bridges().contains_key(name@)
                    &&& retry_after_failure(1, old(self).max_retries())
                        == (RetryDecision::Backoff { delay_ms, next_attempt })
                    &&& call_ensures(
                        old(self).factories()[name@],
                        (),
                        Err::<B, BridgeError>(error),
                    )
                },
                Acquire::Failed(e) => {
                    &&& !final(self).bridges().contains_key(name@)
                    &&& old(self).factories().contains_key(name@) ==> {
                        &&& retry_after_failure(1, old(self).max_retries()) is GiveUp
                        &&& call_ensures(
                            old(self).factories()[name@],
                            (),
                            Err::<B, BridgeError>(e),
                        )
                    }
                },
            },
    {
        let healthy = match self.bridges.get(name) {
            Some(bridge) => Some(bridge.is_healthy()),
            None => None,
        };
        match healthy {
            Some(true) => {
                return Acquire::Ready;
            },
            Some(false) => {
                let _ = self.bridges.remove(name);
            },
            None => {
                assert(self.bridges.map().remove(name@) =~= self.bridges.map());
            },
        }
        self.retry_create(name, 1)
    }

    /// Calls `method` of the bridge named `name`, which is there. The
    /// result is that of the call on the bridge, and the bridge is kept
    /// under its name as the call left it.
    fn dispatch(&mut self, name: &str, method: &str, params: Json) -> (r: Result<Json, BridgeError>)
        requires
            old(self).wf(),
            old(self).bridges().contains_key(name@),
        ensures
            final(self).wf(),
            final(self).factories() == old(self).factories(),
            final(self).max_retries() == old(self).max_retries(),
            final(self).same_bridges_but(old(self), name@),
            final(self).bridges().contains_key(name@),
            final(self).bridges() == old(self).bridges().insert(
                name@,
                final(self).bridges()[name@],
            ),
            exists|bridge: &mut B|
                *bridge == old(self).bridges()[name@]
                    && *final(bridge) == final(self).bridges()[name@]
                    && call_ensures(B::call, (bridge, method, params), r),
    {
        match self.bridges.remove(name) {
            Some(mut bridge) => {
                let r = bridge.call(method, params);
                self.bridges.insert(String::from_str(name), bridge);
                r
            },
            None => Err(BridgeError::NotInitialized),
        }
    }

    /// Calls `method` of the bridge named `name`, which is made first if
    /// there is none that is healthy.
    ///
    /// Under a name without bridge and without factory the call ends with
    /// "bridge not found", and nothing else happens. Where the bridge cannot
    /// be made yet, the call is to be resumed after a pause with
    /// [`BridgeManager::resume_call`]. Where it cannot be made at all, the
    /// call ends with the error of the last attempt.
    pub fn call(&mut self, name: &str, method: &str, params: Json) -> (r: CallProgress)
        requires
            old(self).wf(),
        ensures
            final(self).wf(),
            final(self).factories() == old(self).factories(),
            final(self).max_retries() == old(self).max_retries(),
            final(self).same_bridges_but(old(self), name@),
            !old(self).bridges().contains_key(name@) && !old(self).factories().contains_key(name@)
                ==> (r matches CallProgress::Finished(
                Err(BridgeError::BridgeNotFound { name: n, suggestion }),
            ) && n@ == name@ && suggestion@ == not_found_suggestion() && final(self).bridges()
                == old(self).bridges()),
            r matches CallProgress::Backoff {
                delay_ms,
                next_attempt,
                params: handed_back,
                error,
            } ==> {
                &&& handed_back == params
                &&& old(self).factories().contains_key(name@)
                &&& !final(self).bridges().contains_key(name@)
                &&& retry_after_failure(1, old(self).max_retries())
                    == (RetryDecision::Backoff { delay_ms, next_attempt })
                &&& call_ensures(old(self).factories()[name@], (), Err::<B, BridgeError>(error))
            },
            old(self).bridges().contains_key(name@) ==> {
                ||| call_ensures(B::is_healthy, (&old(self).bridges()[name@],), false)
                ||| {
                    &&& call_ensures(B::is_healthy, (&old(self).bridges()[name@],), true)
                    &&& final(self).bridges().contains_key(name@)
                    &&& r matches CallProgress::Finished(outcome)
                    &&& exists|bridge: &mut B|
                        {
                            &&& *bridge == old(self).bridges()[name@]
                            &&& *final(bridge) == final(self).bridges()[name@]
                            &&& #[trigger] call_ensures(B::call, (bridge, method, params), outcome)
                        }
                }
            },
            r matches CallProgress::Finished(outcome) ==> {
                if final(self).bridges().contains_key(name@) {
                    exists|bridge: &mut B|
                        {
                            &&& *final(bridge) == final(self).bridges()[name@]
                            &&& #[trigger] call_ensures(B::call, (bridge, method, params), outcome)
                            &&& {
                                ||| {
                                    &&& old(self).bridges().contains_key(name@)
                                    &&& *bridge == old(self).bridges()[name@]
                                    &&& call_ensures(B::is_healthy, (&*bridge,), true)
                                }
                                ||| {
                                    &&& old(self).factories().contains_key(name@)
                                    &&& call_ensures(
                                        old(self).factories()[name@],
                                        (),
                                        Ok::<B, BridgeError>(*bridge),
                                    )
                                }
                            }
                        }
                } else {
                    outcome matches Err(e) && (old(self).factories().contains_key(name@) ==> {
                        &&& retry_after_failure(1, old(self).max_retries()) is GiveUp
                        &&& call_ensures(old(self).factories()[name@], (), Err::<B, BridgeError>(e))
                    })
                }
            },
    {
        match self.get_or_create_bridge(name) {
            Acquire::Ready => CallProgress::Finished(self.dispatch(name, method, params)),
            Acquire::Backoff { delay_ms, next_attempt, error } => CallProgress::Backoff {
                delay_ms,
                next_attempt,
                params,
                error,
            },
            Acquire::Failed(e) => CallProgress::Finished(Err(e)),
        }
    }

    /// Goes on with a call after the pause that it asked for: makes attempt
    /// number `attempt` to make the bridge, and calls it if it is there
    /// then.
    pub fn resume_call(&mut self, name: &str, method: &str, params: Json, attempt: u32) -> (r:
        CallProgress)
        requires
            old(self).wf(),
        ensures
            final(self).wf(),
            final(self).factories() == old(self).factories(),
            final(self).max_retries() == old(self).max_retries(),
            final(self).same_bridges_but(old(self), name@),
            !old(self).factories().contains_key(name@) ==> (r matches CallProgress::Finished(
                Err(BridgeError::BridgeNotFound { name: n, suggestion }),
            ) && n@ == name@ && suggestion@ == not_found_suggestion() && final(self).bridges()
                == old(self).bridges()),
            r matches CallProgress::Backoff {
                delay_ms,
                next_attempt,
                params: handed_back,
                error,
            } ==> {
                &&& handed_back == params
                &&& old(self).factories().contains_key(name@)
                &&& final(self).bridges() == old(self).bridges()
                &&& retry_after_failure(attempt, old(self).max_retries())
                    == (RetryDecision::Backoff { delay_ms, next_attempt })
                &&& call_ensures(old(self).factories()[name@], (), Err::<B, BridgeError>(error))
            },
            r matches CallProgress::Finished(outcome) ==> {
                ||| exists|bridge: &mut B|
                    {
                        &&& old(self).factories().contains_key(name@)
                        &&& call_ensures(
                            old(self).factories()[name@],
                            (),
                            Ok::<B, BridgeError>(*bridge),
                        )
                        &&& final(self).bridges() == old(self).bridges().insert(
                            name@,
                            *final(bridge),
                        )
                        &&& #[trigger] call_ensures(B::call, (bridge, method, params), outcome)
                    }
                ||| {
                    &&& outcome matches Err(e)
                    &&& final(self).bridges() == old(self).bridges()
                    &&& old(self).factories().contains_key(name@) ==> {
                        &&& retry_after_failure(attempt, old(self).max_retries()) is GiveUp
                        &&& call_ensures(old(self).factories()[name@], (), Err::<B, BridgeError>(e))
                    }
                }
            },
    {
        match self.retry_create(name, attempt) {
            Acquire::Ready => CallProgress::Finished(self.dispatch(name, method, params)),
            Acquire::Backoff { delay_ms, next_attempt, error } => CallProgress::Backoff {
                delay_ms,
                next_attempt,
                params,
                error,
            },
            Acquire::Failed(e) => CallProgress::Finished(Err(e)),
        }
    }

    /// Shuts the bridge named `name` down and drops it. Without such a
    /// bridge nothing happens.
    pub fn shutdown_bridge(&mut self, name: &str) -> (r: Result<(), BridgeError>)
        requires
            old(self).wf(),
        ensures
            final(self).wf(),
            final(self).factories() == old(self).factories(),
            final(self).max_retries() == old(self).max_retries(),
            final(self).bridges() == old(self).bridges().remove(name@),
            !old(self).bridges().contains_key(name@) ==> r is Ok,
            old(self).bridges().contains_key(name@) ==> exists|bridge: &mut B|
                *bridge == old(self).bridges()[name@] && call_ensures(B::shutdown, (bridge,), r),
    {
        match self.bridges.remove(name) {
            Some(mut bridge) => bridge.shutdown(),
            None => Ok(()),
        }
    }

    /// Shuts every bridge down and drops it: each bridge is asked to shut
    /// down, and none is left. A bridge that fails to shut down does not
    /// keep the others from it: the failures are returned, each with the
    /// name of its bridge.
    pub fn shutdown_all(&mut self) -> (failures: Vec<(String, BridgeError)>)
        requires
            old(self).wf(),
        ensures
            final(self).wf(),
            final(self).factories() == old(self).factories(),
            final(self).max_retries() == old(self).max_retries(),
            final(self).bridges() == Map::<Seq<char>, B>::empty(),
            failures.len() <= old(self).bridges().dom().len(),
            forall|i: int|
                0 <= i < failures.len() ==> old(self).bridges().contains_key(
                    (#[trigger] failures[i]).0@,
                ) && exists|bridge: &mut B|
                    *bridge == old(self).bridges()[failures[i].0@] && call_ensures(
                        B::shutdown,
                        (bridge,),
                        Err::<(), BridgeError>(failures[i].1),
                    ),
            forall|k: Seq<char>|
                old(self).bridges().contains_key(k) ==> #[trigger] was_shut_down(
                    old(self).bridges()[k],
                    k,
                    failures@,
                ),
    {
        let mut failures: Vec<(String, BridgeError)> = Vec::new();
        proof {
            self.bridges.lemma_finite();
        }
        let ghost total = self.bridges.map().dom().len();
        loop
            invariant
                self.wf(),
                self.factories() == old(self).factories(),
                self.max_retries() == old(self).max_retries(),
                self.bridges.map().dom().finite(),
                old(self).bridges().dom().finite(),
                total == old(self).bridges().dom().len(),
                failures.len() + self.bridges.map().dom().len() <= total,
                forall|k: Seq<char>| #[trigger]
                    self.bridges.map().contains_key(k) ==> old(self).bridges().contains_key(k)
                        && self.bridges.map()[k] == old(self).bridges()[k],
                forall|i: int|
                    0 <= i < failures.len() ==> old(self).bridges().contains_key(
                        (#[trigger] failures[i]).0@,
                    ) && exists|bridge: &mut B|
                        *bridge == old(self).bridges()[failures[i].0@] && call_ensures(
                            B::shutdown,
                            (bridge,),
                            Err::<(), BridgeError>(failures[i].1),
                        ),
                forall|k: Seq<char>|
                    old(self).bridges().contains_key(k) && !self.bridges.map().contains_key(k)
                        ==> #[trigger] was_shut_down(old(self).bridges()[k], k, failures@),
            ensures
                self.bridges.map().dom().len() == 0,
            decreases self.bridges.map().dom().len(),
        {
            let ghost noted = failures@;
            let ghost left = self.bridges.map();
            match self.bridges.take_any() {
                Some((name, mut bridge)) => {
                    let ghost asked = bridge;
                    match bridge.shutdown() {
                        Ok(()) => {
                            assert(was_shut_down(asked, name@, failures@));
                        },
                        Err(e) => {
                            failures.push((name, e));
                            assert(failures@[failures.len() - 1].0@ == name@);
                            assert(lists_failure(failures@, name@, e));
                            assert(was_shut_down(asked, name@, failures@));
                            assert forall|k: Seq<char>|
                                old(self).bridges().contains_key(k) && !left.contains_key(
                                    k,
                                ) implies #[trigger] was_shut_down(
                                old(self).bridges()[k],
                                k,
                                failures@,
                            ) by {
                                lemma_shut_down_stays(
                                    old(self).bridges()[k],
                                    k,
                                    noted,
                                    (name, e),
                                );
                            }
                        },
                    }
                },
                None => {
                    break;
                },
            }
        }
        assert(self.bridges.map() =~= Map::<Seq<char>, B>::empty());
        failures
    }
}

} // verus!
