//! The JSON-RPC client: one call at a time over a transport.

use crate::bridge::error::BridgeError;
use crate::bridge::rpc::types::{
    RequestId, RequestIdView, RpcErrorResponse, RpcRequest, RpcResponse, RpcSuccessResponse,
};
use crate::bridge::transport::stdio::DEFAULT_TIMEOUT_MS;
use crate::bridge::transport::Transport;
use crate::json::Json;
use vstd::prelude::*;

verus! {

/// A client that calls methods of the peer and waits for each answer.
pub struct RpcClient<T: Transport> {
    transport: T,
    timeout_ms: u64,
    next_id: u64,
}

/// The identifier that a client whose counter stands at `counter` gives to
/// its next request, and where the counter stands afterwards.
pub open spec fn allocate(counter: nat) -> (RequestIdView, nat) {
    (RequestIdView::Number(counter as int), counter + 1)
}

/// The identifiers of `n` requests in a row, from a counter at `counter`.
pub open spec fn allocated_ids(counter: nat, n: nat) -> Seq<RequestIdView>
    decreases n,
{
    if n == 0 {
        Seq::empty()
    } else {
        seq![allocate(counter).0] + allocated_ids(allocate(counter).1, (n - 1) as nat)
    }
}

/// The counter of a new client.
pub open spec fn first_counter() -> nat {
    1
}

/// The requests of a client are numbered 1, 2, 3 and so on, in the order in
/// which they are made: the `i`-th of `n` requests of a new client has the
/// identifier `i + 1`, counting from zero. No identifier is given twice.
pub proof fn lemma_ids_count_up(n: nat)
    ensures
        allocated_ids(first_counter(), n).len() == n,
        forall|i: int|
            0 <= i < n ==> #[trigger] allocated_ids(first_counter(), n)[i]
                == RequestIdView::Number(i + 1),
        forall|i: int, j: int|
            0 <= i < j < n ==> allocated_ids(first_counter(), n)[i] != allocated_ids(
                first_counter(),
                n,
            )[j],
{
    lemma_ids_from(first_counter(), n);
}

/// The identifiers from any counter count up from it.
pub proof fn lemma_ids_from(counter: nat, n: nat)
    ensures
        allocated_ids(counter, n).len() == n,
        forall|i: int|
            0 <= i < n ==> #[trigger] allocated_ids(counter, n)[i] == RequestIdView::Number(
                counter + i,
            ),
    decreases n,
{
    if n > 0 {
        lemma_ids_from(counter + 1, (n - 1) as nat);
        let rest = allocated_ids(counter + 1, (n - 1) as nat);
        assert forall|i: int| 0 <= i < n implies #[trigger] allocated_ids(counter, n)[i]
            == RequestIdView::Number(counter + i) by {
            if i > 0 {
                assert(allocated_ids(counter, n)[i] == rest[i - 1]);
            }
        }
    }
}

/// What a response means to the request with the identifier `id`.
pub open spec fn is_resolution(
    id: RequestIdView,
    response: RpcResponse,
    r: Result<Json, BridgeError>,
) -> bool {
    if response.spec_id()@ != id {
        r matches Err(BridgeError::InvalidResponseId { expected, actual }) && expected@ == id
            && actual@ == response.spec_id()@
    } else {
        match response {
            RpcResponse::Success(s) => r == Ok::<Json, BridgeError>(s.result),
            RpcResponse::Error(e) => r == Err::<Json, BridgeError>(
                BridgeError::RpcError {
                    code: e.error.code,
                    message: e.error.message,
                    data: e.error.data,
                },
            ),
        }
    }
}

impl<T: Transport> RpcClient<T> {
    /// The number of the next request.
    pub closed spec fn counter(&self) -> u64 {
        self.next_id
    }

    /// How long the client waits for a response, in milliseconds.
    pub closed spec fn timeout(&self) -> u64 {
        self.timeout_ms
    }

    /// The transport of the client.
    pub closed spec fn transport(&self) -> T {
        self.transport
    }

    /// A client over `transport`. Its first request has the identifier 1.
    pub fn new(transport: T) -> (c: RpcClient<T>)
        ensures
            c.counter() == first_counter(),
            c.timeout() == DEFAULT_TIMEOUT_MS,
            c.transport() == transport,
    {
        RpcClient { transport, timeout_ms: DEFAULT_TIMEOUT_MS, next_id: 1 }
    }

    /// The same client with another timeout.
    pub fn with_timeout(self, timeout_ms: u64) -> (c: RpcClient<T>)
        ensures
            c.counter() == self.counter(),
            c.timeout() == timeout_ms,
            c.transport() == self.transport(),
    {
        RpcClient { transport: self.transport, timeout_ms, next_id: self.next_id }
    }

    /// How long the client waits for a response, in milliseconds.
    pub fn timeout_ms(&self) -> (ms: u64)
        ensures
            ms == self.timeout(),
    {
        self.timeout_ms
    }

    /// The number of the next request.
    pub fn next_id(&self) -> (n: u64)
        ensures
            n == self.counter(),
    {
        self.next_id
    }

    /// The request for a call of `method`: it takes the next identifier,
    /// which no other request of this client has or will have.
    pub fn begin_call(&mut self, method: &str, params: Json) -> (request: RpcRequest)
        requires
            old(self).counter() < u64::MAX,
        ensures
            (request.id@, final(self).counter() as nat) == allocate(old(self).counter() as nat),
            request.jsonrpc@ == "2.0"@,
            request.method@ == method@,
            request.params == params,
            final(self).timeout() == old(self).timeout(),
            final(self).transport() == old(self).transport(),
    {
        let id = self.next_id;
        self.next_id = self.next_id + 1;
        RpcRequest::new(RequestId::Number(id as i128), method, params)
    }

    /// What `response` means to the request with the identifier `id`. A
    /// response to another request is an error that names both identifiers.
    /// Else a success gives its result, and an error of the peer is handed
    /// on with its code, message and data.
    pub fn resolve(id: &RequestId, response: RpcResponse) -> (r: Result<Json, BridgeError>)
        ensures
            is_resolution(id@, response, r),
    {
        if !response.id().same_as(id) {
            let actual = response.id().duplicate();
            return Err(BridgeError::InvalidResponseId { expected: id.duplicate(), actual });
        }
        match response {
            RpcResponse::Success(RpcSuccessResponse { result, .. }) => Ok(result),
            RpcResponse::Error(RpcErrorResponse { error, .. }) => Err(
                BridgeError::RpcError {
                    code: error.code,
                    message: error.message,
                    data: error.data,
                },
            ),
        }
    }

    /// Calls `method` of the peer with `params` and waits for the answer.
    ///
    /// The request takes the next identifier whatever comes of the call. It
    /// is sent, and then one response is received and held against it, as
    /// [`RpcClient::resolve`] says. An error of the transport ends the call
    /// with that error.
    pub fn call(&mut self, method: &str, params: Json) -> (r: Result<Json, BridgeError>)
        requires
            old(self).counter() < u64::MAX,
        ensures
            final(self).counter() == old(self).counter() + 1,
            final(self).timeout() == old(self).timeout(),
            exists|request: RpcRequest, sending: &mut T, sent: Result<(), BridgeError>|
                {
                    &&& request.id@ == allocate(old(self).counter() as nat).0
                    &&& request.jsonrpc@ == "2.0"@
                    &&& request.method@ == method@
                    &&& request.params == params
                    &&& *sending == old(self).transport()
                    &&& #[trigger] call_ensures(T::send, (sending, &request), sent)
                    &&& match sent {
                        Err(e) => r == Err::<Json, BridgeError>(e) && final(self).transport()
                            == *final(sending),
                        Ok(_) => exists|receiving: &mut T, received: Result<RpcResponse, BridgeError>|
                            {
                                &&& *receiving == *final(sending)
                                &&& final(self).transport() == *final(receiving)
                                &&& #[trigger] call_ensures(T::receive, (receiving,), received)
                                &&& match received {
                                    Err(e) => r == Err::<Json, BridgeError>(e),
                                    Ok(response) => is_resolution(request.id@, response, r),
                                }
                            },
                    }
                },
    {
        let request = self.begin_call(method, params);
        match self.transport.send(&request) {
            Ok(()) => {},
            Err(e) => {
                return Err(e);
            },
        }
        let response = match self.transport.receive() {
            Ok(response) => response,
            Err(e) => {
                return Err(e);
            },
        };
        Self::resolve(&request.id, response)
    }

    /// Whether the transport of the client is closed: what the transport
    /// itself answers.
    pub fn is_closed(&self) -> (closed: bool)
        ensures
            call_ensures(T::is_closed, (&self.transport(),), closed),
    {
        self.transport.is_closed()
    }

    /// Closes the transport and gives up the client. The result is that of
    /// closing the transport.
    pub fn close(self) -> (r: Result<(), BridgeError>)
        ensures
            exists|transport: &mut T|
                *transport == self.transport() && call_ensures(T::close, (transport,), r),
    {
        let mut transport = self.transport;
        transport.close()
    }
}

} // verus!
