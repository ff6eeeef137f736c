//! The dispatcher: an ordered chain of services tried one at a time,
//! first match wins, every request gets a verdict.

use vstd::prelude::*;

use crate::error::Error;
use crate::json;
use crate::request::Request;
use crate::response::Response;

verus! {

/// Trait for services that may handle a request.
///
/// `T` is the type of the caller-supplied context shared by every service
/// during one dispatch.
pub trait Service<T> {
    /// Service implementations are invoked with a request and should reply
    /// with a response if the method name is one handled by the service.
    ///
    /// If the method name for the request is not handled by the service it
    /// should return `Ok(None)`.
    fn handle(&self, request: &mut Request, ctx: &T) -> (r: Result<Option<Response>, Error>);
}

/// The verdict of a service chain, given the outcomes its services
/// returned in order: the first decisive outcome — a response or a
/// failure — wins, and a chain whose outcomes are all `Ok(None)` leaves
/// `Ok(None)`, meaning no service matched.
pub open spec fn chain_verdict(outcomes: Seq<Result<Option<Response>, Error>>) -> Result<
    Option<Response>,
    Error,
>
    decreases outcomes.len(),
{
    if outcomes.len() == 0 {
        Ok(None)
    } else {
        match outcomes[0] {
            Ok(None) => chain_verdict(outcomes.drop_first()),
            Ok(Some(response)) => Ok(Some(response)),
            Err(e) => Err(e),
        }
    }
}

/// A chain verdict ignores any prefix of "did not handle" outcomes.
proof fn lemma_chain_skip(outcomes: Seq<Result<Option<Response>, Error>>, k: int)
    requires
        0 <= k <= outcomes.len(),
        forall|j: int| 0 <= j < k ==> outcomes[j] == Ok::<Option<Response>, Error>(None),
    ensures
        chain_verdict(outcomes) == chain_verdict(outcomes.skip(k)),
    decreases k,
{
    if k > 0 {
        assert(outcomes.drop_first() =~= outcomes.skip(1));
        lemma_chain_skip(outcomes.drop_first(), k - 1);
        assert(outcomes.drop_first().skip(k - 1) =~= outcomes.skip(k));
    } else {
        assert(outcomes.skip(0) =~= outcomes);
    }
}

/// First match wins: if every service before position `i` declined and the
/// service at `i` was decisive, the chain's verdict is exactly that
/// outcome — and it is already the verdict of the chain cut off right
/// after `i`, so the outcomes of later services cannot change it.
pub proof fn lemma_first_match_wins(
    outcomes: Seq<Result<Option<Response>, Error>>,
    i: int,
)
    requires
        0 <= i < outcomes.len(),
        forall|j: int| 0 <= j < i ==> outcomes[j] == Ok::<Option<Response>, Error>(None),
        outcomes[i] != Ok::<Option<Response>, Error>(None),
    ensures
        chain_verdict(outcomes) == outcomes[i],
        chain_verdict(outcomes) == chain_verdict(outcomes.take(i + 1)),
{
    lemma_chain_skip(outcomes, i);
    assert(outcomes.skip(i)[0] == outcomes[i]);
    lemma_chain_skip(outcomes.take(i + 1), i);
    assert(outcomes.take(i + 1).skip(i)[0] == outcomes[i]);
}

/// Serve requests.
///
/// Requests are passed to each service in turn and the first service that
/// returns a response wins.
#[verifier::reject_recursive_types(T)]
pub struct Server<'a, T> {
    /// Services that the server should invoke for every request.
    services: Vec<&'a Box<dyn Service<T>>>,
}

impl<'a, T> Server<'a, T> {
    /// The ordered chain of services the server consults, in dispatch
    /// priority: list order decides which service answers first.
    pub closed spec fn chain(&self) -> Seq<&'a Box<dyn Service<T>>> {
        self.services@
    }

    /// Create a new server holding exactly the given services, in the
    /// given order. No service is invoked during construction.
    pub fn new(services: Vec<&'a Box<dyn Service<T>>>) -> (r: Self)
        ensures
            r.chain() == services@,
    {
        Self { services }
    }

    /// Call services in order and return the first response message.
    ///
    /// If no services match the incoming request this returns the
    /// `Error::MethodNotFound` response for it. The returned ghost
    /// sequence records the outcome of every service that was invoked:
    /// the result is always that sequence's verdict under the first-match
    /// rule, every recorded outcome but the last was "did not handle" —
    /// services past the first decisive one are never invoked — and a
    /// no-match verdict means the whole chain was consulted, so on an
    /// empty chain the method-not-found synthesis is forced.
    pub(crate) fn handle(&self, request: &mut Request, ctx: &T) -> (r: (
        Result<Response, Error>,
        Ghost<Seq<Result<Option<Response>, Error>>>,
    ))
        ensures
            match chain_verdict(r.1@) {
                Ok(Some(response)) => r.0 == Ok::<Response, Error>(response),
                Ok(None) => r.0 matches Ok(response) && response.is_error_for(
                    final(request).id,
                    Error::MethodNotFound { id: final(request).id, name: final(request).method },
                ),
                Err(e) => r.0 == Err::<Response, Error>(e),
            },
            forall|j: int| 0 <= j < r.1@.len() - 1 ==> r.1@[j] == Ok::<Option<Response>, Error>(
                None,
            ),
            r.1@.len() <= self.chain().len(),
            chain_verdict(r.1@) == Ok::<Option<Response>, Error>(None) ==> r.1@.len()
                == self.chain().len(),
            self.chain().len() == 0 ==> *final(request) == *old(request),
    {
        let ghost mut observed: Seq<Result<Option<Response>, Error>> = Seq::empty();
        let mut i: usize = 0;
        while i < self.services.len()
            invariant
                i <= self.services@.len(),
                observed.len() == i as int,
                self.services@.len() == 0 ==> *request == *old(request),
                forall|j: int| 0 <= j < observed.len() ==> observed[j] == Ok::<
                    Option<Response>,
                    Error,
                >(None),
            decreases self.services@.len() - i,
        {
            let service = self.services[i];
            let outcome = service.handle(request, ctx);
            proof {
                observed = observed.push(outcome);
                lemma_chain_skip(observed, i as int);
                assert(observed.skip(i as int)[0] == outcome);
            }
            match outcome {
                Ok(Some(response)) => {
                    return (Ok(response), Ghost(observed));
                },
                Err(e) => {
                    return (Err(e), Ghost(observed));
                },
                Ok(None) => {},
            }
            i += 1;
        }
        proof {
            lemma_chain_skip(observed, observed.len() as int);
        }
        let err = Error::MethodNotFound {
            name: request.method.clone(),
            id: json::clone_opt_value(&request.id),
        };
        (Ok(Response::from_request_error(request, &err)), Ghost(observed))
    }

    /// Infallible service handler, errors are automatically converted to
    /// responses.
    ///
    /// If a request was a notification (no id field) and its outcome was
    /// successful, this yields `None`: the call was fire-and-forget. A
    /// failure still yields an error response, which the caller may decide
    /// to discard; only successful responses are suppressed.
    pub fn serve(&self, request: &mut Request, ctx: &T) -> (r: Option<Response>)
        ensures
            r matches Some(response) ==> response.error is Some || response.id is Some,
            self.chain().len() == 0 ==> (r matches Some(response) && response.is_error_for(
                old(request).id,
                Error::MethodNotFound { id: old(request).id, name: old(request).method },
            ) && *final(request) == *old(request)),
    {
        let (outcome, _observed) = self.handle(request, ctx);
        finalize(outcome, request)
    }
}

/// Notification suppression: turn the verdict of a dispatch into what is
/// handed back to the transport. A successful response is returned only
/// if it reports an error or carries an id; a failure always becomes an
/// error response echoing the request's id — absent for a notification.
pub fn finalize(outcome: Result<Response, Error>, request: &Request) -> (r: Option<Response>)
    ensures
        match outcome {
            Ok(response) => r == (if response.error is Some || response.id is Some {
                Some(response)
            } else {
                None::<Response>
            }),
            Err(e) => r matches Some(response) && response.is_error_for(request.id, e),
        },
{
    match outcome {
        Ok(response) => {
            if response.error().is_some() || response.id().is_some() {
                Some(response)
            } else {
                None
            }
        },
        Err(e) => Some(Response::from_request_error(request, &e)),
    }
}

} // verus!
