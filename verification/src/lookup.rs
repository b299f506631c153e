//! The course of a lookup against a web API, optionally behind a cache:
//! the decisions between the awaits, as a state machine that the
//! application drives by reporting what each awaited step produced.

use vstd::prelude::*;

verus! {

/// Whether an HTTP status code reports success (200 to 299, as
/// `StatusCode::is_success` defines it).
pub open spec fn success_status(code: u16) -> bool {
    200 <= code <= 299
}

/// Whether an HTTP status code reports success.
pub fn is_success(code: u16) -> (b: bool)
    ensures
        b == success_status(code),
{
    200 <= code && code <= 299
}

/// How far a lookup has come.
#[derive(Debug, Clone, Copy, PartialEq, Eq)]
pub enum Stage {
    /// Nothing has happened yet.
    Start,
    /// Waiting for the cache's answer.
    AwaitCache,
    /// Waiting for the API's status.
    AwaitResponse,
    /// Waiting for the decoded body.
    AwaitBody,
    /// Waiting for the cache to take the value.
    AwaitStore,
    /// The lookup has its result.
    Finished,
}

/// What the application reports back after doing an action.
#[derive(Debug)]
pub enum Event<T> {
    /// The lookup is asked for.
    Begin,
    /// The cache answered, with the value it holds if any.
    CacheAnswer(Option<T>),
    /// The API answered with this HTTP status.
    Status(u16),
    /// The body of a successful answer, decoded.
    Body(T),
    /// The cache took this value.
    Stored(T),
}

/// Why a lookup failed.
#[derive(Debug, Clone, Copy, PartialEq, Eq)]
pub enum LookupError {
    /// The API answered with a status that is not a success.
    Status(u16),
}

/// What the application is to do next.
#[derive(Debug)]
pub enum Action<T> {
    /// Ask the cache for the value.
    QueryCache,
    /// Send the request to the API.
    SendRequest,
    /// Read and decode the answer's body.
    ReadBody,
    /// Put the value into the cache.
    StoreInCache(T),
    /// Hand this result to the caller.
    Finish(Result<T, LookupError>),
}

/// A lookup in progress.
#[derive(Debug, Clone, Copy)]
pub struct Lookup {
    /// Whether a cache stands in front of the API.
    pub use_cache: bool,
    /// How far the lookup has come.
    pub stage: Stage,
}

/// Whether an event is the one a lookup at this stage waits for.
pub open spec fn expected<T>(stage: Stage, event: Event<T>) -> bool {
    match stage {
        Stage::Start => event is Begin,
        Stage::AwaitCache => event is CacheAnswer,
        Stage::AwaitResponse => event is Status,
        Stage::AwaitBody => event is Body,
        Stage::AwaitStore => event is Stored,
        Stage::Finished => false,
    }
}

/// The next stage and action of a lookup on an expected event: the cache
/// is asked first when there is one, and a value it holds is the result;
/// otherwise the API is asked, a status that is not a success is the
/// error, and a decoded body is the result, stored in the cache first when
/// there is one.
pub open spec fn transition<T>(l: Lookup, event: Event<T>) -> (Stage, Action<T>) {
    match event {
        Event::Begin => if l.use_cache {
            (Stage::AwaitCache, Action::QueryCache)
        } else {
            (Stage::AwaitResponse, Action::SendRequest)
        },
        Event::CacheAnswer(answer) => match answer {
            Some(v) => (Stage::Finished, Action::Finish(Ok(v))),
            None => (Stage::AwaitResponse, Action::SendRequest),
        },
        Event::Status(code) => if success_status(code) {
            (Stage::AwaitBody, Action::ReadBody)
        } else {
            (Stage::Finished, Action::Finish(Err(LookupError::Status(code))))
        },
        Event::Body(v) => if l.use_cache {
            (Stage::AwaitStore, Action::StoreInCache(v))
        } else {
            (Stage::Finished, Action::Finish(Ok(v)))
        },
        Event::Stored(v) => (Stage::Finished, Action::Finish(Ok(v))),
    }
}

impl Lookup {
    /// A lookup that has not started, with or without a cache.
    pub fn new(use_cache: bool) -> (l: Lookup)
        ensures
            l.use_cache == use_cache,
            l.stage == Stage::Start,
    {
        Lookup { use_cache, stage: Stage::Start }
    }

    /// Takes the report of the last action and says what to do next.
    pub fn step<T>(&mut self, event: Event<T>) -> (a: Action<T>)
        requires
            expected(old(self).stage, event),
        ensures
            final(self).use_cache == old(self).use_cache,
            (final(self).stage, a) == transition(*old(self), event),
    {
        match event {
            Event::Begin => if self.use_cache {
                self.stage = Stage::AwaitCache;
                Action::QueryCache
            } else {
                self.stage = Stage::AwaitResponse;
                Action::SendRequest
            },
            Event::CacheAnswer(answer) => match answer {
                Some(v) => {
                    self.stage = Stage::Finished;
                    Action::Finish(Ok(v))
                },
                None => {
                    self.stage = Stage::AwaitResponse;
                    Action::SendRequest
                },
            },
            Event::Status(code) => if is_success(code) {
                self.stage = Stage::AwaitBody;
                Action::ReadBody
            } else {
                self.stage = Stage::Finished;
                Action::Finish(Err(LookupError::Status(code)))
            },
            Event::Body(v) => if self.use_cache {
                self.stage = Stage::AwaitStore;
                Action::StoreInCache(v)
            } else {
                self.stage = Stage::Finished;
                Action::Finish(Ok(v))
            },
            Event::Stored(v) => {
                self.stage = Stage::Finished;
                Action::Finish(Ok(v))
            },
        }
    }

    /// Whether the lookup has its result.
    pub fn is_finished(&self) -> (b: bool)
        ensures
            b == (self.stage == Stage::Finished),
    {
        match self.stage {
            Stage::Finished => true,
            _ => false,
        }
    }
}

} // verus!

verus! {

/// How far along a stage is; a finished lookup is furthest.
pub open spec fn stage_rank(s: Stage) -> nat {
    match s {
        Stage::Start => 0,
        Stage::AwaitCache => 1,
        Stage::AwaitResponse => 2,
        Stage::AwaitBody => 3,
        Stage::AwaitStore => 4,
        Stage::Finished => 5,
    }
}

/// Every expected event moves a lookup strictly forward, and a lookup
/// finishes exactly when its action hands a result to the caller; so a
/// lookup that follows the protocol finishes after at most five steps and
/// gives exactly one result.
pub proof fn lemma_lookup_progresses<T>(l: Lookup, event: Event<T>)
    requires
        expected(l.stage, event),
    ensures
        stage_rank(transition(l, event).0) > stage_rank(l.stage),
        (transition(l, event).0 == Stage::Finished) <==> (transition(l, event).1 is Finish),
{
}

/// A value the cache holds is the lookup's result; a status that is not a
/// success is its error; with a cache, a decoded body goes to the cache
/// before it is handed back, and without one it is handed back at once.
pub proof fn lemma_lookup_outcomes<T>(l: Lookup, event: Event<T>)
    requires
        expected(l.stage, event),
    ensures
        event matches Event::CacheAnswer(Some(v)) ==> transition(l, event).1 == Action::Finish(
            Ok::<T, LookupError>(v),
        ),
        event matches Event::Status(code) ==> (!success_status(code) <==> transition(l, event).1
            == Action::<T>::Finish(Err(LookupError::Status(code)))),
        event matches Event::Body(v) ==> transition(l, event).1 == (if l.use_cache {
            Action::StoreInCache(v)
        } else {
            Action::Finish(Ok(v))
        }),
{
}

} // verus!
