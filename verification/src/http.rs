//! Requests and responses as connectors see them, apart from any transport.

use crate::json::{json_document, json_lossy_text, lossy_text_value, parse_json};
use vstd::prelude::*;

verus! {

/// `anyhow::Error`, opaque to the verifier.
#[verifier::external_type_specification]
#[verifier::external_body]
pub struct ExAnyhowError(anyhow::Error);

/// A request for a connector's HTTP delegate.
#[derive(Debug, Clone)]
pub struct HttpRequest {
    pub url: String,
    pub method: String,
    pub headers: Vec<(String, String)>,
    pub body: Option<serde_json::Value>,
}

/// What came back for a request.
#[derive(Debug, Clone)]
pub struct HttpResponse {
    pub status: u16,
    pub headers: Vec<(String, String)>,
    pub body: serde_json::Value,
}

/// Something that can carry out a request.
pub trait HttpClient: Send + Sync {
    fn request(&self, req: HttpRequest) -> Result<HttpResponse, anyhow::Error>;
}

/// The body of a response as a value: the JSON document that `bytes` spell,
/// or, where they spell none, their text as a JSON string.
pub open spec fn body_value(bytes: Seq<u8>) -> serde_json::Value {
    match json_document(bytes) {
        Some(document) => document,
        None => json_lossy_text(bytes),
    }
}

impl HttpResponse {
    /// The value of a body of which the parser has said `parsed`: the
    /// document if there is one, else `bytes` as text.
    pub fn body_or_text(parsed: Result<serde_json::Value, serde_json::Error>, bytes: &[u8]) -> (body:
        serde_json::Value)
        ensures
            body == match parsed {
                Ok(document) => document,
                Err(_) => json_lossy_text(bytes@),
            },
    {
        match parsed {
            Ok(document) => document,
            Err(_) => lossy_text_value(bytes),
        }
    }

    /// The value of the body `bytes`.
    pub fn decode_body(bytes: &[u8]) -> (body: serde_json::Value)
        ensures
            body == body_value(bytes@),
    {
        let parsed = parse_json(bytes);
        HttpResponse::body_or_text(parsed, bytes)
    }

    /// The response with status `status`, headers `headers` and the body
    /// that `bytes` hold.
    pub fn from_parts(status: u16, headers: Vec<(String, String)>, bytes: &[u8]) -> (response:
        HttpResponse)
        ensures
            response.status == status,
            response.headers == headers,
            response.body == body_value(bytes@),
    {
        HttpResponse { status, headers, body: HttpResponse::decode_body(bytes) }
    }
}

/// The outcome of requests that were sent together: every response, in the
/// order of the requests, or the first failure among them.
pub open spec fn gathered<T, E>(outcomes: Seq<Result<T, E>>) -> Result<Seq<T>, E>
    decreases outcomes.len(),
{
    if outcomes.len() == 0 {
        Ok(Seq::empty())
    } else {
        match outcomes[0] {
            Err(failure) => Err(failure),
            Ok(first) => match gathered(outcomes.drop_first()) {
                Ok(rest) => Ok(seq![first] + rest),
                Err(failure) => Err(failure),
            },
        }
    }
}

/// Where every outcome is a success, `gathered` holds each of them in place;
/// where one is a failure, it holds the one with the least index.
pub proof fn lemma_gathered<T, E>(outcomes: Seq<Result<T, E>>)
    ensures
        (forall|i: int| 0 <= i < outcomes.len() ==> (#[trigger] outcomes[i]) is Ok) ==> {
            &&& gathered(outcomes) matches Ok(values)
            &&& values.len() == outcomes.len()
            &&& forall|i: int| 0 <= i < outcomes.len() ==> outcomes[i] == Ok::<T, E>(#[trigger] values[i])
        },
        forall|at: int|
            0 <= at < outcomes.len() && outcomes[at] is Err && (forall|i: int|
                0 <= i < at ==> (#[trigger] outcomes[i]) is Ok) ==> gathered(outcomes)
                == Err::<Seq<T>, E>(outcomes[at]->Err_0),
    decreases outcomes.len(),
{
    if outcomes.len() > 0 {
        let rest = outcomes.drop_first();
        lemma_gathered(rest);
        if outcomes[0] is Ok {
            if forall|i: int| 0 <= i < outcomes.len() ==> (#[trigger] outcomes[i]) is Ok {
                assert forall|i: int| 0 <= i < rest.len() implies (#[trigger] rest[i]) is Ok by {
                    assert(outcomes[i + 1] is Ok);
                }
                let values = gathered(outcomes)->Ok_0;
                assert forall|i: int| 0 <= i < outcomes.len() implies outcomes[i] == Ok::<T, E>(
                    #[trigger] values[i],
                ) by {
                    if i > 0 {
                        assert(rest[i - 1] == outcomes[i]);
                    }
                }
            }
            assert forall|at: int|
                0 <= at < outcomes.len() && outcomes[at] is Err && (forall|i: int|
                    0 <= i < at ==> (#[trigger] outcomes[i]) is Ok) implies gathered(outcomes)
                    == Err::<Seq<T>, E>(outcomes[at]->Err_0) by {
                assert(rest[at - 1] == outcomes[at]);
                assert forall|i: int| 0 <= i < at - 1 implies (#[trigger] rest[i]) is Ok by {
                    assert(outcomes[i + 1] is Ok);
                }
            }
        } else {
            assert forall|at: int|
                0 <= at < outcomes.len() && outcomes[at] is Err && (forall|i: int|
                    0 <= i < at ==> (#[trigger] outcomes[i]) is Ok) implies gathered(outcomes)
                    == Err::<Seq<T>, E>(outcomes[at]->Err_0) by {
                if at > 0 {
                    assert(outcomes[0] is Ok);
                }
            }
        }
    }
}

/// Gathers the outcomes of requests that were sent together. The group
/// succeeds as a whole or fails with its first failure.
pub fn gather<T, E>(outcomes: Vec<Result<T, E>>) -> (all: Result<Vec<T>, E>)
    ensures
        match all {
            Ok(values) => gathered(outcomes@) == Ok::<Seq<T>, E>(values@),
            Err(failure) => gathered(outcomes@) == Err::<Seq<T>, E>(failure),
        },
{
    let ghost given = outcomes@;
    let mut waiting = outcomes;
    let mut values: Vec<T> = Vec::new();
    let mut failure: Option<E> = None;
    proof {
        assert(given.skip(given.len() as int) =~= Seq::<Result<T, E>>::empty());
    }
    while waiting.len() > 0
        invariant
            waiting@.len() <= given.len(),
            waiting@ == given.take(waiting@.len() as int),
            match failure {
                Some(found) => gathered(given.skip(waiting@.len() as int)) == Err::<Seq<T>, E>(
                    found,
                ),
                None => gathered(given.skip(waiting@.len() as int)) == Ok::<Seq<T>, E>(
                    values@.reverse(),
                ),
            },
        decreases waiting@.len(),
    {
        let ghost at = waiting@.len() - 1;
        let ghost later = given.skip(at + 1);
        let ghost kept = values@;
        let last = waiting.pop();
        proof {
            assert(waiting@ =~= given.take(at));
            assert(given.skip(at).drop_first() =~= later);
            assert(given.skip(at)[0] == given[at]);
        }
        match last {
            Some(Ok(value)) => {
                if failure.is_none() {
                    values.push(value);
                    proof {
                        assert(values@.reverse() =~= seq![value] + kept.reverse());
                    }
                }
            },
            Some(Err(found)) => {
                failure = Some(found);
            },
            None => {},
        }
    }
    proof {
        assert(given.skip(0) =~= given);
    }
    match failure {
        Some(found) => Err(found),
        None => {
            let mut ordered: Vec<T> = Vec::new();
            let ghost backwards = values@;
            while values.len() > 0
                invariant
                    values@.len() <= backwards.len(),
                    values@ == backwards.take(values@.len() as int),
                    ordered@ == backwards.skip(values@.len() as int).reverse(),
                decreases values@.len(),
            {
                let ghost at = values@.len() - 1;
                if let Some(value) = values.pop() {
                    ordered.push(value);
                    proof {
                        assert(values@ =~= backwards.take(at));
                        assert(ordered@ =~= backwards.skip(at).reverse());
                    }
                }
            }
            proof {
                assert(backwards.skip(0) =~= backwards);
            }
            Ok(ordered)
        },
    }
}

} // verus!
