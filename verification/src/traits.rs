//! The capabilities of a connector. A connector implements the ones it
//! supports, in any combination.

use crate::http::{HttpClient, HttpRequest, HttpResponse};
use crate::pagination::Page;
use crate::protocol::Message;
use std::sync::Arc;
use vstd::prelude::*;

verus! {

/// Marks a connector that reads from a source.
pub trait Tap: Send + Sync {

}

/// Marks a connector that writes to a destination.
pub trait Target: Send + Sync {

}

/// Finds out which streams the source offers.
pub trait Discover: Send + Sync {
    fn discover(&self) -> Result<(), anyhow::Error>;
}

/// A tap that fetches over HTTP through a delegate.
pub trait TapClient: Send + Sync {
    /// The kind of delegate the tap holds.
    type Client: HttpClient;

    fn get_client(&self) -> &Self::Client;

    fn request(&self, req: HttpRequest) -> Result<HttpResponse, anyhow::Error>;
}

/// Hands out messages one at a time, for as long as the consumer asks. The
/// consumer may stop asking at any point; the sequence cannot be restarted.
pub trait TapStream: Send + Sync {
    /// The next message of the stream, or `None` once it has ended.
    fn stream(&mut self) -> Option<Result<Message, anyhow::Error>>;
}

/// Reads everything there is in one go.
pub trait TapSync: Send + Sync {
    fn sync(&mut self) -> Result<Vec<Message>, anyhow::Error>;
}

/// Reads page by page. `upcoming` is the model of a source: the pages that
/// are still to come, the next one first. An implementation that is not
/// verified need not say what its model is.
pub trait Pagination: Send + Sync {
    open spec fn upcoming(&self) -> Seq<Page> {
        arbitrary()
    }

    /// The next page, or `None` once there is none left. After the last
    /// page every call gives `None` and none fails: a call can fail only
    /// while pages are left.
    fn next_page(&mut self) -> (page: Result<Option<Page>, anyhow::Error>)
        ensures
            match page {
                Ok(Some(next)) => old(self).upcoming().len() > 0 && next == old(self).upcoming()[0]
                    && final(self).upcoming() == old(self).upcoming().drop_first(),
                Ok(None) => old(self).upcoming().len() == 0
                    && final(self).upcoming() == old(self).upcoming(),
                Err(_) => old(self).upcoming().len() > 0,
            },
    ;

    /// Whether the next call of `next_page` has a page to give.
    fn has_more(&self) -> (more: bool)
        ensures
            more == (self.upcoming().len() > 0),
    ;
}

/// Signs in to the source.
pub trait TapAuth: Send + Sync {
    fn authenticate(&mut self, credentials: serde_json::Value) -> Result<(), anyhow::Error>;

    fn refresh_token(&mut self) -> Result<(), anyhow::Error>;
}

/// A tap that keeps its own bookmarks. `takes_state` is the model of a tap:
/// whether it takes over a state that it is handed. A tap that leaves
/// `set_state` as it is takes none over.
pub trait TapState: Send + Sync {
    open spec fn takes_state(&self) -> bool {
        false
    }

    fn get_state(&self) -> Result<serde_json::Value, anyhow::Error>;

    /// Takes over `state`. A tap that takes no state over drops it: the call
    /// succeeds and leaves the tap as it was.
    fn set_state(&mut self, state: serde_json::Value) -> (outcome: Result<(), anyhow::Error>)
        ensures
            !old(self).takes_state() ==> outcome is Ok && &*final(self) == &*old(self),
    {
        Ok(())
    }
}

/// A target that writes over HTTP through a delegate.
pub trait TargetClient: Send + Sync {
    /// The kind of delegate the target holds.
    type Client: HttpClient;

    fn get_client(&self) -> &Self::Client;

    fn request(&self, req: HttpRequest) -> Result<HttpResponse, anyhow::Error>;
}

/// Writes what a stream hands out, asking it for one message at a time.
pub trait TargetStream: Send + Sync {
    fn stream_write<S: TapStream>(&mut self, stream: &mut S) -> Result<(), anyhow::Error>;
}

/// Writes everything it is handed in one go.
pub trait TargetSync: Send + Sync {
    fn sync_write(&mut self, messages: Vec<Message>) -> Result<(), anyhow::Error>;
}

/// Writes in batches that are applied as a whole or not at all.
/// `batch_open` is the model of a sink: whether a batch has been begun and
/// not yet ended. An implementation that is not verified need not say what
/// its model is.
pub trait BatchSink: Send + Sync {
    open spec fn batch_open(&self) -> bool {
        arbitrary()
    }

    /// Begins a batch. The batch before it must have been ended.
    fn begin_batch(&mut self) -> (begun: Result<(), anyhow::Error>)
        requires
            !old(self).batch_open(),
        ensures
            final(self).batch_open() == (begun is Ok),
    ;

    /// Adds `message` to the open batch. Without an open batch the call
    /// fails.
    fn write_to_batch(&mut self, message: Message) -> (written: Result<(), anyhow::Error>)
        ensures
            final(self).batch_open() == old(self).batch_open(),
            !old(self).batch_open() ==> written is Err,
    ;

    /// Applies the open batch and ends it. A batch that could not be applied
    /// stays open, to be rolled back.
    fn commit_batch(&mut self) -> (committed: Result<(), anyhow::Error>)
        ensures
            committed is Ok ==> !final(self).batch_open(),
            committed is Err ==> final(self).batch_open() == old(self).batch_open(),
    ;

    /// Drops the open batch and ends it. Without an open batch the call does
    /// nothing and succeeds.
    fn rollback_batch(&mut self) -> (rolled_back: Result<(), anyhow::Error>)
        ensures
            !final(self).batch_open(),
            !old(self).batch_open() ==> rolled_back is Ok,
    ;
}

/// Writes message by message.
pub trait StreamSink: Send + Sync {
    fn write(&mut self, message: Message) -> Result<(), anyhow::Error>;
}

/// Signs in to the destination.
pub trait TargetAuth: Send + Sync {
    fn authenticate(&mut self, credentials: serde_json::Value) -> Result<(), anyhow::Error>;

    fn refresh_token(&mut self) -> Result<(), anyhow::Error>;
}

/// A target that keeps its own bookmarks.
pub trait TargetState: Send + Sync {
    fn get_state(&self) -> Result<serde_json::Value, anyhow::Error>;

    fn set_state(&mut self, state: serde_json::Value) -> Result<(), anyhow::Error>;
}

/// Rewrites messages and schemas on their way to a target.
pub trait Transform: Send + Sync {
    fn transform(&self, message: Message) -> Result<Message, anyhow::Error>;

    fn transform_schema(&self, schema: Arc<arrow::datatypes::Schema>) -> Result<
        Arc<arrow::datatypes::Schema>,
        anyhow::Error,
    >;
}

/// What a target does before the first write and after the last.
pub trait Sink: Send + Sync {
    fn initialize(&mut self) -> Result<(), anyhow::Error>;

    fn finalize(&mut self) -> Result<(), anyhow::Error>;
}

/// Fetches every page that `source` still has, in order. The first failure
/// of the source ends the fetch and is handed back.
pub fn fetch_all<P: Pagination>(source: &mut P) -> (pages: Result<Vec<Page>, anyhow::Error>)
    ensures
        pages matches Ok(fetched) ==> fetched@ == old(source).upcoming()
            && final(source).upcoming().len() == 0,
        old(source).upcoming().len() == 0 ==> pages is Ok,
{
    let mut fetched: Vec<Page> = Vec::new();
    while source.has_more()
        invariant
            fetched@ + source.upcoming() == old(source).upcoming(),
            old(source).upcoming().len() == 0 ==> source.upcoming().len() == 0,
        decreases source.upcoming().len(),
    {
        let ghost before = source.upcoming();
        let ghost got = fetched@;
        match source.next_page() {
            Ok(Some(page)) => {
                fetched.push(page);
                proof {
                    assert(fetched@ + source.upcoming() =~= got + before);
                }
            },
            Ok(None) => {},
            Err(failure) => {
                return Err(failure);
            },
        }
    }
    proof {
        assert(fetched@ + source.upcoming() =~= fetched@);
    }
    Ok(fetched)
}

} // verus!
