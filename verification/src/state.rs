//! The bookmark ledger: per-stream checkpoints, free-form global values, and
//! the rule by which two ledgers are merged.

use crate::errors::{DStreamError, StateError};
use crate::string_map::StringMap;
use crate::time::{current_time, Timestamp};
use vstd::prelude::*;

verus! {

/// A checkpoint of one stream.
#[derive(Debug, Clone)]
pub struct Bookmark {
    /// How far extraction has come; its meaning is the connector's.
    pub value: serde_json::Value,
    /// When the bookmark was made.
    pub timestamp: Timestamp,
    pub metadata: StringMap<serde_json::Value>,
}

/// The progress of a synchronisation.
#[derive(Debug, Clone)]
pub struct State {
    /// The current bookmark of each stream.
    pub bookmarks: StringMap<Bookmark>,
    pub global: StringMap<serde_json::Value>,
    /// When the state was last written out.
    pub last_updated: Option<Timestamp>,
}

/// What is found where a ledger keeps its state.
#[derive(Debug)]
pub enum StateSource {
    /// Nothing is stored there.
    Missing,
    /// Something is stored there and cannot be read.
    Unreadable(String),
    /// What is stored there is not a state document.
    Malformed(String),
    /// The state that is stored there.
    Stored(State),
}

/// Keeps a state in memory and tracks whether it differs from what is stored.
#[derive(Debug)]
pub struct StateManager {
    state_path: String,
    state: State,
    dirty: bool,
}

/// A state as mathematics.
#[verifier::ext_equal]
pub struct StateView {
    pub bookmarks: Map<Seq<char>, Bookmark>,
    pub global: Map<Seq<char>, serde_json::Value>,
    pub last_updated: Option<Timestamp>,
}

/// A ledger as mathematics.
#[verifier::ext_equal]
pub struct LedgerView {
    pub path: Seq<char>,
    pub state: StateView,
    pub dirty: bool,
}

/// The state that holds nothing.
pub open spec fn empty_state() -> StateView {
    StateView { bookmarks: Map::empty(), global: Map::empty(), last_updated: None }
}

/// The incoming bookmark replaces what `local` holds under `stream`: there is
/// no bookmark yet, or the incoming one is strictly newer.
pub open spec fn incoming_wins(
    local: Map<Seq<char>, Bookmark>,
    stream: Seq<char>,
    incoming: Bookmark,
) -> bool {
    !local.contains_key(stream) || incoming.timestamp.later_than(local[stream].timestamp)
}

/// The bookmarks after `incoming` has been merged into `local`.
pub open spec fn merged_bookmarks(
    local: Map<Seq<char>, Bookmark>,
    incoming: Map<Seq<char>, Bookmark>,
) -> Map<Seq<char>, Bookmark> {
    Map::new(
        |stream: Seq<char>| local.contains_key(stream) || incoming.contains_key(stream),
        |stream: Seq<char>|
            if incoming.contains_key(stream) && incoming_wins(local, stream, incoming[stream]) {
                incoming[stream]
            } else {
                local[stream]
            },
    )
}

/// Merging `incoming` into `local` replaces at least one bookmark.
pub open spec fn merge_replaces(
    local: Map<Seq<char>, Bookmark>,
    incoming: Map<Seq<char>, Bookmark>,
) -> bool {
    exists|stream: Seq<char>| #[trigger]
        incoming.contains_key(stream) && incoming_wins(local, stream, incoming[stream])
}

/// The state after `incoming` has been merged into `local`.
pub open spec fn merged_state(local: StateView, incoming: StateView) -> StateView {
    StateView {
        bookmarks: merged_bookmarks(local.bookmarks, incoming.bookmarks),
        global: local.global.union_prefer_right(incoming.global),
        last_updated: local.last_updated,
    }
}

/// The ledger after `incoming` has been merged into it.
pub open spec fn ledger_merged(ledger: LedgerView, incoming: StateView) -> LedgerView {
    LedgerView {
        path: ledger.path,
        state: merged_state(ledger.state, incoming),
        dirty: ledger.dirty || merge_replaces(ledger.state.bookmarks, incoming.bookmarks)
            || incoming.global.dom() != Set::<Seq<char>>::empty(),
    }
}

/// The ledger after it was asked to load `source`. A source that cannot be
/// used leaves it as it was.
pub open spec fn ledger_loaded(ledger: LedgerView, source: StateSource) -> LedgerView {
    match source {
        StateSource::Missing => LedgerView { path: ledger.path, state: empty_state(), dirty: false },
        StateSource::Stored(state) => LedgerView { path: ledger.path, state: state@, dirty: false },
        _ => ledger,
    }
}

/// The ledger after a request to save it at `now`.
pub open spec fn ledger_saving(ledger: LedgerView, now: Timestamp) -> LedgerView {
    if ledger.dirty {
        LedgerView {
            path: ledger.path,
            state: StateView { last_updated: Some(now), ..ledger.state },
            dirty: true,
        }
    } else {
        ledger
    }
}

/// The ledger after `bookmark` has been recorded for `stream`.
pub open spec fn ledger_recorded(
    ledger: LedgerView,
    stream: Seq<char>,
    bookmark: Bookmark,
) -> LedgerView {
    LedgerView {
        path: ledger.path,
        state: StateView {
            bookmarks: ledger.state.bookmarks.insert(stream, bookmark),
            ..ledger.state
        },
        dirty: true,
    }
}

impl View for State {
    type V = StateView;

    open spec fn view(&self) -> StateView {
        StateView {
            bookmarks: self.bookmarks@,
            global: self.global@,
            last_updated: self.last_updated,
        }
    }
}

impl Default for State {
    /// The state that holds nothing.
    fn default() -> (state: State)
        ensures
            state@ == empty_state(),
    {
        State { bookmarks: StringMap::new(), global: StringMap::new(), last_updated: None }
    }
}

impl View for StateManager {
    type V = LedgerView;

    closed spec fn view(&self) -> LedgerView {
        LedgerView { path: self.state_path@, state: self.state@, dirty: self.dirty }
    }
}

impl StateManager {
    /// The state that the ledger holds.
    pub closed spec fn held(&self) -> State {
        self.state
    }

    /// A ledger for the state stored at `state_path`. It starts empty and
    /// clean.
    pub fn new(state_path: String) -> (manager: StateManager)
        ensures
            manager@ == (LedgerView { path: state_path@, state: empty_state(), dirty: false }),
    {
        StateManager { state_path, state: State::default(), dirty: false }
    }

    /// Where the state is stored.
    pub fn path(&self) -> (path: &String)
        ensures
            path@ == self@.path,
    {
        &self.state_path
    }

    /// Takes over what was found in the store. Where nothing is stored the
    /// ledger starts empty; a store that cannot be read, or that holds no
    /// state document, is an error and leaves the ledger as it was.
    pub fn load(&mut self, source: StateSource) -> (outcome: Result<(), DStreamError>)
        ensures
            match source {
                StateSource::Missing | StateSource::Stored(_) => outcome is Ok,
                StateSource::Unreadable(reason) => outcome matches Err(
                    DStreamError::State(StateError::LoadFailed { path, reason: why }),
                ) && path@ == old(self)@.path && why == reason,
                StateSource::Malformed(reason) => outcome matches Err(
                    DStreamError::State(StateError::InvalidFormat(why)),
                ) && why == reason,
            },
            final(self)@ == ledger_loaded(old(self)@, source),
            source matches StateSource::Stored(state) ==> final(self).held() == state,
    {
        match source {
            StateSource::Missing => {
                self.state = State::default();
                self.dirty = false;
                Ok(())
            },
            StateSource::Unreadable(reason) => Err(
                DStreamError::State(
                    StateError::LoadFailed { path: self.state_path.clone(), reason },
                ),
            ),
            StateSource::Malformed(reason) => Err(
                DStreamError::State(StateError::InvalidFormat(reason)),
            ),
            StateSource::Stored(state) => {
                self.state = state;
                self.dirty = false;
                Ok(())
            },
        }
    }

    /// Prepares the ledger for being written out at `now`. The result says
    /// whether there is anything to write: a clean ledger is left untouched,
    /// a dirty one gets `now` as its time of last update and stays dirty
    /// until `complete_save` reports the write.
    pub fn save_at(&mut self, now: Timestamp) -> (write: bool)
        ensures
            write == old(self)@.dirty,
            final(self)@ == ledger_saving(old(self)@, now),
            !write ==> *final(self) == *old(self),
    {
        if !self.dirty {
            return false;
        }
        self.state.last_updated = Some(now);
        true
    }

    /// Prepares the ledger for being written out now. See `save_at`.
    pub fn save(&mut self) -> (write: bool)
        ensures
            write == old(self)@.dirty,
            exists|now: Timestamp| final(self)@ == ledger_saving(old(self)@, now),
            !write ==> *final(self) == *old(self),
    {
        let now = current_time();
        let write = self.save_at(now);
        assert(self@ == ledger_saving(old(self)@, now));
        write
    }

    /// Takes note of how the write that `save` asked for has ended. After a
    /// write that succeeded the ledger is clean; after one that failed it is
    /// as before, and the failure is handed back with the path.
    pub fn complete_save(&mut self, written: Result<(), String>) -> (outcome: Result<
        (),
        DStreamError,
    >)
        ensures
            match written {
                Ok(_) => outcome is Ok && final(self)@ == (LedgerView {
                    dirty: false,
                    ..old(self)@
                }),
                Err(reason) => outcome matches Err(
                    DStreamError::State(StateError::SaveFailed { path, reason: why }),
                ) && path@ == old(self)@.path && why == reason && *final(self) == *old(self),
            },
    {
        match written {
            Ok(_) => {
                self.dirty = false;
                Ok(())
            },
            Err(reason) => Err(
                DStreamError::State(
                    StateError::SaveFailed { path: self.state_path.clone(), reason },
                ),
            ),
        }
    }

    /// Ends the use of the ledger. Changes that were never written out are
    /// an error, not a silent loss.
    pub fn close(self) -> (outcome: Result<(), DStreamError>)
        ensures
            !self@.dirty ==> outcome is Ok,
            self@.dirty ==> (outcome matches Err(
                DStreamError::State(StateError::SaveFailed { path, reason }),
            ) && path@ == self@.path && reason@ == "state has unsaved changes"@),
    {
        if self.dirty {
            Err(
                DStreamError::State(
                    StateError::SaveFailed {
                        path: self.state_path,
                        reason: "state has unsaved changes".to_owned(),
                    },
                ),
            )
        } else {
            Ok(())
        }
    }

    /// The state held.
    pub fn get_state(&self) -> (state: &State)
        ensures
            *state == self.held(),
            state@ == self@.state,
    {
        &self.state
    }

    /// The bookmark of `stream`, if it has one.
    pub fn get_bookmark(&self, stream: &str) -> (bookmark: Option<&Bookmark>)
        ensures
            match bookmark {
                Some(found) => self@.state.bookmarks.contains_key(stream@) && *found
                    == self@.state.bookmarks[stream@],
                None => !self@.state.bookmarks.contains_key(stream@),
            },
    {
        self.state.bookmarks.get(stream)
    }

    /// Makes `bookmark` the bookmark of `stream`, whatever it was before.
    pub fn record_bookmark(&mut self, stream: String, bookmark: Bookmark)
        ensures
            final(self)@ == ledger_recorded(old(self)@, stream@, bookmark),
    {
        self.state.bookmarks.insert(stream, bookmark);
        self.dirty = true;
    }

    /// Gives `stream` a bookmark at `value`, made now and without metadata.
    pub fn set_bookmark(&mut self, stream: String, value: serde_json::Value)
        ensures
            exists|bookmark: Bookmark|
                {
                    &&& bookmark.value == value
                    &&& bookmark.metadata@ == Map::<Seq<char>, serde_json::Value>::empty()
                    &&& #[trigger] ledger_recorded(old(self)@, stream@, bookmark) == final(self)@
                },
    {
        let bookmark = Bookmark { value, timestamp: current_time(), metadata: StringMap::new() };
        self.record_bookmark(stream, bookmark);
        assert(ledger_recorded(old(self)@, stream@, bookmark) == self@);
    }

    /// Gives `stream` a bookmark at `value`, made now, with `metadata`.
    pub fn set_bookmark_with_metadata(
        &mut self,
        stream: String,
        value: serde_json::Value,
        metadata: StringMap<serde_json::Value>,
    )
        ensures
            exists|bookmark: Bookmark|
                {
                    &&& bookmark.value == value
                    &&& bookmark.metadata == metadata
                    &&& #[trigger] ledger_recorded(old(self)@, stream@, bookmark) == final(self)@
                },
    {
        let bookmark = Bookmark { value, timestamp: current_time(), metadata };
        self.record_bookmark(stream, bookmark);
        assert(ledger_recorded(old(self)@, stream@, bookmark) == self@);
    }

    /// The global value stored under `key`, if any.
    pub fn get_global(&self, key: &str) -> (value: Option<&serde_json::Value>)
        ensures
            match value {
                Some(found) => self@.state.global.contains_key(key@) && *found
                    == self@.state.global[key@],
                None => !self@.state.global.contains_key(key@),
            },
    {
        self.state.global.get(key)
    }

    /// Stores `value` under the global key `key`.
    pub fn set_global(&mut self, key: String, value: serde_json::Value)
        ensures
            final(self)@ == (LedgerView {
                path: old(self)@.path,
                state: StateView {
                    global: old(self)@.state.global.insert(key@, value),
                    ..old(self)@.state
                },
                dirty: true,
            }),
    {
        self.state.global.insert(key, value);
        self.dirty = true;
    }

    /// Forgets every bookmark and every global value.
    pub fn clear(&mut self)
        ensures
            final(self)@ == (LedgerView { path: old(self)@.path, state: empty_state(), dirty: true }),
    {
        self.state = State::default();
        self.dirty = true;
    }

    /// Merges `other` into the ledger. A bookmark of `other` replaces the
    /// local one of its stream only where it is strictly newer, or where the
    /// stream has none; every global value of `other` replaces the local one.
    pub fn merge(&mut self, other: State) -> (outcome: Result<(), DStreamError>)
        ensures
            outcome is Ok,
            final(self)@ == ledger_merged(old(self)@, other@),
    {
        let ghost local = self.state.bookmarks@;
        let ghost incoming = other.bookmarks@;
        let mut bookmarks = other.bookmarks;
        let mut replaced = false;
        proof {
            assert(handled(incoming, bookmarks@) =~= Map::<Seq<char>, Bookmark>::empty());
            assert(self.state.bookmarks@ =~= merged_bookmarks(local, handled(incoming, bookmarks@)));
        }
        while !bookmarks.is_empty()
            invariant
                self.state_path == old(self).state_path,
                self.state.global == old(self).state.global,
                self.state.last_updated == old(self).state.last_updated,
                self.dirty == old(self).dirty,
                local == old(self).state.bookmarks@,
                incoming == other.bookmarks@,
                forall|stream: Seq<char>| #[trigger]
                    bookmarks@.contains_key(stream) ==> incoming.contains_key(stream)
                        && bookmarks@[stream] == incoming[stream],
                self.state.bookmarks@ == merged_bookmarks(local, handled(incoming, bookmarks@)),
                replaced == merge_replaces(local, handled(incoming, bookmarks@)),
            decreases bookmarks.order().len(),
        {
            let ghost before = bookmarks@;
            let ghost current = self.state.bookmarks@;
            if let Some((stream, bookmark)) = bookmarks.pop() {
                let ghost name = stream@;
                let wins = match self.state.bookmarks.get(stream.as_str()) {
                    Some(existing) => bookmark.timestamp.is_after(&existing.timestamp),
                    None => true,
                };
                proof {
                    assert(!handled(incoming, before).contains_key(name));
                    assert(handled(incoming, bookmarks@) =~= handled(incoming, before).insert(
                        name,
                        bookmark,
                    ));
                    assert(current.contains_key(name) == local.contains_key(name));
                    assert(current.contains_key(name) ==> current[name] == local[name]);
                    assert(wins == incoming_wins(local, name, bookmark));
                    lemma_merge_step(local, handled(incoming, before), name, bookmark);
                }
                if wins {
                    self.state.bookmarks.insert(stream, bookmark);
                    replaced = true;
                }
            }
        }
        let ghost arriving = other.global@;
        let mut global = other.global;
        let mut stored = false;
        proof {
            assert(handled(incoming, bookmarks@) =~= incoming);
            assert(handled(arriving, global@) =~= Map::<Seq<char>, serde_json::Value>::empty());
            assert(self.state.global@ =~= old(self).state.global@.union_prefer_right(
                handled(arriving, global@),
            ));
            assert(handled(arriving, global@).dom() =~= Set::<Seq<char>>::empty());
        }
        while !global.is_empty()
            invariant
                self.state_path == old(self).state_path,
                self.state.bookmarks@ == merged_bookmarks(local, incoming),
                self.state.last_updated == old(self).state.last_updated,
                self.dirty == old(self).dirty,
                arriving == other.global@,
                forall|key: Seq<char>| #[trigger]
                    global@.contains_key(key) ==> arriving.contains_key(key) && global@[key]
                        == arriving[key],
                self.state.global@ == old(self).state.global@.union_prefer_right(
                    handled(arriving, global@),
                ),
                stored == (handled(arriving, global@).dom() != Set::<Seq<char>>::empty()),
            decreases global.order().len(),
        {
            let ghost before = global@;
            if let Some((key, value)) = global.pop() {
                proof {
                    assert(handled(arriving, global@) =~= handled(arriving, before).insert(
                        key@,
                        value,
                    ));
                    assert(old(self).state.global@.union_prefer_right(
                        handled(arriving, before),
                    ).insert(key@, value) =~= old(self).state.global@.union_prefer_right(
                        handled(arriving, before).insert(key@, value),
                    ));
                    assert(handled(arriving, global@).dom().contains(key@));
                }
                self.state.global.insert(key, value);
                stored = true;
            }
        }
        proof {
            assert(handled(arriving, global@) =~= arriving);
        }
        if replaced || stored {
            self.dirty = true;
        }
        Ok(())
    }

    /// Whether the ledger holds changes that have not been written out.
    pub fn is_dirty(&self) -> (dirty: bool)
        ensures
            dirty == self@.dirty,
    {
        self.dirty
    }
}

/// The part of `incoming` that a merge has already dealt with when `waiting`
/// is what it still has to look at.
pub open spec fn handled<V>(incoming: Map<Seq<char>, V>, waiting: Map<Seq<char>, V>) -> Map<
    Seq<char>,
    V,
> {
    Map::new(
        |key: Seq<char>| incoming.contains_key(key) && !waiting.contains_key(key),
        |key: Seq<char>| incoming[key],
    )
}

/// Of two bookmarks for one stream the strictly newer one is kept; where
/// neither is newer, and so where the two are equally old, the local one stays.
pub proof fn lemma_merge_keeps_newer(
    local: Map<Seq<char>, Bookmark>,
    incoming: Map<Seq<char>, Bookmark>,
    stream: Seq<char>,
)
    requires
        local.contains_key(stream),
        incoming.contains_key(stream),
    ensures
        merged_bookmarks(local, incoming).contains_key(stream),
        incoming[stream].timestamp.later_than(local[stream].timestamp) ==> merged_bookmarks(
            local,
            incoming,
        )[stream] == incoming[stream],
        !incoming[stream].timestamp.later_than(local[stream].timestamp) ==> merged_bookmarks(
            local,
            incoming,
        )[stream] == local[stream],
        incoming[stream].timestamp == local[stream].timestamp ==> merged_bookmarks(
            local,
            incoming,
        )[stream] == local[stream],
{
}

/// A stream that only one side knows keeps the bookmark of that side.
pub proof fn lemma_merge_keeps_single(
    local: Map<Seq<char>, Bookmark>,
    incoming: Map<Seq<char>, Bookmark>,
    stream: Seq<char>,
)
    ensures
        local.contains_key(stream) && !incoming.contains_key(stream) ==> merged_bookmarks(
            local,
            incoming,
        )[stream] == local[stream],
        !local.contains_key(stream) && incoming.contains_key(stream) ==> merged_bookmarks(
            local,
            incoming,
        )[stream] == incoming[stream],
        merged_bookmarks(local, incoming).contains_key(stream) == (local.contains_key(stream)
            || incoming.contains_key(stream)),
{
}

/// Merging the same bookmarks a second time replaces nothing and leaves the
/// bookmarks as the first merge made them.
pub proof fn lemma_merge_bookmarks_idempotent(
    local: Map<Seq<char>, Bookmark>,
    incoming: Map<Seq<char>, Bookmark>,
)
    ensures
        merged_bookmarks(merged_bookmarks(local, incoming), incoming) == merged_bookmarks(
            local,
            incoming,
        ),
        !merge_replaces(merged_bookmarks(local, incoming), incoming),
{
    let once = merged_bookmarks(local, incoming);
    assert forall|stream: Seq<char>| incoming.contains_key(stream) implies !incoming_wins(
        once,
        stream,
        incoming[stream],
    ) by {
        crate::time::lemma_later_than_strict(incoming[stream].timestamp, once[stream].timestamp);
    }
    assert(merged_bookmarks(once, incoming) =~= once);
}

/// Merging the same state a second time leaves the state as the first merge
/// made it.
pub proof fn lemma_merge_idempotent(local: StateView, incoming: StateView)
    ensures
        merged_state(merged_state(local, incoming), incoming) == merged_state(local, incoming),
{
    lemma_merge_bookmarks_idempotent(local.bookmarks, incoming.bookmarks);
    assert(local.global.union_prefer_right(incoming.global).union_prefer_right(incoming.global)
        =~= local.global.union_prefer_right(incoming.global));
}

/// Merging the same state into a ledger a second time leaves the ledger,
/// its dirty flag included, as the first merge made it.
pub proof fn lemma_ledger_merge_idempotent(ledger: LedgerView, incoming: StateView)
    ensures
        ledger_merged(ledger_merged(ledger, incoming), incoming) == ledger_merged(
            ledger,
            incoming,
        ),
{
    lemma_merge_bookmarks_idempotent(ledger.state.bookmarks, incoming.bookmarks);
    lemma_merge_idempotent(ledger.state, incoming);
}

/// A ledger that has just been loaded is clean, and a request to save it
/// changes nothing: neither the state nor its time of last update.
pub proof fn lemma_save_after_load_changes_nothing(
    ledger: LedgerView,
    source: StateSource,
    now: Timestamp,
)
    requires
        source is Missing || source is Stored,
    ensures
        !ledger_loaded(ledger, source).dirty,
        ledger_saving(ledger_loaded(ledger, source), now) == ledger_loaded(ledger, source),
{
}

/// A request to save a clean ledger changes nothing, whatever the time.
pub proof fn lemma_save_clean_changes_nothing(ledger: LedgerView, now: Timestamp)
    requires
        !ledger.dirty,
    ensures
        ledger_saving(ledger, now) == ledger,
{
}

/// Merging one more bookmark: it is inserted where it wins and dropped where
/// it does not.
proof fn lemma_merge_step(
    local: Map<Seq<char>, Bookmark>,
    done: Map<Seq<char>, Bookmark>,
    stream: Seq<char>,
    bookmark: Bookmark,
)
    requires
        !done.contains_key(stream),
    ensures
        incoming_wins(local, stream, bookmark) ==> merged_bookmarks(
            local,
            done.insert(stream, bookmark),
        ) == merged_bookmarks(local, done).insert(stream, bookmark),
        !incoming_wins(local, stream, bookmark) ==> merged_bookmarks(
            local,
            done.insert(stream, bookmark),
        ) == merged_bookmarks(local, done),
        merge_replaces(local, done.insert(stream, bookmark)) == (merge_replaces(local, done)
            || incoming_wins(local, stream, bookmark)),
{
    let grown = done.insert(stream, bookmark);
    if incoming_wins(local, stream, bookmark) {
        assert(merged_bookmarks(local, grown) =~= merged_bookmarks(local, done).insert(
            stream,
            bookmark,
        ));
        assert(grown.contains_key(stream) && incoming_wins(local, stream, grown[stream]));
    } else {
        assert(merged_bookmarks(local, grown) =~= merged_bookmarks(local, done));
    }
    if merge_replaces(local, done) {
        let other = choose|other: Seq<char>| #[trigger]
            done.contains_key(other) && incoming_wins(local, other, done[other]);
        assert(grown.contains_key(other) && incoming_wins(local, other, grown[other]));
    }
    if merge_replaces(local, grown) {
        let other = choose|other: Seq<char>| #[trigger]
            grown.contains_key(other) && incoming_wins(local, other, grown[other]);
        if other != stream {
            assert(done.contains_key(other) && incoming_wins(local, other, done[other]));
        }
    }
}

} // verus!
