//! Which capabilities a connector offers. A connector says so when it is
//! built, and a driver asks before it calls.

use vstd::prelude::*;

verus! {

/// The side of a pipeline on which a connector stands.
#[derive(Debug, Clone, Copy, PartialEq, Eq, Structural)]
pub enum Role {
    /// The connector reads from a source.
    Tap,
    /// The connector writes to a destination.
    Target,
}

/// One capability of a connector, named after the interface that offers it.
#[derive(Debug, Clone, Copy, PartialEq, Eq, Structural)]
pub enum Capability {
    Discover,
    TapClient,
    TapStream,
    TapSync,
    Pagination,
    TapAuth,
    TapState,
    Sink,
    StreamSink,
    BatchSink,
    TargetStream,
    TargetSync,
    TargetAuth,
    TargetState,
    TargetClient,
    Transform,
}

/// The capabilities that a connector has declared.
#[derive(Debug, Clone)]
pub struct CapabilitySet {
    declared: Vec<Capability>,
}

impl Capability {
    /// The side on which the capability is offered.
    pub open spec fn side(self) -> Role {
        match self {
            Capability::Discover
            | Capability::TapClient
            | Capability::TapStream
            | Capability::TapSync
            | Capability::Pagination
            | Capability::TapAuth
            | Capability::TapState => Role::Tap,
            _ => Role::Target,
        }
    }

    /// The side on which the capability is offered.
    pub fn role(&self) -> (role: Role)
        ensures
            role == self.side(),
    {
        match self {
            Capability::Discover
            | Capability::TapClient
            | Capability::TapStream
            | Capability::TapSync
            | Capability::Pagination
            | Capability::TapAuth
            | Capability::TapState => Role::Tap,
            _ => Role::Target,
        }
    }
}

impl View for CapabilitySet {
    type V = Set<Capability>;

    closed spec fn view(&self) -> Set<Capability> {
        self.declared@.to_set()
    }
}

impl CapabilitySet {
    /// Every capability of `held` is offered on the side `role`.
    pub open spec fn all_on(held: Set<Capability>, role: Role) -> bool {
        forall|capability: Capability| #[trigger]
            held.contains(capability) ==> capability.side() == role
    }

    /// `held` is what a connector on the side `role` may declare: at least
    /// one capability, and none of the other side.
    pub open spec fn describes(held: Set<Capability>, role: Role) -> bool {
        held != Set::<Capability>::empty() && Self::all_on(held, role)
    }

    /// The set without any capability.
    pub fn new() -> (set: CapabilitySet)
        ensures
            set@ == Set::<Capability>::empty(),
    {
        let set = CapabilitySet { declared: Vec::new() };
        assert(set@ =~= Set::<Capability>::empty());
        set
    }

    /// Whether `capability` has been declared.
    pub fn supports(&self, capability: Capability) -> (declared: bool)
        ensures
            declared == self@.contains(capability),
    {
        let mut i: usize = 0;
        while i < self.declared.len()
            invariant
                i <= self.declared@.len(),
                forall|j: int| 0 <= j < i ==> self.declared@[j] != capability,
            decreases self.declared@.len() - i,
        {
            if self.declared[i] == capability {
                return true;
            }
            i += 1;
        }
        false
    }

    /// The set with `capability` declared besides what it holds.
    pub fn with(self, capability: Capability) -> (set: CapabilitySet)
        ensures
            set@ == self@.insert(capability),
    {
        if self.supports(capability) {
            assert(self@ =~= self@.insert(capability));
            return self;
        }
        let mut set = self;
        set.declared.push(capability);
        proof {
            assert forall|other: Capability| set@.contains(other) == self@.insert(
                capability,
            ).contains(other) by {
                if set.declared@.contains(other) {
                    let i = choose|i: int| 0 <= i < set.declared@.len() && set.declared@[i] == other;
                    if i < self.declared@.len() {
                        assert(self.declared@[i] == other);
                    }
                }
                if self.declared@.contains(other) {
                    let i = choose|i: int|
                        0 <= i < self.declared@.len() && self.declared@[i] == other;
                    assert(set.declared@[i] == other);
                }
                if other == capability {
                    assert(set.declared@[self.declared@.len() as int] == other);
                }
            }
            assert(set@ =~= self@.insert(capability));
        }
        set
    }

    /// Whether the set is one that a connector on the side `role` may
    /// declare.
    pub fn fits(&self, role: Role) -> (fitting: bool)
        ensures
            fitting == Self::describes(self@, role),
    {
        if self.declared.len() == 0 {
            assert(self@ =~= Set::<Capability>::empty());
            return false;
        }
        assert(self@.contains(self.declared@[0]));
        let mut i: usize = 0;
        while i < self.declared.len()
            invariant
                i <= self.declared@.len(),
                forall|j: int| 0 <= j < i ==> (#[trigger] self.declared@[j]).side() == role,
            decreases self.declared@.len() - i,
        {
            if self.declared[i].role() != role {
                assert(self@.contains(self.declared@[i as int]));
                return false;
            }
            i += 1;
        }
        proof {
            assert forall|capability: Capability| #[trigger]
                self@.contains(capability) implies capability.side() == role by {
                let j = choose|j: int|
                    0 <= j < self.declared@.len() && self.declared@[j] == capability;
                assert(self.declared@[j].side() == role);
            }
        }
        true
    }
}

} // verus!
