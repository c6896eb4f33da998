use vstd::prelude::*;

verus! {

/// What an adapter's hooks are told about the handles that share one token.
#[derive(Debug, Clone, Copy, PartialEq, Eq, Structural)]
pub enum Event {
    /// A handle was cloned.
    Cloned,
    /// A handle was dropped.
    Dropped,
}

/// The count that an adapter can keep of the shared ownership of one token: how many handles
/// share the token, and how often the resource behind it has been released.
///
/// This is a model of counting, and the laws below are laws of the count. A `LocalSpawner`
/// keeps no such count itself: its sharing is that of the `Rc` it holds.
pub struct Shares {
    pub handles: nat,
    pub releases: nat,
}

impl Shares {
    /// The ownership of a token that has just been made: one handle, nothing released.
    pub open spec fn initial() -> Shares {
        Shares { handles: 1, releases: 0 }
    }

    /// One more handle shares the token.
    pub open spec fn after_clone(self) -> Shares {
        Shares { handles: self.handles + 1, releases: self.releases }
    }

    /// One handle fewer shares the token. When the last one goes, the resource is released.
    pub open spec fn after_drop(self) -> Shares {
        Shares {
            handles: (self.handles - 1) as nat,
            releases: if self.handles == 1 {
                self.releases + 1
            } else {
                self.releases
            },
        }
    }

    /// The ownership after one event.
    pub open spec fn step(self, event: Event) -> Shares {
        match event {
            Event::Cloned => self.after_clone(),
            Event::Dropped => self.after_drop(),
        }
    }

    /// The ownership after a history of events, oldest first.
    pub open spec fn after(self, events: Seq<Event>) -> Shares
        decreases events.len(),
    {
        if events.len() == 0 {
            self
        } else {
            self.after(events.drop_last()).step(events.last())
        }
    }

    /// Whether a history can happen: every event needs a handle to happen to.
    pub open spec fn admits(self, events: Seq<Event>) -> bool
        decreases events.len(),
    {
        events.len() == 0 || (self.admits(events.drop_last()) && self.after(events.drop_last()).handles
            > 0)
    }

    /// Whether the resource behind the token is still there.
    pub open spec fn alive(self) -> bool {
        self.releases == 0
    }
}

/// A history of `clones` clones followed by `drops` drops.
pub open spec fn clones_then_drops(clones: nat, drops: nat) -> Seq<Event> {
    Seq::new(clones, |i: int| Event::Cloned) + Seq::new(drops, |i: int| Event::Dropped)
}

/// A counter of the shared ownership of one token, for an adapter to keep behind its token
/// and to step from its clone and drop hooks.
pub struct Ownership {
    handles: u64,
    releases: u64,
}

impl View for Ownership {
    type V = Shares;

    closed spec fn view(&self) -> Shares {
        Shares { handles: self.handles as nat, releases: self.releases as nat }
    }
}

impl Ownership {
    /// The ownership of a token that has just been made.
    pub fn new() -> (ownership: Ownership)
        ensures
            ownership@ == Shares::initial(),
    {
        Ownership { handles: 1, releases: 0 }
    }

    /// The number of handles that share the token.
    pub fn handles(&self) -> (n: u64)
        ensures
            n == self@.handles,
    {
        self.handles
    }

    /// How often the resource behind the token has been released.
    pub fn releases(&self) -> (n: u64)
        ensures
            n == self@.releases,
    {
        self.releases
    }

    /// Records that a handle was cloned.
    pub fn on_clone(&mut self)
        requires
            0 < old(self)@.handles < u64::MAX,
        ensures
            final(self)@ == old(self)@.after_clone(),
    {
        self.handles = self.handles + 1;
    }

    /// Records that a handle was dropped, and says whether that released the resource.
    pub fn on_drop(&mut self) -> (released: bool)
        requires
            0 < old(self)@.handles,
            old(self)@.releases < u64::MAX,
        ensures
            final(self)@ == old(self)@.after_drop(),
            released == (old(self)@.handles == 1),
    {
        let last = self.handles == 1;
        self.handles = self.handles - 1;
        if last {
            self.releases = self.releases + 1;
        }
        last
    }
}

/// A count that starts with one handle and follows any history of clone and drop events that
/// can happen stands at one release if it stands at no handle, and at no release while it
/// stands at any handle.
pub proof fn lemma_released_exactly_when_unshared(events: Seq<Event>)
    requires
        Shares::initial().admits(events),
    ensures
        Shares::initial().after(events).releases == (if Shares::initial().after(events).handles == 0 {
            1nat
        } else {
            0nat
        }),
    decreases events.len(),
{
    if events.len() > 0 {
        lemma_released_exactly_when_unshared(events.drop_last());
    }
}

/// A count that starts with one handle and sees `n` clone events and then `n + 1` drop events
/// has seen a history that can happen, and stands at no handle and exactly one release; after
/// only `n` of the drop events it stands at one handle and no release.
pub proof fn lemma_clone_n_drop_all(n: nat)
    ensures
        Shares::initial().admits(clones_then_drops(n, n + 1)),
        Shares::initial().after(clones_then_drops(n, n + 1)) == (Shares { handles: 0, releases: 1 }),
        Shares::initial().after(clones_then_drops(n, n)) == (Shares { handles: 1, releases: 0 }),
{
    lemma_clones_then_drops(n, n + 1);
    lemma_clones_then_drops(n, n);
}

/// A history of `clones` clones and then at most `clones + 1` drops can happen, and leaves
/// `clones + 1 - drops` handles.
proof fn lemma_clones_then_drops(clones: nat, drops: nat)
    requires
        drops <= clones + 1,
    ensures
        Shares::initial().admits(clones_then_drops(clones, drops)),
        Shares::initial().after(clones_then_drops(clones, drops)).handles == clones + 1 - drops,
        Shares::initial().after(clones_then_drops(clones, drops)).releases == (if drops == clones + 1 {
            1nat
        } else {
            0nat
        }),
    decreases clones + drops,
{
    let events = clones_then_drops(clones, drops);
    if drops > 0 {
        assert(events.drop_last() =~= clones_then_drops(clones, (drops - 1) as nat));
        assert(events.last() == Event::Dropped);
        lemma_clones_then_drops(clones, (drops - 1) as nat);
    } else if clones > 0 {
        assert(events.drop_last() =~= clones_then_drops((clones - 1) as nat, 0));
        assert(events.last() == Event::Cloned);
        lemma_clones_then_drops((clones - 1) as nat, 0);
    } else {
        assert(events.len() == 0);
    }
}

/// A count that stands at some handle and no release, and sees a clone event and then a drop
/// event, is back where it was: the drop of one of two handles releases nothing.
pub proof fn lemma_clone_keeps_resource_alive(shares: Shares)
    requires
        shares.handles > 0,
        shares.alive(),
    ensures
        shares.after_clone().after_drop() == shares,
        shares.after_clone().after_drop().alive(),
        shares.after_clone().after_drop().handles > 0,
{
}

} // verus!
