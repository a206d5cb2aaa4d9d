//! The link control plane: which physical paths a connection may use.
//!
//! The link aggregation service publishes a live set of *available*
//! tags, one per usable physical path; an operator publishes a set of
//! *disabled* tags through a latest-value channel.  Every active
//! connector holds both sets and applies the newest disabled set it
//! observes, so future link attempts skip disabled paths.  Application
//! is fire-and-forget and last-write-wins: only the newest set matters,
//! and applying it never touches links that are already open.

use vstd::prelude::*;

verus! {

/// The transport a physical path belongs to.
#[derive(Clone, Copy, Debug, PartialEq, Eq, Structural)]
pub enum TransportKind {
    /// Plain TCP.
    Tcp,
    /// TCP wrapped in transport-level encryption.
    Tls,
    /// WebSocket.
    WebSocket,
    /// Bluetooth RFCOMM.
    Rfcomm,
    /// USB.
    Usb,
}

/// One physical path the aggregation service may use: its transport
/// and an identifier distinguishing it among that transport's paths.
#[derive(Clone, Copy, Debug, PartialEq, Eq, Structural)]
pub struct LinkTag {
    /// The transport this path belongs to.
    pub kind: TransportKind,
    /// Which of the transport's paths this is.
    pub id: u64,
}

/// A finite set of link tags.
pub struct TagSet {
    items: Vec<LinkTag>,
}

impl View for TagSet {
    type V = Set<LinkTag>;

    closed spec fn view(&self) -> Set<LinkTag> {
        self.items@.to_set()
    }
}

impl Clone for TagSet {
    fn clone(&self) -> (r: Self)
        ensures
            r@ == self@,
    {
        let n = self.items.len();
        let mut items: Vec<LinkTag> = Vec::new();
        let mut i: usize = 0;
        while i < n
            invariant
                0 <= i <= n,
                n == self.items@.len(),
                items@ == self.items@.take(i as int),
            decreases n - i,
        {
            items.push(self.items[i]);
            proof {
                assert(items@ =~= self.items@.take(i + 1));
            }
            i += 1;
        }
        proof {
            assert(items@ =~= self.items@);
        }
        TagSet { items }
    }
}

impl TagSet {
    /// The empty set.
    pub fn new() -> (r: Self)
        ensures
            r@ == Set::<LinkTag>::empty(),
    {
        let items: Vec<LinkTag> = Vec::new();
        proof {
            assert(items@.to_set() =~= Set::<LinkTag>::empty());
        }
        TagSet { items }
    }

    /// Whether `tag` is in the set.
    pub fn contains(&self, tag: LinkTag) -> (r: bool)
        ensures
            r == self@.contains(tag),
    {
        let n = self.items.len();
        let mut i: usize = 0;
        while i < n
            invariant
                0 <= i <= n,
                n == self.items@.len(),
                forall|j: int| 0 <= j < i ==> self.items@[j] != tag,
            decreases n - i,
        {
            if self.items[i] == tag {
                proof {
                    assert(self@.contains(tag)) by {
                        assert(self.items@[i as int] == tag);
                    }
                }
                return true;
            }
            i += 1;
        }
        proof {
            assert(!self@.contains(tag)) by {
                if self.items@.to_set().contains(tag) {
                    let j = choose|j: int| 0 <= j < self.items@.len() && self.items@[j] == tag;
                }
            }
        }
        false
    }

    /// Adds `tag` to the set.
    pub fn insert(&mut self, tag: LinkTag)
        ensures
            final(self)@ == old(self)@.insert(tag),
    {
        if !self.contains(tag) {
            self.items.push(tag);
            proof {
                Seq::<LinkTag>::lemma_to_set_insert_commutes(old(self).items@, tag);
                assert(self.items@ =~= old(self).items@ + seq![tag]);
            }
        } else {
            proof {
                assert(old(self)@.insert(tag) =~= old(self)@);
            }
        }
    }
}

/// A connector's view of the link control plane: the paths the
/// aggregation service reports available, and the paths the operator
/// has disabled.
pub struct ConnectorLinks {
    available: TagSet,
    disabled: TagSet,
}

/// The abstract state of a connector's link selection.
pub struct LinksView {
    /// Paths the aggregation service reports usable.
    pub available: Set<LinkTag>,
    /// Paths the operator has excluded from future selection.
    pub disabled: Set<LinkTag>,
}

impl View for ConnectorLinks {
    type V = LinksView;

    closed spec fn view(&self) -> LinksView {
        LinksView { available: self.available@, disabled: self.disabled@ }
    }
}

/// What applying a disabled-tag set does to a connector: the new set
/// replaces the old one entirely — last write wins — and the available
/// set is not touched.
pub open spec fn apply_disabled(state: LinksView, tags: Set<LinkTag>) -> LinksView {
    LinksView { available: state.available, disabled: tags }
}

/// Whether a future link attempt may use `tag`: the path must be
/// available and not disabled.
pub open spec fn spec_selectable(state: LinksView, tag: LinkTag) -> bool {
    state.available.contains(tag) && !state.disabled.contains(tag)
}

impl ConnectorLinks {
    /// A connector that knows of no paths and excludes none.
    pub fn new() -> (r: Self)
        ensures
            r@.available == Set::<LinkTag>::empty(),
            r@.disabled == Set::<LinkTag>::empty(),
    {
        ConnectorLinks { available: TagSet::new(), disabled: TagSet::new() }
    }

    /// Takes the aggregation service's newest report of available
    /// paths.
    pub fn set_available_tags(&mut self, tags: TagSet)
        ensures
            final(self)@.available == tags@,
            final(self)@.disabled == old(self)@.disabled,
    {
        self.available = tags;
    }

    /// Applies the operator's newest disabled-tag set, replacing the
    /// one applied before.
    pub fn set_disabled_tags(&mut self, tags: TagSet)
        ensures
            final(self)@ == apply_disabled(old(self)@, tags@),
    {
        self.disabled = tags;
    }

    /// Whether a future link attempt may use `tag`.
    pub fn selectable(&self, tag: LinkTag) -> (r: bool)
        ensures
            r == spec_selectable(self@, tag),
    {
        self.available.contains(tag) && !self.disabled.contains(tag)
    }
}

/// Applying the same disabled-tag set twice in succession has no
/// effect beyond the first application: the second application leaves
/// the connector exactly where the first left it.
pub proof fn lemma_apply_disabled_idempotent(state: LinksView, tags: Set<LinkTag>)
    ensures
        apply_disabled(apply_disabled(state, tags), tags) == apply_disabled(state, tags),
{
}

/// Disabling every available path of one transport excludes that
/// transport from all future link attempts: afterwards no tag of that
/// transport is selectable.  Links that are already open are not part
/// of the selection state, so they are unaffected.
pub proof fn lemma_disable_kind_excludes(state: LinksView, tags: Set<LinkTag>, kind: TransportKind)
    requires
        forall|t: LinkTag|
            state.available.contains(t) && t.kind == kind ==> #[trigger] tags.contains(t),
    ensures
        forall|t: LinkTag| t.kind == kind ==> !spec_selectable(apply_disabled(state, tags), t),
{
}

} // verus!
