//! The views of one window, in creation order, with one of them active.

use vstd::prelude::*;

verus! {

/// The identity of a view, as the engine assigns it.
#[derive(Clone, Copy, Debug, PartialEq, Eq, Hash, Structural)]
pub struct WebViewId(pub u64);

/// Whether no identity occurs twice among `entries`.
pub open spec fn ids_unique<V>(entries: Seq<(WebViewId, V)>) -> bool {
    forall|i: int, j: int|
        0 <= i < entries.len() && 0 <= j < entries.len() && i != j ==> entries[i].0 != entries[j].0
}

/// The identities of `entries`, in order.
pub open spec fn ids_of<V>(entries: Seq<(WebViewId, V)>) -> Seq<WebViewId> {
    entries.map_values(|e: (WebViewId, V)| e.0)
}

/// `after` is `before` with the view under `id` taken out: where that view
/// was active, the newest remaining view is active in its place.
pub open spec fn removal<V>(before: WebViewCollection<V>, after: WebViewCollection<V>, id: WebViewId) -> bool {
    &&& after.wf()
    &&& !after.has(id)
    &&& before.has(id) ==> exists|i: int|
        0 <= i < before.entries().len() && before.entries()[i].0 == id && after.entries()
            == before.entries().remove(i)
    &&& !before.has(id) ==> after.entries() == before.entries()
    &&& before.active_spec() != Some(id) ==> after.active_spec() == before.active_spec()
    &&& before.active_spec() == Some(id) && after.entries().len() == 0 ==> after.active_spec() is None
    &&& before.active_spec() == Some(id) && after.entries().len() > 0 ==> after.active_spec() == Some(
        after.creation_order().last(),
    )
}

/// The views of one window, each under its identity, in creation order, and
/// the identity of the active one if any.
pub struct WebViewCollection<V> {
    entries: Vec<(WebViewId, V)>,
    active_webview_id: Option<WebViewId>,
}

impl<V> WebViewCollection<V> {
    /// The views with their identities, oldest first.
    pub closed spec fn entries(&self) -> Seq<(WebViewId, V)> {
        self.entries@
    }

    /// The identity of the active view.
    pub closed spec fn active_spec(&self) -> Option<WebViewId> {
        self.active_webview_id
    }

    /// The identities in creation order.
    pub open spec fn creation_order(&self) -> Seq<WebViewId> {
        ids_of(self.entries())
    }

    /// Whether the collection holds a view under `id`.
    pub open spec fn has(&self, id: WebViewId) -> bool {
        self.creation_order().contains(id)
    }

    /// Identities are unique and the active one, if any, is held.
    pub open spec fn wf(&self) -> bool {
        &&& ids_unique(self.entries())
        &&& (self.active_spec() matches Some(id) ==> self.has(id))
    }

    /// Whether `v` is the view held under `id`.
    pub open spec fn holds(&self, id: WebViewId, v: V) -> bool {
        exists|i: int| 0 <= i < self.entries().len() && self.entries()[i] == (id, v)
    }

    /// An empty collection with no active view.
    pub fn new() -> (r: Self)
        ensures
            r.wf(),
            r.entries().len() == 0,
            r.active_spec() is None,
    {
        WebViewCollection { entries: Vec::new(), active_webview_id: None }
    }

    /// The position of `id` in creation order.
    fn position(&self, id: WebViewId) -> (r: Option<usize>)
        ensures
            r matches Some(i) ==> i < self.entries().len() && self.entries()[i as int].0 == id,
            r is Some <==> self.has(id),
    {
        let mut i: usize = 0;
        while i < self.entries.len()
            invariant
                i <= self.entries@.len(),
                forall|j: int| 0 <= j < i ==> self.entries@[j].0 != id,
            decreases self.entries@.len() - i,
        {
            if self.entries[i].0 == id {
                assert(self.creation_order()[i as int] == id);
                return Some(i);
            }
            i = i + 1;
        }
        proof {
            if self.has(id) {
                let k = choose|k: int| 0 <= k < self.creation_order().len() && self.creation_order()[k] == id;
                assert(self.entries@[k].0 == id);
            }
        }
        None
    }

    /// Adds a view under `id`, as the newest.
    pub fn add(&mut self, id: WebViewId, webview: V)
        requires
            old(self).wf(),
            !old(self).has(id),
        ensures
            final(self).wf(),
            final(self).entries() == old(self).entries().push((id, webview)),
            final(self).active_spec() == old(self).active_spec(),
    {
        self.entries.push((id, webview));
        proof {
            assert(ids_of(self.entries@) =~= ids_of(old(self).entries@).push(id));
            if let Some(a) = self.active_webview_id {
                let k = choose|k: int| 0 <= k < old(self).creation_order().len() && old(self).creation_order()[k] == a;
                assert(self.creation_order()[k] == a);
            }
            assert forall|i: int, j: int|
                0 <= i < self.entries@.len() && 0 <= j < self.entries@.len() && i != j implies
                self.entries@[i].0 != self.entries@[j].0 by {
                if i == self.entries@.len() - 1 {
                    assert(old(self).creation_order()[j] == self.entries@[j].0);
                } else if j == self.entries@.len() - 1 {
                    assert(old(self).creation_order()[i] == self.entries@[i].0);
                }
            }
        }
    }

    /// Removes the view under `id` and returns it. Where it was the active
    /// view, the newest remaining view becomes active, if any is left.
    pub fn remove(&mut self, id: WebViewId) -> (r: Option<V>)
        requires
            old(self).wf(),
        ensures
            removal(*old(self), *final(self), id),
            r is Some <==> old(self).has(id),
            r matches Some(v) ==> old(self).holds(id, v),
            old(self).active_spec() == Some(id) && old(self).entries().len() > 1
                ==> final(self).entries().len() == old(self).entries().len() - 1
                && final(self).active_spec() == Some(final(self).creation_order().last()),
            old(self).active_spec() == Some(id) && old(self).entries().len() == 1
                ==> final(self).active_spec() is None,
    {
        let removed = match self.position(id) {
            Some(i) => {
                let ghost before = self.entries@;
                let (_, v) = self.entries.remove(i);
                proof {
                    assert(self.entries@ == before.remove(i as int));
                    assert forall|a: int, b: int|
                        0 <= a < self.entries@.len() && 0 <= b < self.entries@.len() && a != b implies
                        self.entries@[a].0 != self.entries@[b].0 by {
                        let a2 = if a < i { a } else { a + 1 };
                        let b2 = if b < i { b } else { b + 1 };
                        assert(self.entries@[a] == before[a2]);
                        assert(self.entries@[b] == before[b2]);
                    }
                    assert forall|k: int| 0 <= k < self.entries@.len() implies self.entries@[k].0 != id by {
                        let k2 = if k < i { k } else { k + 1 };
                        assert(self.entries@[k] == before[k2]);
                    }
                    if let Some(a) = self.active_webview_id {
                        if a != id {
                            let k = choose|k: int| 0 <= k < old(self).creation_order().len() && old(self).creation_order()[k] == a;
                            assert(k != i);
                            let k2 = if k < i { k } else { k - 1 };
                            assert(self.entries@[k2] == before[k]);
                            assert(self.creation_order()[k2] == a);
                        }
                    }
                }
                assert(before[i as int] == (id, v));
                Some(v)
            },
            None => None,
        };
        if self.active_webview_id == Some(id) {
            self.active_webview_id = None;
            let n = self.entries.len();
            if n > 0 {
                let newest = self.entries[n - 1].0;
                assert(self.creation_order()[n - 1] == newest);
                self.activate_webview(newest);
            }
        }
        proof {
            if self.has(id) {
                let k = choose|k: int| 0 <= k < self.creation_order().len() && self.creation_order()[k] == id;
                assert(self.entries@[k].0 == id);
            }
        }
        removed
    }

    /// The view under `id`, if any.
    pub fn get(&self, id: WebViewId) -> (r: Option<&V>)
        ensures
            r is Some <==> self.has(id),
            r matches Some(v) ==> self.holds(id, *v),
    {
        match self.position(id) {
            Some(i) => {
                assert(self.entries@[i as int] == (id, self.entries@[i as int].1));
                Some(&self.entries[i].1)
            },
            None => None,
        }
    }

    /// Whether a view is held under `id`.
    pub fn contains(&self, id: WebViewId) -> (r: bool)
        ensures
            r == self.has(id),
    {
        self.position(id).is_some()
    }

    /// The active view, if any.
    pub fn active(&self) -> (r: Option<&V>)
        requires
            self.wf(),
        ensures
            r is Some <==> self.active_spec() is Some,
            r matches Some(v) ==> self.holds(self.active_spec()->0, *v),
    {
        match self.active_webview_id {
            Some(id) => self.get(id),
            None => None,
        }
    }

    /// The identity of the active view, if any.
    pub fn active_id(&self) -> (r: Option<WebViewId>)
        ensures
            r == self.active_spec(),
    {
        self.active_webview_id
    }

    /// The views with their identities, oldest first.
    pub fn all_in_creation_order(&self) -> (r: Vec<(WebViewId, &V)>)
        ensures
            r@.len() == self.entries().len(),
            forall|i: int| 0 <= i < r@.len() ==> r@[i].0 == self.entries()[i].0 && *r@[i].1 == self.entries()[i].1,
    {
        let mut out: Vec<(WebViewId, &V)> = Vec::new();
        let mut i: usize = 0;
        while i < self.entries.len()
            invariant
                i <= self.entries@.len(),
                out@.len() == i,
                forall|j: int| 0 <= j < i ==> out@[j].0 == self.entries@[j].0 && *out@[j].1 == self.entries@[j].1,
            decreases self.entries@.len() - i,
        {
            let e = &self.entries[i];
            out.push((e.0, &e.1));
            i = i + 1;
        }
        out
    }

    /// The views, oldest first.
    pub fn values(&self) -> (r: Vec<&V>)
        ensures
            r@.len() == self.entries().len(),
            forall|i: int| 0 <= i < r@.len() ==> *r@[i] == self.entries()[i].1,
    {
        let mut out: Vec<&V> = Vec::new();
        let mut i: usize = 0;
        while i < self.entries.len()
            invariant
                i <= self.entries@.len(),
                out@.len() == i,
                forall|j: int| 0 <= j < i ==> *out@[j] == self.entries@[j].1,
            decreases self.entries@.len() - i,
        {
            out.push(&self.entries[i].1);
            i = i + 1;
        }
        out
    }

    /// How many views the collection holds.
    pub fn len(&self) -> (r: usize)
        ensures
            r == self.entries().len(),
    {
        self.entries.len()
    }

    /// Whether the collection holds no view.
    pub fn is_empty(&self) -> (r: bool)
        ensures
            r == (self.entries().len() == 0),
    {
        self.entries.len() == 0
    }

    /// Makes the view under `id` the active one. The engine is then to show
    /// and focus it and hide and blur every other view (see
    /// [`Self::activation_states`]).
    pub fn activate_webview(&mut self, id: WebViewId)
        requires
            old(self).wf(),
            old(self).has(id),
        ensures
            final(self).wf(),
            final(self).entries() == old(self).entries(),
            final(self).active_spec() == Some(id),
    {
        self.active_webview_id = Some(id);
    }

    /// Makes the view at position `index` in creation order the active one.
    pub fn activate_webview_by_index(&mut self, index: usize)
        requires
            old(self).wf(),
            index < old(self).entries().len(),
        ensures
            final(self).wf(),
            final(self).entries() == old(self).entries(),
            final(self).active_spec() == Some(old(self).creation_order()[index as int]),
    {
        let id = self.entries[index].0;
        assert(self.creation_order()[index as int] == id);
        self.activate_webview(id);
    }

    /// For each view, oldest first, whether it is the one to show and focus
    /// (the active view) or one to hide and blur.
    pub fn activation_states(&self) -> (r: Vec<(WebViewId, bool)>)
        ensures
            r@.len() == self.entries().len(),
            forall|i: int|
                0 <= i < r@.len() ==> r@[i] == (self.entries()[i].0, self.active_spec() == Some(self.entries()[i].0)),
    {
        let mut out: Vec<(WebViewId, bool)> = Vec::new();
        let mut i: usize = 0;
        while i < self.entries.len()
            invariant
                i <= self.entries@.len(),
                out@.len() == i,
                forall|j: int|
                    0 <= j < i ==> out@[j] == (self.entries@[j].0, self.active_webview_id == Some(self.entries@[j].0)),
            decreases self.entries@.len() - i,
        {
            let id = self.entries[i].0;
            let shown = match self.active_webview_id {
                Some(a) => a == id,
                None => false,
            };
            out.push((id, shown));
            i = i + 1;
        }
        out
    }
}

} // verus!
