//! The consumer side: a local view of the published items, kept up to date
//! from notifications and rebuilt from the item store after a gap.

use vstd::prelude::*;
use crate::tray::event::{Notification, NotificationView};
use crate::tray::idmap::IdMap;
use crate::tray::item::{ItemView, TrayItemInfo};

verus! {

/// What one receive on the notification channel brought.
#[derive(Clone, Debug, PartialEq, Eq)]
pub enum Delivery {
    /// The next notification.
    Received(Notification),
    /// Notifications were dropped for this subscriber; the number says how
    /// many.
    Lagged(u64),
    /// The engine is gone; nothing more will come.
    Closed,
}

/// Where a subscriber stands.
#[derive(Clone, Copy, Debug, PartialEq, Eq, Structural)]
pub enum SubscriberPhase {
    /// Every notification so far has been seen.
    Streaming,
    /// A gap was seen and the view has not been rebuilt yet.
    Lagged,
    /// The channel is closed. The view keeps its last state.
    Closed,
}

/// What the consumer has to do for one identity after its view changed.
#[derive(Clone, Debug, PartialEq, Eq)]
pub enum ViewChange {
    /// The identity is new: make something to show it.
    Created(String),
    /// The identity was shown already: show its new state.
    Updated(String),
    /// The identity is gone: stop showing it.
    Removed(String),
}

/// Mathematical value of a [`ViewChange`].
pub enum ChangeView {
    Created(Seq<char>),
    Updated(Seq<char>),
    Removed(Seq<char>),
}

impl View for ViewChange {
    type V = ChangeView;

    open spec fn view(&self) -> ChangeView {
        match self {
            ViewChange::Created(id) => ChangeView::Created(id@),
            ViewChange::Updated(id) => ChangeView::Updated(id@),
            ViewChange::Removed(id) => ChangeView::Removed(id@),
        }
    }
}

/// Views of a list of changes, in order.
pub open spec fn changes_view(v: Seq<ViewChange>) -> Seq<ChangeView> {
    Seq::new(v.len(), |i: int| v[i]@)
}

/// View of an optional change.
pub open spec fn change_view(c: Option<ViewChange>) -> Option<ChangeView> {
    match c {
        Some(c) => Some(c@),
        None => None,
    }
}

/// The items of a view after it took in `n`: a notification with a state
/// replaces what was cached under its identity, one without removes it.
pub open spec fn absorb(items: Map<Seq<char>, ItemView>, n: NotificationView) -> Map<
    Seq<char>,
    ItemView,
> {
    match n.item {
        Some(state) => items.insert(n.id, state),
        None => items.remove(n.id),
    }
}

/// The items of a view after it took in the notifications of `ns`, first to
/// last.
pub open spec fn absorb_all(items: Map<Seq<char>, ItemView>, ns: Seq<NotificationView>) -> Map<
    Seq<char>,
    ItemView,
>
    decreases ns.len(),
{
    if ns.len() == 0 {
        items
    } else {
        absorb(absorb_all(items, ns.drop_last()), ns.last())
    }
}

/// The order of a view's identities after it took in `n`: an identity that is
/// new goes last, one that is known keeps its place, and one that is removed
/// leaves the others in their order. `ids` is the order before and `items`
/// what the view held.
pub open spec fn absorb_ids(
    ids: Seq<Seq<char>>,
    items: Map<Seq<char>, ItemView>,
    n: NotificationView,
) -> Seq<Seq<char>> {
    match n.item {
        Some(_) => if items.contains_key(n.id) {
            ids
        } else {
            ids.push(n.id)
        },
        None => if items.contains_key(n.id) {
            ids.remove(ids.index_of(n.id))
        } else {
            ids
        },
    }
}

/// What the consumer has to do after a view with `items` took in `n`.
pub open spec fn change_of(items: Map<Seq<char>, ItemView>, n: NotificationView) -> Option<
    ChangeView,
> {
    match n.item {
        Some(_) => if items.contains_key(n.id) {
            Some(ChangeView::Updated(n.id))
        } else {
            Some(ChangeView::Created(n.id))
        },
        None => if items.contains_key(n.id) {
            Some(ChangeView::Removed(n.id))
        } else {
            None
        },
    }
}

/// The identities of `ids` that are in `known`, in the order of `ids`.
pub open spec fn only(ids: Seq<Seq<char>>, known: Set<Seq<char>>) -> Seq<Seq<char>>
    decreases ids.len(),
{
    if ids.len() == 0 {
        ids
    } else if known.contains(ids.last()) {
        only(ids.drop_last(), known).push(ids.last())
    } else {
        only(ids.drop_last(), known)
    }
}

/// The identities of `ids` that are not in `known`, in the order of `ids`.
pub open spec fn except(ids: Seq<Seq<char>>, known: Set<Seq<char>>) -> Seq<Seq<char>>
    decreases ids.len(),
{
    if ids.len() == 0 {
        ids
    } else if known.contains(ids.last()) {
        except(ids.drop_last(), known)
    } else {
        except(ids.drop_last(), known).push(ids.last())
    }
}

/// One creation for each identity of `ids`, in order.
pub open spec fn creations(ids: Seq<Seq<char>>) -> Seq<ChangeView> {
    Seq::new(ids.len(), |i: int| ChangeView::Created(ids[i]))
}

/// One removal for each identity of `ids`, in order.
pub open spec fn removals(ids: Seq<Seq<char>>) -> Seq<ChangeView> {
    Seq::new(ids.len(), |i: int| ChangeView::Removed(ids[i]))
}

/// What a consumer has to do for the identity `id` of the store: create it
/// where the view does not hold it, update it where the view holds another
/// state than the store, and nothing where the view is up to date.
pub open spec fn upsert_of(
    id: Seq<char>,
    cached: Map<Seq<char>, ItemView>,
    stored: Map<Seq<char>, ItemView>,
) -> Option<ChangeView> {
    if !cached.contains_key(id) {
        Some(ChangeView::Created(id))
    } else if cached[id] != stored[id] {
        Some(ChangeView::Updated(id))
    } else {
        None
    }
}

/// What a consumer has to do for the identities `ids` of the store, in order.
pub open spec fn upserts(
    ids: Seq<Seq<char>>,
    cached: Map<Seq<char>, ItemView>,
    stored: Map<Seq<char>, ItemView>,
) -> Seq<ChangeView>
    decreases ids.len(),
{
    if ids.len() == 0 {
        Seq::empty()
    } else {
        let before = upserts(ids.drop_last(), cached, stored);
        match upsert_of(ids.last(), cached, stored) {
            Some(change) => before.push(change),
            None => before,
        }
    }
}

/// What a consumer has to do to bring a view in line with the store: first
/// drop what the store no longer has, in the order of the view, then create
/// what is missing and update what is stale, in the order of the store.
/// `cached_ids` and `stored_ids` are the identities of the view and of the
/// store in their order, `cached` and `stored` what they hold.
pub open spec fn reconcile_changes(
    cached_ids: Seq<Seq<char>>,
    cached: Map<Seq<char>, ItemView>,
    stored_ids: Seq<Seq<char>>,
    stored: Map<Seq<char>, ItemView>,
) -> Seq<ChangeView> {
    removals(except(cached_ids, stored.dom())) + upserts(stored_ids, cached, stored)
}

/// The order of a view's identities after reconciliation: what it kept, in its
/// old order, then what is new, in the order of the store.
pub open spec fn reconciled_ids(cached: Seq<Seq<char>>, stored: Seq<Seq<char>>) -> Seq<
    Seq<char>,
> {
    only(cached, stored.to_set()) + except(stored, cached.to_set())
}

proof fn lemma_only_step(ids: Seq<Seq<char>>, known: Set<Seq<char>>, j: int)
    requires
        0 <= j < ids.len(),
    ensures
        only(ids.take(j + 1), known) == if known.contains(ids[j]) {
            only(ids.take(j), known).push(ids[j])
        } else {
            only(ids.take(j), known)
        },
        except(ids.take(j + 1), known) == if known.contains(ids[j]) {
            except(ids.take(j), known)
        } else {
            except(ids.take(j), known).push(ids[j])
        },
{
    assert(ids.take(j + 1).drop_last() =~= ids.take(j));
}

proof fn lemma_contains_last(s: Seq<Seq<char>>, k: Seq<char>)
    requires
        s.len() > 0,
    ensures
        s.contains(k) <==> s.drop_last().contains(k) || s.last() == k,
{
    if s.contains(k) {
        let i = s.index_of(k);
        if i < s.len() - 1 {
            assert(s.drop_last()[i] == k);
        }
    }
}

proof fn lemma_contains_push(s: Seq<Seq<char>>, x: Seq<char>, k: Seq<char>)
    ensures
        s.push(x).contains(k) <==> s.contains(k) || x == k,
{
    lemma_contains_last(s.push(x), k);
    assert(s.push(x).drop_last() =~= s);
}

proof fn lemma_except_agree(ids: Seq<Seq<char>>, a: Set<Seq<char>>, b: Set<Seq<char>>)
    requires
        forall|i: int|
            0 <= i < ids.len() ==> (a.contains(#[trigger] ids[i]) <==> b.contains(ids[i])),
    ensures
        except(ids, a) == except(ids, b),
        only(ids, a) == only(ids, b),
    decreases ids.len(),
{
    if ids.len() > 0 {
        let rest = ids.drop_last();
        lemma_except_agree(rest, a, b);
    }
}

proof fn lemma_upserts_agree(
    ids: Seq<Seq<char>>,
    a: Map<Seq<char>, ItemView>,
    b: Map<Seq<char>, ItemView>,
    stored: Map<Seq<char>, ItemView>,
)
    requires
        forall|i: int|
            0 <= i < ids.len() ==> (a.contains_key(#[trigger] ids[i]) <==> b.contains_key(ids[i])),
        forall|i: int|
            0 <= i < ids.len() && a.contains_key(#[trigger] ids[i]) ==> a[ids[i]] == b[ids[i]],
    ensures
        upserts(ids, a, stored) == upserts(ids, b, stored),
    decreases ids.len(),
{
    if ids.len() > 0 {
        let rest = ids.drop_last();
        lemma_upserts_agree(rest, a, b, stored);
    }
}

proof fn lemma_upserts_step(
    ids: Seq<Seq<char>>,
    cached: Map<Seq<char>, ItemView>,
    stored: Map<Seq<char>, ItemView>,
    j: int,
)
    requires
        0 <= j < ids.len(),
    ensures
        upserts(ids.take(j + 1), cached, stored) == match upsert_of(ids[j], cached, stored) {
            Some(change) => upserts(ids.take(j), cached, stored).push(change),
            None => upserts(ids.take(j), cached, stored),
        },
{
    assert(ids.take(j + 1).drop_last() =~= ids.take(j));
}

/// A consumer's local view of the published items.
pub struct TrayView {
    items: IdMap<TrayItemInfo>,
    phase: SubscriberPhase,
}

/// Mathematical value of a [`TrayView`].
pub struct ViewState {
    pub items: Map<Seq<char>, ItemView>,
    pub phase: SubscriberPhase,
}

impl View for TrayView {
    type V = ViewState;

    closed spec fn view(&self) -> ViewState {
        ViewState { items: self.items@, phase: self.phase }
    }
}

/// The state of a subscriber after one delivery. A closed subscriber stays as
/// it is. Otherwise a notification is taken in, a gap makes the subscriber
/// lagged, and the end of the channel closes it.
pub open spec fn after_delivery(s: ViewState, d: Delivery) -> ViewState {
    if s.phase is Closed {
        s
    } else {
        match d {
            Delivery::Received(n) => ViewState { items: absorb(s.items, n@), ..s },
            Delivery::Lagged(_) => ViewState { phase: SubscriberPhase::Lagged, ..s },
            Delivery::Closed => ViewState { phase: SubscriberPhase::Closed, ..s },
        }
    }
}

/// The order of a subscriber's identities after one delivery: only a
/// notification that is taken in changes it.
pub open spec fn ids_after_delivery(ids: Seq<Seq<char>>, s: ViewState, d: Delivery) -> Seq<
    Seq<char>,
> {
    if s.phase is Closed {
        ids
    } else {
        match d {
            Delivery::Received(n) => absorb_ids(ids, s.items, n@),
            _ => ids,
        }
    }
}

/// What the consumer has to do after one delivery.
pub open spec fn change_after_delivery(s: ViewState, d: Delivery) -> Option<ChangeView> {
    if s.phase is Closed {
        None
    } else {
        match d {
            Delivery::Received(n) => change_of(s.items, n@),
            _ => None,
        }
    }
}

/// The phase a subscriber is in once it has rebuilt its view.
pub open spec fn phase_after_reconcile(p: SubscriberPhase) -> SubscriberPhase {
    if p is Closed {
        SubscriberPhase::Closed
    } else {
        SubscriberPhase::Streaming
    }
}

fn drop_stale(items: &mut IdMap<TrayItemInfo>, store: &IdMap<TrayItemInfo>) -> (gone: Vec<
    ViewChange,
>)
    ensures
        old(items).positions_agree(),
        final(items)@ == old(items)@.restrict(store@.dom()),
        final(items).ids() == only(old(items).ids(), store@.dom()),
        changes_view(gone@) == removals(except(old(items).ids(), store@.dom())),
{
    let ghost cached = items.ids();
    let ghost before = items@;
    let ghost known = store@.dom();
    let mut gone: Vec<ViewChange> = Vec::new();
    let mut i: usize = 0;
    let ghost mut j: int = 0;
    let mut n = items.len();
    while i < n
        invariant
            known == store@.dom(),
            cached.no_duplicates(),
            forall|k: Seq<char>| before.contains_key(k) <==> cached.contains(k),
            0 <= j <= cached.len(),
            n == items.ids().len(),
            i <= n,
            n - i == cached.len() - j,
            i == only(cached.take(j), known).len(),
            items.ids() == only(cached.take(j), known) + cached.skip(j),
            changes_view(gone@) == removals(except(cached.take(j), known)),
            forall|k: Seq<char>| #[trigger]
                items@.contains_key(k) <==> before.contains_key(k) && !(cached.take(j).contains(k)
                    && !known.contains(k)),
            forall|k: Seq<char>| #[trigger] items@.contains_key(k) ==> items@[k] == before[k],
        decreases n - i,
    {
        let ghost gone_now = gone@;
        let key = items.key_at(i);
        proof {
            lemma_only_step(cached, known, j);
            assert forall|k: Seq<char>|
                cached.take(j + 1).contains(k) <==> cached.take(j).contains(k) || k
                    == cached[j] by {
                lemma_contains_push(cached.take(j), cached[j], k);
            }
        }
        if store.contains(key) {
            i = i + 1;
        } else {
            let id = key.clone();
            let _ = items.remove(&id);
            gone.push(ViewChange::Removed(id));
            proof {
                let stale = except(cached.take(j), known);
                assert(changes_view(gone@) =~= changes_view(gone_now).push(
                    ChangeView::Removed(id@),
                ));
                assert(removals(stale.push(id@)) =~= removals(stale).push(
                    ChangeView::Removed(id@),
                ));
            }
            n = n - 1;
        }
        proof {
            j = j + 1;
        }
    }
    proof {
        assert(cached.take(j) =~= cached);
    }
    gone
}

fn take_over(
    items: &mut IdMap<TrayItemInfo>,
    store: &IdMap<TrayItemInfo>,
    changes: &mut Vec<ViewChange>,
)
    requires
        old(items)@.dom().subset_of(store@.dom()),
    ensures
        store.positions_agree(),
        final(items)@ == store@,
        final(items).ids() == old(items).ids() + except(store.ids(), old(items)@.dom()),
        changes_view(final(changes)@) == changes_view(old(changes)@) + upserts(
            store.ids(),
            old(items)@,
            store@,
        ),
{
    let ghost first = items@;
    let ghost first_ids = items.ids();
    let ghost cached = items@.dom();
    let ghost base = changes_view(changes@);
    let ghost stored = store.ids();
    let n = store.len();
    let mut i: usize = 0;
    while i < n
        invariant
            stored == store.ids(),
            cached == first.dom(),
            cached.subset_of(store@.dom()),
            stored.no_duplicates(),
            forall|k: Seq<char>| store@.contains_key(k) <==> stored.contains(k),
            n == stored.len(),
            i <= n,
            items.ids() == first_ids + except(stored.take(i as int), cached),
            changes_view(changes@) == base + upserts(stored.take(i as int), first, store@),
            forall|k: Seq<char>| #[trigger]
                items@.contains_key(k) <==> cached.contains(k) || stored.take(i as int).contains(
                    k,
                ),
            forall|k: Seq<char>| #[trigger]
                items@.contains_key(k) && stored.take(i as int).contains(k) ==> items@[k]
                    == store@[k],
            forall|k: Seq<char>| #[trigger]
                items@.contains_key(k) && !stored.take(i as int).contains(k) ==> items@[k]
                    == first[k],
        decreases n - i,
    {
        let key = store.key_at(i);
        let val = store.value_at(i);
        let ghost changes_now = changes@;
        proof {
            lemma_only_step(stored, cached, i as int);
            lemma_upserts_step(stored, first, store@, i as int);
            assert forall|k: Seq<char>|
                stored.take(i + 1).contains(k) <==> stored.take(i as int).contains(k) || k
                    == stored[i as int] by {
                lemma_contains_push(stored.take(i as int), stored[i as int], k);
            }
        }
        let change = match items.get(key) {
            Some(cur) => if cur.same_as(val) {
                None
            } else {
                Some(ViewChange::Updated(key.clone()))
            },
            None => Some(ViewChange::Created(key.clone())),
        };
        if let Some(change) = change {
            items.insert(key.clone(), val.snapshot());
            changes.push(change);
            assert(changes_view(changes@) =~= changes_view(changes_now).push(change@));
        }
        i = i + 1;
    }
    proof {
        assert(stored.take(n as int) =~= stored);
    }
}

impl TrayView {
    /// The identities of the view, in the order in which the consumer shows
    /// them.
    pub closed spec fn ids(&self) -> Seq<Seq<char>> {
        self.items.ids()
    }

    /// An empty view that is streaming.
    pub fn new() -> (v: TrayView)
        ensures
            v@ == (ViewState { items: Map::empty(), phase: SubscriberPhase::Streaming }),
            v.ids() == Seq::<Seq<char>>::empty(),
    {
        TrayView { items: IdMap::new(), phase: SubscriberPhase::Streaming }
    }

    /// Where the subscriber stands.
    pub fn phase(&self) -> (p: SubscriberPhase)
        ensures
            p == self@.phase,
    {
        self.phase
    }

    /// The cached items, to read.
    pub fn items(&self) -> (cached: &IdMap<TrayItemInfo>)
        ensures
            cached@ == self@.items,
            cached.ids() == self.ids(),
    {
        &self.items
    }

    /// Gives up the view for the items it holds.
    pub fn into_items(self) -> (items: IdMap<TrayItemInfo>)
        ensures
            items@ == self@.items,
            items.ids() == self.ids(),
    {
        self.items
    }

    /// Takes in one notification and says what the consumer has to do.
    pub fn apply(&mut self, note: Notification) -> (change: Option<ViewChange>)
        ensures
            final(self)@ == (ViewState { items: absorb(old(self)@.items, note@), ..old(self)@ }),
            final(self).ids() == absorb_ids(old(self).ids(), old(self)@.items, note@),
            change_view(change) == change_of(old(self)@.items, note@),
    {
        let Notification { id, item } = note;
        match item {
            Some(state) => {
                let known = self.items.contains(&id);
                self.items.insert(id.clone(), state);
                if known {
                    Some(ViewChange::Updated(id))
                } else {
                    Some(ViewChange::Created(id))
                }
            },
            None => match self.items.remove(&id) {
                Some(_) => Some(ViewChange::Removed(id)),
                None => None,
            },
        }
    }

    /// Takes one delivery from the notification channel and says what the
    /// consumer has to do. After a gap the view is left as it is: the caller
    /// rebuilds it with [`TrayView::reconcile`].
    pub fn on_delivery(&mut self, delivery: Delivery) -> (change: Option<ViewChange>)
        ensures
            final(self)@ == after_delivery(old(self)@, delivery),
            final(self).ids() == ids_after_delivery(old(self).ids(), old(self)@, delivery),
            change_view(change) == change_after_delivery(old(self)@, delivery),
    {
        match self.phase {
            SubscriberPhase::Closed => None,
            _ => match delivery {
                Delivery::Received(note) => self.apply(note),
                Delivery::Lagged(_) => {
                    self.phase = SubscriberPhase::Lagged;
                    None
                },
                Delivery::Closed => {
                    self.phase = SubscriberPhase::Closed;
                    None
                },
            },
        }
    }

    /// Rebuilds the view from the item store: what the store no longer has is
    /// dropped, what the view lacks is created, and what the view holds in
    /// another state than the store is updated. A lagged subscriber is
    /// streaming again afterwards.
    pub fn reconcile(&mut self, store: &IdMap<TrayItemInfo>) -> (changes: Vec<ViewChange>)
        ensures
            final(self)@.items == store@,
            final(self)@.items.dom() == store@.dom(),
            final(self)@.phase == phase_after_reconcile(old(self)@.phase),
            final(self).ids() == reconciled_ids(old(self).ids(), store.ids()),
            changes_view(changes@) == reconcile_changes(
                old(self).ids(),
                old(self)@.items,
                store.ids(),
                store@,
            ),
    {
        let ghost cached = self.items.ids();
        let ghost before = self.items@;
        let ghost stored = store.ids();
        let mut changes = drop_stale(&mut self.items, store);
        let ghost kept = self.items@.dom();
        let ghost kept_items = self.items@;
        take_over(&mut self.items, store, &mut changes);
        match self.phase {
            SubscriberPhase::Closed => {},
            _ => {
                self.phase = SubscriberPhase::Streaming;
            },
        }
        proof {
            lemma_except_agree(stored, kept, cached.to_set());
            lemma_except_agree(cached, store@.dom(), stored.to_set());
            lemma_upserts_agree(stored, kept_items, before, store@);
        }
        changes
    }
}

/// The view of a consumer that attaches now: everything the store holds, each
/// item to be created.
pub fn init(store: &IdMap<TrayItemInfo>) -> (r: (TrayView, Vec<ViewChange>))
    ensures
        r.0@ == (ViewState { items: store@, phase: SubscriberPhase::Streaming }),
        r.0.ids() == store.ids(),
        changes_view(r.1@) == creations(store.ids()),
{
    let mut view = TrayView::new();
    let changes = view.reconcile(store);
    proof {
        let none = Seq::<Seq<char>>::empty();
        let stored = store.ids();
        assert(none.to_set() =~= Set::<Seq<char>>::empty());
        lemma_all_new(stored);
        lemma_all_created(stored, store@);
    }
    (view, changes)
}

proof fn lemma_all_created(ids: Seq<Seq<char>>, stored: Map<Seq<char>, ItemView>)
    ensures
        upserts(ids, Map::empty(), stored) == creations(ids),
    decreases ids.len(),
{
    if ids.len() > 0 {
        lemma_all_created(ids.drop_last(), stored);
    }
}

proof fn lemma_all_new(ids: Seq<Seq<char>>)
    ensures
        except(ids, Set::<Seq<char>>::empty()) == ids,
    decreases ids.len(),
{
    if ids.len() > 0 {
        lemma_all_new(ids.drop_last());
    }
}

} // verus!
