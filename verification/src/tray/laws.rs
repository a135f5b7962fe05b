//! What holds of the engine and of its consumers, whatever the events are.

use vstd::prelude::*;
use crate::tray::consumer::{absorb, absorb_all};
use crate::tray::event::{
    emitted, published, run, step, step_items, NotificationView, TrayEvent, TrayState, TrayUpdate,
};
use crate::tray::item::{icons_view, IconPixmap, ItemView};

verus! {

/// Taking in one more event is one more step: the replica after a batch and
/// one further event is the replica after the batch, stepped by that event.
/// So an engine that is fed its events one at a time ends where the fold over
/// the whole sequence ends.
pub proof fn law_one_at_a_time(s: TrayState, es: Seq<TrayEvent>, e: TrayEvent)
    ensures
        run(s, es.push(e)) == step(run(s, es), e),
        published(s, es.push(e)) == match emitted(run(s, es), e) {
            Some(n) => published(s, es).push(n),
            None => published(s, es),
        },
{
    assert(es.push(e).drop_last() =~= es);
}

/// A sequence of events may be cut anywhere: taking in the first part and then
/// the second leaves the replica, and the notifications, of the whole.
pub proof fn law_split(s: TrayState, a: Seq<TrayEvent>, b: Seq<TrayEvent>)
    ensures
        run(s, a + b) == run(run(s, a), b),
        published(s, a + b) == published(s, a) + published(run(s, a), b),
    decreases b.len(),
{
    if b.len() > 0 {
        law_split(s, a, b.drop_last());
        assert((a + b).drop_last() =~= a + b.drop_last());
        let before = published(s, a) + published(run(s, a), b.drop_last());
        match emitted(run(s, a + b.drop_last()), b.last()) {
            Some(n) => {
                assert(before.push(n) =~= published(s, a) + published(
                    run(s, a),
                    b.drop_last(),
                ).push(n));
            },
            None => {},
        }
    }
}

/// The item store after a sequence of events is the fold of the sequence over
/// the items alone: nothing else of the engine, neither the menus nor who is
/// subscribed, bears on it.
pub proof fn law_items_fold(s: TrayState, t: TrayState, es: Seq<TrayEvent>)
    requires
        s.items == t.items,
    ensures
        run(s, es).items == run(t, es).items,
        es.len() > 0 ==> run(s, es).items == step_items(run(s, es.drop_last()).items, es.last()),
    decreases es.len(),
{
    if es.len() > 0 {
        law_items_fold(s, t, es.drop_last());
    }
}

/// A removal of an identity that is not published leaves the item store as it
/// is and tells the consumers nothing. If no menu is known for the identity
/// either, the whole replica stays as it is.
pub proof fn law_remove_unpublished(s: TrayState, id: String)
    requires
        !s.items.contains_key(id@),
    ensures
        step(s, TrayEvent::Remove(id)).items == s.items,
        emitted(s, TrayEvent::Remove(id)) is None,
        !s.menus.contains_key(id@) ==> step(s, TrayEvent::Remove(id)) == s,
{
    assert(s.items.remove(id@) =~= s.items);
    if !s.menus.contains_key(id@) {
        assert(s.menus.remove(id@) =~= s.menus);
    }
}

/// An icon change that carries only a name leaves the stored pixel buffers
/// untouched, and one that carries only pixel buffers leaves the stored name
/// untouched. Either way the theme path and the status stay, and so does every
/// other item.
pub proof fn law_partial_icon(s: TrayState, id: String, name: String, pixmap: Vec<IconPixmap>)
    requires
        s.items.contains_key(id@),
    ensures
        ({
            let e = TrayEvent::Update(
                id,
                TrayUpdate::Icon { icon_name: Some(name), icon_pixmap: None },
            );
            step(s, e).items == s.items.insert(
                id@,
                ItemView { icon_name: Some(name@), ..s.items[id@] },
            )
        }),
        ({
            let e = TrayEvent::Update(
                id,
                TrayUpdate::Icon { icon_name: None, icon_pixmap: Some(pixmap) },
            );
            step(s, e).items == s.items.insert(
                id@,
                ItemView { icon_pixmap: icons_view(Some(pixmap)), ..s.items[id@] },
            )
        }),
{
}

/// Taking in two runs of notifications one after the other is taking in their
/// concatenation.
pub proof fn law_absorb_split(
    items: Map<Seq<char>, ItemView>,
    a: Seq<NotificationView>,
    b: Seq<NotificationView>,
)
    ensures
        absorb_all(items, a + b) == absorb_all(absorb_all(items, a), b),
    decreases b.len(),
{
    if b.len() > 0 {
        law_absorb_split(items, a, b.drop_last());
        assert((a + b).drop_last() =~= a + b.drop_last());
    }
}

proof fn lemma_absorb_is_step(s: TrayState, e: TrayEvent)
    ensures
        step_items(s.items, e) == match emitted(s, e) {
            Some(n) => absorb(s.items, n),
            None => s.items,
        },
{
}

/// A view that starts from the item store and takes in every notification that
/// the engine publishes, each once and in order, holds the item store again
/// after each of them. So a subscriber that loses nothing needs no more than
/// the notifications.
pub proof fn law_stream_tracks_store(s: TrayState, es: Seq<TrayEvent>)
    ensures
        absorb_all(s.items, published(s, es)) == run(s, es).items,
    decreases es.len(),
{
    if es.len() > 0 {
        let before = es.drop_last();
        law_stream_tracks_store(s, before);
        lemma_absorb_is_step(run(s, before), es.last());
        match emitted(run(s, before), es.last()) {
            Some(n) => {
                assert(published(s, es).drop_last() =~= published(s, before));
            },
            None => {},
        }
    }
}

/// The last thing that `ns` says of `id`: nothing, that it is gone, or its
/// state.
pub open spec fn last_word(ns: Seq<NotificationView>, id: Seq<char>) -> Option<Option<ItemView>>
    decreases ns.len(),
{
    if ns.len() == 0 {
        None
    } else if ns.last().id == id {
        Some(ns.last().item)
    } else {
        last_word(ns.drop_last(), id)
    }
}

/// After a view took in a run of notifications, what it holds for an identity
/// is the last thing the run said of it, and what it held before where the run
/// said nothing.
pub proof fn law_last_word_wins(
    items: Map<Seq<char>, ItemView>,
    ns: Seq<NotificationView>,
    id: Seq<char>,
)
    ensures
        match last_word(ns, id) {
            Some(Some(state)) => absorb_all(items, ns).contains_key(id) && absorb_all(items, ns)[id]
                == state,
            Some(None) => !absorb_all(items, ns).contains_key(id),
            None => (absorb_all(items, ns).contains_key(id) <==> items.contains_key(id)) && (
            items.contains_key(id) ==> absorb_all(items, ns)[id] == items[id]),
        },
    decreases ns.len(),
{
    if ns.len() > 0 {
        law_last_word_wins(items, ns.drop_last(), id);
    }
}

/// The last word of a run that is cut in two is the last word of its second
/// part, and that of its first part where the second says nothing.
pub proof fn law_last_word_of_parts(
    a: Seq<NotificationView>,
    b: Seq<NotificationView>,
    id: Seq<char>,
)
    ensures
        last_word(a + b, id) == match last_word(b, id) {
            Some(word) => Some(word),
            None => last_word(a, id),
        },
    decreases b.len(),
{
    if b.len() > 0 {
        law_last_word_of_parts(a, b.drop_last(), id);
        assert((a + b).drop_last() =~= a + b.drop_last());
    } else {
        assert(a + b =~= a);
    }
}

/// Notifications that are older than a view do it no lasting harm, however
/// many of them the channel still holds. A subscriber that fell behind
/// rebuilds its view from the item store as it is after the events `seen`.
/// The channel dropped the first `dropped` notifications of those events and
/// hands it the rest of them, and then the notifications of the events that
/// came `later`. Once the subscriber has taken in all of them, its view is
/// the item store again.
pub proof fn law_catch_up_from_tail(
    s: TrayState,
    seen: Seq<TrayEvent>,
    later: Seq<TrayEvent>,
    dropped: int,
)
    requires
        0 <= dropped <= published(s, seen).len(),
    ensures
        absorb_all(
            run(s, seen).items,
            published(s, seen).skip(dropped) + published(run(s, seen), later),
        ) == run(s, seen + later).items,
{
    let snapshot = run(s, seen).items;
    let stale = published(s, seen);
    let lost = stale.take(dropped);
    let tail = stale.skip(dropped);
    assert(lost + tail =~= stale);
    law_stream_tracks_store(s, seen);
    assert forall|id: Seq<char>|
        (#[trigger] absorb_all(snapshot, tail).contains_key(id) <==> snapshot.contains_key(id))
            && (snapshot.contains_key(id) ==> absorb_all(snapshot, tail)[id]
            == snapshot[id]) by {
        law_last_word_of_parts(lost, tail, id);
        law_last_word_wins(snapshot, tail, id);
        law_last_word_wins(s.items, stale, id);
    }
    assert(absorb_all(snapshot, tail) =~= snapshot);
    law_split(s, seen, later);
    law_absorb_split(snapshot, tail, published(run(s, seen), later));
    law_stream_tracks_store(run(s, seen), later);
}

/// The same where the channel dropped nothing of the events `seen`: a view
/// that was rebuilt after them and then takes in every notification from the
/// start holds the item store in the end.
pub proof fn law_catch_up(s: TrayState, seen: Seq<TrayEvent>, later: Seq<TrayEvent>)
    ensures
        absorb_all(run(s, seen).items, published(s, seen + later)) == run(s, seen + later).items,
{
    law_catch_up_from_tail(s, seen, later, 0);
    law_split(s, seen, later);
    assert(published(s, seen).skip(0) =~= published(s, seen));
}

} // verus!
