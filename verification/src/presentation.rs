//! The reaction to the player's death: what the first-person view shows
//! once a death notification is there.

use crate::player::PlayerDeathEvent;
use vstd::prelude::*;

verus! {

/// How far the viewpoint sinks when the player dies, in thousandths of a
/// world unit.
pub const VIEW_DROP_MILLIS: u32 = 250;

/// Whether an entity is drawn.
#[derive(Clone, Copy, Debug, PartialEq, Eq)]
pub enum Visibility {
    Inherited,
    Hidden,
    Visible,
}

/// `n` entities, all hidden.
pub open spec fn all_hidden(n: nat) -> Seq<Visibility> {
    Seq::new(n, |i: int| Visibility::Hidden)
}

/// The view models after the reaction: untouched without a notification,
/// all hidden with one.
pub open spec fn reacted(pending: nat, view_models: Seq<Visibility>) -> Seq<Visibility> {
    if pending == 0 {
        view_models
    } else {
        all_hidden(view_models.len())
    }
}

/// How far the viewpoint is lowered by the reaction, in thousandths of a
/// world unit.
pub open spec fn view_drop(pending: nat) -> nat {
    if pending == 0 {
        0
    } else {
        VIEW_DROP_MILLIS as nat
    }
}

/// The view models after the reaction has run on each of `frames` in turn,
/// where `frames[i]` is the number of notifications pending on frame `i`.
pub open spec fn reacted_all(frames: Seq<nat>, view_models: Seq<Visibility>) -> Seq<Visibility>
    decreases frames.len(),
{
    if frames.len() == 0 {
        view_models
    } else {
        reacted(frames.last(), reacted_all(frames.drop_last(), view_models))
    }
}

/// The sum of the drops that the reaction asks for over `frames`.
pub open spec fn view_drop_all(frames: Seq<nat>) -> nat
    decreases frames.len(),
{
    if frames.len() == 0 {
        0
    } else {
        view_drop_all(frames.drop_last()) + view_drop(frames.last())
    }
}

/// Reacts to the death notifications that are pending on this frame, and
/// takes them off the queue. With none pending nothing is touched. Otherwise
/// every view model is hidden, and the result is the distance by which the
/// viewpoint is to sink. A second call on the same queue finds it empty, so
/// one notification lowers the viewpoint once.
pub fn on_player_death(
    reader: &mut Vec<PlayerDeathEvent>,
    view_models: &mut Vec<Visibility>,
) -> (drop: u32)
    ensures
        final(view_models)@ == reacted(old(reader)@.len(), old(view_models)@),
        drop == view_drop(old(reader)@.len()),
        final(reader)@ == Seq::<PlayerDeathEvent>::empty(),
{
    if reader.len() == 0 {
        assert(reader@ =~= Seq::<PlayerDeathEvent>::empty());
        return 0;
    }
    reader.clear();
    let n: usize = view_models.len();
    let mut i: usize = 0;
    while i < n
        invariant
            i <= n,
            view_models@.len() == n,
            reader@ == Seq::<PlayerDeathEvent>::empty(),
            forall|j: int| 0 <= j < i ==> view_models@[j] == Visibility::Hidden,
        decreases n - i,
    {
        view_models[i] = Visibility::Hidden;
        i += 1;
    }
    assert(view_models@ =~= all_hidden(n as nat));
    VIEW_DROP_MILLIS
}

/// Without a pending notification the reaction changes nothing, however
/// many frames it runs on.
pub proof fn lemma_idle_reaction_changes_nothing(frames: Seq<nat>, view_models: Seq<Visibility>)
    requires
        forall|i: int| 0 <= i < frames.len() ==> frames[i] == 0,
    ensures
        reacted_all(frames, view_models) == view_models,
        view_drop_all(frames) == 0,
    decreases frames.len(),
{
    if frames.len() > 0 {
        lemma_idle_reaction_changes_nothing(frames.drop_last(), view_models);
    }
}

/// The reaction is idempotent. It leaves the queue empty, so a second
/// reaction to the same notification finds nothing pending: the view models
/// stay as the first reaction left them, and the two together lower the
/// viewpoint as far as the first alone.
pub proof fn lemma_reaction_is_idempotent(pending: nat, view_models: Seq<Visibility>)
    ensures
        reacted(0, reacted(pending, view_models)) == reacted(pending, view_models),
        view_drop(pending) + view_drop(0) == view_drop(pending),
        view_drop_all(seq![pending, 0]) == view_drop(pending),
        reacted_all(seq![pending, 0], view_models) == reacted(pending, view_models),
{
    let both = seq![pending, 0nat];
    assert(both.drop_last() =~= seq![pending]);
    assert(both.drop_last().drop_last() =~= Seq::<nat>::empty());
    assert(view_drop_all(both.drop_last()) == view_drop(pending)) by {
        assert(view_drop_all(both.drop_last().drop_last()) == 0);
    }
    assert(reacted_all(both.drop_last(), view_models) == reacted(pending, view_models)) by {
        assert(reacted_all(both.drop_last().drop_last(), view_models) == view_models);
    }
}

} // verus!
