use vstd::prelude::*;
use crate::event::{AssetEvent, Delivery};

verus! {

/// The configuration value after one delivery has been handled.
pub open spec fn republished<A>(current: Option<A>, delivery: Delivery<A>) -> Option<A> {
    if delivery.replaces() {
        delivery.found
    } else {
        current
    }
}

/// The configuration value after a whole batch has been handled: the value of
/// the last delivery that replaces, or `current` where none does.
pub open spec fn published<A>(current: Option<A>, batch: Seq<Delivery<A>>) -> Option<A>
    decreases batch.len(),
{
    if batch.len() == 0 {
        current
    } else if batch.last().replaces() {
        batch.last().found
    } else {
        published(current, batch.drop_last())
    }
}

/// Handling a batch is handling its deliveries one after the other, in the
/// order in which the host delivered them.
pub proof fn lemma_published_push<A>(current: Option<A>, batch: Seq<Delivery<A>>, next: Delivery<A>)
    ensures
        published(current, batch.push(next)) == republished(published(current, batch), next),
{
    assert(batch.push(next).drop_last() =~= batch);
}

/// Last write wins: when the last delivery of a batch brings a value, that
/// value is the configuration afterwards, whatever it was before and whatever
/// the earlier deliveries brought.
pub proof fn lemma_last_value_wins<A>(current: Option<A>, batch: Seq<Delivery<A>>, last: Delivery<A>)
    requires
        last.replaces(),
    ensures
        published(current, batch.push(last)) == last.found,
{
    lemma_published_push(current, batch, last);
}

/// A reload replaces the value whole: one announcement of a changed or loaded
/// file, with the newly decoded value found in the store, makes exactly that
/// value the configuration.
pub proof fn lemma_reload_replaces<A>(current: Option<A>, event: AssetEvent, decoded: A)
    requires
        event.announces_value(),
    ensures
        published(current, seq![Delivery { event, found: Some(decoded) }]) == Some(decoded),
{
    let delivery = Delivery { event, found: Some(decoded) };
    assert(seq![delivery].last() == delivery);
}

/// A batch in which no delivery brings a value leaves the configuration as it
/// was. This covers events of other kinds and events whose key the store does
/// not hold yet.
pub proof fn lemma_miss_is_silent<A>(current: Option<A>, batch: Seq<Delivery<A>>)
    requires
        forall|i: int| 0 <= i < batch.len() ==> !(#[trigger] batch[i]).replaces(),
    ensures
        published(current, batch) == current,
    decreases batch.len(),
{
    if batch.len() > 0 {
        lemma_miss_is_silent(current, batch.drop_last());
    }
}

/// Handling the same batch a second time changes nothing: the value after
/// both rounds is the value after the first.
pub proof fn lemma_republish_idempotent<A>(current: Option<A>, batch: Seq<Delivery<A>>)
    ensures
        published(published(current, batch), batch) == published(current, batch),
    decreases batch.len(),
{
    if batch.len() > 0 && !batch.last().replaces() {
        lemma_republish_idempotent(current, batch.drop_last());
    }
}

/// Handles one delivery: a value found for a finished load or a modification
/// replaces the configuration whole; anything else leaves it alone.
pub fn republish<A>(config: &mut Option<A>, delivery: Delivery<A>)
    ensures
        *final(config) == republished(*old(config), delivery),
{
    if delivery.event.wants_lookup() {
        match delivery.found {
            Some(value) => {
                *config = Some(value);
            },
            None => {},
        }
    }
}

/// One cycle of the reload system: handles everything the host delivered
/// since the last cycle, in the order of delivery. There is no way for it to
/// fail: a delivery without a value is passed over.
pub fn update_resource<A>(config: &mut Option<A>, batch: Vec<Delivery<A>>)
    ensures
        *final(config) == published(*old(config), batch@),
{
    let ghost before = *config;
    let ghost all = batch@;
    for delivery in it: batch
        invariant
            it.seq() == all,
            *config == published(before, all.take(it.index() as int)),
    {
        proof {
            lemma_published_push(before, all.take(it.index() as int), delivery);
            assert(all.take(it.index() as int).push(delivery) =~= all.take(it.index() + 1));
        }
        republish(config, delivery);
    }
    assert(all.take(all.len() as int) =~= all);
}

} // verus!
