use vstd::prelude::*;
use crate::coordinator::{
    config_after, config_after_all, holder_after, lemma_value_kept_without_file, next_action,
    StartupAction, StartupEvent,
};
use crate::event::{AssetEvent, Delivery};
use crate::handle::LoadHandle;
use crate::holder::TrackedLoad;
use crate::publisher::{lemma_miss_is_silent, lemma_reload_replaces, published};

verus! {

/// With a default, start-up goes straight to the tracked load and never asks
/// for the file, and the default is the configuration when start-up is done.
pub proof fn lemma_default_skips_file<A>(path: Seq<char>, default: A, handle: LoadHandle)
    ensures
        ({
            let fresh = TrackedLoad::untracked(path);
            let answered = StartupEvent::<A>::LoadTracked(handle);
            &&& next_action(fresh, Some(default)) == StartupAction::RequestTrackedLoad
            &&& config_after(Some(default), StartupEvent::Begin) == Some(default)
            &&& config_after(Some(default), answered) == Some(default)
            &&& next_action(holder_after(fresh, answered), Some(default))
                == StartupAction::Finished
        }),
{
}

/// Until a load completes the default stands: start-up events that bring no
/// decoded file, followed by asset events that bring no value, leave the
/// configuration equal to the default.
pub proof fn lemma_default_stands<A>(
    default: A,
    events: Seq<StartupEvent<A>>,
    batch: Seq<Delivery<A>>,
)
    requires
        forall|i: int|
            0 <= i < events.len() ==> !crate::coordinator::brings_value(#[trigger] events[i]),
        forall|i: int| 0 <= i < batch.len() ==> !(#[trigger] batch[i]).replaces(),
    ensures
        published(config_after_all(Some(default), events), batch) == Some(default),
{
    lemma_value_kept_without_file(Some(default), events);
    lemma_miss_is_silent(Some(default), batch);
}

/// Once the tracked load completes, the decoded value replaces the default
/// whole: nothing of the default is left in the configuration.
pub proof fn lemma_loaded_replaces_default<A>(default: A, event: AssetEvent, decoded: A)
    requires
        event.announces_value(),
    ensures
        published(Some(default), seq![Delivery { event, found: Some(decoded) }]) == Some(decoded),
{
    lemma_reload_replaces(Some(default), event, decoded);
}

} // verus!
