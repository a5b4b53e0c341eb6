use vstd::prelude::*;
use vstd::string::*;
use crate::error::{loaded, ConfigFileLoaderError, FileOutcome};
use crate::handle::LoadHandle;
use crate::holder::{ConfigFileHolder, TrackedLoad};

verus! {

/// What the host reports to the start-up system.
pub enum StartupEvent<A> {
    /// The start-up system has been scheduled; nothing has happened yet.
    Begin,
    /// The configuration file was read and decoded on the spot, or one of the
    /// two failed.
    FileLoaded(FileOutcome<A>),
    /// The asset pipeline accepted the request for a tracked load and
    /// returned this key.
    LoadTracked(LoadHandle),
}

/// What the host has to do next during start-up.
#[derive(Clone, Copy, Debug, PartialEq, Eq, Structural)]
pub enum StartupAction {
    /// Read the file at the holder's path under [`assets_directory`], decode
    /// it, and report `FileLoaded`.
    ReadConfigFile,
    /// Ask the asset pipeline for a tracked load of the holder's path and
    /// report `LoadTracked`.
    RequestTrackedLoad,
    /// Start-up is complete.
    Finished,
}

/// The error an event reports, if it reports one.
pub open spec fn failure<A>(event: StartupEvent<A>) -> Option<ConfigFileLoaderError> {
    match event {
        StartupEvent::FileLoaded(outcome) => match loaded(outcome) {
            Err(error) => Some(error),
            Ok(_) => None,
        },
        _ => None,
    }
}

/// The configuration value after an event: a decoded file replaces it, and
/// nothing else touches it.
pub open spec fn config_after<A>(config: Option<A>, event: StartupEvent<A>) -> Option<A> {
    match event {
        StartupEvent::FileLoaded(outcome) => match loaded(outcome) {
            Ok(value) => Some(value),
            Err(_) => config,
        },
        _ => config,
    }
}

/// The holder after an event: the first key reported is kept, and nothing
/// else touches it.
pub open spec fn holder_after<A>(holder: TrackedLoad, event: StartupEvent<A>) -> TrackedLoad {
    match event {
        StartupEvent::LoadTracked(handle) => holder.tracking(handle),
        _ => holder,
    }
}

/// What remains to be done in a given state. A value comes first: without a
/// default it has to be read from the file before anything else runs. The
/// tracked load is requested once, and only after a value is in place.
pub open spec fn next_action<A>(holder: TrackedLoad, config: Option<A>) -> StartupAction {
    if config is None {
        StartupAction::ReadConfigFile
    } else if holder.handle is None {
        StartupAction::RequestTrackedLoad
    } else {
        StartupAction::Finished
    }
}

/// The name of the directory, next to the application, that configured
/// paths are relative to.
pub fn assets_directory() -> (r: &'static str)
    ensures
        r@ == "assets"@,
{
    "assets"
}

/// One step of the start-up system.
///
/// Takes in what the host reports, updates the holder and the configuration
/// value, and answers with what the host has to do next. A file that could not
/// be read or decoded changes nothing and is handed back as the error; the
/// caller decides whether that ends the process.
pub fn add_asset_to_config_file_holder<A>(
    holder: &mut ConfigFileHolder<A>,
    config: &mut Option<A>,
    event: StartupEvent<A>,
) -> (r: Result<StartupAction, ConfigFileLoaderError>)
    ensures
        final(holder)@ == holder_after(old(holder)@, event),
        *final(config) == config_after(*old(config), event),
        r == match failure(event) {
            Some(error) => Err::<StartupAction, ConfigFileLoaderError>(error),
            None => Ok(next_action(final(holder)@, *final(config))),
        },
        old(holder)@.handle is Some ==> final(holder)@ == old(holder)@,
        final(holder)@.path == old(holder)@.path,
        event matches StartupEvent::FileLoaded(Ok(Ok(value))) ==> *final(config) == Some(value),
{
    match event {
        StartupEvent::Begin => {},
        StartupEvent::FileLoaded(outcome) => {
            match outcome {
                Err(error) => {
                    return Err(ConfigFileLoaderError::from(error));
                },
                Ok(Err(error)) => {
                    return Err(ConfigFileLoaderError::from(error));
                },
                Ok(Ok(value)) => {
                    *config = Some(value);
                },
            }
        },
        StartupEvent::LoadTracked(handle) => {
            holder.track(handle);
        },
    }
    if config.is_none() {
        Ok(StartupAction::ReadConfigFile)
    } else if holder.handle().is_none() {
        Ok(StartupAction::RequestTrackedLoad)
    } else {
        Ok(StartupAction::Finished)
    }
}

/// The message to end the process with when start-up fails: the configured
/// path, then the error's own message.
pub fn failure_message<A>(holder: &ConfigFileHolder<A>, error: &ConfigFileLoaderError) -> (r:
    String)
    ensures
        exists|cause: String| #[trigger]
            error.prints_as(cause) && r@ == holder@.path + ": "@ + error.opening() + cause@,
{
    let message = error.message();
    let r = String::from_str(holder.path()).concat(": ").concat(message.as_str());
    proof {
        let cause = choose|cause: String| #[trigger]
            error.prints_as(cause) && message@ == error.opening() + cause@;
        assert(r@ =~= holder@.path + ": "@ + error.opening() + cause@);
    }
    r
}

/// The configuration value after a run of events, handled in order.
pub open spec fn config_after_all<A>(config: Option<A>, events: Seq<StartupEvent<A>>) -> Option<A>
    decreases events.len(),
{
    if events.len() == 0 {
        config
    } else {
        config_after(config_after_all(config, events.drop_last()), events.last())
    }
}

/// The holder after a run of events, handled in order.
pub open spec fn holder_after_all<A>(holder: TrackedLoad, events: Seq<StartupEvent<A>>) -> TrackedLoad
    decreases events.len(),
{
    if events.len() == 0 {
        holder
    } else {
        holder_after(holder_after_all(holder, events.drop_last()), events.last())
    }
}

/// A file that was read and decoded becomes the configuration value: the
/// step reports no error, and the value afterwards is the decoded one,
/// whatever was there before.
pub proof fn lemma_decoded_file_is_published<A>(config: Option<A>, decoded: A)
    ensures
        failure(StartupEvent::FileLoaded(Ok(Ok(decoded)))) is None,
        config_after(config, StartupEvent::FileLoaded(Ok(Ok(decoded)))) == Some(decoded),
{
}

/// Start-up without a default: the host is told to read the file, then to
/// request the tracked load, then that nothing is left; and at the end the
/// configuration is what the file decoded to and the holder tracks the load.
pub proof fn lemma_startup_from_file<A>(path: Seq<char>, decoded: A, handle: LoadHandle)
    ensures
        ({
            let fresh = TrackedLoad::untracked(path);
            let read = StartupEvent::FileLoaded(Ok(Ok(decoded)));
            let answered = StartupEvent::<A>::LoadTracked(handle);
            let events = seq![StartupEvent::Begin, read, answered];
            &&& next_action(fresh, None::<A>) == StartupAction::ReadConfigFile
            &&& next_action(fresh, config_after(None, read)) == StartupAction::RequestTrackedLoad
            &&& next_action(holder_after(fresh, answered), config_after(None, read))
                == StartupAction::Finished
            &&& config_after_all(None, events) == Some(decoded)
            &&& holder_after_all(fresh, events) == TrackedLoad { path, handle: Some(handle) }
        }),
{
    let fresh = TrackedLoad::untracked(path);
    let read = StartupEvent::FileLoaded(Ok(Ok(decoded)));
    let answered = StartupEvent::<A>::LoadTracked(handle);
    let none = Seq::<StartupEvent<A>>::empty();
    let one = none.push(StartupEvent::Begin);
    let two = one.push(read);
    assert(seq![StartupEvent::Begin, read, answered] =~= two.push(answered));
    lemma_after_push(fresh, None, none, StartupEvent::Begin);
    lemma_after_push(fresh, None, one, read);
    lemma_after_push(fresh, None, two, answered);
}

/// Handling a run of events and then one more is handling the longer run.
pub proof fn lemma_after_push<A>(
    holder: TrackedLoad,
    config: Option<A>,
    events: Seq<StartupEvent<A>>,
    next: StartupEvent<A>,
)
    ensures
        config_after_all(config, events.push(next)) == config_after(
            config_after_all(config, events),
            next,
        ),
        holder_after_all(holder, events.push(next)) == holder_after(
            holder_after_all(holder, events),
            next,
        ),
{
    assert(events.push(next).drop_last() =~= events);
}

/// A file that cannot be read or decoded stops start-up with the error and
/// leaves both the configuration value and the holder as they were.
pub proof fn lemma_failed_file_changes_nothing<A>(
    holder: TrackedLoad,
    config: Option<A>,
    outcome: FileOutcome<A>,
)
    requires
        loaded(outcome) is Err,
    ensures
        failure(StartupEvent::FileLoaded(outcome)) == Some(loaded(outcome)->Err_0),
        config_after(config, StartupEvent::FileLoaded(outcome)) == config,
        holder_after(holder, StartupEvent::FileLoaded(outcome)) == holder,
{
}

/// The key is set at most once: a holder that tracks a load keeps its key
/// and its path through every run of events, a second start-up included.
pub proof fn lemma_key_set_once<A>(holder: TrackedLoad, events: Seq<StartupEvent<A>>)
    requires
        holder.handle is Some,
    ensures
        holder_after_all(holder, events) == holder,
    decreases events.len(),
{
    if events.len() > 0 {
        lemma_key_set_once(holder, events.drop_last());
    }
}

/// Of two keys reported one after the other, the first stays.
pub proof fn lemma_first_key_stays(holder: TrackedLoad, first: LoadHandle, second: LoadHandle)
    ensures
        holder.tracking(first).tracking(second) == holder.tracking(first),
        holder.tracking(first).handle is Some,
        holder.handle is None ==> holder.tracking(first).handle == Some(first),
{
}

/// No event changes the path a holder was made with.
pub proof fn lemma_path_is_kept<A>(holder: TrackedLoad, events: Seq<StartupEvent<A>>)
    ensures
        holder_after_all(holder, events).path == holder.path,
    decreases events.len(),
{
    if events.len() > 0 {
        lemma_path_is_kept(holder, events.drop_last());
    }
}

/// Whether an event brings a decoded file.
pub open spec fn brings_value<A>(event: StartupEvent<A>) -> bool {
    event matches StartupEvent::FileLoaded(outcome) && loaded(outcome) is Ok
}

/// Only a decoded file changes the configuration value during start-up: a run
/// of events without one leaves it as it was.
pub proof fn lemma_value_kept_without_file<A>(config: Option<A>, events: Seq<StartupEvent<A>>)
    requires
        forall|i: int| 0 <= i < events.len() ==> !brings_value(#[trigger] events[i]),
    ensures
        config_after_all(config, events) == config,
    decreases events.len(),
{
    if events.len() > 0 {
        lemma_value_kept_without_file(config, events.drop_last());
    }
}

} // verus!
