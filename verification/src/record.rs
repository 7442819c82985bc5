use vstd::prelude::*;
use crate::buffer::SampleBuffer;
use crate::err::RError;
use crate::profile::negotiable;
use crate::profile::supported_format;
use crate::profile::unsupported_format_text;
use crate::profile::DeviceConfig;
use crate::profile::StreamProfile;
use crate::sample_type::is_uniform;
use crate::sample_type::uniform;
use crate::sample_type::SampleFormat;
use crate::sample_type::SampleType;

verus! {

/// What the owner of a capture session tells its aggregation worker.
#[derive(Clone, Copy, Debug, PartialEq, Eq, Structural)]
pub enum Signal {
    START,
    PAUSE,
    STOP,
}

/// What the aggregation worker does with the batches that reach it.
#[derive(Clone, Copy, Debug, PartialEq, Eq, Structural)]
pub enum Mode {
    /// Batches are appended to the buffer.
    Running,
    /// Batches are dropped.
    Paused,
    /// The worker has ended; nothing is taken any more.
    Stopped,
}

/// What reaches the aggregation worker: a signal from the session's owner,
/// or a batch of samples from the input callback.
#[derive(Debug)]
pub enum Event {
    Control(Signal),
    Batch(Vec<SampleType>),
}

/// What an `Event` holds.
pub enum EventView {
    Control(Signal),
    Batch(Seq<SampleType>),
}

impl View for Event {
    type V = EventView;

    open spec fn view(&self) -> EventView {
        match self {
            Event::Control(signal) => EventView::Control(*signal),
            Event::Batch(batch) => EventView::Batch(batch@),
        }
    }
}

/// What a list of events holds, one entry for each.
pub open spec fn event_views(events: Seq<Event>) -> Seq<EventView> {
    Seq::new(events.len(), |i: int| events[i]@)
}

/// What the worker's loop does after an event.
#[derive(Clone, Copy, Debug, PartialEq, Eq, Structural)]
pub enum Action {
    /// Wait for the next event.
    Continue,
    /// Leave the loop.
    Exit,
}

/// The worker's mode after a signal. Nothing changes a stopped worker.
pub open spec fn mode_after_signal(mode: Mode, signal: Signal) -> Mode {
    if mode == Mode::Stopped {
        Mode::Stopped
    } else {
        match signal {
            Signal::START => Mode::Running,
            Signal::PAUSE => Mode::Paused,
            Signal::STOP => Mode::Stopped,
        }
    }
}

/// The worker's mode after an event.
pub open spec fn mode_after(mode: Mode, event: EventView) -> Mode {
    match event {
        EventView::Control(signal) => mode_after_signal(mode, signal),
        EventView::Batch(_) => mode,
    }
}

/// Whether a worker in `mode`, in a session of `format`, appends `batch`.
pub open spec fn takes(mode: Mode, format: SampleFormat, batch: Seq<SampleType>) -> bool {
    mode == Mode::Running && uniform(batch, format)
}

/// The samples an event adds to the buffer: the whole batch where the
/// worker takes it, and nothing otherwise.
pub open spec fn kept(mode: Mode, format: SampleFormat, event: EventView) -> Seq<SampleType> {
    match event {
        EventView::Batch(batch) if takes(mode, format, batch) => batch,
        _ => Seq::empty(),
    }
}

/// The worker's mode after a run of events, taken first to last.
pub open spec fn run_mode(mode: Mode, events: Seq<EventView>) -> Mode
    decreases events.len(),
{
    if events.len() == 0 {
        mode
    } else {
        mode_after(run_mode(mode, events.drop_last()), events.last())
    }
}

/// The samples a run of events adds to the buffer, taken first to last.
pub open spec fn run_kept(mode: Mode, format: SampleFormat, events: Seq<EventView>) -> Seq<
    SampleType,
>
    decreases events.len(),
{
    if events.len() == 0 {
        Seq::empty()
    } else {
        run_kept(mode, format, events.drop_last()) + kept(
            run_mode(mode, events.drop_last()),
            format,
            events.last(),
        )
    }
}

/// What each event of a run adds to the buffer, one entry for each event
/// and in the order of the events: the whole batch where the worker takes
/// it, and nothing otherwise.
pub open spec fn contributions(mode: Mode, format: SampleFormat, events: Seq<EventView>) -> Seq<
    Seq<SampleType>,
> {
    Seq::new(events.len(), |i: int| kept(run_mode(mode, events.take(i)), format, events[i]))
}

/// A run over two stretches of events is a run over the first, and then,
/// from where that ended, a run over the second.
pub proof fn lemma_run_split(
    mode: Mode,
    format: SampleFormat,
    first: Seq<EventView>,
    second: Seq<EventView>,
)
    ensures
        run_mode(mode, first + second) == run_mode(run_mode(mode, first), second),
        run_kept(mode, format, first + second) == run_kept(mode, format, first) + run_kept(
            run_mode(mode, first),
            format,
            second,
        ),
    decreases second.len(),
{
    if second.len() == 0 {
        assert(first + second == first);
        assert(run_kept(mode, format, first) + Seq::<SampleType>::empty() == run_kept(
            mode,
            format,
            first,
        ));
    } else {
        lemma_run_split(mode, format, first, second.drop_last());
        assert((first + second).drop_last() == first + second.drop_last());
        assert((first + second).last() == second.last());
        let a = run_kept(mode, format, first);
        let b = run_kept(run_mode(mode, first), format, second.drop_last());
        let c = kept(run_mode(mode, first + second.drop_last()), format, second.last());
        assert((a + b) + c == a + (b + c));
    }
}

/// Stop is final: a stopped worker stays stopped and appends nothing,
/// whatever reaches it.
pub proof fn lemma_stop_is_final(format: SampleFormat, events: Seq<EventView>)
    ensures
        run_mode(Mode::Stopped, events) == Mode::Stopped,
        run_kept(Mode::Stopped, format, events) == Seq::<SampleType>::empty(),
    decreases events.len(),
{
    if events.len() > 0 {
        lemma_stop_is_final(format, events.drop_last());
    }
}

/// What the buffer holds once the worker has stopped is what was appended
/// before the stop was seen; events after the stop add nothing.
pub proof fn lemma_nothing_after_stop(
    mode: Mode,
    format: SampleFormat,
    before: Seq<EventView>,
    after: Seq<EventView>,
)
    requires
        run_mode(mode, before) == Mode::Stopped,
    ensures
        run_mode(mode, before + after) == Mode::Stopped,
        run_kept(mode, format, before + after) == run_kept(mode, format, before),
{
    lemma_run_split(mode, format, before, after);
    lemma_stop_is_final(format, after);
    assert(run_kept(mode, format, before) + Seq::<SampleType>::empty() == run_kept(
        mode,
        format,
        before,
    ));
}

/// Samples reach the buffer in arrival order and once: what a run appends
/// is what its events add one by one, put end to end in the order of the
/// events, and an event adds its whole batch or nothing.
pub proof fn lemma_kept_in_arrival_order(mode: Mode, format: SampleFormat, events: Seq<EventView>)
    ensures
        run_kept(mode, format, events) == contributions(mode, format, events).flatten(),
        forall|i: int|
            0 <= i < events.len() ==> {
                ||| (#[trigger] contributions(mode, format, events)[i]).len() == 0
                ||| events[i] == EventView::Batch(contributions(mode, format, events)[i])
            },
        uniform(run_kept(mode, format, events), format),
    decreases events.len(),
{
    let parts = contributions(mode, format, events);
    if events.len() == 0 {
        assert(parts.flatten() == Seq::<SampleType>::empty());
    } else {
        let shorter = events.drop_last();
        lemma_kept_in_arrival_order(mode, format, shorter);
        let head = contributions(mode, format, shorter);
        assert forall|i: int| 0 <= i < shorter.len() implies head[i] == parts[i] by {
            assert(shorter.take(i) == events.take(i));
        }
        assert(events.take(shorter.len() as int) == shorter);
        assert(parts == head.push(parts.last()));
        head.lemma_flatten_push(parts.last());
    }
}

/// One thing that happens to a session: an event reaches the worker, or
/// the owner collects.
pub enum Step {
    Arrival(EventView),
    Collect,
}

/// A session as its owner sees it over time: the worker's mode, what the
/// buffer holds, and everything the collects so far have handed out.
pub struct Session {
    pub mode: Mode,
    pub buffer: Seq<SampleType>,
    pub collected: Seq<SampleType>,
}

/// The session after one step, as `Record::handle` and `Record::collect`
/// leave it.
pub open spec fn session_after(session: Session, format: SampleFormat, step: Step) -> Session {
    match step {
        Step::Arrival(event) => Session {
            mode: mode_after(session.mode, event),
            buffer: session.buffer + kept(session.mode, format, event),
            collected: session.collected,
        },
        Step::Collect => Session {
            mode: session.mode,
            buffer: Seq::empty(),
            collected: session.collected + session.buffer,
        },
    }
}

/// The session after a run of steps, taken first to last.
pub open spec fn session_run(session: Session, format: SampleFormat, steps: Seq<Step>) -> Session
    decreases steps.len(),
{
    if steps.len() == 0 {
        session
    } else {
        session_after(session_run(session, format, steps.drop_last()), format, steps.last())
    }
}

/// The events among a run of steps, in order.
pub open spec fn arrivals(steps: Seq<Step>) -> Seq<EventView>
    decreases steps.len(),
{
    if steps.len() == 0 {
        Seq::empty()
    } else {
        match steps.last() {
            Step::Arrival(event) => arrivals(steps.drop_last()).push(event),
            Step::Collect => arrivals(steps.drop_last()),
        }
    }
}

/// Collecting neither loses nor repeats a sample: however collects fall
/// between the events, what they have handed out, followed by what the
/// buffer still holds, is what was there at the start followed by what the
/// events appended. The worker's mode does not depend on the collects.
pub proof fn lemma_collects_lose_nothing(session: Session, format: SampleFormat, steps: Seq<Step>)
    ensures
        session_run(session, format, steps).mode == run_mode(session.mode, arrivals(steps)),
        session_run(session, format, steps).collected + session_run(
            session,
            format,
            steps,
        ).buffer == session.collected + session.buffer + run_kept(
            session.mode,
            format,
            arrivals(steps),
        ),
    decreases steps.len(),
{
    let start = session.collected + session.buffer;
    if steps.len() == 0 {
        assert(start + Seq::<SampleType>::empty() == start);
    } else {
        let shorter = steps.drop_last();
        lemma_collects_lose_nothing(session, format, shorter);
        let mid = session_run(session, format, shorter);
        let seen = arrivals(shorter);
        match steps.last() {
            Step::Arrival(event) => {
                let now = seen.push(event);
                assert(now.drop_last() == seen);
                assert(now.last() == event);
                let more = kept(mid.mode, format, event);
                assert(mid.collected + (mid.buffer + more) == (mid.collected + mid.buffer) + more);
                assert((start + run_kept(session.mode, format, seen)) + more == start + (run_kept(
                    session.mode,
                    format,
                    seen,
                ) + more));
            },
            Step::Collect => {
                assert((mid.collected + mid.buffer) + Seq::<SampleType>::empty() == mid.collected
                    + mid.buffer);
            },
        }
    }
}

/// A run over two stretches of steps is a run over the first, and then,
/// from where that ended, a run over the second.
pub proof fn lemma_session_split(
    session: Session,
    format: SampleFormat,
    first: Seq<Step>,
    second: Seq<Step>,
)
    ensures
        session_run(session, format, first + second) == session_run(
            session_run(session, format, first),
            format,
            second,
        ),
    decreases second.len(),
{
    if second.len() == 0 {
        assert(first + second == first);
    } else {
        lemma_session_split(session, format, first, second.drop_last());
        assert((first + second).drop_last() == first + second.drop_last());
        assert((first + second).last() == second.last());
    }
}

/// A collect after the stop hands out all that was appended before the
/// stop was seen: once the worker has stopped, whatever steps follow, a
/// collect behind them leaves the buffer empty, and everything collected is
/// what had been collected or buffered when the worker stopped.
pub proof fn lemma_collect_after_stop(
    session: Session,
    format: SampleFormat,
    before: Seq<Step>,
    after: Seq<Step>,
)
    requires
        session_run(session, format, before).mode == Mode::Stopped,
    ensures
        session_run(session, format, before + after.push(Step::Collect)).mode == Mode::Stopped,
        session_run(session, format, before + after.push(Step::Collect)).buffer == Seq::<
            SampleType,
        >::empty(),
        session_run(session, format, before + after.push(Step::Collect)).collected == session_run(
            session,
            format,
            before,
        ).collected + session_run(session, format, before).buffer,
{
    let mid = session_run(session, format, before);
    let tail = after.push(Step::Collect);
    lemma_session_split(session, format, before, tail);
    lemma_collects_lose_nothing(mid, format, tail);
    lemma_stop_is_final(format, arrivals(tail));
    let end = session_run(mid, format, tail);
    assert(tail.drop_last() == after);
    assert(end.buffer == Seq::<SampleType>::empty());
    assert(end.collected + Seq::<SampleType>::empty() == end.collected);
    assert((mid.collected + mid.buffer) + Seq::<SampleType>::empty() == mid.collected
        + mid.buffer);
}

/// The core of a capture session: the worker's mode and the buffer it
/// fills. Every sample in the buffer is of the session's representation.
#[derive(Debug)]
pub struct Record {
    profile: StreamProfile,
    mode: Mode,
    data: SampleBuffer,
}

impl Record {
    #[verifier::type_invariant]
    spec fn one_representation(self) -> bool {
        uniform(self.data@, self.profile.spec_format())
    }

    /// The profile the session was made with.
    pub closed spec fn spec_profile(&self) -> StreamProfile {
        self.profile
    }

    /// The worker's mode.
    pub closed spec fn spec_mode(&self) -> Mode {
        self.mode
    }

    /// The samples appended and not yet collected, in arrival order.
    pub closed spec fn buffered(&self) -> Seq<SampleType> {
        self.data@
    }

    /// A running session with an empty buffer, on a device that reports
    /// `record_config`.
    pub fn new(record_config: &DeviceConfig) -> (r: Result<Record, RError>)
        ensures
            match r {
                Ok(rec) => {
                    &&& negotiable(*record_config)
                    &&& rec.spec_profile().spec_sample_rate() == record_config.sample_rate
                    &&& rec.spec_profile().spec_channels() == record_config.channels
                    &&& Some(rec.spec_profile().spec_format()) == supported_format(
                        record_config.format,
                    )
                    &&& rec.spec_mode() == Mode::Running
                    &&& rec.buffered() == Seq::<SampleType>::empty()
                },
                Err(e) => {
                    &&& !negotiable(*record_config)
                    &&& e is DeviceError
                    &&& e.spec_message() == (if supported_format(record_config.format) is None {
                        unsupported_format_text(record_config.format)
                    } else {
                        "unsupported channel count"@
                    })
                },
            },
    {
        match StreamProfile::negotiate(record_config) {
            Ok(profile) => Ok(Record { profile, mode: Mode::Running, data: SampleBuffer::new() }),
            Err(e) => Err(e),
        }
    }

    /// The profile the session was made with.
    #[verifier::when_used_as_spec(spec_profile)]
    pub fn profile(&self) -> (p: StreamProfile)
        ensures
            p == self.spec_profile(),
    {
        self.profile
    }

    /// The worker's mode.
    #[verifier::when_used_as_spec(spec_mode)]
    pub fn mode(&self) -> (m: Mode)
        ensures
            m == self.spec_mode(),
    {
        self.mode
    }

    /// The number of samples that wait to be collected.
    pub fn pending(&self) -> (n: usize)
        ensures
            n == self.buffered().len(),
    {
        self.data.len()
    }

    /// The worker takes one signal.
    pub fn signal(&mut self, signal: Signal)
        ensures
            final(self).spec_mode() == mode_after_signal(old(self).spec_mode(), signal),
            final(self).buffered() == old(self).buffered(),
            final(self).spec_profile() == old(self).spec_profile(),
    {
        proof {
            use_type_invariant(&*self);
        }
        if self.mode != Mode::Stopped {
            self.mode = match signal {
                Signal::START => Mode::Running,
                Signal::PAUSE => Mode::Paused,
                Signal::STOP => Mode::Stopped,
            };
        }
    }

    /// Resumes aggregation. A stopped session cannot be resumed.
    pub fn play(&mut self) -> (r: Result<(), RError>)
        ensures
            final(self).spec_mode() == mode_after_signal(old(self).spec_mode(), Signal::START),
            final(self).buffered() == old(self).buffered(),
            final(self).spec_profile() == old(self).spec_profile(),
            match r {
                Ok(()) => old(self).spec_mode() != Mode::Stopped,
                Err(e) => old(self).spec_mode() == Mode::Stopped && e is ChannelClosed,
            },
    {
        if self.mode == Mode::Stopped {
            return Err(RError::ChannelClosed);
        }
        self.signal(Signal::START);
        Ok(())
    }

    /// Suspends aggregation: batches that arrive from now on are dropped,
    /// what the buffer holds stays. A stopped session cannot be paused.
    pub fn pause(&mut self) -> (r: Result<(), RError>)
        ensures
            final(self).spec_mode() == mode_after_signal(old(self).spec_mode(), Signal::PAUSE),
            final(self).buffered() == old(self).buffered(),
            final(self).spec_profile() == old(self).spec_profile(),
            match r {
                Ok(()) => old(self).spec_mode() != Mode::Stopped,
                Err(e) => old(self).spec_mode() == Mode::Stopped && e is ChannelClosed,
            },
    {
        if self.mode == Mode::Stopped {
            return Err(RError::ChannelClosed);
        }
        self.signal(Signal::PAUSE);
        Ok(())
    }

    /// Ends the session. What the buffer holds stays and can still be
    /// collected. Returns whether this call ended it: closing twice is
    /// closing once.
    pub fn close(&mut self) -> (ended: bool)
        ensures
            final(self).spec_mode() == Mode::Stopped,
            final(self).buffered() == old(self).buffered(),
            final(self).spec_profile() == old(self).spec_profile(),
            ended == (old(self).spec_mode() != Mode::Stopped),
    {
        let ended = self.mode != Mode::Stopped;
        self.signal(Signal::STOP);
        ended
    }

    /// The worker takes one batch. A running worker appends it whole, in
    /// one step; a paused or stopped one drops it, and so does any worker
    /// when the batch holds a sample of another representation. Returns
    /// whether the batch was appended.
    pub fn deliver(&mut self, batch: Vec<SampleType>) -> (appended: bool)
        ensures
            appended == takes(
                old(self).spec_mode(),
                old(self).spec_profile().spec_format(),
                batch@,
            ),
            final(self).buffered() == old(self).buffered() + kept(
                old(self).spec_mode(),
                old(self).spec_profile().spec_format(),
                EventView::Batch(batch@),
            ),
            final(self).spec_mode() == old(self).spec_mode(),
            final(self).spec_profile() == old(self).spec_profile(),
    {
        proof {
            use_type_invariant(&*self);
        }
        if self.mode != Mode::Running || !is_uniform(batch.as_slice(), self.profile.format()) {
            assert(old(self).buffered() + Seq::<SampleType>::empty() == old(self).buffered());
            return false;
        }
        let mut data = SampleBuffer::new();
        core::mem::swap(&mut data, &mut self.data);
        data.append(batch);
        core::mem::swap(&mut data, &mut self.data);
        true
    }

    /// One turn of the worker's loop.
    pub fn handle(&mut self, event: Event) -> (action: Action)
        ensures
            final(self).spec_mode() == mode_after(old(self).spec_mode(), event@),
            final(self).buffered() == old(self).buffered() + kept(
                old(self).spec_mode(),
                old(self).spec_profile().spec_format(),
                event@,
            ),
            final(self).spec_profile() == old(self).spec_profile(),
            action == (if final(self).spec_mode() == Mode::Stopped {
                Action::Exit
            } else {
                Action::Continue
            }),
    {
        match event {
            Event::Control(signal) => {
                self.signal(signal);
                assert(old(self).buffered() + Seq::<SampleType>::empty() == old(self).buffered());
            },
            Event::Batch(batch) => {
                self.deliver(batch);
            },
        }
        if self.mode == Mode::Stopped {
            Action::Exit
        } else {
            Action::Continue
        }
    }

    /// The worker's loop over the events that have reached it, first to
    /// last. Events behind a stop change nothing.
    pub fn run(&mut self, events: Vec<Event>) -> (action: Action)
        ensures
            final(self).spec_mode() == run_mode(old(self).spec_mode(), event_views(events@)),
            final(self).buffered() == old(self).buffered() + run_kept(
                old(self).spec_mode(),
                old(self).spec_profile().spec_format(),
                event_views(events@),
            ),
            final(self).spec_profile() == old(self).spec_profile(),
            action == (if final(self).spec_mode() == Mode::Stopped {
                Action::Exit
            } else {
                Action::Continue
            }),
    {
        let ghost all = event_views(events@);
        let ghost mode = self.spec_mode();
        let ghost format = self.spec_profile().spec_format();
        let ghost before = self.buffered();
        assert(all.take(0) == Seq::<EventView>::empty());
        assert(before + Seq::<SampleType>::empty() == before);
        for event in it: events
            invariant
                it.seq() == events@,
                all == event_views(events@),
                self.spec_mode() == run_mode(mode, all.take(it.index() as int)),
                self.buffered() == before + run_kept(mode, format, all.take(it.index() as int)),
                self.spec_profile().spec_format() == format,
                self.spec_profile() == old(self).spec_profile(),
        {
            proof {
                let done = it.index() as int;
                let prefix = all.take(done + 1);
                assert(prefix.drop_last() == all.take(done));
                assert(prefix.last() == all[done]);
                assert(event@ == all[done]);
            }
            self.handle(event);
        }
        assert(all.take(all.len() as int) == all);
        if self.mode == Mode::Stopped {
            Action::Exit
        } else {
            Action::Continue
        }
    }

    /// Takes everything the buffer holds and leaves it empty. Works in any
    /// mode, also after the session has ended.
    pub fn collect(&mut self) -> (taken: Vec<SampleType>)
        ensures
            taken@ == old(self).buffered(),
            uniform(taken@, old(self).spec_profile().spec_format()),
            final(self).buffered() == Seq::<SampleType>::empty(),
            final(self).spec_mode() == old(self).spec_mode(),
            final(self).spec_profile() == old(self).spec_profile(),
    {
        proof {
            use_type_invariant(&*self);
        }
        let mut data = SampleBuffer::new();
        core::mem::swap(&mut data, &mut self.data);
        data.collect()
    }
}

} // verus!
