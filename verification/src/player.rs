//! The playback scheduler: the one consumer of the playback queue.
//!
//! The scheduler decides; its caller acts. The caller owns the audio device
//! and a clock. It hands every event to [`PlaybackScheduler::step`] and
//! carries out the action that comes back, which names the events to hand
//! in next. One cycle takes an item from the queue, plays its chunks in
//! order, and ends with the skip flag cleared and nothing playing.

use vstd::prelude::*;
use crate::tts::queue::TTSQueue;
use crate::tts::queue::TTSQueueItem;
use crate::tts::queue::TTSQueueItemView;
use crate::tts::queue::TTSQueueView;
use crate::tts::queue::current_not_pending;
use crate::tts::queue::distinct_request_ids;
use crate::tts::queue::snapshot;

verus! {

/// How long the scheduler rests when nothing waits, in milliseconds.
pub const IDLE_INTERVAL_MS: u64 = 100;

/// How long the scheduler rests between two looks at the device while a
/// chunk plays, in milliseconds.
pub const POLL_INTERVAL_MS: u64 = 50;

/// How long the scheduler rests between two chunks of one item, in
/// milliseconds.
pub const CHUNK_GAP_MS: u64 = 100;

/// What the display shows of an item of the queue.
#[derive(Debug, PartialEq, Eq)]
pub struct TTSQueueItemUI {
    pub id: String,
    pub username: String,
    pub text: String,
    pub language: String,
}

/// The mathematical value of a [`TTSQueueItemUI`].
pub struct TTSQueueItemUIView {
    pub id: Seq<char>,
    pub username: Seq<char>,
    pub text: Seq<char>,
    pub language: Seq<char>,
}

impl View for TTSQueueItemUI {
    type V = TTSQueueItemUIView;

    open spec fn view(&self) -> TTSQueueItemUIView {
        TTSQueueItemUIView {
            id: self.id@,
            username: self.username@,
            text: self.text@,
            language: self.language@,
        }
    }
}

impl DeepView for TTSQueueItemUI {
    type V = TTSQueueItemUIView;

    open spec fn deep_view(&self) -> TTSQueueItemUIView {
        self@
    }
}

/// What the display shows of `item`.
pub open spec fn shown(item: TTSQueueItemView) -> TTSQueueItemUIView {
    TTSQueueItemUIView {
        id: item.request.id,
        username: item.request.username,
        text: item.request.text,
        language: item.request.language,
    }
}

/// What the display shows of the queue: the item that is playing first,
/// then the items that wait.
pub open spec fn display(q: TTSQueueView) -> Seq<TTSQueueItemUIView> {
    Seq::new(snapshot(q).len(), |i: int| shown(snapshot(q)[i]))
}

/// What the display shows of the queue.
pub fn display_of(queue: &TTSQueue) -> (r: Vec<TTSQueueItemUI>)
    ensures
        r.deep_view() == display(queue@),
{
    let items = queue.get_all_with_current();
    let mut r: Vec<TTSQueueItemUI> = Vec::new();
    for item in it: items
        invariant
            it.seq().len() == snapshot(queue@).len(),
            forall|k: int| 0 <= k < it.seq().len() ==> (#[trigger] it.seq()[k])@ == snapshot(queue@)[k],
            r.deep_view() == display(queue@).take(it.index() as int),
    {
        let ghost before = r.deep_view();
        let ghost v = item@;
        let entry = TTSQueueItemUI {
            id: item.request.id,
            username: item.request.username,
            text: item.request.text,
            language: item.request.language,
        };
        r.push(entry);
        assert(r.deep_view() =~= before.push(shown(v)));
        assert(r.deep_view() =~= display(queue@).take(it.index() + 1));
    }
    assert(display(queue@).take(display(queue@).len() as int) =~= display(queue@));
    r
}

/// Where the scheduler stands in its cycle.
#[derive(Clone, Copy, Debug, PartialEq, Eq, Structural)]
pub enum PlayerState {
    /// Between two items.
    Idle,
    /// An item is taken and shown; the device is being opened.
    Opening,
    /// The chunk with this number is being decoded and started.
    Starting(usize),
    /// The chunk with this number plays.
    Playing(usize),
    /// The chunk with this number is over; the next one waits for the gap
    /// to pass.
    Pausing(usize),
}

/// What the caller reports.
#[derive(Clone, Copy, Debug, PartialEq, Eq, Structural)]
pub enum PlayerEvent {
    /// A cycle may start: at the beginning, or after a rest.
    Wake,
    /// The device is open.
    DeviceOpened,
    /// The device could not be opened.
    DeviceFailed,
    /// The chunk was decoded and plays.
    ChunkStarted,
    /// The chunk could not be decoded.
    ChunkUndecodable,
    /// The device was looked at: whether it has played all it was given.
    Polled { finished: bool },
    /// The gap between two chunks has passed.
    GapPassed,
}

/// What the caller is to do.
#[derive(Debug, PartialEq, Eq)]
pub enum PlayerAction {
    /// Rest for so many milliseconds, then report `Wake`.
    Sleep(u64),
    /// Report `Wake` at once: an item was discarded.
    Retry,
    /// Show `display`, then open the device for `item` and report
    /// `DeviceOpened` or `DeviceFailed`.
    Open { item: TTSQueueItem, display: Vec<TTSQueueItemUI> },
    /// Decode the chunk with this number and start it, then report
    /// `ChunkStarted` or `ChunkUndecodable`.
    StartChunk(usize),
    /// Rest for so many milliseconds, then look at the device and report
    /// `Polled`.
    Poll(u64),
    /// Rest for so many milliseconds, then report `GapPassed`.
    Gap(u64),
    /// The item is over. Where `stop` holds, stop the output of the device
    /// at once. Show `display`, then report `Wake`.
    Finish { stop: bool, display: Vec<TTSQueueItemUI> },
    /// The event was not expected in this state: do nothing.
    Nothing,
}

/// The mathematical value of a [`PlayerAction`].
pub enum PlayerActionView {
    Sleep(u64),
    Retry,
    Open { item: TTSQueueItemView, display: Seq<TTSQueueItemUIView> },
    StartChunk(usize),
    Poll(u64),
    Gap(u64),
    Finish { stop: bool, display: Seq<TTSQueueItemUIView> },
    Nothing,
}

impl View for PlayerAction {
    type V = PlayerActionView;

    open spec fn view(&self) -> PlayerActionView {
        match self {
            PlayerAction::Sleep(ms) => PlayerActionView::Sleep(*ms),
            PlayerAction::Retry => PlayerActionView::Retry,
            PlayerAction::Open { item, display } => PlayerActionView::Open {
                item: item@,
                display: display.deep_view(),
            },
            PlayerAction::StartChunk(index) => PlayerActionView::StartChunk(*index),
            PlayerAction::Poll(ms) => PlayerActionView::Poll(*ms),
            PlayerAction::Gap(ms) => PlayerActionView::Gap(*ms),
            PlayerAction::Finish { stop, display } => PlayerActionView::Finish {
                stop: *stop,
                display: display.deep_view(),
            },
            PlayerAction::Nothing => PlayerActionView::Nothing,
        }
    }
}

/// The outcome of one step: the state and the queue afterwards, and the
/// action.
pub struct Step {
    pub state: PlayerState,
    pub queue: TTSQueueView,
    pub action: PlayerActionView,
}

/// The number of chunks of the item that is playing; none where nothing
/// plays.
pub open spec fn chunk_count(q: TTSQueueView) -> nat {
    match q.current {
        Some(item) => item.audio_chunks.len(),
        None => 0,
    }
}

/// The queue when an item is over: no skip is asked for, and nothing
/// plays.
pub open spec fn finished(q: TTSQueueView) -> TTSQueueView {
    TTSQueueView { skip: false, current: None, ..q }
}

/// The end of an item: the skip flag is cleared, nothing plays any more,
/// and the display is brought up to date.
pub open spec fn finish(q: TTSQueueView, stop: bool) -> Step {
    Step {
        state: PlayerState::Idle,
        queue: finished(q),
        action: PlayerActionView::Finish { stop, display: display(finished(q)) },
    }
}

/// The start of the chunk `index`: the item ends here where a skip is
/// asked for or no such chunk exists.
pub open spec fn begin_chunk(q: TTSQueueView, index: usize) -> Step {
    if q.skip || index >= chunk_count(q) {
        finish(q, false)
    } else {
        Step { state: PlayerState::Starting(index), queue: q, action: PlayerActionView::StartChunk(index) }
    }
}

/// What follows the chunk `index`: the gap before the next chunk, or the
/// end of the item.
pub open spec fn after_chunk(q: TTSQueueView, index: usize) -> Step {
    if index + 1 < chunk_count(q) {
        Step {
            state: PlayerState::Pausing(index),
            queue: q,
            action: PlayerActionView::Gap(CHUNK_GAP_MS),
        }
    } else {
        finish(q, false)
    }
}

/// The start of a cycle.
pub open spec fn wake(q: TTSQueueView) -> Step {
    if q.pending.len() == 0 {
        Step { state: PlayerState::Idle, queue: q, action: PlayerActionView::Sleep(IDLE_INTERVAL_MS) }
    } else if q.ignored.contains(q.pending[0].request.username) {
        Step {
            state: PlayerState::Idle,
            queue: TTSQueueView { pending: q.pending.drop_first(), ..q },
            action: PlayerActionView::Retry,
        }
    } else {
        let taken = TTSQueueView {
            pending: q.pending.drop_first(),
            current: Some(q.pending[0]),
            ..q
        };
        Step {
            state: PlayerState::Opening,
            queue: taken,
            action: PlayerActionView::Open { item: q.pending[0], display: display(taken) },
        }
    }
}

/// One step of the scheduler.
pub open spec fn step(state: PlayerState, q: TTSQueueView, event: PlayerEvent) -> Step {
    match (state, event) {
        (PlayerState::Idle, PlayerEvent::Wake) => wake(q),
        (PlayerState::Opening, PlayerEvent::DeviceOpened) => begin_chunk(q, 0),
        (PlayerState::Opening, PlayerEvent::DeviceFailed) => finish(q, false),
        (PlayerState::Starting(index), PlayerEvent::ChunkStarted) => Step {
            state: PlayerState::Playing(index),
            queue: q,
            action: PlayerActionView::Poll(0),
        },
        (PlayerState::Starting(index), PlayerEvent::ChunkUndecodable) => after_chunk(q, index),
        (PlayerState::Playing(index), PlayerEvent::Polled { finished }) => if finished {
            after_chunk(q, index)
        } else if q.skip {
            finish(q, true)
        } else {
            Step {
                state: PlayerState::Playing(index),
                queue: q,
                action: PlayerActionView::Poll(POLL_INTERVAL_MS),
            }
        },
        (PlayerState::Pausing(index), PlayerEvent::GapPassed) => if index < usize::MAX {
            begin_chunk(q, (index + 1) as usize)
        } else {
            finish(q, false)
        },
        _ => Step { state, queue: q, action: PlayerActionView::Nothing },
    }
}

/// The playback scheduler.
#[derive(Debug)]
pub struct PlaybackScheduler {
    state: PlayerState,
}

impl View for PlaybackScheduler {
    type V = PlayerState;

    /// Where the scheduler stands in its cycle.
    closed spec fn view(&self) -> PlayerState {
        self.state
    }
}

impl PlaybackScheduler {
    /// A scheduler between two items.
    pub fn new() -> (r: PlaybackScheduler)
        ensures
            r@ == PlayerState::Idle,
    {
        PlaybackScheduler { state: PlayerState::Idle }
    }

    /// Where the scheduler stands in its cycle.
    pub fn state(&self) -> (r: PlayerState)
        ensures
            r == self@,
    {
        self.state
    }

    /// Ends the item that is playing.
    fn finish(&mut self, queue: &mut TTSQueue, stop: bool) -> (action: PlayerAction)
        ensures
            final(self)@ == finish(old(queue)@, stop).state,
            final(queue)@ == finish(old(queue)@, stop).queue,
            action@ == finish(old(queue)@, stop).action,
    {
        queue.clear_skip();
        queue.set_currently_playing(None);
        self.state = PlayerState::Idle;
        PlayerAction::Finish { stop, display: display_of(queue) }
    }

    /// Starts the chunk `index`, or ends the item.
    fn begin_chunk(&mut self, queue: &mut TTSQueue, index: usize, count: usize) -> (action:
        PlayerAction)
        requires
            count == chunk_count(old(queue)@),
        ensures
            final(self)@ == begin_chunk(old(queue)@, index).state,
            final(queue)@ == begin_chunk(old(queue)@, index).queue,
            action@ == begin_chunk(old(queue)@, index).action,
    {
        if queue.is_skip_requested() || index >= count {
            self.finish(queue, false)
        } else {
            self.state = PlayerState::Starting(index);
            PlayerAction::StartChunk(index)
        }
    }

    /// Goes on after the chunk `index`.
    fn after_chunk(&mut self, queue: &mut TTSQueue, index: usize, count: usize) -> (action:
        PlayerAction)
        requires
            count == chunk_count(old(queue)@),
        ensures
            final(self)@ == after_chunk(old(queue)@, index).state,
            final(queue)@ == after_chunk(old(queue)@, index).queue,
            action@ == after_chunk(old(queue)@, index).action,
    {
        if index < count && index + 1 < count {
            self.state = PlayerState::Pausing(index);
            PlayerAction::Gap(CHUNK_GAP_MS)
        } else {
            self.finish(queue, false)
        }
    }

    /// Starts a cycle.
    fn wake(&mut self, queue: &mut TTSQueue) -> (action: PlayerAction)
        requires
            old(self)@ == PlayerState::Idle,
        ensures
            final(self)@ == wake(old(queue)@).state,
            final(queue)@ == wake(old(queue)@).queue,
            action@ == wake(old(queue)@).action,
    {
        match queue.pop() {
            None => PlayerAction::Sleep(IDLE_INTERVAL_MS),
            Some(item) => {
                if queue.is_user_ignored(item.request.username.as_str()) {
                    PlayerAction::Retry
                } else {
                    queue.set_currently_playing(Some(item.clone()));
                    self.state = PlayerState::Opening;
                    PlayerAction::Open { item, display: display_of(queue) }
                }
            },
        }
    }

    /// Takes one event and says what to do. An event that the state does
    /// not expect changes nothing.
    pub fn step(&mut self, queue: &mut TTSQueue, event: PlayerEvent) -> (action: PlayerAction)
        ensures
            final(self)@ == step(old(self)@, old(queue)@, event).state,
            final(queue)@ == step(old(self)@, old(queue)@, event).queue,
            action@ == step(old(self)@, old(queue)@, event).action,
    {
        match (self.state, event) {
            (PlayerState::Idle, PlayerEvent::Wake) => self.wake(queue),
            (PlayerState::Opening, PlayerEvent::DeviceOpened) => {
                let count = queue.current_chunk_count();
                self.begin_chunk(queue, 0, count)
            },
            (PlayerState::Opening, PlayerEvent::DeviceFailed) => self.finish(queue, false),
            (PlayerState::Starting(index), PlayerEvent::ChunkStarted) => {
                self.state = PlayerState::Playing(index);
                PlayerAction::Poll(0)
            },
            (PlayerState::Starting(index), PlayerEvent::ChunkUndecodable) => {
                let count = queue.current_chunk_count();
                self.after_chunk(queue, index, count)
            },
            (PlayerState::Playing(index), PlayerEvent::Polled { finished }) => {
                if finished {
                    let count = queue.current_chunk_count();
                    self.after_chunk(queue, index, count)
                } else if queue.is_skip_requested() {
                    self.finish(queue, true)
                } else {
                    PlayerAction::Poll(POLL_INTERVAL_MS)
                }
            },
            (PlayerState::Pausing(index), PlayerEvent::GapPassed) => {
                if index < usize::MAX {
                    let count = queue.current_chunk_count();
                    self.begin_chunk(queue, index + 1, count)
                } else {
                    self.finish(queue, false)
                }
            },
            _ => PlayerAction::Nothing,
        }
    }
}

/// An item of an ignored user is discarded when its turn comes: it leaves
/// the queue, it never becomes the item that is playing, nothing is shown
/// for it, and the scheduler is ready for the next item at once.
pub proof fn lemma_ignored_item_is_discarded(q: TTSQueueView)
    requires
        q.pending.len() > 0,
        q.ignored.contains(q.pending[0].request.username),
    ensures
        step(PlayerState::Idle, q, PlayerEvent::Wake) == (Step {
            state: PlayerState::Idle,
            queue: TTSQueueView { pending: q.pending.drop_first(), ..q },
            action: PlayerActionView::Retry,
        }),
{
}

/// No step makes an item of an ignored user the item that is playing:
/// where an item is playing after a step, it was playing before, or its
/// user is not ignored.
pub proof fn lemma_ignored_item_never_plays(state: PlayerState, q: TTSQueueView, event: PlayerEvent)
    ensures
        step(state, q, event).queue.current matches Some(item) ==> q.current == Some(item)
            || !q.ignored.contains(item.request.username),
{
}

/// A skip that is asked for while a chunk plays ends the item at the next
/// look at the device: the output is stopped, the remaining chunks are
/// abandoned, nothing plays any more, and the skip flag is cleared.
pub proof fn lemma_skip_stops_item(q: TTSQueueView, index: usize)
    requires
        q.skip,
    ensures
        step(PlayerState::Playing(index), q, PlayerEvent::Polled { finished: false }) == (Step {
            state: PlayerState::Idle,
            queue: TTSQueueView { skip: false, current: None, ..q },
            action: PlayerActionView::Finish {
                stop: true,
                display: display(TTSQueueView { skip: false, current: None, ..q }),
            },
        }),
{
}

/// A skip that is asked for before a chunk starts keeps that chunk from
/// starting.
pub proof fn lemma_skip_prevents_next_chunk(state: PlayerState, q: TTSQueueView, event: PlayerEvent)
    requires
        q.skip,
    ensures
        !(step(state, q, event).action is StartChunk),
{
}

/// Whenever the scheduler comes back to idle from an item, the skip flag
/// is clear and nothing plays: a skip cannot reach the next item.
pub proof fn lemma_idle_after_item_is_clean(state: PlayerState, q: TTSQueueView, event: PlayerEvent)
    requires
        state != PlayerState::Idle,
        step(state, q, event).state == PlayerState::Idle,
    ensures
        !step(state, q, event).queue.skip,
        step(state, q, event).queue.current is None,
{
}

/// While no skip is asked for, a chunk that plays is looked at again after
/// one poll interval: a skip is seen within that time.
pub proof fn lemma_poll_interval(q: TTSQueueView, index: usize)
    requires
        !q.skip,
    ensures
        step(PlayerState::Playing(index), q, PlayerEvent::Polled { finished: false }).action
            == PlayerActionView::Poll(POLL_INTERVAL_MS),
        step(PlayerState::Playing(index), q, PlayerEvent::Polled { finished: false }).state
            == PlayerState::Playing(index),
{
}

/// The chunks of an item start in their order: after the chunk `index`
/// comes the chunk `index + 1`, or the end of the item.
pub proof fn lemma_chunks_in_order(q: TTSQueueView, index: usize)
    requires
        index < usize::MAX,
    ensures
        match step(PlayerState::Pausing(index), q, PlayerEvent::GapPassed).action {
            PlayerActionView::StartChunk(next) => next == index + 1,
            PlayerActionView::Finish { .. } => true,
            _ => false,
        },
{
}

/// The item that is playing is never among those that wait, as long as the
/// request ids of the items differ.
pub proof fn lemma_current_stays_apart(state: PlayerState, q: TTSQueueView, event: PlayerEvent)
    requires
        distinct_request_ids(q.pending),
        current_not_pending(q),
    ensures
        distinct_request_ids(step(state, q, event).queue.pending),
        current_not_pending(step(state, q, event).queue),
{
    let after = step(state, q, event).queue;
    if after.pending != q.pending {
        assert(after.pending == q.pending.drop_first());
        assert forall|i: int| 0 <= i < after.pending.len() implies (
        #[trigger] after.pending[i]).request.id != q.pending[0].request.id by {
            assert(after.pending[i] == q.pending[i + 1]);
        }
        assert forall|i: int, j: int| 0 <= i < j < after.pending.len() implies after.pending[i].request.id
            != after.pending[j].request.id by {
            assert(after.pending[i] == q.pending[i + 1]);
            assert(after.pending[j] == q.pending[j + 1]);
        }
        match q.current {
            Some(c) => {
                assert forall|i: int| 0 <= i < after.pending.len() implies (
                #[trigger] after.pending[i]).request.id != c.request.id by {
                    assert(after.pending[i] == q.pending[i + 1]);
                }
            },
            None => {},
        }
    }
}

} // verus!
