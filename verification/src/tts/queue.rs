//! The playback queue: the items that wait to be played, in the order in
//! which they came; the item that is playing; the users whose requests are
//! not played; and the flag that asks the player to abandon the item that
//! is playing.

use std::collections::VecDeque;
use vstd::prelude::*;
use vstd::std_specs::vecdeque::VecDequeAdditionalSpecFns;
use crate::seqs::distinct;
use crate::seqs::first_index;
use crate::seqs::lemma_first_index_is;
use crate::seqs::position;
use crate::strings::str_eq;

verus! {

/// A request to speak a text: the id of the message that asked for it, who
/// asked, the language, the text, and when the request was made (in
/// milliseconds since the Unix epoch).
#[derive(Debug, PartialEq, Eq)]
pub struct TTSRequest {
    pub id: String,
    pub username: String,
    pub language: String,
    pub text: String,
    pub timestamp: u64,
}

/// The mathematical value of a [`TTSRequest`].
pub struct TTSRequestView {
    pub id: Seq<char>,
    pub username: Seq<char>,
    pub language: Seq<char>,
    pub text: Seq<char>,
    pub timestamp: u64,
}

impl View for TTSRequest {
    type V = TTSRequestView;

    open spec fn view(&self) -> TTSRequestView {
        TTSRequestView {
            id: self.id@,
            username: self.username@,
            language: self.language@,
            text: self.text@,
            timestamp: self.timestamp,
        }
    }
}

impl Clone for TTSRequest {
    fn clone(&self) -> (r: Self)
        ensures
            r@ == self@,
    {
        TTSRequest {
            id: self.id.clone(),
            username: self.username.clone(),
            language: self.language.clone(),
            text: self.text.clone(),
            timestamp: self.timestamp,
        }
    }
}

/// The synthesized audio of one chunk of text.
#[derive(Debug, PartialEq, Eq)]
pub struct TTSAudioChunk {
    pub audio_data: Vec<u8>,
}

impl View for TTSAudioChunk {
    type V = Seq<u8>;

    open spec fn view(&self) -> Seq<u8> {
        self.audio_data@
    }
}

impl DeepView for TTSAudioChunk {
    type V = Seq<u8>;

    open spec fn deep_view(&self) -> Seq<u8> {
        self@
    }
}

impl Clone for TTSAudioChunk {
    fn clone(&self) -> (r: Self)
        ensures
            r@ == self@,
    {
        TTSAudioChunk { audio_data: self.audio_data.clone() }
    }
}

/// A request with the audio of its chunks, in the order of the chunks.
#[derive(Debug, PartialEq, Eq)]
pub struct TTSQueueItem {
    pub request: TTSRequest,
    pub audio_chunks: Vec<TTSAudioChunk>,
}

/// The mathematical value of a [`TTSQueueItem`].
pub struct TTSQueueItemView {
    pub request: TTSRequestView,
    pub audio_chunks: Seq<Seq<u8>>,
}

impl View for TTSQueueItem {
    type V = TTSQueueItemView;

    open spec fn view(&self) -> TTSQueueItemView {
        TTSQueueItemView { request: self.request@, audio_chunks: self.audio_chunks.deep_view() }
    }
}

impl DeepView for TTSQueueItem {
    type V = TTSQueueItemView;

    open spec fn deep_view(&self) -> TTSQueueItemView {
        self@
    }
}

impl Clone for TTSQueueItem {
    fn clone(&self) -> (r: Self)
        ensures
            r@ == self@,
    {
        let mut audio_chunks: Vec<TTSAudioChunk> = Vec::new();
        let mut i: usize = 0;
        while i < self.audio_chunks.len()
            invariant
                i <= self.audio_chunks.len(),
                audio_chunks.deep_view() == self.audio_chunks.deep_view().take(i as int),
            decreases self.audio_chunks.len() - i,
        {
            let ghost before = audio_chunks.deep_view();
            let chunk = self.audio_chunks[i].clone();
            audio_chunks.push(chunk);
            assert(audio_chunks.deep_view() =~= before.push(self.audio_chunks[i as int]@));
            i += 1;
            assert(audio_chunks.deep_view() =~= self.audio_chunks.deep_view().take(i as int));
        }
        assert(self.audio_chunks.deep_view().take(self.audio_chunks.len() as int)
            =~= self.audio_chunks.deep_view());
        TTSQueueItem { request: self.request.clone(), audio_chunks }
    }
}

/// The value of an item that may be absent.
pub open spec fn item_view(item: Option<TTSQueueItem>) -> Option<TTSQueueItemView> {
    match item {
        Some(i) => Some(i@),
        None => None,
    }
}

/// The mathematical value of a [`TTSQueue`].
pub struct TTSQueueView {
    /// The items that wait, the next one first.
    pub pending: Seq<TTSQueueItemView>,
    /// The item that is playing.
    pub current: Option<TTSQueueItemView>,
    /// The users whose requests are not played.
    pub ignored: Seq<Seq<char>>,
    /// Whether the player is asked to abandon the item that is playing.
    pub skip: bool,
}

/// The request ids of the items, in their order.
pub open spec fn request_ids(items: Seq<TTSQueueItemView>) -> Seq<Seq<char>> {
    Seq::new(items.len(), |i: int| items[i].request.id)
}

/// The position of the first item with the request id `id`, or the number
/// of items where there is none.
pub open spec fn item_index(items: Seq<TTSQueueItemView>, id: Seq<char>) -> int {
    first_index(request_ids(items), id)
}

/// `users` without every occurrence of `name`.
pub open spec fn without_user(users: Seq<Seq<char>>, name: Seq<char>) -> Seq<Seq<char>>
    decreases users.len(),
{
    if users.len() == 0 {
        Seq::empty()
    } else if users.last() == name {
        without_user(users.drop_last(), name)
    } else {
        without_user(users.drop_last(), name).push(users.last())
    }
}

/// What is shown of the queue: the item that is playing, if any, then the
/// items that wait.
pub open spec fn snapshot(q: TTSQueueView) -> Seq<TTSQueueItemView> {
    match q.current {
        Some(item) => seq![item] + q.pending,
        None => q.pending,
    }
}

/// The item that is playing is not among those that wait: no waiting item
/// has its request id.
pub open spec fn current_not_pending(q: TTSQueueView) -> bool {
    match q.current {
        Some(item) => forall|i: int|
            0 <= i < q.pending.len() ==> (#[trigger] q.pending[i]).request.id != item.request.id,
        None => true,
    }
}

/// No two waiting items have the same request id.
pub open spec fn distinct_request_ids(items: Seq<TTSQueueItemView>) -> bool {
    forall|i: int, j: int| 0 <= i < j < items.len() ==> items[i].request.id != items[j].request.id
}

/// The items that `count` pops take out of `pending`, in the order of the
/// pops.
pub open spec fn popped(pending: Seq<TTSQueueItemView>, count: nat) -> Seq<TTSQueueItemView>
    decreases count,
{
    if count == 0 || pending.len() == 0 {
        Seq::empty()
    } else {
        seq![pending[0]] + popped(pending.drop_first(), (count - 1) as nat)
    }
}

/// The waiting items after `items` were added one after the other.
pub open spec fn added(pending: Seq<TTSQueueItemView>, items: Seq<TTSQueueItemView>) -> Seq<
    TTSQueueItemView,
>
    decreases items.len(),
{
    if items.len() == 0 {
        pending
    } else {
        added(pending, items.drop_last()).push(items.last())
    }
}

/// First in, first out: the items leave the queue in the order in which
/// they were added. After `items` were added to an empty queue, as many
/// pops give `items` back.
pub proof fn lemma_first_in_first_out(items: Seq<TTSQueueItemView>)
    ensures
        popped(added(Seq::empty(), items), items.len()) == items,
{
    lemma_added_appends(Seq::empty(), items);
    assert(Seq::<TTSQueueItemView>::empty() + items =~= items);
    lemma_popped_all(items);
}

/// Adding items one after the other appends them.
pub proof fn lemma_added_appends(pending: Seq<TTSQueueItemView>, items: Seq<TTSQueueItemView>)
    ensures
        added(pending, items) == pending + items,
    decreases items.len(),
{
    if items.len() == 0 {
        assert(pending + items =~= pending);
    } else {
        lemma_added_appends(pending, items.drop_last());
        assert((pending + items.drop_last()).push(items.last()) =~= pending + items);
    }
}

/// As many pops as there are items take all of them, the first one first.
pub proof fn lemma_popped_all(items: Seq<TTSQueueItemView>)
    ensures
        popped(items, items.len()) == items,
    decreases items.len(),
{
    if items.len() > 0 {
        lemma_popped_all(items.drop_first());
        assert(seq![items[0]] + items.drop_first() =~= items);
    }
}

/// An item with a new request id keeps the request ids distinct.
pub proof fn lemma_add_keeps_ids_distinct(q: TTSQueueView, item: TTSQueueItemView)
    requires
        distinct_request_ids(q.pending),
        current_not_pending(q),
        forall|i: int| 0 <= i < q.pending.len() ==> (#[trigger] q.pending[i]).request.id
            != item.request.id,
        q.current matches Some(c) ==> c.request.id != item.request.id,
    ensures
        distinct_request_ids(q.pending.push(item)),
        current_not_pending(TTSQueueView { pending: q.pending.push(item), ..q }),
{
    let after = q.pending.push(item);
    assert forall|i: int, j: int| 0 <= i < j < after.len() implies after[i].request.id
        != after[j].request.id by {
        if j < q.pending.len() {
            assert(after[i] == q.pending[i] && after[j] == q.pending[j]);
        } else {
            assert(after[i] == q.pending[i]);
        }
    }
    match q.current {
        Some(c) => {
            assert forall|i: int| 0 <= i < after.len() implies (#[trigger] after[i]).request.id
                != c.request.id by {
                if i < q.pending.len() {
                    assert(after[i] == q.pending[i]);
                }
            }
        },
        None => {},
    }
}

/// A position that holds the id after positions that do not is
/// `item_index`.
pub proof fn lemma_item_index_is(items: Seq<TTSQueueItemView>, id: Seq<char>, k: int)
    requires
        0 <= k <= items.len(),
        forall|i: int| 0 <= i < k ==> (#[trigger] items[i]).request.id != id,
        k < items.len() ==> items[k].request.id == id,
    ensures
        item_index(items, id) == k,
{
    assert forall|i: int| 0 <= i < k implies request_ids(items)[i] != id by {
        assert(items[i].request.id != id);
    }
    lemma_first_index_is(request_ids(items), id, k);
}

/// After `without_user`, the name is gone and the other users are kept.
pub proof fn lemma_without_user(users: Seq<Seq<char>>, name: Seq<char>)
    ensures
        !without_user(users, name).contains(name),
        forall|other: Seq<char>|
            other != name ==> (#[trigger] without_user(users, name).contains(other)
                <==> users.contains(other)),
    decreases users.len(),
{
    if users.len() > 0 {
        let init = users.drop_last();
        let last = users.last();
        lemma_without_user(init, name);
        let r = without_user(users, name);
        let r0 = without_user(init, name);
        assert(users =~= init.push(last));
        assert forall|other: Seq<char>| other != name implies (#[trigger] r.contains(other)
            <==> users.contains(other)) by {
            if users.contains(other) {
                let k = choose|k: int| 0 <= k < users.len() && users[k] == other;
                if k < init.len() {
                    assert(init[k] == other);
                    assert(r0.contains(other));
                    let j = choose|j: int| 0 <= j < r0.len() && r0[j] == other;
                    assert(r[j] == other);
                } else {
                    assert(r.last() == other);
                }
            }
            if r.contains(other) {
                let j = choose|j: int| 0 <= j < r.len() && r[j] == other;
                if j < r0.len() {
                    assert(r0[j] == other);
                    assert(r0.contains(other));
                    assert(init.contains(other));
                    let k = choose|k: int| 0 <= k < init.len() && init[k] == other;
                    assert(users[k] == other);
                } else {
                    assert(users.last() == other);
                }
            }
        }
        if r.contains(name) {
            let j = choose|j: int| 0 <= j < r.len() && r[j] == name;
            if j < r0.len() {
                assert(r0[j] == name);
                assert(r0.contains(name));
            }
        }
    }
}

/// Taking a user out of users that are named once each leaves every other
/// user named once.
pub proof fn lemma_without_user_keeps_distinct(users: Seq<Seq<char>>, name: Seq<char>)
    requires
        distinct(users),
    ensures
        distinct(without_user(users, name)),
    decreases users.len(),
{
    if users.len() > 0 {
        let init = users.drop_last();
        assert forall|i: int, j: int| 0 <= i < j < init.len() implies init[i] != init[j] by {
            assert(init[i] == users[i] && init[j] == users[j]);
        }
        lemma_without_user_keeps_distinct(init, name);
        lemma_without_user(init, name);
        let r0 = without_user(init, name);
        let r = without_user(users, name);
        if users.last() != name {
            assert forall|i: int, j: int| 0 <= i < j < r.len() implies r[i] != r[j] by {
                if j < r0.len() {
                    assert(r[i] == r0[i] && r[j] == r0[j]);
                } else {
                    assert(r[i] == r0[i]);
                    if r0[i] == users.last() {
                        assert(r0.contains(users.last()));
                        assert(init.contains(users.last()));
                        let k = choose|k: int| 0 <= k < init.len() && init[k] == users.last();
                        assert(users[k] == users[users.len() - 1]);
                    }
                }
            }
        }
    }
}

/// The playback queue.
#[derive(Debug)]
pub struct TTSQueue {
    queue: VecDeque<TTSQueueItem>,
    ignored_users: Vec<String>,
    currently_playing: Option<TTSQueueItem>,
    skip_requested: bool,
}

impl View for TTSQueue {
    type V = TTSQueueView;

    closed spec fn view(&self) -> TTSQueueView {
        TTSQueueView {
            pending: self.queue.deep_view(),
            current: item_view(self.currently_playing),
            ignored: self.ignored_users.deep_view(),
            skip: self.skip_requested,
        }
    }
}

impl TTSQueue {
    /// An empty queue: nothing waits, nothing plays, nobody is ignored, and
    /// no skip is asked for.
    pub fn new() -> (r: TTSQueue)
        ensures
            r@ == (TTSQueueView {
                pending: Seq::empty(),
                current: None,
                ignored: Seq::empty(),
                skip: false,
            }),
    {
        let r = TTSQueue {
            queue: VecDeque::new(),
            ignored_users: Vec::new(),
            currently_playing: None,
            skip_requested: false,
        };
        assert(r@.pending =~= Seq::empty());
        assert(r@.ignored =~= Seq::empty());
        r
    }

    /// Puts `item` at the end of the waiting items.
    pub fn add(&mut self, item: TTSQueueItem)
        ensures
            final(self)@ == (TTSQueueView { pending: old(self)@.pending.push(item@), ..old(self)@ }),
    {
        self.queue.push_back(item);
        assert(self@.pending =~= old(self)@.pending.push(item@));
    }

    /// Takes the first waiting item out of the queue; `None` where nothing
    /// waits.
    pub fn pop(&mut self) -> (r: Option<TTSQueueItem>)
        ensures
            item_view(r) == (if old(self)@.pending.len() > 0 {
                Some(old(self)@.pending[0])
            } else {
                None
            }),
            final(self)@ == (TTSQueueView {
                pending: if old(self)@.pending.len() > 0 {
                    old(self)@.pending.drop_first()
                } else {
                    old(self)@.pending
                },
                ..old(self)@
            }),
    {
        let r = self.queue.pop_front();
        proof {
            if old(self)@.pending.len() > 0 {
                assert(self@.pending =~= old(self)@.pending.drop_first());
            } else {
                assert(self@.pending =~= old(self)@.pending);
            }
        }
        r
    }

    /// A copy of the first waiting item; `None` where nothing waits.
    pub fn peek(&self) -> (r: Option<TTSQueueItem>)
        ensures
            item_view(r) == (if self@.pending.len() > 0 {
                Some(self@.pending[0])
            } else {
                None
            }),
    {
        if self.queue.len() > 0 {
            Some(self.queue[0].clone())
        } else {
            None
        }
    }

    /// Removes every waiting item.
    pub fn clear(&mut self)
        ensures
            final(self)@ == (TTSQueueView { pending: Seq::empty(), ..old(self)@ }),
    {
        self.queue.clear();
        assert(self@.pending =~= Seq::empty());
    }

    /// Removes the first waiting item whose request has the id `id`, and
    /// tells whether there was one. The other items keep their order.
    pub fn remove(&mut self, id: &str) -> (found: bool)
        ensures
            found == (item_index(old(self)@.pending, id@) < old(self)@.pending.len()),
            found ==> final(self)@ == (TTSQueueView {
                pending: old(self)@.pending.remove(item_index(old(self)@.pending, id@)),
                ..old(self)@
            }),
            !found ==> final(self)@ == old(self)@,
    {
        let mut k: usize = 0;
        while k < self.queue.len()
            invariant
                k <= self.queue.len(),
                forall|i: int| 0 <= i < k ==> (#[trigger] self@.pending[i]).request.id != id@,
            ensures
                k < self.queue.len() ==> self@.pending[k as int].request.id == id@,
            decreases self.queue.len() - k,
        {
            assert(self@.pending[k as int] == self.queue[k as int]@);
            if str_eq(self.queue[k].request.id.as_str(), id) {
                break;
            }
            k += 1;
        }
        proof {
            lemma_item_index_is(self@.pending, id@, k as int);
        }
        if k < self.queue.len() {
            self.queue.remove(k);
            assert(self@.pending =~= old(self)@.pending.remove(k as int));
            true
        } else {
            false
        }
    }

    /// Asks the player to abandon the item that is playing, and gives a
    /// copy of that item. Where nothing is playing, nothing is asked:
    /// the next item is not affected.
    pub fn skip_current(&mut self) -> (r: Option<TTSQueueItem>)
        ensures
            item_view(r) == old(self)@.current,
            final(self)@ == (TTSQueueView {
                skip: old(self)@.skip || old(self)@.current is Some,
                ..old(self)@
            }),
    {
        match &self.currently_playing {
            Some(item) => {
                let copy = item.clone();
                self.skip_requested = true;
                Some(copy)
            },
            None => None,
        }
    }

    /// Adds `username` to the ignored users, unless it is among them.
    pub fn ignore_user(&mut self, username: &str)
        ensures
            final(self)@ == (TTSQueueView {
                ignored: if old(self)@.ignored.contains(username@) {
                    old(self)@.ignored
                } else {
                    old(self)@.ignored.push(username@)
                },
                ..old(self)@
            }),
            distinct(old(self)@.ignored) ==> distinct(final(self)@.ignored),
    {
        if position(&self.ignored_users, username) >= self.ignored_users.len() {
            self.ignored_users.push(username.to_owned());
            assert(self@.ignored =~= old(self)@.ignored.push(username@));
            assert forall|i: int, j: int|
                distinct(old(self)@.ignored) && 0 <= i < j < self@.ignored.len() implies self@.ignored[i]
                != self@.ignored[j] by {
                assert(self@.ignored[i] == old(self)@.ignored[i]);
                if j < old(self)@.ignored.len() {
                    assert(self@.ignored[j] == old(self)@.ignored[j]);
                } else {
                    assert(old(self)@.ignored.contains(old(self)@.ignored[i]));
                }
            }
        }
    }

    /// Removes `username` from the ignored users.
    pub fn unignore_user(&mut self, username: &str)
        ensures
            final(self)@ == (TTSQueueView {
                ignored: without_user(old(self)@.ignored, username@),
                ..old(self)@
            }),
            distinct(old(self)@.ignored) ==> distinct(final(self)@.ignored),
    {
        proof {
            if distinct(self@.ignored) {
                lemma_without_user_keeps_distinct(self@.ignored, username@);
            }
        }
        let mut kept: Vec<String> = Vec::new();
        let mut i: usize = 0;
        assert(self@.ignored.take(0) =~= Seq::<Seq<char>>::empty());
        assert(kept.deep_view() =~= Seq::<Seq<char>>::empty());
        while i < self.ignored_users.len()
            invariant
                i <= self.ignored_users.len(),
                self@ == old(self)@,
                kept.deep_view() == without_user(self@.ignored.take(i as int), username@),
            decreases self.ignored_users.len() - i,
        {
            let ghost before = kept.deep_view();
            proof {
                let next = self@.ignored.take(i + 1);
                assert(next.drop_last() =~= self@.ignored.take(i as int));
                assert(next.last() == self.ignored_users[i as int]@);
            }
            if !str_eq(self.ignored_users[i].as_str(), username) {
                kept.push(self.ignored_users[i].clone());
                assert(kept.deep_view() =~= before.push(self.ignored_users[i as int]@));
            }
            i += 1;
        }
        assert(self@.ignored.take(self.ignored_users.len() as int) =~= self@.ignored);
        self.ignored_users = kept;
    }

    /// Whether `username` is among the ignored users.
    pub fn is_user_ignored(&self, username: &str) -> (r: bool)
        ensures
            r == self@.ignored.contains(username@),
    {
        position(&self.ignored_users, username) < self.ignored_users.len()
    }

    /// Copies of the waiting items, the next one first.
    pub fn get_all(&self) -> (r: Vec<TTSQueueItem>)
        ensures
            r.deep_view() == self@.pending,
    {
        let mut r: Vec<TTSQueueItem> = Vec::new();
        let mut i: usize = 0;
        assert(r.deep_view() =~= self@.pending.take(0));
        while i < self.queue.len()
            invariant
                i <= self.queue.len(),
                r.deep_view() == self@.pending.take(i as int),
            decreases self.queue.len() - i,
        {
            let ghost before = r.deep_view();
            let item = self.queue[i].clone();
            r.push(item);
            assert(r.deep_view() =~= before.push(self.queue[i as int]@));
            i += 1;
            assert(r.deep_view() =~= self@.pending.take(i as int));
        }
        assert(self@.pending.take(self.queue.len() as int) =~= self@.pending);
        r
    }

    /// Copies of the item that is playing, if any, and after it of the
    /// waiting items: what is shown of the queue.
    pub fn get_all_with_current(&self) -> (r: Vec<TTSQueueItem>)
        ensures
            r.deep_view() == snapshot(self@),
    {
        let mut r: Vec<TTSQueueItem> = Vec::new();
        let ghost head: Seq<TTSQueueItemView> = match self@.current {
            Some(item) => seq![item],
            None => Seq::empty(),
        };
        match &self.currently_playing {
            Some(item) => {
                r.push(item.clone());
            },
            None => {},
        }
        assert(r.deep_view() =~= head);
        let mut i: usize = 0;
        assert(r.deep_view() =~= head + self@.pending.take(0));
        while i < self.queue.len()
            invariant
                i <= self.queue.len(),
                r.deep_view() == head + self@.pending.take(i as int),
            decreases self.queue.len() - i,
        {
            let ghost before = r.deep_view();
            let item = self.queue[i].clone();
            r.push(item);
            assert(r.deep_view() =~= before.push(self.queue[i as int]@));
            i += 1;
            assert(r.deep_view() =~= head + self@.pending.take(i as int));
        }
        assert(self@.pending.take(self.queue.len() as int) =~= self@.pending);
        assert(head + self@.pending =~= snapshot(self@));
        r
    }

    /// The number of waiting items.
    pub fn len(&self) -> (n: usize)
        ensures
            n == self@.pending.len(),
    {
        self.queue.len()
    }

    /// Whether nothing waits.
    pub fn is_empty(&self) -> (r: bool)
        ensures
            r == (self@.pending.len() == 0),
    {
        self.queue.len() == 0
    }

    /// Names `item` as the item that is playing, or says with `None` that
    /// nothing is.
    pub fn set_currently_playing(&mut self, item: Option<TTSQueueItem>)
        ensures
            final(self)@ == (TTSQueueView { current: item_view(item), ..old(self)@ }),
    {
        self.currently_playing = item;
    }

    /// A copy of the item that is playing.
    pub fn get_currently_playing(&self) -> (r: Option<TTSQueueItem>)
        ensures
            item_view(r) == self@.current,
    {
        match &self.currently_playing {
            Some(item) => Some(item.clone()),
            None => None,
        }
    }

    /// Whether the item that is playing has the request id `id`.
    pub fn is_playing(&self, id: &str) -> (r: bool)
        ensures
            r == match self@.current {
                Some(item) => item.request.id == id@,
                None => false,
            },
    {
        match &self.currently_playing {
            Some(item) => str_eq(item.request.id.as_str(), id),
            None => false,
        }
    }

    /// The number of audio chunks of the item that is playing; none where
    /// nothing plays.
    pub fn current_chunk_count(&self) -> (n: usize)
        ensures
            n == match self@.current {
                Some(item) => item.audio_chunks.len(),
                None => 0,
            },
    {
        match &self.currently_playing {
            Some(item) => item.audio_chunks.len(),
            None => 0,
        }
    }

    /// Asks the player to abandon the item that is playing. Asking twice is
    /// asking once.
    pub fn request_skip(&mut self)
        ensures
            final(self)@ == (TTSQueueView { skip: true, ..old(self)@ }),
    {
        self.skip_requested = true;
    }

    /// Withdraws the request to skip.
    pub fn clear_skip(&mut self)
        ensures
            final(self)@ == (TTSQueueView { skip: false, ..old(self)@ }),
    {
        self.skip_requested = false;
    }

    /// Whether the player is asked to abandon the item that is playing.
    pub fn is_skip_requested(&self) -> (r: bool)
        ensures
            r == self@.skip,
    {
        self.skip_requested
    }
}

impl Default for TTSQueue {
    fn default() -> (r: TTSQueue)
        ensures
            r@ == (TTSQueueView {
                pending: Seq::empty(),
                current: None,
                ignored: Seq::empty(),
                skip: false,
            }),
    {
        TTSQueue::new()
    }
}

} // verus!
