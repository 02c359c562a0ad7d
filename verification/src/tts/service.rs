//! The request pipeline: a text is split into chunks, each chunk is
//! synthesized by the speech service, and the audio of the chunks makes one
//! item of the playback queue.
//!
//! The pipeline itself sends nothing. It says what to ask the speech
//! service for, judges its answers, and assembles the item; the caller
//! talks to the service, one chunk after the other.

use vstd::prelude::*;
use vstd::utf8::encode_utf8;
use crate::encoding::lower_hex;
use crate::encoding::md5_digest;
use crate::encoding::md5_of;
use crate::encoding::percent_encoded;
use crate::encoding::to_lower_hex;
use crate::encoding::url_encode;
use crate::strings::decimal;
use crate::strings::decimal_string;
use crate::text::push_char;
use crate::tts::chunking::split_spec;
use crate::tts::chunking::split_text;
use crate::tts::queue::TTSAudioChunk;
use crate::tts::queue::TTSQueue;
use crate::tts::queue::TTSQueueItem;
use crate::tts::queue::TTSQueueItemView;
use crate::tts::queue::TTSQueueView;
use crate::tts::queue::TTSRequest;
use crate::tts::queue::TTSRequestView;

verus! {

/// The directory that holds the synthesized audio files.
pub const TTS_DIRECTORY: &'static str = "./assets/tts";

/// The longest chunk, in bytes, that is sent to the speech service.
pub const MAX_TEXT_LENGTH: usize = 200;

/// The key of the chunk number `index` of the request `id`: the id, a
/// hyphen, the number.
pub open spec fn chunk_key(id: Seq<char>, index: nat) -> Seq<char> {
    id + seq!['-'] + decimal(index)
}

/// The address that speaks `text` in `language`.
pub open spec fn tts_url(text: Seq<char>, language: Seq<char>) -> Seq<char> {
    "https://translate.google.com/translate_tts?ie=UTF-8&q="@ + percent_encoded(encode_utf8(text))
        + "&tl="@ + language + "&client=tw-ob"@
}

/// The name of the audio file for `text` in `language` under the key
/// `unique_id`: the MD5 digest of the three, one after the other, in
/// hexadecimal, with the ending `.mp3`.
pub open spec fn tts_file_name(
    text: Seq<char>,
    language: Seq<char>,
    unique_id: Seq<char>,
) -> Seq<char> {
    lower_hex(md5_of(encode_utf8(text + language + unique_id))) + ".mp3"@
}

/// What to ask the speech service for one chunk.
#[derive(Debug, PartialEq, Eq)]
pub struct SynthesisJob {
    /// The position of the chunk in the split.
    pub index: usize,
    /// The text of the chunk.
    pub text: String,
    /// The language to speak it in.
    pub language: String,
    /// The key of the chunk.
    pub unique_id: String,
    /// The address to fetch the audio from.
    pub url: String,
    /// The name of the file that holds the audio.
    pub file_name: String,
}

/// The mathematical value of a [`SynthesisJob`].
pub struct SynthesisJobView {
    pub index: usize,
    pub text: Seq<char>,
    pub language: Seq<char>,
    pub unique_id: Seq<char>,
    pub url: Seq<char>,
    pub file_name: Seq<char>,
}

impl View for SynthesisJob {
    type V = SynthesisJobView;

    open spec fn view(&self) -> SynthesisJobView {
        SynthesisJobView {
            index: self.index,
            text: self.text@,
            language: self.language@,
            unique_id: self.unique_id@,
            url: self.url@,
            file_name: self.file_name@,
        }
    }
}

impl DeepView for SynthesisJob {
    type V = SynthesisJobView;

    open spec fn deep_view(&self) -> SynthesisJobView {
        self@
    }
}

/// The job for the chunk number `index` of a request.
pub open spec fn job_for(
    request: TTSRequestView,
    index: usize,
    text: Seq<char>,
) -> SynthesisJobView {
    SynthesisJobView {
        index,
        text,
        language: request.language,
        unique_id: chunk_key(request.id, index as nat),
        url: tts_url(text, request.language),
        file_name: tts_file_name(text, request.language, chunk_key(request.id, index as nat)),
    }
}

/// The jobs of a request: one for each chunk of its text, in the order of
/// the chunks.
pub open spec fn jobs_for(request: TTSRequestView, chunks: Seq<Seq<char>>) -> Seq<
    SynthesisJobView,
> {
    Seq::new(chunks.len(), |i: int| job_for(request, i as usize, chunks[i]))
}

/// Why a chunk was not synthesized.
#[derive(Debug, PartialEq, Eq)]
pub enum SynthesisError {
    /// The speech service answered with a status that is no success.
    Http(u16),
    /// The speech service could not be reached, or its answer not read.
    Transport(String),
}

/// The mathematical value of a [`SynthesisError`].
pub enum SynthesisErrorView {
    Http(u16),
    Transport(Seq<char>),
}

impl View for SynthesisError {
    type V = SynthesisErrorView;

    open spec fn view(&self) -> SynthesisErrorView {
        match self {
            SynthesisError::Http(status) => SynthesisErrorView::Http(*status),
            SynthesisError::Transport(message) => SynthesisErrorView::Transport(message@),
        }
    }
}

/// Whether an HTTP status reports success.
pub open spec fn is_success(status: u16) -> bool {
    200 <= status <= 299
}

/// The audio of the chunks that were synthesized, in the order of the
/// chunks.
pub open spec fn successes(results: Seq<Result<TTSAudioChunk, SynthesisError>>) -> Seq<Seq<u8>>
    decreases results.len(),
{
    if results.len() == 0 {
        Seq::empty()
    } else {
        match results.last() {
            Ok(chunk) => successes(results.drop_last()).push(chunk@),
            Err(_) => successes(results.drop_last()),
        }
    }
}

/// The positions of the chunks that were not synthesized, in rising order.
pub open spec fn failures(results: Seq<Result<TTSAudioChunk, SynthesisError>>) -> Seq<usize>
    decreases results.len(),
{
    if results.len() == 0 {
        Seq::empty()
    } else {
        match results.last() {
            Ok(_) => failures(results.drop_last()),
            Err(_) => failures(results.drop_last()).push((results.len() - 1) as usize),
        }
    }
}

/// Where every chunk was synthesized, the audio is that of the results,
/// one for one and in their order.
pub proof fn lemma_all_succeeded(results: Seq<Result<TTSAudioChunk, SynthesisError>>)
    requires
        forall|i: int| 0 <= i < results.len() ==> (#[trigger] results[i]) is Ok,
    ensures
        successes(results).len() == results.len(),
        forall|i: int| 0 <= i < results.len() ==> successes(results)[i] == results[i]->Ok_0@,
        failures(results).len() == 0,
    decreases results.len(),
{
    if results.len() > 0 {
        let init = results.drop_last();
        assert forall|i: int| 0 <= i < init.len() implies (#[trigger] init[i]) is Ok by {
            assert(init[i] == results[i]);
        }
        lemma_all_succeeded(init);
        assert forall|i: int| 0 <= i < results.len() implies successes(results)[i]
            == results[i]->Ok_0@ by {
            if i < init.len() {
                assert(init[i] == results[i]);
            }
        }
    }
}

/// The successes and the failures together are as many as the results.
pub proof fn lemma_successes_and_failures(results: Seq<Result<TTSAudioChunk, SynthesisError>>)
    ensures
        successes(results).len() + failures(results).len() == results.len(),
    decreases results.len(),
{
    if results.len() > 0 {
        lemma_successes_and_failures(results.drop_last());
    }
}

/// The request pipeline, with the playback queue that it fills.
#[derive(Debug)]
pub struct TTSService {
    queue: TTSQueue,
}

impl View for TTSService {
    type V = TTSQueueView;

    /// The playback queue.
    closed spec fn view(&self) -> TTSQueueView {
        self.queue@
    }
}

impl TTSService {
    /// A pipeline that fills `queue`.
    pub fn new(queue: TTSQueue) -> (r: TTSService)
        ensures
            r@ == queue@,
    {
        TTSService { queue }
    }

    /// The playback queue.
    pub fn queue(&self) -> (r: &TTSQueue)
        ensures
            r@ == self@,
    {
        &self.queue
    }

    /// The playback queue, to change it.
    pub fn queue_mut(&mut self) -> (r: &mut TTSQueue)
        ensures
            r@ == old(self)@,
            final(self)@ == final(r)@,
    {
        &mut self.queue
    }

    /// Splits `text` into chunks of at most [`MAX_TEXT_LENGTH`] bytes at
    /// word boundaries; only a word that is longer than that makes a longer
    /// chunk.
    pub fn split_text(&self, text: &str) -> (chunks: Vec<String>)
        ensures
            chunks.deep_view() == split_spec(text@, MAX_TEXT_LENGTH as nat),
    {
        split_text(text, MAX_TEXT_LENGTH)
    }

    /// The key of the chunk number `index` of the request `id`.
    pub fn chunk_key(id: &str, index: usize) -> (r: String)
        ensures
            r@ == chunk_key(id@, index as nat),
    {
        let mut r = id.to_owned();
        push_char(&mut r, '-');
        let number = decimal_string(index);
        r.append(number.as_str());
        assert(r@ =~= chunk_key(id@, index as nat));
        r
    }

    /// The address that speaks `text` in `language`.
    pub fn tts_url(text: &str, language: &str) -> (r: String)
        ensures
            r@ == tts_url(text@, language@),
    {
        let mut r = "https://translate.google.com/translate_tts?ie=UTF-8&q=".to_owned();
        let encoded = url_encode(text);
        r.append(encoded.as_str());
        r.append("&tl=");
        r.append(language);
        r.append("&client=tw-ob");
        r
    }

    /// The name of the audio file for `text` in `language` under the key
    /// `unique_id`. The key makes the names of two chunks differ even
    /// where their texts are the same.
    pub fn tts_file_name(text: &str, language: &str, unique_id: &str) -> (r: String)
        ensures
            r@ == tts_file_name(text@, language@, unique_id@),
    {
        let mut all = text.to_owned();
        all.append(language);
        all.append(unique_id);
        let digest = md5_digest(all.as_str().as_bytes());
        let mut r = to_lower_hex(digest.as_slice());
        r.append(".mp3");
        r
    }

    /// What to ask the speech service for a request: one job for each
    /// chunk of its text, in the order of the chunks.
    pub fn plan_request(&self, request: &TTSRequest) -> (jobs: Vec<SynthesisJob>)
        ensures
            jobs.deep_view() == jobs_for(
                request@,
                split_spec(request@.text, MAX_TEXT_LENGTH as nat),
            ),
    {
        let chunks = self.split_text(request.text.as_str());
        let ghost all = jobs_for(request@, chunks.deep_view());
        let mut jobs: Vec<SynthesisJob> = Vec::new();
        let mut i: usize = 0;
        assert(jobs.deep_view() =~= all.take(0));
        while i < chunks.len()
            invariant
                i <= chunks.len(),
                all == jobs_for(request@, chunks.deep_view()),
                jobs.deep_view() == all.take(i as int),
            decreases chunks.len() - i,
        {
            let ghost before = jobs.deep_view();
            assert(chunks.deep_view()[i as int] == chunks[i as int]@);
            let text = chunks[i].clone();
            let unique_id = Self::chunk_key(request.id.as_str(), i);
            let url = Self::tts_url(text.as_str(), request.language.as_str());
            let file_name = Self::tts_file_name(
                text.as_str(),
                request.language.as_str(),
                unique_id.as_str(),
            );
            let job = SynthesisJob {
                index: i,
                text,
                language: request.language.clone(),
                unique_id,
                url,
                file_name,
            };
            assert(job@ == all[i as int]);
            jobs.push(job);
            assert(jobs.deep_view() =~= before.push(all[i as int]));
            i += 1;
            assert(jobs.deep_view() =~= all.take(i as int));
        }
        assert(all.take(chunks.len() as int) =~= all);
        jobs
    }

    /// Judges the answer of the speech service to one job: with a status
    /// of success the body is the audio of the chunk; any other status is
    /// an error.
    pub fn generate_tts(&self, status: u16, body: Vec<u8>) -> (r: Result<
        TTSAudioChunk,
        SynthesisError,
    >)
        ensures
            match r {
                Ok(chunk) => is_success(status) && chunk@ == body@,
                Err(e) => !is_success(status) && e@ == SynthesisErrorView::Http(status),
            },
    {
        if 200 <= status && status <= 299 {
            Ok(TTSAudioChunk { audio_data: body })
        } else {
            Err(SynthesisError::Http(status))
        }
    }

    /// Ends a request, given what came back from the speech service in
    /// the order in which it was asked. However many results there are, the
    /// audio among them makes one item, in that order, which goes to the end
    /// of the playback queue; results without any audio make no item. Gives
    /// the positions of the results that are errors.
    pub fn process_request(
        &mut self,
        request: TTSRequest,
        results: Vec<Result<TTSAudioChunk, SynthesisError>>,
    ) -> (failed: Vec<usize>)
        ensures
            failed@ == failures(results@),
            successes(results@).len() == 0 ==> final(self)@ == old(self)@,
            successes(results@).len() > 0 ==> final(self)@ == (TTSQueueView {
                pending: old(self)@.pending.push(
                    TTSQueueItemView { request: request@, audio_chunks: successes(results@) },
                ),
                ..old(self)@
            }),
    {
        let ghost all = results@;
        let mut audio_chunks: Vec<TTSAudioChunk> = Vec::new();
        let mut failed: Vec<usize> = Vec::new();
        let n = results.len();
        let mut i: usize = 0;
        assert(audio_chunks.deep_view() =~= successes(all.take(0)));
        assert(all.take(0) =~= Seq::<Result<TTSAudioChunk, SynthesisError>>::empty());
        for next in it: results
            invariant
                it.seq() == all,
                n == all.len(),
                i == it.index(),
                audio_chunks.deep_view() == successes(all.take(i as int)),
                failed@ == failures(all.take(i as int)),
        {
            let ghost chunks_before = audio_chunks.deep_view();
            proof {
                let prefix = all.take(i + 1);
                assert(prefix.drop_last() =~= all.take(i as int));
                assert(prefix.last() == all[i as int]);
                assert(next == all[i as int]);
            }
            match next {
                Ok(chunk) => {
                    let ghost c = chunk@;
                    audio_chunks.push(chunk);
                    assert(audio_chunks.deep_view() =~= chunks_before.push(c));
                },
                Err(_) => {
                    failed.push(i);
                },
            }
            i += 1;
        }
        assert(all.take(n as int) =~= all);
        if audio_chunks.len() > 0 {
            self.queue.add(TTSQueueItem { request, audio_chunks });
        }
        failed
    }
}

} // verus!
