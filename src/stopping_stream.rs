//! A chunk-at-a-time filter that withholds text while a stop word could still be forming,
//! releases it as soon as no stop word can match, and ends the stream once one is confirmed.

use vstd::prelude::*;

use crate::text::{is_prefix, str_starts_with};

verus! {

/// What the filter decides for its working buffer.
#[derive(PartialEq, Eq, Debug, Clone, Copy)]
pub enum Verdict {
    /// A stop word has been confirmed: the stream ends.
    Stop,
    /// The buffer may still grow into a stop word: emission is withheld.
    Hold,
    /// No stop word can match: the whole buffer is released.
    Emit,
}

/// The verdict on `buf` that the stop words from index `i` onward reach: the first word
/// that `buf` starts with stops the stream, the first word that starts with `buf` holds it.
pub open spec fn verdict_from(words: Seq<Seq<char>>, buf: Seq<char>, i: int) -> Verdict
    decreases words.len() - i,
{
    if i < 0 || i >= words.len() {
        Verdict::Emit
    } else if is_prefix(words[i], buf) {
        Verdict::Stop
    } else if is_prefix(buf, words[i]) {
        Verdict::Hold
    } else {
        verdict_from(words, buf, i + 1)
    }
}

/// The verdict on `buf` over all stop words, in their order.
pub open spec fn verdict(words: Seq<Seq<char>>, buf: Seq<char>) -> Verdict {
    verdict_from(words, buf, 0)
}

/// Whether `pending` is text that the filter may withhold: nothing, or the start of one of
/// the stop words, so never longer than the longest of them.
pub open spec fn may_withhold(words: Seq<Seq<char>>, pending: Seq<char>) -> bool {
    pending.len() == 0 || exists|j: int| 0 <= j < words.len() && is_prefix(pending, words[j])
}

/// Text is withheld only while it is the start of a stop word.
pub proof fn lemma_hold_is_stop_word_start(words: Seq<Seq<char>>, buf: Seq<char>, i: int)
    requires
        verdict_from(words, buf, i) == Verdict::Hold,
    ensures
        exists|j: int| i <= j < words.len() && is_prefix(buf, words[j]),
    decreases words.len() - i,
{
    if 0 <= i < words.len() && !is_prefix(words[i], buf) && !is_prefix(buf, words[i]) {
        lemma_hold_is_stop_word_start(words, buf, i + 1);
    }
}

/// The chunks that the filter emits when it starts with `pending` withheld and then
/// receives `chunks`, up to the end of the stream or a confirmed stop word.
pub open spec fn filtered(
    words: Seq<Seq<char>>,
    pending: Seq<char>,
    chunks: Seq<Seq<char>>,
) -> Seq<Seq<char>>
    decreases chunks.len(),
{
    if chunks.len() == 0 {
        Seq::empty()
    } else {
        let buf = pending + chunks[0];
        match verdict(words, buf) {
            Verdict::Stop => Seq::empty(),
            Verdict::Hold => filtered(words, buf, chunks.drop_first()),
            Verdict::Emit => seq![buf].add(filtered(words, Seq::empty(), chunks.drop_first())),
        }
    }
}

/// The verdict of the stop words on `buf`, checked in order.
pub fn check_stop_words(stop_words: &Vec<String>, buf: &str) -> (r: Verdict)
    ensures
        r == verdict(stop_words.deep_view(), buf@),
{
    let ghost words = stop_words.deep_view();
    let mut i: usize = 0;
    while i < stop_words.len()
        invariant
            words == stop_words.deep_view(),
            i <= stop_words.len(),
            verdict(words, buf@) == verdict_from(words, buf@, i as int),
        decreases stop_words.len() - i,
    {
        let w = stop_words[i].as_str();
        if str_starts_with(buf, w) {
            return Verdict::Stop;
        }
        if str_starts_with(w, buf) {
            return Verdict::Hold;
        }
        i = i + 1;
    }
    Verdict::Emit
}

/// What the filter hands downstream after one upstream event.
pub enum StopStep {
    /// Nothing to release yet: more upstream input is needed.
    Pending,
    /// This text is released downstream.
    Emit(String),
    /// The filtered stream has ended.
    End,
}

/// A stream adaptor that collects a sequence of text chunks from `inner`, and re-emits them
/// once it is impossible for them to be the start of a stop word.
pub struct StoppingStream<T> {
    /// The upstream source of chunks.
    pub inner: T,
    /// The stop words (phrases) that this stream should stop at; they are never emitted.
    stop_words: Vec<String>,
    /// Text withheld while it could still be the start of a stop word.
    working_buf: String,
    /// Once `true`, no further output is produced.
    is_fused: bool,
}

impl<T> StoppingStream<T> {
    /// The upstream source.
    pub closed spec fn upstream(&self) -> T {
        self.inner
    }

    /// The stop words, in their order.
    pub closed spec fn words(&self) -> Seq<Seq<char>> {
        self.stop_words.deep_view()
    }

    /// The withheld text.
    pub closed spec fn pending(&self) -> Seq<char> {
        self.working_buf@
    }

    /// Whether the stream has terminated.
    pub closed spec fn fused(&self) -> bool {
        self.is_fused
    }

    /// Creates a new stopping stream from the given base stream and a collection of stop words.
    pub fn wrap_with_stop_words(inner: T, stop_words: Vec<String>) -> (r: Self)
        ensures
            r.upstream() == inner,
            r.words() == stop_words.deep_view(),
            r.pending() == Seq::<char>::empty(),
            !r.fused(),
    {
        StoppingStream { inner, stop_words, working_buf: String::new(), is_fused: false }
    }

    /// Whether the stream has terminated.
    pub fn is_terminated(&self) -> (r: bool)
        ensures
            r == self.fused(),
    {
        self.is_fused
    }

    /// Feeds one upstream chunk through the filter.
    pub fn on_chunk(&mut self, token: String) -> (r: StopStep)
        ensures
            may_withhold(final(self).words(), final(self).pending()),
            final(self).upstream() == old(self).upstream(),
            final(self).words() == old(self).words(),
            old(self).fused() ==> r is End && final(self).fused() && final(self).pending()
                == Seq::<char>::empty(),
            !old(self).fused() ==> ({
                let buf = old(self).pending() + token@;
                match verdict(old(self).words(), buf) {
                    Verdict::Stop => r is End && final(self).fused() && final(self).pending()
                        == Seq::<char>::empty(),
                    Verdict::Hold => r is Pending && !final(self).fused() && final(self).pending()
                        == buf,
                    Verdict::Emit => r matches StopStep::Emit(s) && s@ == buf
                        && !final(self).fused()
                        && final(self).pending() == Seq::<char>::empty(),
                }
            }),
    {
        if self.is_fused {
            self.working_buf = String::new();
            return StopStep::End;
        }
        self.working_buf.append(token.as_str());
        let v = check_stop_words(&self.stop_words, self.working_buf.as_str());
        match v {
            Verdict::Stop => {
                self.working_buf = String::new();
                self.is_fused = true;
                StopStep::End
            },
            Verdict::Hold => {
                proof {
                    lemma_hold_is_stop_word_start(self.stop_words.deep_view(), self.working_buf@, 0);
                }
                StopStep::Pending
            },
            Verdict::Emit => {
                let out = self.working_buf.clone();
                self.working_buf = String::new();
                StopStep::Emit(out)
            },
        }
    }

    /// Records that the upstream stream has ended: whatever is withheld is discarded.
    pub fn on_end(&mut self)
        ensures
            final(self).upstream() == old(self).upstream(),
            final(self).words() == old(self).words(),
            final(self).fused(),
            final(self).pending() == Seq::<char>::empty(),
    {
        self.working_buf = String::new();
        self.is_fused = true;
    }
}

proof fn lemma_emit_is_clear(words: Seq<Seq<char>>, buf: Seq<char>, i: int)
    requires
        0 <= i,
        verdict_from(words, buf, i) == Verdict::Emit,
    ensures
        forall|j: int|
            i <= j < words.len() ==> !is_prefix(words[j], buf) && !is_prefix(buf, words[j]),
    decreases words.len() - i,
{
    if i < words.len() {
        lemma_emit_is_clear(words, buf, i + 1);
    }
}

/// No chunk that the filter emits begins with a stop word, nor could still grow into one.
pub proof fn lemma_emitted_chunks_are_clear(
    words: Seq<Seq<char>>,
    pending: Seq<char>,
    chunks: Seq<Seq<char>>,
    k: int,
)
    requires
        0 <= k < filtered(words, pending, chunks).len(),
    ensures
        forall|j: int|
            0 <= j < words.len() ==> !is_prefix(words[j], filtered(words, pending, chunks)[k])
                && !is_prefix(filtered(words, pending, chunks)[k], words[j]),
    decreases chunks.len(),
{
    let buf = pending + chunks[0];
    match verdict(words, buf) {
        Verdict::Stop => {},
        Verdict::Hold => {
            lemma_emitted_chunks_are_clear(words, buf, chunks.drop_first(), k);
        },
        Verdict::Emit => {
            if k == 0 {
                lemma_emit_is_clear(words, buf, 0);
            } else {
                lemma_emitted_chunks_are_clear(words, Seq::empty(), chunks.drop_first(), k - 1);
            }
        },
    }
}

/// The text of `chunks`, one after the other.
pub open spec fn flatten(chunks: Seq<Seq<char>>) -> Seq<char>
    decreases chunks.len(),
{
    if chunks.len() == 0 {
        Seq::empty()
    } else {
        chunks[0] + flatten(chunks.drop_first())
    }
}

/// The filter releases text only in the order received, without loss or insertion: what it
/// emits, put together, is a prefix of what was withheld followed by what it received.
pub proof fn lemma_output_is_prefix_of_input(
    words: Seq<Seq<char>>,
    pending: Seq<char>,
    chunks: Seq<Seq<char>>,
)
    ensures
        is_prefix(flatten(filtered(words, pending, chunks)), pending + flatten(chunks)),
    decreases chunks.len(),
{
    let out = filtered(words, pending, chunks);
    if chunks.len() == 0 {
        assert(flatten(out) =~= Seq::<char>::empty());
        assert((pending + flatten(chunks)).subrange(0, 0) =~= Seq::<char>::empty());
    } else {
        let buf = pending + chunks[0];
        let rest = chunks.drop_first();
        assert(pending + flatten(chunks) =~= buf + flatten(rest));
        match verdict(words, buf) {
            Verdict::Stop => {
                assert(flatten(out) =~= Seq::<char>::empty());
                assert((pending + flatten(chunks)).subrange(0, 0) =~= Seq::<char>::empty());
            },
            Verdict::Hold => {
                lemma_output_is_prefix_of_input(words, buf, rest);
            },
            Verdict::Emit => {
                let tail = filtered(words, Seq::empty(), rest);
                lemma_output_is_prefix_of_input(words, Seq::empty(), rest);
                assert(Seq::<char>::empty() + flatten(rest) =~= flatten(rest));
                assert((seq![buf] + tail).drop_first() =~= tail);
                assert(flatten(out) =~= buf + flatten(tail));
                let whole = buf + flatten(rest);
                assert(whole.subrange(0, (buf.len() + flatten(tail).len()) as int) =~= buf + flatten(
                    rest,
                ).subrange(0, flatten(tail).len() as int));
            },
        }
    }
}

/// Runs `chunks` through a fresh filter with `stop_words` and collects what it emits.
pub fn filter_chunks(chunks: &Vec<String>, stop_words: Vec<String>) -> (r: Vec<String>)
    ensures
        r.deep_view() == filtered(stop_words.deep_view(), Seq::empty(), chunks.deep_view()),
{
    let ghost words = stop_words.deep_view();
    let ghost all = chunks.deep_view();
    let mut s = StoppingStream::wrap_with_stop_words((), stop_words);
    let mut out: Vec<String> = Vec::new();
    let mut i: usize = 0;
    assert(all.subrange(0, all.len() as int) =~= all);
    while i < chunks.len() && !s.is_terminated()
        invariant
            s.words() == words,
            all == chunks.deep_view(),
            i <= chunks.len(),
            !s.fused() ==> out.deep_view() + filtered(
                words,
                s.pending(),
                all.subrange(i as int, all.len() as int),
            ) == filtered(words, Seq::empty(), all),
            s.fused() ==> out.deep_view() == filtered(words, Seq::empty(), all),
        decreases chunks.len() - i,
    {
        let ghost rest = all.subrange(i as int, all.len() as int);
        let ghost before = out.deep_view();
        let ghost pending = s.pending();
        assert(rest.drop_first() =~= all.subrange(i + 1, all.len() as int));
        assert(rest[0] == chunks[i as int]@);
        let step = s.on_chunk(chunks[i].clone());
        match step {
            StopStep::Emit(text) => {
                out.push(text);
                assert(out.deep_view() =~= before.push(pending + rest[0]));
                assert(out.deep_view() + filtered(
                    words,
                    Seq::empty(),
                    rest.drop_first(),
                ) =~= before + filtered(words, pending, rest));
            },
            _ => {},
        }
        i = i + 1;
    }
    if !s.is_terminated() {
        assert(all.subrange(i as int, all.len() as int) =~= Seq::<Seq<char>>::empty());
        assert(out.deep_view() + Seq::<Seq<char>>::empty() =~= out.deep_view());
    }
    out
}

proof fn lemma_cut_from(chunks: Seq<Seq<char>>, i: int, k: int)
    requires
        0 <= k <= i < chunks.len(),
        forall|j: int|
            0 <= j < i ==> !is_prefix(chunks[j], chunks[i]) && !is_prefix(chunks[i], chunks[j]),
    ensures
        filtered(seq![chunks[i]], Seq::empty(), chunks.subrange(k, chunks.len() as int))
            == chunks.subrange(k, i),
    decreases i - k,
{
    let ws = seq![chunks[i]];
    let rest = chunks.subrange(k, chunks.len() as int);
    let buf = Seq::<char>::empty() + rest[0];
    assert(buf =~= chunks[k]);
    if k == i {
        assert(chunks[i].subrange(0, chunks[i].len() as int) =~= chunks[i]);
        assert(verdict(ws, buf) == Verdict::Stop);
        assert(chunks.subrange(k, i) =~= Seq::<Seq<char>>::empty());
    } else {
        assert(verdict_from(ws, buf, 1) == Verdict::Emit);
        assert(verdict(ws, buf) == Verdict::Emit);
        lemma_cut_from(chunks, i, k + 1);
        assert(rest.drop_first() =~= chunks.subrange(k + 1, chunks.len() as int));
        assert(seq![buf] + chunks.subrange(k + 1, i) =~= chunks.subrange(k, i));
    }
}

/// With a single stop word equal to the `i`-th chunk, where no earlier chunk is a prefix of
/// it or starts with it, the filter emits exactly the chunks before the `i`-th, one by one.
pub proof fn lemma_stop_word_at_chunk(chunks: Seq<Seq<char>>, i: int)
    requires
        0 <= i < chunks.len(),
        forall|j: int|
            0 <= j < i ==> !is_prefix(chunks[j], chunks[i]) && !is_prefix(chunks[i], chunks[j]),
    ensures
        filtered(seq![chunks[i]], Seq::empty(), chunks) == chunks.take(i),
{
    lemma_cut_from(chunks, i, 0);
    assert(chunks.subrange(0, chunks.len() as int) =~= chunks);
}

} // verus!
