//! Folding a finished sequence of streamed chunks into messages.

use crate::err::Error;
use crate::types::{ChatMessage, ChatMessageView, ResponseChunk, ResponseChunkView, Role};
use vstd::prelude::*;
use vstd::string::StringExecFns;

verus! {

/// A response under assembly: the index that the service gave it, and the message
/// gathered for it so far.
pub struct ResponseSlot {
    pub index: usize,
    pub message: ChatMessageView,
}

/// The message that a response starts with: the announced role and an empty text.
pub open spec fn opened(role: Role) -> ChatMessageView {
    ChatMessageView { role, content: Some(Seq::empty()), function_call: None }
}

/// A message with `delta` added at the end of its text.
pub open spec fn extended(message: ChatMessageView, delta: Seq<char>) -> ChatMessageView {
    ChatMessageView {
        role: message.role,
        content: match message.content {
            Some(text) => Some(text + delta),
            None => Some(delta),
        },
        function_call: message.function_call,
    }
}

/// The position of the response begun last under `index`, if one was begun.
pub open spec fn latest_slot(slots: Seq<ResponseSlot>, index: usize) -> Option<int>
    decreases slots.len(),
{
    if slots.len() == 0 {
        None
    } else if slots.last().index == index {
        Some(slots.len() - 1)
    } else {
        latest_slot(slots.drop_last(), index)
    }
}

/// The effect of one chunk on the responses under assembly. A beginning opens a
/// new response at the end; a piece of text goes to the response begun last under
/// its index, and is refused (`None`) where there is none; closings and the end of
/// the stream change nothing.
pub open spec fn apply_chunk(slots: Seq<ResponseSlot>, chunk: ResponseChunkView) -> Option<
    Seq<ResponseSlot>,
> {
    match chunk {
        ResponseChunkView::BeginResponse { role, response_index } => Some(
            slots.push(ResponseSlot { index: response_index, message: opened(role) }),
        ),
        ResponseChunkView::Content { delta, response_index } => match latest_slot(
            slots,
            response_index,
        ) {
            Some(k) => Some(
                slots.update(
                    k,
                    ResponseSlot { index: response_index, message: extended(slots[k].message, delta) },
                ),
            ),
            None => None,
        },
        _ => Some(slots),
    }
}

/// The responses assembled from `chunks`, taken from left to right, in the order in
/// which they were begun; `None` where a piece of text has no response to go to.
pub open spec fn assemble(chunks: Seq<ResponseChunkView>) -> Option<Seq<ResponseSlot>>
    decreases chunks.len(),
{
    if chunks.len() == 0 {
        Some(Seq::empty())
    } else {
        match assemble(chunks.drop_last()) {
            Some(slots) => apply_chunk(slots, chunks.last()),
            None => None,
        }
    }
}

/// The messages of the responses, in the same order.
pub open spec fn slot_messages(slots: Seq<ResponseSlot>) -> Seq<ChatMessageView> {
    Seq::new(slots.len(), |k: int| slots[k].message)
}

/// The responses that two parallel lists describe.
pub open spec fn zipped(indices: Seq<usize>, messages: Seq<ChatMessageView>) -> Seq<ResponseSlot> {
    Seq::new(indices.len(), |k: int| ResponseSlot { index: indices[k], message: messages[k] })
}

/// Finds the response begun last under `index`.
fn find_latest(indices: &Vec<usize>, index: usize, Ghost(messages): Ghost<Seq<ChatMessageView>>) -> (r:
    Option<usize>)
    requires
        messages.len() == indices@.len(),
    ensures
        match r {
            Some(k) => latest_slot(zipped(indices@, messages), index) == Some(k as int) && k
                < indices@.len() && indices@[k as int] == index,
            None => latest_slot(zipped(indices@, messages), index) is None,
        },
{
    let mut k: usize = indices.len();
    let ghost all = zipped(indices@, messages);
    proof {
        assert(all.take(k as int) =~= all);
    }
    while k > 0
        invariant
            k <= indices@.len(),
            messages.len() == indices@.len(),
            all == zipped(indices@, messages),
            latest_slot(all, index) == latest_slot(all.take(k as int), index),
        decreases k,
    {
        proof {
            let part = all.take(k as int);
            assert(part.drop_last() =~= all.take(k - 1));
            assert(part.last() == all[k - 1]);
        }
        if indices[k - 1] == index {
            return Some(k - 1);
        }
        k = k - 1;
    }
    proof {
        assert(all.take(0).len() == 0);
    }
    None
}

impl ChatMessage {
    /// Assembles the messages that a finished stream of chunks describes.
    ///
    /// The chunks are taken in order. Each beginning opens a message with the
    /// announced role and an empty text; each piece of text is added to the message
    /// begun last under its response index. The messages come out in the order in
    /// which they were begun. A piece of text for an index under which nothing was
    /// begun is refused with [`Error::InvalidChunkSequence`].
    pub fn from_response_chunks(chunks: Vec<ResponseChunk>) -> (r: Result<Vec<ChatMessage>, Error>)
        ensures
            match assemble(chunks.deep_view()) {
                Some(slots) => r matches Ok(messages) && messages.deep_view() == slot_messages(
                    slots,
                ),
                None => r == Err::<Vec<ChatMessage>, Error>(Error::InvalidChunkSequence),
            },
    {
        let mut indices: Vec<usize> = Vec::new();
        let mut result: Vec<ChatMessage> = Vec::new();
        let ghost all = chunks.deep_view();
        let mut i: usize = 0;
        proof {
            assert(all.take(0).len() == 0);
            assert(zipped(indices@, result.deep_view()) =~= Seq::<ResponseSlot>::empty());
        }
        while i < chunks.len()
            invariant
                i <= chunks.len(),
                all == chunks.deep_view(),
                indices@.len() == result@.len(),
                assemble(all.take(i as int)) == Some(zipped(indices@, result.deep_view())),
            decreases chunks.len() - i,
        {
            let ghost before = zipped(indices@, result.deep_view());
            proof {
                let part = all.take(i + 1);
                assert(part.drop_last() =~= all.take(i as int));
                assert(part.last() == chunks[i as int].deep_view());
            }
            match &chunks[i] {
                ResponseChunk::Content { delta, response_index } => {
                    match find_latest(&indices, *response_index, Ghost(result.deep_view())) {
                        Some(k) => {
                            let ghost old_view = result.deep_view();
                            let message = &mut result[k];
                            match &mut message.content {
                                Some(text) => {
                                    text.append(delta.as_str());
                                },
                                None => {
                                    message.content = Some(delta.clone());
                                },
                            }
                            proof {
                                assert(result.deep_view() =~= old_view.update(
                                    k as int,
                                    extended(old_view[k as int], delta@),
                                ));
                                assert(zipped(indices@, result.deep_view()) =~= before.update(
                                    k as int,
                                    ResponseSlot {
                                        index: *response_index,
                                        message: extended(before[k as int].message, delta@),
                                    },
                                ));
                            }
                        },
                        None => {
                            proof {
                                lemma_refused_stays_refused(all, i + 1);
                            }
                            return Err(Error::InvalidChunkSequence);
                        },
                    }
                },
                ResponseChunk::BeginResponse { role, response_index } => {
                    let ghost old_view = result.deep_view();
                    indices.push(*response_index);
                    result.push(
                        ChatMessage { role: *role, content: Some(String::new()), function_call: None },
                    );
                    proof {
                        assert(result.deep_view() =~= old_view.push(opened(*role)));
                        assert(zipped(indices@, result.deep_view()) =~= before.push(
                            ResponseSlot { index: *response_index, message: opened(*role) },
                        ));
                    }
                },
                _ => {},
            }
            i = i + 1;
        }
        proof {
            assert(all.take(i as int) =~= all);
            assert(result.deep_view() =~= slot_messages(zipped(indices@, result.deep_view())));
        }
        Ok(result)
    }
}

/// Once a prefix of the chunks is refused, every longer prefix is refused too.
pub proof fn lemma_refused_stays_refused(chunks: Seq<ResponseChunkView>, n: int)
    requires
        0 <= n <= chunks.len(),
        assemble(chunks.take(n)) is None,
    ensures
        assemble(chunks) is None,
    decreases chunks.len() - n,
{
    if n == chunks.len() {
        assert(chunks.take(n) =~= chunks);
    } else {
        let part = chunks.take(n + 1);
        assert(part.drop_last() =~= chunks.take(n));
        lemma_refused_stays_refused(chunks, n + 1);
    }
}

/// Whether `chunk` begins a response under `index`.
pub open spec fn begins(chunk: ResponseChunkView, index: usize) -> bool {
    chunk matches ResponseChunkView::BeginResponse { response_index, .. } && response_index == index
}

/// Whether a response was begun under `index` among the first `n` chunks.
pub open spec fn begun(chunks: Seq<ResponseChunkView>, n: int, index: usize) -> bool {
    exists|j: int|
        0 <= j < n && j < chunks.len() && begins(#[trigger] chunks[j], index)
}

/// Whether chunk `k` is a piece of text for a response that no earlier chunk began.
pub open spec fn orphan_at(chunks: Seq<ResponseChunkView>, k: int) -> bool {
    chunks[k] matches ResponseChunkView::Content { response_index, .. } && !begun(
        chunks,
        k,
        response_index,
    )
}

/// Whether some piece of text in `chunks` lacks the beginning of its response.
pub open spec fn has_orphan(chunks: Seq<ResponseChunkView>) -> bool {
    exists|k: int| 0 <= k < chunks.len() && #[trigger] orphan_at(chunks, k)
}

/// Whether one of the responses carries `index`.
pub open spec fn holds_index(slots: Seq<ResponseSlot>, index: usize) -> bool {
    exists|k: int| 0 <= k < slots.len() && (#[trigger] slots[k]).index == index
}

/// `latest_slot` finds a response exactly when one carries the index, and then the
/// last such.
pub proof fn lemma_latest_slot(slots: Seq<ResponseSlot>, index: usize)
    ensures
        match latest_slot(slots, index) {
            Some(k) => 0 <= k < slots.len() && slots[k].index == index,
            None => !holds_index(slots, index),
        },
    decreases slots.len(),
{
    if slots.len() > 0 && slots.last().index != index {
        lemma_latest_slot(slots.drop_last(), index);
        if latest_slot(slots, index) is None && holds_index(slots, index) {
            let k = choose|k: int| 0 <= k < slots.len() && (#[trigger] slots[k]).index == index;
            assert(slots.drop_last()[k].index == index);
        }
    }
}

/// Assembly is refused exactly when a piece of text lacks the beginning of its
/// response; where it succeeds, the responses carry exactly the indices begun.
pub proof fn lemma_assemble_refuses_orphans(chunks: Seq<ResponseChunkView>)
    ensures
        assemble(chunks) is None <==> has_orphan(chunks),
        assemble(chunks) matches Some(slots) ==> forall|index: usize|
            holds_index(slots, index) <==> begun(chunks, chunks.len() as int, index),
    decreases chunks.len(),
{
    if chunks.len() == 0 {
        assert(assemble(chunks) == Some(Seq::<ResponseSlot>::empty()));
    } else {
        let prev = chunks.drop_last();
        let n = prev.len() as int;
        let last = chunks.last();
        assert(chunks[n] == last);
        lemma_assemble_refuses_orphans(prev);
        assert forall|k: int, index: usize| 0 <= k <= n implies begun(prev, k, index) == begun(
            chunks,
            k,
            index,
        ) by {
            if begun(prev, k, index) {
                let j = choose|j: int|
                    0 <= j < k && j < prev.len() && begins(#[trigger] prev[j], index);
                assert(chunks[j] == prev[j]);
            }
            if begun(chunks, k, index) {
                let j = choose|j: int|
                    0 <= j < k && j < chunks.len() && begins(#[trigger] chunks[j], index);
                assert(chunks[j] == prev[j]);
            }
        }
        assert forall|k: int| 0 <= k < n implies orphan_at(prev, k) == orphan_at(chunks, k) by {
            assert(chunks[k] == prev[k]);
        }
        match assemble(prev) {
            None => {
                let k = choose|k: int| 0 <= k < prev.len() && #[trigger] orphan_at(prev, k);
                assert(orphan_at(chunks, k));
            },
            Some(slots) => {
                if has_orphan(chunks) {
                    let k = choose|k: int| 0 <= k < chunks.len() && #[trigger] orphan_at(chunks, k);
                    if k < n {
                        assert(orphan_at(prev, k));
                    }
                }
                match last {
                    ResponseChunkView::Content { delta, response_index } => {
                        lemma_latest_slot(slots, response_index);
                        match latest_slot(slots, response_index) {
                            None => {
                                assert(orphan_at(chunks, n));
                            },
                            Some(at) => {
                                let next = assemble(chunks)->0;
                                assert(slots[at].index == response_index);
                                assert(holds_index(slots, response_index));
                                assert(begun(prev, n, response_index));
                                assert(begun(chunks, n, response_index));
                                assert(!orphan_at(chunks, n));
                                assert forall|index: usize|
                                    holds_index(next, index) <==> begun(
                                        chunks,
                                        chunks.len() as int,
                                        index,
                                    ) by {
                                    if holds_index(next, index) {
                                        let k = choose|k: int|
                                            0 <= k < next.len() && (#[trigger] next[k]).index
                                                == index;
                                        assert(slots[k].index == index);
                                        assert(holds_index(slots, index));
                                        assert(begun(prev, n, index));
                                        let j = choose|j: int|
                                            0 <= j < n && j < chunks.len() && begins(#[trigger] chunks[j], index);
                                        assert(begun(chunks, chunks.len() as int, index));
                                    }
                                    if begun(chunks, chunks.len() as int, index) {
                                        let j = choose|j: int|
                                            0 <= j < chunks.len() && j < chunks.len() && begins(#[trigger] chunks[j], index);
                                        assert(j < n);
                                        assert(begun(chunks, n, index));
                                        assert(holds_index(slots, index));
                                        let k = choose|k: int|
                                            0 <= k < slots.len() && (#[trigger] slots[k]).index
                                                == index;
                                        assert(next[k].index == index);
                                    }
                                }
                            },
                        }
                    },
                    ResponseChunkView::BeginResponse { role, response_index } => {
                        let next = assemble(chunks)->0;
                        assert(next == slots.push(
                            ResponseSlot { index: response_index, message: opened(role) },
                        ));
                        assert forall|index: usize|
                            holds_index(next, index) <==> begun(
                                chunks,
                                chunks.len() as int,
                                index,
                            ) by {
                            if holds_index(next, index) {
                                let k = choose|k: int|
                                    0 <= k < next.len() && (#[trigger] next[k]).index == index;
                                if k < slots.len() {
                                    assert(slots[k].index == index);
                                    assert(holds_index(slots, index));
                                    assert(begun(chunks, n, index));
                                    let j = choose|j: int|
                                        0 <= j < n && j < chunks.len() && begins(#[trigger] chunks[j], index);
                                    assert(begun(chunks, chunks.len() as int, index));
                                } else {
                                    assert(chunks[n] == last);
                                    assert(begun(chunks, chunks.len() as int, index));
                                }
                            }
                            if begun(chunks, chunks.len() as int, index) {
                                let j = choose|j: int|
                                    0 <= j < chunks.len() && j < chunks.len() && begins(#[trigger] chunks[j], index);
                                if j < n {
                                    assert(begun(chunks, n, index));
                                    assert(holds_index(slots, index));
                                    let k = choose|k: int|
                                        0 <= k < slots.len() && (#[trigger] slots[k]).index
                                            == index;
                                    assert(next[k].index == index);
                                } else {
                                    assert(next[slots.len() as int].index == index);
                                }
                            }
                        }
                    },
                    _ => {
                        assert(assemble(chunks) == Some(slots));
                        assert forall|index: usize|
                            holds_index(slots, index) <==> begun(
                                chunks,
                                chunks.len() as int,
                                index,
                            ) by {
                            if begun(chunks, chunks.len() as int, index) {
                                let j = choose|j: int|
                                    0 <= j < chunks.len() && j < chunks.len() && begins(#[trigger] chunks[j], index);
                                assert(j < n);
                                assert(begun(chunks, n, index));
                            }
                            if begun(chunks, n, index) {
                                let j = choose|j: int|
                                    0 <= j < n && j < chunks.len() && begins(#[trigger] chunks[j], index);
                                assert(begun(chunks, chunks.len() as int, index));
                            }
                        }
                    },
                }
            },
        }
    }
}

/// A piece of text whose response was never begun makes assembly fail: a sequence
/// of chunks is refused if and only if it holds such a piece.
pub proof fn law_missing_begin_is_refused(chunks: Seq<ResponseChunkView>)
    ensures
        has_orphan(chunks) <==> assemble(chunks) is None,
{
    lemma_assemble_refuses_orphans(chunks);
}

/// All pieces of text in `chunks`, joined in order.
pub open spec fn joined_deltas(chunks: Seq<ResponseChunkView>) -> Seq<char>
    decreases chunks.len(),
{
    if chunks.len() == 0 {
        Seq::empty()
    } else {
        joined_deltas(chunks.drop_last()) + match chunks.last() {
            ResponseChunkView::Content { delta, .. } => delta,
            _ => Seq::empty(),
        }
    }
}

/// Whether `chunks` stream one response: they start with its beginning, hold no
/// other beginning, and every piece of text carries the index of that response.
pub open spec fn streams_one_response(chunks: Seq<ResponseChunkView>, role: Role, index: usize) -> bool {
    &&& chunks.len() > 0
    &&& chunks[0] == (ResponseChunkView::BeginResponse { role, response_index: index })
    &&& forall|k: int| 0 < k < chunks.len() ==> !((#[trigger] chunks[k]) is BeginResponse)
    &&& forall|k: int|
        0 <= k < chunks.len() ==> ((#[trigger] chunks[k]) matches ResponseChunkView::Content {
            response_index,
            ..
        } ==> response_index == index)
}

/// Streaming and a single answer agree: the chunks of one response assemble to
/// exactly one message, with the announced role and, as its text, the pieces joined
/// in order, which is the text that the service sends where it answers in one piece.
pub proof fn law_stream_equals_single_answer(chunks: Seq<ResponseChunkView>, role: Role, index: usize)
    requires
        streams_one_response(chunks, role, index),
    ensures
        assemble(chunks) == Some(
            seq![
                ResponseSlot {
                    index,
                    message: ChatMessageView {
                        role,
                        content: Some(joined_deltas(chunks)),
                        function_call: None,
                    },
                },
            ],
        ),
    decreases chunks.len(),
{
    let prev = chunks.drop_last();
    if chunks.len() == 1 {
        assert(prev.len() == 0);
        assert(assemble(prev) == Some(Seq::<ResponseSlot>::empty()));
        assert(joined_deltas(prev) == Seq::<char>::empty());
        assert(joined_deltas(chunks) =~= Seq::<char>::empty());
        assert(chunks.last() == chunks[0]);
        assert(Seq::<ResponseSlot>::empty().push(ResponseSlot { index, message: opened(role) })
            =~= seq![ResponseSlot { index, message: opened(role) }]);
    } else {
        assert(prev[0] == chunks[0]);
        assert forall|k: int| 0 < k < prev.len() implies !((#[trigger] prev[k]) is BeginResponse) by {
            assert(prev[k] == chunks[k]);
        }
        assert forall|k: int| 0 <= k < prev.len() implies ((#[trigger] prev[k]) matches ResponseChunkView::Content {
            response_index,
            ..
        } ==> response_index == index) by {
            assert(prev[k] == chunks[k]);
        }
        law_stream_equals_single_answer(prev, role, index);
        let before = ResponseSlot {
            index,
            message: ChatMessageView {
                role,
                content: Some(joined_deltas(prev)),
                function_call: None,
            },
        };
        let slots = seq![before];
        assert(assemble(prev) == Some(slots));
        let last = chunks.last();
        assert(last == chunks[chunks.len() - 1]);
        match last {
            ResponseChunkView::Content { delta, response_index } => {
                assert(response_index == index);
                assert(slots.drop_last().len() == 0);
                assert(latest_slot(slots, index) == Some(0int));
                assert(slots.update(
                    0,
                    ResponseSlot { index, message: extended(slots[0].message, delta) },
                ) =~= seq![
                    ResponseSlot {
                        index,
                        message: ChatMessageView {
                            role,
                            content: Some(joined_deltas(chunks)),
                            function_call: None,
                        },
                    },
                ]);
            },
            ResponseChunkView::BeginResponse { .. } => {
                assert(false);
            },
            _ => {
                assert(joined_deltas(chunks) =~= joined_deltas(prev));
            },
        }
    }
}

} // verus!
