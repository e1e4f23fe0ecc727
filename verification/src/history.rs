//! The conversation history: what storing a message does to it, and the text
//! that a request for it is answered with.

use vstd::prelude::*;
use vstd::string::*;

use crate::types::Message;

verus! {

/// How many of the most recent messages a request for the history shows.
pub const HISTORY_LIMIT: usize = 10;

/// The conversation after `msg` is stored: a conversation that did not
/// exist yet starts with `msg`, an existing one gets `msg` at its end.
pub open spec fn stored_history<'a>(existing: Option<Seq<Message<'a>>>, msg: Message<'a>) -> Seq<
    Message<'a>,
> {
    match existing {
        Some(h) => h.push(msg),
        None => seq![msg],
    }
}

/// The conversation after the messages of `msgs` are stored one after the
/// other, in their order, starting from `existing`.
pub open spec fn store_all<'a>(existing: Option<Seq<Message<'a>>>, msgs: Seq<Message<'a>>) -> Option<
    Seq<Message<'a>>,
>
    decreases msgs.len(),
{
    if msgs.len() == 0 {
        existing
    } else {
        Some(stored_history(store_all(existing, msgs.drop_last()), msgs.last()))
    }
}

/// The most recent messages of a conversation, at most `HISTORY_LIMIT` of
/// them, oldest first.
pub open spec fn recent_messages<'a>(h: Seq<Message<'a>>) -> Seq<Message<'a>> {
    if h.len() > HISTORY_LIMIT {
        h.subrange(h.len() - HISTORY_LIMIT, h.len() as int)
    } else {
        h
    }
}

/// One line of the history text: `sender: content` and a line break.
pub open spec fn history_line(m: Message) -> Seq<char> {
    m.sender@ + seq![':', ' '] + m.content@ + seq!['\n']
}

/// The lines of the given messages, one after the other.
pub open spec fn history_lines(h: Seq<Message>) -> Seq<char>
    decreases h.len(),
{
    if h.len() == 0 {
        Seq::empty()
    } else {
        history_lines(h.drop_last()) + history_line(h.last())
    }
}

/// The text that a request for the history of conversation `h` is answered
/// with.
pub open spec fn history_text(h: Seq<Message>) -> Seq<char> {
    history_lines(recent_messages(h))
}

/// Stores `msg` in a conversation: `existing` is the conversation as it was
/// stored before, if it was.
pub fn append_message<'a>(existing: Option<Vec<Message<'a>>>, msg: Message<'a>) -> (h: Vec<
    Message<'a>,
>)
    ensures
        h@ == stored_history(
            match existing {
                Some(v) => Some(v@),
                None => None,
            },
            msg,
        ),
{
    match existing {
        Some(mut history) => {
            history.push(msg);
            history
        },
        None => {
            let mut history: Vec<Message<'a>> = Vec::new();
            history.push(msg);
            assert(history@ =~= seq![msg]);
            history
        },
    }
}

/// The history text of a conversation: one line `sender: content` for each
/// of its `HISTORY_LIMIT` most recent messages, oldest first.
pub fn format_history(history: &Vec<Message>) -> (text: String)
    ensures
        text@ == history_text(history@),
{
    let len = history.len();
    let mut start_index: usize = 0;
    if len > HISTORY_LIMIT {
        start_index = len - HISTORY_LIMIT;
    }
    let ghost recent = recent_messages(history@);
    assert(recent =~= history@.subrange(start_index as int, len as int));
    let mut history_string = String::new();
    let mut x: usize = start_index;
    while x < len
        invariant
            len == history@.len(),
            start_index <= x <= len,
            recent == history@.subrange(start_index as int, len as int),
            history_string@ == history_lines(recent.take(x - start_index)),
        decreases len - x,
    {
        proof {
            reveal_strlit(": ");
            reveal_strlit("\n");
        }
        let m = history[x];
        history_string.append(m.sender);
        history_string.append(": ");
        history_string.append(m.content);
        history_string.append("\n");
        assert(recent.take(x + 1 - start_index).drop_last() =~= recent.take(x - start_index));
        assert(": "@ =~= seq![':', ' ']);
        assert("\n"@ =~= seq!['\n']);
        assert(history_string@ =~= history_lines(recent.take(x + 1 - start_index)));
        x = x + 1;
    }
    assert(recent.take(len - start_index) =~= recent);
    history_string
}

/// The window of recent messages holds the last `min(len, HISTORY_LIMIT)`
/// messages of the conversation, in their order.
pub proof fn lemma_recent_is_last_messages(h: Seq<Message>)
    ensures
        recent_messages(h).len() == if h.len() > HISTORY_LIMIT {
            HISTORY_LIMIT as int
        } else {
            h.len() as int
        },
        forall|i: int|
            0 <= i < recent_messages(h).len() ==> #[trigger] recent_messages(h)[i] == h[h.len()
                - recent_messages(h).len() + i],
{
}

/// Storing a message slides the window of recent messages: the new message
/// joins at the end, and the oldest one leaves once the window is full.
pub proof fn lemma_store_slides_window(h: Seq<Message>, m: Message)
    ensures
        recent_messages(h.push(m)) == (if h.len() >= HISTORY_LIMIT {
            recent_messages(h).drop_first()
        } else {
            recent_messages(h)
        }).push(m),
{
    let r = recent_messages(h.push(m));
    let expected = (if h.len() >= HISTORY_LIMIT {
        recent_messages(h).drop_first()
    } else {
        recent_messages(h)
    }).push(m);
    assert(r =~= expected);
}

/// What a request for the history gives back after a message is stored: the
/// text ends with the line of that message, after the lines of the messages
/// that precede it in the window.
pub proof fn lemma_history_after_store(existing: Option<Seq<Message>>, m: Message)
    ensures
        history_text(stored_history(existing, m)) == history_lines(
            recent_messages(stored_history(existing, m)).drop_last(),
        ) + history_line(m),
{
    let h = stored_history(existing, m);
    let r = recent_messages(h);
    assert(h.len() > 0);
    assert(h.last() == m);
    assert(r.len() > 0);
    assert(r.last() == h.last());
}

/// Storing messages one after the other into a conversation that does not
/// exist yet gives back exactly those messages, in their order; the history
/// text is then one line for each of the last `min(n, HISTORY_LIMIT)` of them.
pub proof fn lemma_history_of_stored_messages(msgs: Seq<Message>)
    requires
        msgs.len() >= 1,
    ensures
        store_all(None, msgs) == Some(msgs),
        history_text(store_all(None, msgs)->0) == history_lines(
            msgs.subrange(
                if msgs.len() > HISTORY_LIMIT {
                    msgs.len() - HISTORY_LIMIT
                } else {
                    0
                },
                msgs.len() as int,
            ),
        ),
    decreases msgs.len(),
{
    if msgs.len() == 1 {
        assert(msgs.drop_last() =~= Seq::<Message>::empty());
        assert(seq![msgs.last()] =~= msgs);
    } else {
        lemma_history_of_stored_messages(msgs.drop_last());
        assert(msgs.drop_last().push(msgs.last()) =~= msgs);
    }
    if msgs.len() <= HISTORY_LIMIT {
        assert(msgs.subrange(0, msgs.len() as int) =~= msgs);
    }
}

/// A history line is the whole sender, `: `, the whole content and a line
/// break, whatever their lengths; a conversation of one message shows just
/// that line.
pub proof fn lemma_history_line_parts(m: Message)
    ensures
        history_line(m).len() == m.sender@.len() + m.content@.len() + 3,
        history_line(m).subrange(0, m.sender@.len() as int) == m.sender@,
        history_line(m)[m.sender@.len() as int] == ':',
        history_line(m)[m.sender@.len() as int + 1] == ' ',
        history_line(m).subrange(
            m.sender@.len() as int + 2,
            m.sender@.len() as int + 2 + m.content@.len() as int,
        ) == m.content@,
        history_line(m).last() == '\n',
        history_text(seq![m]) == history_line(m),
{
    let l = history_line(m);
    let s = m.sender@.len() as int;
    let c = m.content@.len() as int;
    assert(l.subrange(0, s) =~= m.sender@);
    assert(l.subrange(s + 2, s + 2 + c) =~= m.content@);
    assert(seq![m].drop_last() =~= Seq::<Message>::empty());
    assert(recent_messages(seq![m]) == seq![m]);
    assert(history_lines(Seq::<Message>::empty()) + l =~= l);
}

} // verus!
