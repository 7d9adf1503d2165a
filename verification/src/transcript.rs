//! The transcript of one audio track: the committed text that piles up while
//! the customer speaks, and the prompt it becomes when they pause.
use vstd::prelude::*;

use crate::stt::StreamOutput;
use crate::text::{join_with, joined, opt_view, string_views};

verus! {

/// Committed text not yet handed to the agent.
pub struct Transcript {
    committed: Vec<String>,
}

/// What the track's loop does after one Whisper step.
pub struct OutputStep {
    /// Speech was heard: the idle deadline starts again.
    pub reset_deadline: bool,
    /// Committed text to show the client at once.
    pub buffered: Option<String>,
}

/// The pending texts after a step that committed `committed`.
pub open spec fn absorb(pending: Seq<Seq<char>>, committed: Option<Seq<char>>) -> Seq<Seq<char>> {
    match committed {
        Some(t) => pending.push(t),
        None => pending,
    }
}

/// The prompt the pending texts make: none if there are none, else the texts
/// joined with single spaces.
pub open spec fn prompt_of(pending: Seq<Seq<char>>) -> Option<Seq<char>> {
    if pending.len() == 0 {
        None
    } else {
        Some(joined(pending, " "@))
    }
}

/// The texts that a series of Whisper steps committed, in order.
pub open spec fn committed_texts(steps: Seq<Option<Seq<char>>>) -> Seq<Seq<char>>
    decreases steps.len(),
{
    if steps.len() == 0 {
        Seq::empty()
    } else {
        absorb(committed_texts(steps.drop_last()), steps.last())
    }
}

/// The pending texts after a series of steps.
pub open spec fn absorb_all(pending: Seq<Seq<char>>, steps: Seq<Option<Seq<char>>>) -> Seq<
    Seq<char>,
>
    decreases steps.len(),
{
    if steps.len() == 0 {
        pending
    } else {
        absorb(absorb_all(pending, steps.drop_last()), steps.last())
    }
}

/// From an empty transcript, the prompt taken after a series of steps is
/// every text they committed, in order, joined with spaces; and none if they
/// committed nothing.
pub proof fn law_prompt_joins_committed_text(steps: Seq<Option<Seq<char>>>)
    ensures
        absorb_all(Seq::empty(), steps) == committed_texts(steps),
        prompt_of(absorb_all(Seq::empty(), steps)) == if committed_texts(steps).len() == 0 {
            None::<Seq<char>>
        } else {
            Some(joined(committed_texts(steps), " "@))
        },
    decreases steps.len(),
{
    if steps.len() > 0 {
        law_prompt_joins_committed_text(steps.drop_last());
    }
}

/// A prompt is handed over once: right after one is taken, nothing is pending
/// and the next take gives none.
pub proof fn law_prompt_taken_once()
    ensures
        prompt_of(Seq::<Seq<char>>::empty()) is None,
{
}

/// A step that commits a text adds it after every pending text and drops
/// none; a step that commits nothing keeps the pending texts as they are.
pub proof fn law_commit_appends_and_keeps(pending: Seq<Seq<char>>, text: Seq<char>)
    ensures
        absorb(pending, Some(text)).len() == pending.len() + 1,
        forall|i: int| 0 <= i < pending.len() ==> absorb(pending, Some(text))[i] == pending[i],
        absorb(pending, Some(text))[pending.len() as int] == text,
        absorb(pending, None) == pending,
{
}

/// The steps that commit each of `texts` in turn.
pub open spec fn committing(texts: Seq<Seq<char>>) -> Seq<Option<Seq<char>>> {
    texts.map_values(|t: Seq<char>| Some(t))
}

/// From an empty transcript, steps that commit texts leave exactly those
/// texts pending, in order, however many there are; the prompt is all of them
/// joined with spaces.
pub proof fn law_pending_is_every_committed_text(texts: Seq<Seq<char>>)
    ensures
        absorb_all(Seq::empty(), committing(texts)) == texts,
        texts.len() > 0 ==> prompt_of(absorb_all(Seq::empty(), committing(texts))) == Some(
            joined(texts, " "@),
        ),
    decreases texts.len(),
{
    if texts.len() > 0 {
        assert(committing(texts).drop_last() =~= committing(texts.drop_last()));
        law_pending_is_every_committed_text(texts.drop_last());
        assert(absorb_all(Seq::empty(), committing(texts)) =~= texts);
    } else {
        assert(committing(texts) =~= Seq::<Option<Seq<char>>>::empty());
    }
}

impl Transcript {
    /// The committed texts not yet handed to the agent, oldest first.
    pub closed spec fn view(&self) -> Seq<Seq<char>> {
        string_views(self.committed@)
    }

    /// A transcript with nothing pending.
    pub fn new() -> (r: Self)
        ensures
            r.view() == Seq::<Seq<char>>::empty(),
    {
        let r = Transcript { committed: Vec::new() };
        proof {
            assert(r.view() =~= Seq::<Seq<char>>::empty());
        }
        r
    }

    /// Takes in one Whisper step: any text restarts the idle deadline, and
    /// committed text is shown to the client and kept for the next prompt.
    pub fn on_output(&mut self, output: StreamOutput) -> (r: OutputStep)
        ensures
            r.reset_deadline == (output.tentative_text is Some || output.committed_text is Some),
            opt_view(r.buffered) == opt_view(output.committed_text),
            final(self).view() == absorb(old(self).view(), opt_view(output.committed_text)),
    {
        let reset_deadline = output.has_text();
        match output.committed_text {
            Some(text) => {
                let shown = text.clone();
                self.committed.push(text);
                proof {
                    assert(self.view() =~= old(self).view().push(shown@));
                }
                OutputStep { reset_deadline, buffered: Some(shown) }
            },
            None => OutputStep { reset_deadline, buffered: None },
        }
    }

    /// The customer paused: the pending texts, joined with spaces, become the
    /// prompt for the agent, and nothing stays pending. Nothing pending gives
    /// no prompt.
    pub fn take_prompt(&mut self) -> (r: Option<String>)
        ensures
            opt_view(r) == prompt_of(old(self).view()),
            final(self).view() == Seq::<Seq<char>>::empty(),
    {
        if self.committed.len() == 0 {
            return None;
        }
        let prompt = join_with(self.committed.as_slice(), " ");
        self.committed.clear();
        proof {
            assert(self.view() =~= Seq::<Seq<char>>::empty());
        }
        Some(prompt)
    }
}

} // verus!
