use vstd::prelude::*;
use crate::protocol::ThreadItemSummary;

verus! {

/// The text of the final answer of a turn; `None` for any other item.
pub open spec fn spec_final_answer_text(item: ThreadItemSummary) -> Option<Seq<char>> {
    match item {
        ThreadItemSummary::AgentMessage { text, final_answer } => if final_answer {
            Some(text@)
        } else {
            None
        },
        ThreadItemSummary::Other => None,
    }
}

/// The text of `item` where it is an agent message in the final-answer phase; `None` means the
/// last item of the thread is not a final answer.
pub fn final_answer_text(item: ThreadItemSummary) -> (text: Option<String>)
    ensures
        match text {
            Some(text) => spec_final_answer_text(item) == Some(text@),
            None => spec_final_answer_text(item) is None,
        },
        item matches ThreadItemSummary::AgentMessage { text: message, final_answer } ==> (final_answer <==> text is Some),
        item matches ThreadItemSummary::AgentMessage { text: message, final_answer: true } ==> (text matches Some(rendered)
            && rendered@ == message@),
        item is Other ==> text is None,
{
    match item {
        ThreadItemSummary::AgentMessage { text, final_answer } => if final_answer {
            Some(text)
        } else {
            None
        },
        ThreadItemSummary::Other => None,
    }
}

/// A final answer is rendered whole, whatever its length; an agent message in another phase, or
/// any other item, is no final answer.
pub proof fn lemma_final_answer_text_is_whole(item: ThreadItemSummary)
    ensures
        item matches ThreadItemSummary::AgentMessage { text, final_answer: true } ==> spec_final_answer_text(item) == Some(text@),
        item matches ThreadItemSummary::AgentMessage { final_answer: false, .. } ==> spec_final_answer_text(item) is None,
        item is Other ==> spec_final_answer_text(item) is None,
{
}

} // verus!
