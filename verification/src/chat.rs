//! Conversation transcript entries: who sent a message, and how an entry
//! is shown as a transcript line.

use vstd::prelude::*;
use vstd::string::StringExecFns;

verus! {

/// Who a conversation entry came from.
#[derive(Debug, Clone, Copy, PartialEq, Eq, Structural)]
pub enum MessageSender {
    User,
    LLM,
}

impl MessageSender {
    /// Human-readable label of the sender, used as a transcript prefix.
    pub fn label(self) -> (r: &'static str)
        ensures
            r@ == spec_sender_label(self),
    {
        match self {
            Self::User => "User",
            Self::LLM => "LLM",
        }
    }
}

impl Default for MessageSender {
    /// Entries default to the user as sender.
    fn default() -> (r: Self)
        ensures
            r == MessageSender::User,
    {
        MessageSender::User
    }
}

/// The label of a sender, as a character sequence.
pub open spec fn spec_sender_label(sender: MessageSender) -> Seq<char> {
    match sender {
        MessageSender::User => "User"@,
        MessageSender::LLM => "LLM"@,
    }
}

/// How one conversation entry reads in the transcript: the sender label,
/// a separating `": "`, then the message text.
pub open spec fn spec_transcript_line(sender: MessageSender, text: Seq<char>) -> Seq<char> {
    spec_sender_label(sender) + ": "@ + text
}

/// Render one conversation entry as a transcript line.
pub fn transcript_line(sender: MessageSender, text: &str) -> (r: String)
    ensures
        r@ == spec_transcript_line(sender, text@),
{
    let mut line = String::new();
    line.append(sender.label());
    line.append(": ");
    line.append(text);
    proof {
        assert(Seq::<char>::empty() + spec_sender_label(sender) =~= spec_sender_label(sender));
        assert(line@ =~= spec_transcript_line(sender, text@));
    }
    line
}

} // verus!
