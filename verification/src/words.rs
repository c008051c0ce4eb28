//! The word-event state machine: it turns a live stream of transcribed
//! words into discrete commands. Free-form words accumulate into the
//! pending utterance; six reserved keywords, matched against the whole
//! word and never as a substring, fire commands.
use vstd::prelude::*;

use crate::text::str_eq;

verus! {

/// A discrete dispatchable action recognized from the word stream.
pub enum Command {
    Send(String),
    Cancel,
    Exit,
    Save(String),
    Read(String),
    Execute,
    Continue(String),
}

/// The mathematical value of a `Command`: its text payloads as
/// character sequences.
pub enum CommandView {
    Send(Seq<char>),
    Cancel,
    Exit,
    Save(Seq<char>),
    Read(Seq<char>),
    Execute,
    Continue(Seq<char>),
}

impl View for Command {
    type V = CommandView;

    open spec fn view(&self) -> CommandView {
        match self {
            Command::Send(t) => CommandView::Send(t@),
            Command::Cancel => CommandView::Cancel,
            Command::Exit => CommandView::Exit,
            Command::Save(t) => CommandView::Save(t@),
            Command::Read(t) => CommandView::Read(t@),
            Command::Execute => CommandView::Execute,
            Command::Continue(t) => CommandView::Continue(t@),
        }
    }
}

/// The view of an optional command.
pub open spec fn opt_command_view(c: Option<Command>) -> Option<CommandView> {
    match c {
        Some(x) => Some(x@),
        None => None,
    }
}

/// True of the six reserved keywords.
pub open spec fn is_keyword(w: Seq<char>) -> bool {
    w == "send"@ || w == "cancel"@ || w == "exit"@ || w == "save"@ || w == "read"@ || w
        == "execute"@
}

/// `w` appended to the pending utterance `p` with a single separating space.
pub open spec fn appended(p: Seq<char>, w: Seq<char>) -> Seq<char> {
    if p.len() == 0 {
        w
    } else {
        p + " "@ + w
    }
}

/// True when the pending utterance names a script to run: the `execute`
/// keyword fires only once something has been dictated.
pub open spec fn script_intent(p: Seq<char>) -> bool {
    p.len() > 0
}

/// The pending utterance after one word is processed.
pub open spec fn step_pending(p: Seq<char>, w: Seq<char>) -> Seq<char> {
    if w == "send"@ || w == "cancel"@ {
        Seq::<char>::empty()
    } else if w == "exit"@ || w == "save"@ || w == "read"@ || w == "execute"@ {
        p
    } else {
        appended(p, w)
    }
}

/// The command emitted when one word is processed, if any.
pub open spec fn step_command(p: Seq<char>, w: Seq<char>) -> Option<CommandView> {
    if w == "send"@ {
        Some(CommandView::Send(p))
    } else if w == "cancel"@ {
        Some(CommandView::Cancel)
    } else if w == "exit"@ {
        Some(CommandView::Exit)
    } else if w == "save"@ {
        Some(CommandView::Save(p))
    } else if w == "read"@ {
        Some(CommandView::Read(p))
    } else if w == "execute"@ {
        if script_intent(p) {
            Some(CommandView::Execute)
        } else {
            None
        }
    } else {
        Some(CommandView::Continue(w))
    }
}

/// Accumulates transcribed words into the pending utterance and
/// recognizes the reserved keywords as commands.
pub struct CommandWordStateMachine {
    pending: String,
}

impl View for CommandWordStateMachine {
    type V = Seq<char>;

    closed spec fn view(&self) -> Seq<char> {
        self.pending@
    }
}

impl CommandWordStateMachine {
    /// A machine with an empty pending utterance.
    pub fn new() -> (m: Self)
        ensures
            m@ == Seq::<char>::empty(),
    {
        CommandWordStateMachine { pending: String::new() }
    }

    /// The pending utterance accumulated so far.
    pub fn pending(&self) -> (r: &String)
        ensures
            r@ == self@,
    {
        &self.pending
    }

    /// Discards the pending utterance; the dispatcher calls this once a
    /// `Save` command has completed.
    pub fn clear(&mut self)
        ensures
            final(self)@ == Seq::<char>::empty(),
    {
        self.pending = String::new();
    }

    /// Processes one transcribed word: fires the command the word names,
    /// or appends it to the pending utterance.
    pub fn process_word(&mut self, word: &str) -> (cmd: Option<Command>)
        ensures
            final(self)@ == step_pending(old(self)@, word@),
            opt_command_view(cmd) == step_command(old(self)@, word@),
    {
        proof {
            reveal_strlit("send");
            reveal_strlit("cancel");
            reveal_strlit("exit");
            reveal_strlit("save");
            reveal_strlit("read");
            reveal_strlit("execute");
        }
        if str_eq(word, "send") {
            let text = self.pending.clone();
            self.pending = String::new();
            Some(Command::Send(text))
        } else if str_eq(word, "cancel") {
            self.pending = String::new();
            Some(Command::Cancel)
        } else if str_eq(word, "exit") {
            Some(Command::Exit)
        } else if str_eq(word, "save") {
            Some(Command::Save(self.pending.clone()))
        } else if str_eq(word, "read") {
            Some(Command::Read(self.pending.clone()))
        } else if str_eq(word, "execute") {
            if self.pending.as_str().is_empty() {
                None
            } else {
                Some(Command::Execute)
            }
        } else {
            if !self.pending.as_str().is_empty() {
                self.pending.append(" ");
            }
            self.pending.append(word);
            proof {
                assert(final(self)@ =~= appended(old(self)@, word@));
            }
            Some(Command::Continue(word.to_owned()))
        }
    }
}

/// The pending utterance after a whole word sequence is processed.
pub open spec fn run_words(p: Seq<char>, ws: Seq<Seq<char>>) -> Seq<char>
    decreases ws.len(),
{
    if ws.len() == 0 {
        p
    } else {
        run_words(step_pending(p, ws[0]), ws.drop_first())
    }
}

/// The words of `ws` joined by single spaces, in order.
pub open spec fn joined(ws: Seq<Seq<char>>) -> Seq<char>
    decreases ws.len(),
{
    if ws.len() == 0 {
        Seq::<char>::empty()
    } else {
        appended(joined(ws.drop_last()), ws.last())
    }
}

proof fn lemma_run_words_snoc(p: Seq<char>, ws: Seq<Seq<char>>, w: Seq<char>)
    ensures
        run_words(p, ws.push(w)) == step_pending(run_words(p, ws), w),
    decreases ws.len(),
{
    if ws.len() == 0 {
        assert(ws.push(w)[0] == w);
        assert(ws.push(w).drop_first() =~= Seq::<Seq<char>>::empty());
        assert(run_words(p, ws.push(w)) == run_words(step_pending(p, w), ws.push(w).drop_first()));
    } else {
        assert(ws.push(w)[0] == ws[0]);
        assert(ws.push(w).drop_first() =~= ws.drop_first().push(w));
        lemma_run_words_snoc(step_pending(p, ws[0]), ws.drop_first(), w);
        assert(run_words(p, ws.push(w)) == run_words(
            step_pending(p, ws[0]),
            ws.drop_first().push(w),
        ));
    }
}

/// Law: for every sequence of non-keyword words, the pending utterance
/// after processing them all, starting empty, equals the words joined by
/// single spaces, in order.
pub proof fn lemma_pending_joins_words(ws: Seq<Seq<char>>)
    requires
        forall|i: int| 0 <= i < ws.len() ==> !is_keyword(#[trigger] ws[i]),
    ensures
        run_words(Seq::<char>::empty(), ws) == joined(ws),
    decreases ws.len(),
{
    if ws.len() > 0 {
        let front = ws.drop_last();
        let w = ws.last();
        assert(forall|i: int| 0 <= i < front.len() ==> !is_keyword(#[trigger] front[i]));
        lemma_pending_joins_words(front);
        lemma_run_words_snoc(Seq::<char>::empty(), front, w);
        assert(ws =~= front.push(w));
    }
}

/// Law: for any pending utterance `p`, the word `send` emits
/// `Send(p)` and resets the utterance; a second `send` with no
/// intervening words emits `Send` of the empty utterance.
pub proof fn lemma_send_resets(p: Seq<char>)
    ensures
        step_command(p, "send"@) == Some(CommandView::Send(p)),
        step_pending(p, "send"@) == Seq::<char>::empty(),
        step_command(step_pending(p, "send"@), "send"@) == Some(
            CommandView::Send(Seq::<char>::empty()),
        ),
{
}

/// Law: the word `cancel` on an empty pending utterance emits `Cancel`
/// and leaves the utterance empty: a no-op on the machine's state.
pub proof fn lemma_cancel_on_empty_is_noop()
    ensures
        step_pending(Seq::<char>::empty(), "cancel"@) == Seq::<char>::empty(),
        step_command(Seq::<char>::empty(), "cancel"@) == Some(CommandView::Cancel),
{
    reveal_strlit("send");
    reveal_strlit("cancel");
    assert("send"@.len() == 4);
    assert("cancel"@.len() == 6);
}

} // verus!
