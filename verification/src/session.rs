//! The session loops' decision cores. The surrounding program performs
//! the outside work — reading stdin, the transcription stream, the
//! subprocess, the completion call — and hands every event here; what to
//! do next is decided and proved in this module.
use vstd::prelude::*;

use crate::dispatch::full_prompt;
use crate::dispatch::updated_messages;
use crate::dispatch::Action;
use crate::dispatch::DispatchConfig;
use crate::dispatch::DispatchError;
use crate::dispatch::Execute;
use crate::text::contains_sub;
use crate::text::contains_str;
use crate::text::split_char;
use crate::text::str_eq;
use crate::text::split_on;
use crate::text::trim_str;
use crate::text::trimmed;
use crate::words::Command;
use crate::words::CommandView;
use crate::words::CommandWordStateMachine;
use crate::words::step_command;
use crate::words::step_pending;

verus! {

/// One voice session: the word state machine feeding the dispatcher.
pub struct VoiceSession {
    pub machine: CommandWordStateMachine,
    pub dispatcher: Execute,
}

impl VoiceSession {
    /// The dispatcher's state is well formed.
    pub open spec fn wf(&self) -> bool {
        self.dispatcher.wf()
    }

    /// A fresh session: empty utterance, fresh dispatcher.
    pub fn new(config: DispatchConfig) -> (s: Self)
        ensures
            s.wf(),
            s.machine@ == Seq::<char>::empty(),
            s.dispatcher.last_result is None,
    {
        VoiceSession { machine: CommandWordStateMachine::new(), dispatcher: Execute::new(config) }
    }

    /// Feeds one transcribed word through the state machine and, when a
    /// command fires, through the dispatcher. Memory and the saved
    /// completion result never change here; they change only when the
    /// session applies an outside outcome through the dispatcher.
    pub fn handle_word(&mut self, word: &str) -> (r: Result<Action, DispatchError>)
        requires
            old(self).wf(),
        ensures
            final(self).wf(),
            final(self).machine@ == step_pending(old(self).machine@, word@),
            final(self).dispatcher.memory@ == old(self).dispatcher.memory@,
            final(self).dispatcher.last_result == old(self).dispatcher.last_result,
            final(self).dispatcher.config == old(self).dispatcher.config,
            step_command(old(self).machine@, word@) is None ==> (r matches Ok(a) && a is NoOp),
            !(step_command(old(self).machine@, word@) matches Some(CommandView::Send(_)))
                ==> final(self).dispatcher.messages == old(self).dispatcher.messages,
            step_command(old(self).machine@, word@) matches Some(CommandView::Send(t)) ==> (
            r matches Ok(a) && a matches Action::Complete(req) && req.messages.deep_view()
                == updated_messages(
                old(self).dispatcher.messages.deep_view(),
                full_prompt(t, old(self).dispatcher.memory@),
            ) && final(self).dispatcher.messages.deep_view() == req.messages.deep_view()),
            step_command(old(self).machine@, word@) matches Some(CommandView::Cancel) ==> (
            r matches Ok(a) && a is NoOp),
            step_command(old(self).machine@, word@) matches Some(CommandView::Exit) ==> (
            r matches Ok(a) && a is Quit),
            step_command(old(self).machine@, word@) matches Some(CommandView::Continue(_)) ==> (
            r matches Ok(a) && a is NoOp),
            step_command(old(self).machine@, word@) matches Some(CommandView::Read(_)) ==> (
            r matches Ok(a) && a is ReadWorking),
            step_command(old(self).machine@, word@) matches Some(CommandView::Execute) ==> (
            r matches Ok(a) && a is RunScript),
            step_command(old(self).machine@, word@) matches Some(CommandView::Save(_)) ==> (match old(
                self,
            ).dispatcher.last_result {
                Some(_) => r matches Ok(a) && a is WriteDocument,
                None => r matches Err(e) && e is NoSavedResult,
            }),
    {
        let cmd = self.machine.process_word(word);
        match cmd {
            Some(c) => self.dispatcher.process_task(c),
            None => Ok(Action::NoOp),
        }
    }
}

/// What one text-prompt line asks for. The text flow keeps the looser
/// rule of matching keywords by substring containment, first match wins;
/// only the voice keywords are matched word-exactly.
pub enum TextDirective {
    /// The input is not well formed; warn and prompt again.
    Malformed,
    /// Print the `current` memory slot.
    Show,
    /// Load the working file into memory.
    ReadFile,
    /// Run the named script.
    RunScript(String),
    /// Send the input as a chat prompt.
    Send(String),
}

/// Classifies one line of the text prompt, mirroring the dispatch order
/// of the session loop: `none`, then `show`, then `read`, then
/// `execute`, and anything else is sent to the chat capability.
pub fn classify_input(input: String) -> (c: TextDirective)
    ensures
        contains_sub(input@, "none"@) ==> c is Malformed,
        !contains_sub(input@, "none"@) && contains_sub(input@, "show"@) ==> c is Show,
        !contains_sub(input@, "none"@) && !contains_sub(input@, "show"@) && contains_sub(
            input@,
            "read"@,
        ) ==> c is ReadFile,
        !contains_sub(input@, "none"@) && !contains_sub(input@, "show"@) && !contains_sub(
            input@,
            "read"@,
        ) && contains_sub(input@, "execute"@) ==> (if split_on(input@, ' ').len() >= 2 {
            c matches TextDirective::RunScript(p) && p@ == split_on(input@, ' ')[1]
        } else {
            c is Malformed
        }),
        !contains_sub(input@, "none"@) && !contains_sub(input@, "show"@) && !contains_sub(
            input@,
            "read"@,
        ) && !contains_sub(input@, "execute"@) ==> (c matches TextDirective::Send(t) && t@
            == input@),
{
    if contains_str(input.as_str(), "none") {
        TextDirective::Malformed
    } else if contains_str(input.as_str(), "show") {
        TextDirective::Show
    } else if contains_str(input.as_str(), "read") {
        TextDirective::ReadFile
    } else if contains_str(input.as_str(), "execute") {
        let ws = split_char(input.as_str(), ' ');
        if ws.len() >= 2 {
            proof {
                assert(ws.deep_view().len() == ws@.len());
            }
            TextDirective::RunScript(ws[1].clone())
        } else {
            TextDirective::Malformed
        }
    } else {
        TextDirective::Send(input)
    }
}

/// What the interactive prompt loop does with one raw input line.
pub enum ReplStep {
    /// Blank input: show the prompt again.
    Prompt,
    /// The session ends.
    Quit,
    /// Hand this trimmed input on to the parser and dispatcher.
    Dispatch(String),
}

/// Decides one iteration of the interactive prompt loop: blank lines are
/// skipped, a bare `exit` ends the session, and everything else is
/// dispatched trimmed.
pub fn repl_step(input: &str) -> (r: ReplStep)
    ensures
        trimmed(input@).len() == 0 ==> r is Prompt,
        trimmed(input@) == "exit"@ ==> r is Quit,
        trimmed(input@).len() > 0 && trimmed(input@) != "exit"@ ==> (
        r matches ReplStep::Dispatch(t) && t@ == trimmed(input@)),
{
    let t = trim_str(input);
    if t.as_str().is_empty() {
        proof {
            reveal_strlit("exit");
        }
        ReplStep::Prompt
    } else if str_eq(t.as_str(), "exit") {
        ReplStep::Quit
    } else {
        ReplStep::Dispatch(t)
    }
}

/// One command of the voice flow, rebuilt from a text directive so the
/// text prompt drives the same dispatcher.
pub fn directive_command(d: TextDirective) -> (r: Option<Command>)
    ensures
        d is Malformed ==> r is None,
        d is Show ==> r is None,
        d is ReadFile ==> (r matches Some(c) && c@ matches CommandView::Read(_)),
        d matches TextDirective::RunScript(_) ==> (r matches Some(c) && c@ is Execute),
        d matches TextDirective::Send(t) ==> (r matches Some(c) && c@ matches CommandView::Send(
            s,
        ) && s == t@),
{
    match d {
        TextDirective::Malformed => None,
        TextDirective::Show => None,
        TextDirective::ReadFile => Some(Command::Read(String::new())),
        TextDirective::RunScript(_) => Some(Command::Execute),
        TextDirective::Send(t) => Some(Command::Send(t)),
    }
}

} // verus!
