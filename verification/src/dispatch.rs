//! The task dispatcher: it applies each recognized command against the
//! session memory and decides which outside work — a chat completion, a
//! file read or write, a script run — the surrounding session must
//! perform. The outside work itself happens beyond this library; its
//! outcome is handed back to the `apply_*` methods, which are verified
//! for every possible outcome.
use vstd::prelude::*;

use crate::chat::CompletionRequest;
use crate::chat::InputMessage;
use crate::chat::MessageView;
use crate::memory::SessionMemory;
use crate::runner::ExitStatus;
use crate::text::slug_of;
use crate::text::slugify;
use crate::words::Command;
use crate::words::CommandView;

verus! {

/// The settings the dispatcher works under.
pub struct DispatchConfig {
    pub working_dir: String,
    pub model: String,
    pub system_prompt: String,
    pub script_path: String,
    pub stream: bool,
    pub max_tokens: usize,
}

/// The outside work one command asks for.
pub enum Action {
    /// Call the chat-completion capability with this request.
    Complete(CompletionRequest),
    /// Write the given content to the given path.
    WriteDocument(String, String),
    /// Read the given path and hand its content to `apply_read`.
    ReadWorking(String),
    /// Run the given script and hand its classification to `apply_script`.
    RunScript(String),
    /// Nothing to do.
    NoOp,
    /// End the session.
    Quit,
}

/// Why a command could not be carried out.
pub enum DispatchError {
    /// `Save` fired before any completion result existed.
    NoSavedResult,
    /// The script signalled the warning sentinel.
    ScriptWarning,
    /// The script ended without a success sentinel.
    ScriptFailure,
}

impl DispatchError {
    /// The user-visible description of this failure.
    pub fn describe(&self) -> (r: String)
        ensures
            self is NoSavedResult ==> r@ == "no completion result available yet"@,
            self is ScriptWarning ==> r@ == "script executed with warning"@,
            self is ScriptFailure ==> r@ == "script failed"@,
    {
        match self {
            DispatchError::NoSavedResult => "no completion result available yet".to_owned(),
            DispatchError::ScriptWarning => "script executed with warning".to_owned(),
            DispatchError::ScriptFailure => "script failed".to_owned(),
        }
    }
}

/// The name of the canonical memory slot.
pub open spec fn current_key() -> Seq<char> {
    "current"@
}

/// The prompt a `Send` builds: the new text first, then whatever the
/// `current` slot holds, separated by one space.
pub open spec fn full_prompt(text: Seq<char>, mem: Map<Seq<char>, Seq<char>>) -> Seq<char> {
    if mem.contains_key(current_key()) {
        text + " "@ + mem[current_key()]
    } else {
        text
    }
}

/// The conversation after a `Send`: the slot after the system prompt is
/// rewritten in place, or created as a user message the first time.
pub open spec fn updated_messages(ms: Seq<MessageView>, prompt: Seq<char>) -> Seq<MessageView> {
    if ms.len() > 1 {
        ms.update(1, MessageView { role: ms[1].role, content: prompt })
    } else {
        ms.push(MessageView { role: "user"@, content: prompt })
    }
}

/// The path a `Save` writes to: `documents/<slug>.md`.
pub open spec fn document_path(text: Seq<char>) -> Seq<char> {
    "documents/"@ + slug_of(text) + ".md"@
}

/// The path a `Read` loads: `<working_dir>/staging/current.md`.
pub open spec fn working_read_path(working_dir: Seq<char>) -> Seq<char> {
    working_dir + "/staging/current.md"@
}

/// Receives each recognized command, holds the session state, and
/// reports per-command success or failure.
pub struct Execute {
    pub memory: SessionMemory,
    pub messages: Vec<InputMessage>,
    pub last_result: Option<String>,
    pub config: DispatchConfig,
}

impl Execute {
    /// The session state is well formed: the memory keeps one entry per
    /// key and the conversation starts with the system prompt.
    pub open spec fn wf(&self) -> bool {
        &&& self.memory.wf()
        &&& self.messages@.len() >= 1
        &&& self.messages.deep_view()[0].role == "system"@
    }

    /// A dispatcher with empty memory, no completion result yet, and a
    /// conversation holding only the system prompt.
    pub fn new(config: DispatchConfig) -> (e: Self)
        ensures
            e.wf(),
            e.memory@ == Map::<Seq<char>, Seq<char>>::empty(),
            e.messages.deep_view() =~= seq![
                (MessageView { role: "system"@, content: config.system_prompt@ }),
            ],
            e.last_result is None,
            e.config == config,
    {
        let system_prompt = InputMessage::system(config.system_prompt.clone());
        let mut messages: Vec<InputMessage> = Vec::new();
        messages.push(system_prompt);
        let e = Execute { memory: SessionMemory::new(), messages, last_result: None, config };
        proof {
            assert(e.messages.deep_view() =~= seq![
                (MessageView { role: "system"@, content: e.config.system_prompt@ }),
            ]);
        }
        e
    }

    /// Decides what one command asks for, updating the conversation for
    /// `Send`; memory and the saved completion result are not touched
    /// here but only by the `apply_*` methods.
    pub fn process_task(&mut self, cmd: Command) -> (r: Result<Action, DispatchError>)
        requires
            old(self).wf(),
        ensures
            final(self).wf(),
            final(self).memory@ == old(self).memory@,
            final(self).last_result == old(self).last_result,
            final(self).config == old(self).config,
            cmd@ matches CommandView::Send(t) ==> (r matches Ok(a) && a matches Action::Complete(
                req,
            ) && final(self).messages.deep_view() == updated_messages(
                old(self).messages.deep_view(),
                full_prompt(t, old(self).memory@),
            ) && req.messages.deep_view() == final(self).messages.deep_view() && req.model@ == old(
                self,
            ).config.model@ && req.stream == old(self).config.stream && req.max_tokens == old(
                self,
            ).config.max_tokens),
            !(cmd@ matches CommandView::Send(_)) ==> final(self).messages == old(self).messages,
            cmd@ matches CommandView::Cancel ==> (r matches Ok(a) && a is NoOp),
            cmd@ matches CommandView::Exit ==> (r matches Ok(a) && a is Quit),
            cmd@ matches CommandView::Continue(_) ==> (r matches Ok(a) && a is NoOp),
            cmd@ matches CommandView::Save(t) ==> (match old(self).last_result {
                Some(content) => (r matches Ok(a) && a matches Action::WriteDocument(p, c) && p@
                    == document_path(t) && c@ == content@),
                None => (r matches Err(e) && e is NoSavedResult),
            }),
            cmd@ matches CommandView::Read(_) ==> (r matches Ok(a) && a matches Action::ReadWorking(
                p,
            ) && p@ == working_read_path(old(self).config.working_dir@)),
            cmd@ matches CommandView::Execute ==> (r matches Ok(a) && a matches Action::RunScript(p)
                && p@ == old(self).config.script_path@),
    {
        match cmd {
            Command::Send(text) => {
                let full = self.build_full_prompt(text);
                if self.messages.len() > 1 {
                    self.messages[1].content = full;
                } else {
                    self.messages.push(InputMessage::user(full));
                }
                proof {
                    assert(final(self).messages.deep_view() =~= updated_messages(
                        old(self).messages.deep_view(),
                        full_prompt(cmd@->Send_0, old(self).memory@),
                    ));
                }
                let request = CompletionRequest {
                    model: self.config.model.clone(),
                    messages: duplicate_messages(&self.messages),
                    stream: self.config.stream,
                    max_tokens: self.config.max_tokens,
                };
                Ok(Action::Complete(request))
            },
            Command::Cancel => Ok(Action::NoOp),
            Command::Exit => Ok(Action::Quit),
            Command::Continue(_) => Ok(Action::NoOp),
            Command::Save(text) => {
                match &self.last_result {
                    Some(content) => {
                        let slug = slugify(text.as_str());
                        let mut path = String::new();
                        path.append("documents/");
                        path.append(slug.as_str());
                        path.append(".md");
                        Ok(Action::WriteDocument(path, content.clone()))
                    },
                    None => Err(DispatchError::NoSavedResult),
                }
            },
            Command::Read(_) => {
                let mut path = self.config.working_dir.clone();
                path.append("/staging/current.md");
                Ok(Action::ReadWorking(path))
            },
            Command::Execute => Ok(Action::RunScript(self.config.script_path.clone())),
        }
    }

    /// The text a `Send` turns into the user prompt: the new text first,
    /// then the stored `current` content.
    fn build_full_prompt(&self, text: String) -> (r: String)
        requires
            self.memory.wf(),
        ensures
            r@ == full_prompt(text@, self.memory@),
    {
        match self.memory.get("current") {
            Some(content) => {
                let mut full = text;
                full.append(" ");
                full.append(content.as_str());
                full
            },
            None => text,
        }
    }

    /// Points the `Execute` command at another script, as the text
    /// prompt's `execute <path>` form does.
    pub fn set_script_path(&mut self, path: String)
        requires
            old(self).wf(),
        ensures
            final(self).wf(),
            final(self).config.script_path == path,
            final(self).config.working_dir == old(self).config.working_dir,
            final(self).config.model == old(self).config.model,
            final(self).config.system_prompt == old(self).config.system_prompt,
            final(self).config.stream == old(self).config.stream,
            final(self).config.max_tokens == old(self).config.max_tokens,
            final(self).memory@ == old(self).memory@,
            final(self).messages == old(self).messages,
            final(self).last_result == old(self).last_result,
    {
        self.config.script_path = path;
    }

    /// Records the outcome of a chat-completion call. A failure leaves
    /// every part of the session, the memory included, exactly as it was.
    pub fn apply_completion(&mut self, outcome: Option<String>)
        requires
            old(self).wf(),
        ensures
            final(self).wf(),
            final(self).memory@ == old(self).memory@,
            final(self).messages == old(self).messages,
            final(self).config == old(self).config,
            match outcome {
                Some(t) => final(self).last_result == Some(t),
                None => final(self).last_result == old(self).last_result,
            },
    {
        match outcome {
            Some(t) => {
                self.last_result = Some(t);
            },
            None => {},
        }
    }

    /// Records the outcome of reading the working file: the content, when
    /// there was one, becomes the `current` memory slot. Returns whether
    /// anything was stored.
    pub fn apply_read(&mut self, content: Option<String>) -> (stored: bool)
        requires
            old(self).wf(),
        ensures
            final(self).wf(),
            final(self).messages == old(self).messages,
            final(self).last_result == old(self).last_result,
            final(self).config == old(self).config,
            match content {
                Some(d) => stored && final(self).memory@ == old(self).memory@.insert(
                    current_key(),
                    d@,
                ),
                None => !stored && final(self).memory@ == old(self).memory@,
            },
    {
        match content {
            Some(d) => {
                self.memory.insert("current", d);
                true
            },
            None => false,
        }
    }

    /// Turns a script classification into the command's reported result:
    /// only the success sentinel counts as success, and both the warning
    /// and the error classification surface as failures.
    pub fn apply_script(&self, status: ExitStatus) -> (r: Result<(), DispatchError>)
        ensures
            status is OK <==> r is Ok,
            status is WARNING ==> (r matches Err(e) && e is ScriptWarning),
            status is ERROR ==> (r matches Err(e) && e is ScriptFailure),
    {
        match status {
            ExitStatus::OK => Ok(()),
            ExitStatus::WARNING => Err(DispatchError::ScriptWarning),
            ExitStatus::ERROR => Err(DispatchError::ScriptFailure),
        }
    }
}

/// A fresh copy of a conversation, message by message.
fn duplicate_messages(ms: &Vec<InputMessage>) -> (r: Vec<InputMessage>)
    ensures
        r.deep_view() == ms.deep_view(),
{
    let n = ms.len();
    let mut r: Vec<InputMessage> = Vec::new();
    let mut i: usize = 0;
    while i < n
        invariant
            n == ms@.len(),
            0 <= i <= n,
            r@.len() == i,
            r.deep_view() =~~= ms.deep_view().take(i as int),
        decreases n - i,
    {
        let d = ms[i].duplicate();
        let ghost prev = r.deep_view();
        r.push(d);
        proof {
            assert(d.deep_view() =~~= ms.deep_view()[i as int]);
            assert(r.deep_view().len() == i + 1);
            assert forall|j: int| 0 <= j < i + 1 implies r.deep_view()[j] =~~= ms.deep_view().take(
                i + 1,
            )[j] by {
                if j < i {
                    assert(r.deep_view()[j] == prev[j]);
                    assert(prev[j] == ms.deep_view().take(i as int)[j]);
                } else {
                    assert(r.deep_view()[j] == d.deep_view());
                }
            }
            assert(r.deep_view() =~~= ms.deep_view().take(i + 1));
        }
        i += 1;
    }
    proof {
        assert(ms.deep_view().take(n as int) =~= ms.deep_view());
    }
    r
}

} // verus!
