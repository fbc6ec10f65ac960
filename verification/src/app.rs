//! What the bridge does about a message of the chat and about the events of a turn.
//!
//! The host performs each [`Action`] and hands back what came of it.

use crate::codex;
use crate::codex::{
    ClientView, CodexClient, TurnEvent, TurnEventView, TurnResultView, TurnRunResult, TurnStepView,
    TurnView,
};
use crate::commands;
use crate::commands::{BotCommand, BotCommandView};
use crate::config::{Config, ConfigView};
use crate::progress::{ProgressRenderer, ProgressView};
use crate::render;
use crate::render::{
    approval_acknowledgement, finalize_text, render_cwd_history, render_help, render_status,
};
use crate::rpc::IncomingView;
use crate::session;
use crate::session::{
    ApprovalDecision, Cancellation, Resolution, SessionView, SharedSessionState, SnapshotView,
};
use crate::telegram::{EmptyToken, MessageView, TelegramClient, TelegramMessage};
use crate::text;
use crate::text::{decimal_text, parse_unsigned, same_text, trim};
use crate::workdir;
use crate::workdir::{WorkDir, WorkDirView};
use vstd::prelude::*;
use vstd::string::*;

verus! {

/// The bridge: its configuration, the two programs between which it stands, and the session.
#[derive(Debug)]
pub struct App<C, J, R> {
    pub config: Config,
    pub telegram: TelegramClient,
    pub codex: CodexClient,
    pub session: SharedSessionState<C, J, R>,
}

/// The bridge as mathematics.
pub struct AppView<C, J, R> {
    pub config: ConfigView,
    pub telegram: Seq<char>,
    pub codex: ClientView,
    pub session: SessionView<C, J, R>,
}

impl<C, J, R> View for App<C, J, R> {
    type V = AppView<C, J, R>;

    open spec fn view(&self) -> AppView<C, J, R> {
        AppView {
            config: self.config@,
            telegram: self.telegram@,
            codex: self.codex@,
            session: self.session@,
        }
    }
}

impl<C, J, R> AppView<C, J, R> {
    /// The session is well formed, and Codex works in the directory that the session shows.
    pub open spec fn well_formed(self) -> bool {
        &&& self.session.well_formed()
        &&& self.session.active_cwd == Some(self.codex.cwd)
    }

    /// Whether a turn runs.
    pub open spec fn busy(self) -> bool {
        self.session.active_turn_cancel is Some
    }

    /// The bridge after the working directory has become `cwd`.
    pub open spec fn moved_to(self, cwd: WorkDirView) -> AppView<C, J, R> {
        AppView {
            codex: ClientView { cwd, ..self.codex },
            session: SessionView {
                active_cwd: Some(cwd),
                cwd_history: session::visited(self.session.cwd_history, cwd),
                ..self.session
            },
            ..self
        }
    }

    /// The bridge after `thread_id` has become the thread that prompts go to.
    pub open spec fn with_thread(self, thread_id: Seq<char>) -> AppView<C, J, R> {
        AppView {
            session: SessionView { active_thread_id: Some(thread_id), ..self.session },
            ..self
        }
    }

    /// The bridge after the approval that was waited for has been dealt with.
    pub open spec fn without_approval(self) -> AppView<C, J, R> {
        AppView { session: SessionView { pending_approval: None, ..self.session }, ..self }
    }

    /// The directory against which a path is read.
    pub open spec fn base_cwd(self) -> WorkDirView {
        match self.session.active_cwd {
            Some(cwd) => cwd,
            None => self.config.codex_cwd,
        }
    }
}

/// What the host is to do.
#[derive(Debug)]
pub enum Action<C, R> {
    /// Nothing.
    Ignore,
    /// Report that the message could not be handled, for this reason.
    Fail(String),
    /// Send a text to the chat; it does not matter whether that succeeds.
    Dismiss { chat_id: i64, text: String },
    /// Send a text to the chat.
    Send { chat_id: i64, text: String },
    /// Send a text to the chat and start a thread. The text is replaced with what
    /// [`App::thread_started`] says of the outcome.
    StartThread { chat_id: i64, text: String },
    /// Cancel the turn and answer the approval that it waits for, as far as there are any, and
    /// send a text to the chat.
    Stop { cancellation: Cancellation<C, R>, chat_id: i64, text: String },
    /// Answer an approval and send `delivered` to the chat where somebody still waited for the
    /// answer, else `expired`.
    Answer { resolution: Resolution<R>, chat_id: i64, delivered: String, expired: String },
    /// Look whether `input`, read as a path from `base`, is a directory, and go on with
    /// [`App::cwd_probed`].
    ProbeCwd { chat_id: i64, base: WorkDir, input: String },
    /// Send a text to the chat, launch a turn that replaces it, and record the turn in the
    /// session.
    StartTurn { chat_id: i64, text: String, thread_id: String, prompt: String },
}

/// What the host is to do, as mathematics.
pub enum ActionView<C, R> {
    Ignore,
    Fail(Seq<char>),
    Dismiss { chat_id: i64, text: Seq<char> },
    Send { chat_id: i64, text: Seq<char> },
    StartThread { chat_id: i64, text: Seq<char> },
    Stop { cancellation: Cancellation<C, R>, chat_id: i64, text: Seq<char> },
    Answer { resolution: Resolution<R>, chat_id: i64, delivered: Seq<char>, expired: Seq<char> },
    ProbeCwd { chat_id: i64, base: WorkDirView, input: Seq<char> },
    StartTurn { chat_id: i64, text: Seq<char>, thread_id: Seq<char>, prompt: Seq<char> },
}

impl<C, R> View for Action<C, R> {
    type V = ActionView<C, R>;

    open spec fn view(&self) -> ActionView<C, R> {
        match self {
            Action::Ignore => ActionView::Ignore,
            Action::Fail(reason) => ActionView::Fail(reason@),
            Action::Dismiss { chat_id, text } => ActionView::Dismiss {
                chat_id: *chat_id,
                text: text@,
            },
            Action::Send { chat_id, text } => ActionView::Send { chat_id: *chat_id, text: text@ },
            Action::StartThread { chat_id, text } => ActionView::StartThread {
                chat_id: *chat_id,
                text: text@,
            },
            Action::Stop { cancellation, chat_id, text } => ActionView::Stop {
                cancellation: *cancellation,
                chat_id: *chat_id,
                text: text@,
            },
            Action::Answer { resolution, chat_id, delivered, expired } => ActionView::Answer {
                resolution: *resolution,
                chat_id: *chat_id,
                delivered: delivered@,
                expired: expired@,
            },
            Action::ProbeCwd { chat_id, base, input } => ActionView::ProbeCwd {
                chat_id: *chat_id,
                base: base@,
                input: input@,
            },
            Action::StartTurn { chat_id, text, thread_id, prompt } => ActionView::StartTurn {
                chat_id: *chat_id,
                text: text@,
                thread_id: thread_id@,
                prompt: prompt@,
            },
        }
    }
}

/// What a message comes to before anybody looks at what it says.
pub enum Admission {
    /// It is not from a private chat.
    Elsewhere,
    /// It does not say who wrote it.
    Nameless,
    /// It is from somebody who may not use the bridge.
    Stranger,
    /// It holds no text.
    Wordless,
    /// It gives this command.
    Command(BotCommandView),
}

/// How `message` is admitted.
pub open spec fn admission(allowed_user_id: Option<i64>, message: MessageView) -> Admission {
    let words = match message.text {
        Some(text) => text::trimmed(text),
        None => Seq::empty(),
    };
    if message.chat_kind != "private"@ {
        Admission::Elsewhere
    } else if message.from is None {
        Admission::Nameless
    } else if allowed_user_id is Some && message.from != allowed_user_id {
        Admission::Stranger
    } else if words.len() == 0 {
        Admission::Wordless
    } else {
        Admission::Command(commands::command_of(words))
    }
}

/// The text that tells of the new working directory.
pub open spec fn moved_text(cwd: WorkDirView, shown: SnapshotView) -> Seq<char> {
    "Switched working directory to:\n"@ + cwd.display + "\n\n"@ + render::cwd_history_text(shown)
}

/// The number that `input` writes, where it is the index of a directory.
pub open spec fn index_of(input: Seq<char>) -> Option<nat> {
    text::unsigned_number(input, usize::MAX as nat)
}

/// Where `/cwd` with the argument `input` leads.
pub enum Destination {
    /// To this directory of the history.
    Visited(WorkDirView),
    /// To an index that the history does not have.
    NoSuchIndex(nat),
    /// To a path that has to be looked at.
    Path,
}

/// Where `/cwd` with the argument `input` leads: a number is an index of the history, anything
/// else a path.
pub open spec fn destination(history: Seq<WorkDirView>, input: Seq<char>) -> Destination {
    match index_of(input) {
        Some(index) => if index < history.len() {
            Destination::Visited(history[index as int])
        } else {
            Destination::NoSuchIndex(index)
        },
        None => Destination::Path,
    }
}

/// The decision that `/approve` stands for.
pub open spec fn approval_of(for_session: bool) -> ApprovalDecision {
    if for_session {
        ApprovalDecision::AcceptForSession
    } else {
        ApprovalDecision::Accept
    }
}

/// Whether `/approve` answers the approval that is waited for.
pub open spec fn approves<C, J, R>(session: SessionView<C, J, R>, for_session: bool) -> bool {
    match session.pending_approval {
        Some(approval) => for_session ==> approval.allow_accept_for_session,
        None => false,
    }
}

/// The bridge after `command`.
pub open spec fn app_after<C, J, R>(app: AppView<C, J, R>, command: BotCommandView) -> AppView<
    C,
    J,
    R,
> {
    match command {
        BotCommandView::Use(thread_id) => if app.busy() {
            app
        } else {
            app.with_thread(thread_id)
        },
        BotCommandView::Cwd(Some(input)) => if app.busy() {
            app
        } else {
            match destination(app.session.cwd_history, input) {
                Destination::Visited(cwd) => app.moved_to(cwd),
                _ => app,
            }
        },
        BotCommandView::Stop => AppView {
            session: SessionView {
                active_turn_cancel: None,
                pending_approval: None,
                ..app.session
            },
            ..app
        },
        BotCommandView::Approve { for_session } => if approves(app.session, for_session) {
            app.without_approval()
        } else {
            app
        },
        BotCommandView::Deny => app.without_approval(),
        _ => app,
    }
}

/// What is done about `command` from the chat `chat_id`.
pub open spec fn action_for<C, J, R>(
    app: AppView<C, J, R>,
    chat_id: i64,
    command: BotCommandView,
) -> ActionView<C, R> {
    let busy_text = "A turn is running. Use /stop first."@;
    match command {
        BotCommandView::Start => ActionView::Send {
            chat_id,
            text: render::command_list() + render::status_text(app.session.shown(), app.config),
        },
        BotCommandView::New => if app.busy() {
            ActionView::Send { chat_id, text: busy_text }
        } else {
            ActionView::StartThread { chat_id, text: "Creating new Codex thread..."@ }
        },
        BotCommandView::Use(thread_id) => if app.busy() {
            ActionView::Send { chat_id, text: busy_text }
        } else {
            ActionView::Send { chat_id, text: "Switched to Codex thread:\n"@ + thread_id }
        },
        BotCommandView::Cwd(argument) => if app.busy() {
            ActionView::Send { chat_id, text: busy_text }
        } else {
            match argument {
                None => ActionView::Send {
                    chat_id,
                    text: render::cwd_history_text(app.session.shown()),
                },
                Some(input) => match destination(app.session.cwd_history, input) {
                    Destination::Visited(cwd) => ActionView::Send {
                        chat_id,
                        text: moved_text(cwd, app.moved_to(cwd).session.shown()),
                    },
                    Destination::NoSuchIndex(index) => ActionView::Fail(
                        "No working directory found at history index "@ + text::decimal(index)
                            + "."@,
                    ),
                    Destination::Path => ActionView::ProbeCwd {
                        chat_id,
                        base: app.base_cwd(),
                        input,
                    },
                },
            }
        },
        BotCommandView::Status => ActionView::Send {
            chat_id,
            text: render::status_text(app.session.shown(), app.config),
        },
        BotCommandView::Stop => ActionView::Stop {
            cancellation: Cancellation {
                cancel: app.session.active_turn_cancel,
                resolution: app.session.answered(ApprovalDecision::Cancel),
            },
            chat_id,
            text: if app.busy() {
                "Stop requested."@
            } else {
                "No active turn."@
            },
        },
        BotCommandView::Approve { for_session } => match app.session.pending_approval {
            None => ActionView::Send { chat_id, text: "No pending approval."@ },
            Some(approval) => if approves(app.session, for_session) {
                ActionView::Answer {
                    resolution: Resolution {
                        responder: approval.responder,
                        decision: approval_of(for_session),
                    },
                    chat_id,
                    delivered: render::acknowledgement(approval_of(for_session)),
                    expired: "Pending approval already expired."@,
                }
            } else {
                ActionView::Send {
                    chat_id,
                    text: "This approval does not support session-wide approval. Use /approve or /deny."@,
                }
            },
        },
        BotCommandView::Deny => match app.session.pending_approval {
            None => ActionView::Send { chat_id, text: "No pending approval."@ },
            Some(approval) => ActionView::Answer {
                resolution: Resolution {
                    responder: approval.responder,
                    decision: ApprovalDecision::Decline,
                },
                chat_id,
                delivered: render::acknowledgement(ApprovalDecision::Decline),
                expired: "No pending approval."@,
            },
        },
        BotCommandView::Prompt(prompt) => if app.busy() {
            ActionView::Send { chat_id, text: "A turn is already running. Use /stop first."@ }
        } else {
            match app.session.active_thread_id {
                None => ActionView::Send { chat_id, text: "No active thread. Run /new first."@ },
                Some(thread_id) => ActionView::StartTurn {
                    chat_id,
                    text: "Thinking..."@,
                    thread_id,
                    prompt,
                },
            }
        },
        BotCommandView::Invalid(help) => ActionView::Send {
            chat_id,
            text: "Invalid command.\n"@ + help,
        },
    }
}

/// The bridge after `message`.
pub open spec fn app_after_message<C, J, R>(
    app: AppView<C, J, R>,
    message: MessageView,
) -> AppView<C, J, R> {
    match admission(app.config.telegram_allowed_user_id, message) {
        Admission::Command(command) => app_after(app, command),
        _ => app,
    }
}

/// What is done about `message`.
pub open spec fn action_for_message<C, J, R>(
    app: AppView<C, J, R>,
    message: MessageView,
) -> ActionView<C, R> {
    match admission(app.config.telegram_allowed_user_id, message) {
        Admission::Elsewhere => ActionView::Ignore,
        Admission::Nameless => ActionView::Fail("telegram message missing from field"@),
        Admission::Stranger => ActionView::Dismiss {
            chat_id: message.chat_id,
            text: "Unauthorized user."@,
        },
        Admission::Wordless => ActionView::Send {
            chat_id: message.chat_id,
            text: "Only text messages are supported in this MVP."@,
        },
        Admission::Command(command) => action_for(app, message.chat_id, command),
    }
}

/// The text that goes to the chat after [`Action::Answer`], by whether somebody still waited for
/// the answer.
pub fn answer_text(was_delivered: bool, delivered: String, expired: String) -> (text: String)
    ensures
        text == if was_delivered {
            delivered
        } else {
            expired
        },
{
    if was_delivered {
        delivered
    } else {
        expired
    }
}

fn joined_text(head: &str, tail: &str) -> (text: String)
    ensures
        text@ == head@ + tail@,
{
    let mut text = head.to_owned();
    text.append(tail);
    text
}

fn send<C, R>(chat_id: i64, text: &str) -> (action: Action<C, R>)
    ensures
        action@ == (ActionView::<C, R>::Send { chat_id, text: text@ }),
{
    Action::Send { chat_id, text: text.to_owned() }
}

impl<C, J, R> App<C, J, R> {
    /// The bridge with this configuration; `imported_history` lists the directories in which
    /// Codex has worked, the latest first.
    pub fn new(config: Config, imported_history: Vec<WorkDir>) -> (app: Result<
        App<C, J, R>,
        EmptyToken,
    >)
        ensures
            match app {
                Ok(app) => {
                    &&& text::trimmed(config@.telegram_bot_token).len() > 0
                    &&& app@.config == config@
                    &&& app@.telegram == "https://api.telegram.org/bot"@ + config@.telegram_bot_token
                    &&& app@.codex == (ClientView {
                        binary: config@.codex_binary,
                        cwd: config@.codex_cwd,
                        model: config@.codex_model,
                        approval_policy: config@.codex_approval_policy,
                        sandbox_mode: config@.codex_sandbox_mode,
                    })
                    &&& app@.session == (SessionView::<C, J, R> {
                        active_cwd: Some(config@.codex_cwd),
                        cwd_history: session::visited(
                            session::visited_all(workdir::dir_views(imported_history@)),
                            config@.codex_cwd,
                        ),
                        ..SessionView::empty()
                    })
                    &&& app@.well_formed()
                },
                Err(_) => text::trimmed(config@.telegram_bot_token).len() == 0,
            },
    {
        let telegram = match TelegramClient::new(config.telegram_bot_token.clone()) {
            Ok(client) => client,
            Err(error) => {
                return Err(error);
            },
        };
        let codex = CodexClient::new(
            config.codex_binary.clone(),
            config.codex_cwd.duplicate(),
            text::copy_text(&config.codex_model),
            config.codex_approval_policy.clone(),
            text::copy_text(&config.codex_sandbox_mode),
        );
        let session = SharedSessionState::new_with_history(
            config.codex_cwd.duplicate(),
            imported_history,
        );
        Ok(App { config, telegram, codex, session })
    }

    /// Takes in a message and says what is to be done.
    pub fn handle_message(&mut self, message: TelegramMessage) -> (action: Action<C, R>)
        ensures
            final(self)@ == app_after_message(old(self)@, message@),
            action@ == action_for_message(old(self)@, message@),
            old(self)@.well_formed() ==> final(self)@.well_formed(),
    {
        let chat_id: i64 = message.chat.id;
        if !same_text(message.chat.kind.as_str(), "private") {
            return Action::Ignore;
        }
        let from = match &message.from {
            Some(user) => user.id,
            None => {
                return Action::Fail("telegram message missing from field".to_owned());
            },
        };
        match self.config.telegram_allowed_user_id {
            Some(allowed) => {
                if from != allowed {
                    return Action::Dismiss { chat_id, text: "Unauthorized user.".to_owned() };
                }
            },
            None => {},
        }
        proof {
            reveal_strlit("");
            assert(text::trimmed(""@) =~= Seq::<char>::empty());
        }
        let words = trim(
            match &message.text {
                Some(text) => text.as_str(),
                None => "",
            },
        );
        if words.is_empty() {
            return send(chat_id, "Only text messages are supported in this MVP.");
        }
        self.handle_command(chat_id, BotCommand::parse(words))
    }

    /// Takes in a command from the chat `chat_id` and says what is to be done.
    pub fn handle_command(&mut self, chat_id: i64, command: BotCommand) -> (action: Action<C, R>)
        ensures
            final(self)@ == app_after(old(self)@, command@),
            action@ == action_for(old(self)@, chat_id, command@),
            old(self)@.well_formed() ==> final(self)@.well_formed(),
    {
        match command {
            BotCommand::Start => Action::Send {
                chat_id,
                text: render_help(&self.session.snapshot(), &self.config),
            },
            BotCommand::New => if self.session.has_active_turn() {
                send(chat_id, "A turn is running. Use /stop first.")
            } else {
                Action::StartThread { chat_id, text: "Creating new Codex thread...".to_owned() }
            },
            BotCommand::Use(thread_id) => if self.session.has_active_turn() {
                send(chat_id, "A turn is running. Use /stop first.")
            } else {
                let text = joined_text("Switched to Codex thread:\n", thread_id.as_str());
                self.session.set_active_thread(thread_id);
                Action::Send { chat_id, text }
            },
            BotCommand::Cwd(argument) => if self.session.has_active_turn() {
                send(chat_id, "A turn is running. Use /stop first.")
            } else {
                match argument {
                    None => Action::Send {
                        chat_id,
                        text: render_cwd_history(&self.session.snapshot()),
                    },
                    Some(input) => self.resolve_requested_cwd(chat_id, input),
                }
            },
            BotCommand::Status => Action::Send {
                chat_id,
                text: render_status(&self.session.snapshot(), &self.config),
            },
            BotCommand::Stop => {
                let cancellation = self.session.cancel_active_turn();
                let text = if cancellation.cancel.is_some() {
                    "Stop requested."
                } else {
                    "No active turn."
                };
                Action::Stop { cancellation, chat_id, text: text.to_owned() }
            },
            BotCommand::Approve { for_session } => self.approve(chat_id, for_session),
            BotCommand::Deny => match self.session.resolve_pending_approval(
                ApprovalDecision::Decline,
            ) {
                Some(resolution) => Action::Answer {
                    resolution,
                    chat_id,
                    delivered: approval_acknowledgement(ApprovalDecision::Decline).to_owned(),
                    expired: "No pending approval.".to_owned(),
                },
                None => send(chat_id, "No pending approval."),
            },
            BotCommand::Prompt(prompt) => if self.session.has_active_turn() {
                send(chat_id, "A turn is already running. Use /stop first.")
            } else {
                match self.session.active_thread_id() {
                    Some(thread_id) => Action::StartTurn {
                        chat_id,
                        text: "Thinking...".to_owned(),
                        thread_id,
                        prompt,
                    },
                    None => send(chat_id, "No active thread. Run /new first."),
                }
            },
            BotCommand::Invalid(help) => Action::Send {
                chat_id,
                text: joined_text("Invalid command.\n", help.as_str()),
            },
        }
    }

    fn approve(&mut self, chat_id: i64, for_session: bool) -> (action: Action<C, R>)
        ensures
            final(self)@ == app_after(old(self)@, BotCommandView::Approve { for_session }),
            action@ == action_for(old(self)@, chat_id, BotCommandView::Approve { for_session }),
            old(self)@.well_formed() ==> final(self)@.well_formed(),
    {
        let snapshot = self.session.snapshot();
        if snapshot.pending_approval_message.is_none() {
            return send(chat_id, "No pending approval.");
        }
        if for_session && !snapshot.pending_approval_supports_session {
            return send(
                chat_id,
                "This approval does not support session-wide approval. Use /approve or /deny.",
            );
        }
        let decision = if for_session {
            ApprovalDecision::AcceptForSession
        } else {
            ApprovalDecision::Accept
        };
        match self.session.resolve_pending_approval(decision) {
            Some(resolution) => Action::Answer {
                resolution,
                chat_id,
                delivered: approval_acknowledgement(decision).to_owned(),
                expired: "Pending approval already expired.".to_owned(),
            },
            None => send(chat_id, "Pending approval already expired."),
        }
    }

    fn resolve_requested_cwd(&mut self, chat_id: i64, input: String) -> (action: Action<C, R>)
        requires
            !old(self)@.busy(),
        ensures
            final(self)@ == app_after(old(self)@, BotCommandView::Cwd(Some(input@))),
            action@ == action_for(old(self)@, chat_id, BotCommandView::Cwd(Some(input@))),
            old(self)@.well_formed() ==> final(self)@.well_formed(),
    {
        match parse_unsigned(input.as_str(), usize::MAX as u64) {
            Some(index) => match self.session.resolve_cwd_history_entry(index as usize) {
                Some(cwd) => self.move_to(chat_id, cwd),
                None => {
                    let mut reason = "No working directory found at history index ".to_owned();
                    reason.append(decimal_text(index).as_str());
                    reason.append(".");
                    Action::Fail(reason)
                },
            },
            None => {
                let base = match self.session.active_cwd() {
                    Some(cwd) => cwd,
                    None => self.config.codex_cwd.duplicate(),
                };
                Action::ProbeCwd { chat_id, base, input }
            },
        }
    }

    fn move_to(&mut self, chat_id: i64, cwd: WorkDir) -> (action: Action<C, R>)
        ensures
            final(self)@ == old(self)@.moved_to(cwd@),
            action@ == (ActionView::<C, R>::Send {
                chat_id,
                text: moved_text(cwd@, old(self)@.moved_to(cwd@).session.shown()),
            }),
            old(self)@.well_formed() ==> final(self)@.well_formed(),
    {
        let mut text = joined_text("Switched working directory to:\n", cwd.display());
        self.codex.set_cwd(cwd.duplicate());
        self.session.set_active_cwd(cwd);
        text.append("\n\n");
        text.append(render_cwd_history(&self.session.snapshot()).as_str());
        Action::Send { chat_id, text }
    }

    /// Goes on after [`Action::ProbeCwd`]: `cwd` is the path that was looked at.
    pub fn cwd_probed(&mut self, chat_id: i64, cwd: WorkDir, is_dir: bool) -> (action: Action<C, R>)
        ensures
            final(self)@ == if is_dir {
                old(self)@.moved_to(cwd@)
            } else {
                old(self)@
            },
            action@ == if is_dir {
                ActionView::<C, R>::Send {
                    chat_id,
                    text: moved_text(cwd@, old(self)@.moved_to(cwd@).session.shown()),
                }
            } else {
                ActionView::Fail(
                    "Working directory does not exist or is not a directory:\n"@ + cwd@.display,
                )
            },
            old(self)@.well_formed() ==> final(self)@.well_formed(),
    {
        if is_dir {
            self.move_to(chat_id, cwd)
        } else {
            Action::Fail(
                joined_text(
                    "Working directory does not exist or is not a directory:\n",
                    cwd.display(),
                ),
            )
        }
    }

    /// Goes on after [`Action::StartThread`]: takes in the id of the thread, or why there is
    /// none, and says what the chat is told.
    pub fn thread_started(&mut self, outcome: Result<String, String>) -> (text: String)
        ensures
            match outcome {
                Ok(thread_id) => final(self)@ == old(self)@.with_thread(thread_id@) && text@
                    == "Started new Codex thread:\n"@ + thread_id@,
                Err(error) => final(self)@ == old(self)@ && text@
                    == "Failed to start Codex thread:\n"@ + error@,
            },
            old(self)@.well_formed() ==> final(self)@.well_formed(),
    {
        match outcome {
            Ok(thread_id) => {
                let text = joined_text("Started new Codex thread:\n", thread_id.as_str());
                self.session.set_active_thread(thread_id);
                text
            },
            Err(error) => joined_text("Failed to start Codex thread:\n", error.as_str()),
        }
    }
}

/// The session after an event of the turn.
pub open spec fn session_after_event<C, J, R>(
    session: SessionView<C, J, R>,
    event: TurnEventView<R>,
) -> SessionView<C, J, R> {
    match event {
        TurnEventView::ThreadReady(thread_id) => SessionView {
            active_thread_id: Some(thread_id),
            ..session
        },
        TurnEventView::TurnStarted(turn_id) => SessionView {
            active_turn_id: Some(turn_id),
            ..session
        },
        TurnEventView::ApprovalRequested(approval) => SessionView {
            pending_approval: Some(approval),
            ..session
        },
        _ => session,
    }
}

/// The progress after an event of the turn: what the assistant writes is always shown, other
/// words only as long as nothing is shown.
pub open spec fn progress_after_event<R>(
    progress: ProgressView,
    event: TurnEventView<R>,
) -> ProgressView {
    match event {
        TurnEventView::AssistantDelta(text) => progress.updated(text),
        TurnEventView::Status(text) => if progress.current().len() == 0 {
            progress.updated(text)
        } else {
            progress
        },
        TurnEventView::ApprovalRequested(_) => if progress.current().len() == 0 {
            progress.updated("Waiting for approval..."@)
        } else {
            progress
        },
        _ => progress,
    }
}

/// What the host is to do after an event of the turn.
#[derive(Debug)]
pub struct EventReply<R> {
    /// Whether the message of the turn should read something else now.
    pub redraw: bool,
    /// What is sent to the chat.
    pub message: Option<String>,
    /// The answer to an approval that is no longer waited for.
    pub resolution: Option<Resolution<R>>,
}

impl<C, J, R> App<C, J, R> {
    /// Takes in an event of the turn that `progress` shows and says what is to be done.
    pub fn handle_turn_event(&mut self, progress: &mut ProgressRenderer, event: TurnEvent<R>) -> (
    reply: EventReply<R>)
        ensures
            final(self)@ == (AppView {
                session: session_after_event(old(self)@.session, event@),
                ..old(self)@
            }),
            final(progress)@ == progress_after_event(old(progress)@, event@),
            reply.redraw == (final(progress)@.desired != old(progress)@.desired),
            text::text_view(reply.message) == match event@ {
                TurnEventView::ApprovalRequested(approval) => Some(approval.message),
                _ => None,
            },
            reply.resolution == match event@ {
                TurnEventView::ApprovalRequested(_) => old(self)@.session.answered(
                    ApprovalDecision::Cancel,
                ),
                _ => None,
            },
            old(self)@.well_formed() ==> final(self)@.well_formed(),
    {
        match event {
            TurnEvent::ThreadReady(thread_id) => {
                self.session.set_active_thread(thread_id);
                EventReply { redraw: false, message: None, resolution: None }
            },
            TurnEvent::TurnStarted(turn_id) => {
                self.session.set_active_turn_id(turn_id);
                EventReply { redraw: false, message: None, resolution: None }
            },
            TurnEvent::AssistantDelta(text) => EventReply {
                redraw: progress.update(text.as_str()),
                message: None,
                resolution: None,
            },
            TurnEvent::Status(text) => EventReply {
                redraw: progress.current_text().as_str().is_empty() && progress.update(
                    text.as_str(),
                ),
                message: None,
                resolution: None,
            },
            TurnEvent::ApprovalRequested(approval) => {
                let message = approval.message.clone();
                let resolution = self.session.set_pending_approval(approval);
                let redraw = progress.current_text().as_str().is_empty() && progress.update(
                    "Waiting for approval...",
                );
                EventReply { redraw, message: Some(message), resolution }
            },
        }
    }
}

/// The text that a turn ends with, for better or worse.
pub open spec fn closing_text(
    outcome: Result<TurnResultView, Seq<char>>,
    shown: Seq<char>,
) -> Seq<char> {
    match outcome {
        Ok(result) => render::final_text(result, shown),
        Err(error) => "Turn failed:\n"@ + error,
    }
}

/// The outcome of a turn as mathematics.
pub open spec fn outcome_view(outcome: Result<TurnRunResult, String>) -> Result<
    TurnResultView,
    Seq<char>,
> {
    match outcome {
        Ok(result) => Ok(result@),
        Err(error) => Err(error@),
    }
}

/// Ends a turn: its message is to read the text that it ends with.
pub fn conclude_turn(progress: &mut ProgressRenderer, outcome: Result<TurnRunResult, String>)
    ensures
        final(progress)@ == old(progress)@.finished(
            closing_text(outcome_view(outcome), old(progress)@.current()),
        ),
{
    let text = match &outcome {
        Ok(result) => finalize_text(result, progress.current_text().as_str()),
        Err(error) => joined_text("Turn failed:\n", error.as_str()),
    };
    progress.finish(text.as_str());
}

/// A message that gives no command changes nothing, and nothing but a text to the chat can come
/// of it.
pub proof fn law_only_commands_count<C, J, R>(app: AppView<C, J, R>, message: MessageView)
    requires
        !(admission(app.config.telegram_allowed_user_id, message) is Command),
    ensures
        app_after_message(app, message) == app,
        match action_for_message(app, message) {
            ActionView::Ignore => true,
            ActionView::Fail(_) => true,
            ActionView::Dismiss { chat_id, .. } => chat_id == message.chat_id,
            ActionView::Send { chat_id, .. } => chat_id == message.chat_id,
            _ => false,
        },
{
}

/// Nothing is done about messages of chats that are not private.
pub proof fn law_private_chats_only<C, J, R>(app: AppView<C, J, R>, message: MessageView)
    requires
        message.chat_kind != "private"@,
    ensures
        app_after_message(app, message) == app,
        action_for_message(app, message) is Ignore,
{
}

/// Where one user is allowed, any other user is turned away, whatever the message says.
pub proof fn law_others_are_turned_away<C, J, R>(
    app: AppView<C, J, R>,
    message: MessageView,
    allowed: i64,
    user: i64,
)
    requires
        app.config.telegram_allowed_user_id == Some(allowed),
        message.chat_kind == "private"@,
        message.from == Some(user),
        user != allowed,
    ensures
        app_after_message(app, message) == app,
        action_for_message(app, message) == (ActionView::<C, R>::Dismiss {
            chat_id: message.chat_id,
            text: "Unauthorized user."@,
        }),
{
}

/// Where no user is named, any user is allowed.
pub proof fn law_anybody_without_a_named_user<C, J, R>(
    app: AppView<C, J, R>,
    message: MessageView,
    user: i64,
)
    requires
        app.config.telegram_allowed_user_id is None,
        message.chat_kind == "private"@,
        message.from == Some(user),
        message.text matches Some(text) && text::trimmed(text).len() > 0,
    ensures
        app_after_message(app, message) == app_after(
            app,
            commands::command_of(message.text->0),
        ),
        action_for_message(app, message) == action_for(
            app,
            message.chat_id,
            commands::command_of(message.text->0),
        ),
{
    commands::law_surrounding_space_does_not_matter(message.text->0);
}

/// While a turn runs, no thread is started or chosen, the working directory stays, and no second
/// turn is launched: the user is told to stop the turn first.
pub proof fn law_one_turn_at_a_time<C, J, R>(
    app: AppView<C, J, R>,
    chat_id: i64,
    command: BotCommandView,
)
    requires
        app.busy(),
        command is New || command is Use || command is Cwd || command is Prompt,
    ensures
        app_after(app, command) == app,
        action_for(app, chat_id, command) == (ActionView::<C, R>::Send {
            chat_id,
            text: if command is Prompt {
                "A turn is already running. Use /stop first."@
            } else {
                "A turn is running. Use /stop first."@
            },
        }),
{
}

/// Without a thread, a prompt is answered with the advice to run `/new`.
pub proof fn law_prompt_needs_a_thread<C, J, R>(
    app: AppView<C, J, R>,
    chat_id: i64,
    prompt: Seq<char>,
)
    requires
        !app.busy(),
        app.session.active_thread_id is None,
    ensures
        app_after(app, BotCommandView::Prompt(prompt)) == app,
        action_for(app, chat_id, BotCommandView::Prompt(prompt)) == (ActionView::<C, R>::Send {
            chat_id,
            text: "No active thread. Run /new first."@,
        }),
{
}

/// A thread that was started or chosen gets the prompts that follow, as they were written.
pub proof fn law_prompts_go_to_the_thread<C, J, R>(
    app: AppView<C, J, R>,
    chat_id: i64,
    thread_id: Seq<char>,
    prompt: Seq<char>,
)
    requires
        !app.busy(),
    ensures
        app_after(app, BotCommandView::Use(thread_id)) == app.with_thread(thread_id),
        action_for(app.with_thread(thread_id), chat_id, BotCommandView::Prompt(prompt)) == (
        ActionView::<C, R>::StartTurn { chat_id, text: "Thinking..."@, thread_id, prompt }),
{
}

/// `/stop` gives up the turn that runs and answers the approval that it waits for with `Cancel`;
/// a second `/stop` finds nothing to do.
pub proof fn law_stop_stops<C, J, R>(app: AppView<C, J, R>, chat_id: i64)
    ensures
        ({
            let after = app_after(app, BotCommandView::Stop);
            &&& !after.busy()
            &&& after.session.pending_approval is None
            &&& match action_for(app, chat_id, BotCommandView::Stop) {
                ActionView::Stop { cancellation, text, .. } => {
                    &&& cancellation.cancel == app.session.active_turn_cancel
                    &&& cancellation.resolution == app.session.answered(ApprovalDecision::Cancel)
                    &&& app.busy() ==> text == "Stop requested."@
                },
                _ => false,
            }
            &&& action_for(after, chat_id, BotCommandView::Stop) == (ActionView::<C, R>::Stop {
                cancellation: Cancellation { cancel: None, resolution: None },
                chat_id,
                text: "No active turn."@,
            })
        }),
{
}

/// An approval is answered once: after `/approve` or `/deny` has answered it, there is none to
/// answer.
pub proof fn law_approval_is_answered_once<C, J, R>(
    app: AppView<C, J, R>,
    chat_id: i64,
    command: BotCommandView,
    again: BotCommandView,
)
    requires
        command is Approve || command is Deny,
        again is Approve || again is Deny,
        action_for(app, chat_id, command) is Answer,
    ensures
        app.session.pending_approval is Some,
        app_after(app, command).session.pending_approval is None,
        action_for(app_after(app, command), chat_id, again) == (ActionView::<C, R>::Send {
            chat_id,
            text: "No pending approval."@,
        }),
        app_after(app_after(app, command), again) == app_after(app, command),
{
}

/// An approval for the whole session is given only where the app-server offers it; where it does
/// not, the approval stays open.
pub proof fn law_session_approval_must_be_offered<C, J, R>(app: AppView<C, J, R>, chat_id: i64)
    requires
        app.session.pending_approval is Some,
    ensures
        ({
            let command = BotCommandView::Approve { for_session: true };
            if app.session.pending_approval->0.allow_accept_for_session {
                action_for(app, chat_id, command) matches ActionView::Answer { resolution, .. }
                    && resolution == (Resolution {
                    responder: app.session.pending_approval->0.responder,
                    decision: ApprovalDecision::AcceptForSession,
                })
            } else {
                &&& action_for(app, chat_id, command) is Send
                &&& app_after(app, command) == app
            }
        }),
{
}

/// The index under which a directory is listed chooses this directory.
pub proof fn law_listed_index_chooses<C, J, R>(app: AppView<C, J, R>, index: nat)
    requires
        !app.busy(),
        index < app.session.cwd_history.len(),
        index <= usize::MAX,
    ensures
        app_after(app, commands::command_of("/cwd "@ + text::decimal(index))) == app.moved_to(
            app.session.cwd_history[index as int],
        ),
{
    text::law_numeral_is_read_back(index, usize::MAX as nat);
    commands::law_cwd_names_the_place(text::decimal(index));
}

/// No command but `/cwd` changes the working directory, and none changes the configuration.
pub proof fn law_commands_keep_the_rest<C, J, R>(app: AppView<C, J, R>, command: BotCommandView)
    ensures
        app_after(app, command).config == app.config,
        app_after(app, command).telegram == app.telegram,
        !(command is Cwd) ==> app_after(app, command).codex == app.codex
            && app_after(app, command).session.active_cwd == app.session.active_cwd
            && app_after(app, command).session.cwd_history == app.session.cwd_history,
        !(command is Use) ==> app_after(app, command).session.active_thread_id
            == app.session.active_thread_id,
        !(command is Stop) ==> app_after(app, command).session.active_turn_cancel
            == app.session.active_turn_cancel,
{
}

/// What the assistant has written is not covered by other words.
pub proof fn law_assistant_text_stays_visible<R>(
    progress: ProgressView,
    shown: Seq<char>,
    event: TurnEventView<R>,
)
    requires
        shown.len() > 0,
        !progress.closed,
        !(event is AssistantDelta),
    ensures
        progress_after_event(progress.updated(shown), event) == progress.updated(shown),
        progress.updated(shown).current() == shown,
{
}

/// A turn that fails is told so, and nothing that comes later replaces its last words.
pub proof fn law_a_turn_ends_once<R>(
    progress: ProgressView,
    outcome: Result<TurnResultView, Seq<char>>,
    event: TurnEventView<R>,
)
    ensures
        ({
            let ended = progress.finished(closing_text(outcome, progress.current()));
            progress_after_event(ended, event) == ended
        }),
{
}

/// The progress after a step of the turn.
pub open spec fn progress_after_step<R>(
    progress: ProgressView,
    step: TurnStepView<R>,
) -> ProgressView {
    match step {
        TurnStepView::Go(Some(event)) => progress_after_event(progress, event),
        _ => progress,
    }
}

/// The turn after everything in `transcript` has come from the app-server.
pub open spec fn turn_after_all(turn: TurnView, transcript: Seq<IncomingView>) -> TurnView
    decreases transcript.len(),
{
    if transcript.len() == 0 {
        turn
    } else {
        codex::turn_after(turn_after_all(turn, transcript.drop_last()), transcript.last())
    }
}

/// The progress after everything in `transcript` has come from the app-server.
pub open spec fn progress_after_all<R>(
    turn: TurnView,
    progress: ProgressView,
    transcript: Seq<IncomingView>,
) -> ProgressView
    decreases transcript.len(),
{
    if transcript.len() == 0 {
        progress
    } else {
        let front = transcript.drop_last();
        progress_after_step(
            progress_after_all::<R>(turn, progress, front),
            codex::step_after::<R>(turn_after_all(turn, front), transcript.last()),
        )
    }
}

/// A turn that was asked to stop, or that Codex interrupted, counts as interrupted whatever comes
/// later.
pub proof fn law_an_interrupted_turn_stays_so(turn: TurnView, transcript: Seq<IncomingView>)
    requires
        turn.interrupted,
    ensures
        turn_after_all(turn, transcript).interrupted,
    decreases transcript.len(),
{
    if transcript.len() > 0 {
        let front = transcript.drop_last();
        law_an_interrupted_turn_stays_so(turn, front);
        codex::law_messages_keep_the_turn(turn_after_all(turn, front), transcript.last());
    }
}

/// Whatever comes from the app-server, the message of the turn should read what the assistant has
/// written, once it has written something.
pub proof fn law_the_message_follows_the_assistant<R>(
    turn: TurnView,
    progress: ProgressView,
    transcript: Seq<IncomingView>,
)
    requires
        turn.assistant_text.len() == 0,
        !progress.closed,
    ensures
        ({
            let text = turn_after_all(turn, transcript).assistant_text;
            let after = progress_after_all::<R>(turn, progress, transcript);
            &&& !after.closed
            &&& text.len() > 0 ==> after.desired == text
        }),
    decreases transcript.len(),
{
    if transcript.len() > 0 {
        let front = transcript.drop_last();
        law_the_message_follows_the_assistant::<R>(turn, progress, front);
        codex::law_the_chat_sees_the_text::<R>(turn_after_all(turn, front), transcript.last());
    }
}

/// A turn in which the assistant has written something ends with the text that its message should
/// read already.
pub proof fn law_the_stream_ends_with_the_answer<R>(
    turn: TurnView,
    progress: ProgressView,
    transcript: Seq<IncomingView>,
)
    requires
        turn.assistant_text.len() == 0,
        !progress.closed,
        turn_after_all(turn, transcript).assistant_text.len() > 0,
    ensures
        ({
            let ended = turn_after_all(turn, transcript);
            let shown = progress_after_all::<R>(turn, progress, transcript);
            let result = TurnResultView {
                assistant_text: ended.assistant_text,
                interrupted: ended.interrupted,
                last_status: ended.last_status,
            };
            &&& closing_text(Ok(result), shown.current()) == ended.assistant_text
            &&& shown.desired == ended.assistant_text
        }),
{
    law_the_message_follows_the_assistant::<R>(turn, progress, transcript);
}

} // verus!
