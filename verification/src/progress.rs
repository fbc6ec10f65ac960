//! The message of the chat in which a turn shows its progress.
//!
//! The turn says what the message should read, as often as it likes. The message is edited no
//! more often than [`TELEGRAM_EDIT_THROTTLE_MILLIS`] allows, except for the first edit and for
//! the final text.

use crate::text::same_text;
use vstd::prelude::*;
use vstd::string::*;

verus! {

/// How long after an edit the next one has to wait, in milliseconds.
pub const TELEGRAM_EDIT_THROTTLE_MILLIS: u64 = 400;

/// The progress of a turn and the message that shows it.
#[derive(Debug)]
pub struct ProgressRenderer {
    chat_id: i64,
    message_id: i64,
    desired: String,
    rendered: String,
    closed: bool,
}

/// The progress as mathematics.
pub struct ProgressView {
    pub chat_id: i64,
    pub message_id: i64,
    /// What the message should read.
    pub desired: Seq<char>,
    /// What it was last edited to.
    pub rendered: Seq<char>,
    /// Whether the text is final.
    pub closed: bool,
}

impl View for ProgressRenderer {
    type V = ProgressView;

    closed spec fn view(&self) -> ProgressView {
        ProgressView {
            chat_id: self.chat_id,
            message_id: self.message_id,
            desired: self.desired@,
            rendered: self.rendered@,
            closed: self.closed,
        }
    }
}

/// What is to be done about the message.
#[derive(Debug)]
pub enum RenderStep {
    /// The message reads the final text.
    Finished,
    /// There is nothing to do until the text changes.
    WaitForChange,
    /// The next edit has to wait, until its time comes or the text changes.
    WaitForTime,
    /// The message is to be edited.
    Edit { chat_id: i64, message_id: i64, text: String },
}

/// What is to be done about the message, as mathematics.
pub enum RenderStepView {
    Finished,
    WaitForChange,
    WaitForTime,
    Edit { chat_id: i64, message_id: i64, text: Seq<char> },
}

impl View for RenderStep {
    type V = RenderStepView;

    open spec fn view(&self) -> RenderStepView {
        match self {
            RenderStep::Finished => RenderStepView::Finished,
            RenderStep::WaitForChange => RenderStepView::WaitForChange,
            RenderStep::WaitForTime => RenderStepView::WaitForTime,
            RenderStep::Edit { chat_id, message_id, text } => RenderStepView::Edit {
                chat_id: *chat_id,
                message_id: *message_id,
                text: text@,
            },
        }
    }
}

impl ProgressView {
    /// The progress after the turn has said that the message should read `text`.
    pub open spec fn updated(self, text: Seq<char>) -> ProgressView {
        if self.closed {
            self
        } else {
            ProgressView { desired: text, ..self }
        }
    }

    /// The progress after the turn has ended with the final text `text`.
    pub open spec fn finished(self, text: Seq<char>) -> ProgressView {
        ProgressView { desired: text, closed: true, ..self }
    }

    /// The progress after the message has been edited to `text`.
    pub open spec fn edited(self, text: Seq<char>) -> ProgressView {
        ProgressView { rendered: text, ..self }
    }

    /// The text that counts: what the message should read, or else what it reads.
    pub open spec fn current(self) -> Seq<char> {
        if self.desired.len() == 0 {
            self.rendered
        } else {
            self.desired
        }
    }

    /// What is to be done; `allowed` says whether the last edit is long enough ago.
    pub open spec fn step(self, allowed: bool) -> RenderStepView {
        if self.desired == self.rendered {
            if self.closed {
                RenderStepView::Finished
            } else {
                RenderStepView::WaitForChange
            }
        } else if self.rendered.len() == 0 || self.closed || allowed {
            RenderStepView::Edit {
                chat_id: self.chat_id,
                message_id: self.message_id,
                text: self.desired,
            }
        } else {
            RenderStepView::WaitForTime
        }
    }

    /// Whether the message reads the final text.
    pub open spec fn settled(self) -> bool {
        self.closed && self.rendered == self.desired
    }
}

impl ProgressRenderer {
    /// The progress of a turn that has said nothing yet.
    pub fn new(chat_id: i64, message_id: i64) -> (progress: ProgressRenderer)
        ensures
            progress@ == (ProgressView {
                chat_id,
                message_id,
                desired: Seq::empty(),
                rendered: Seq::empty(),
                closed: false,
            }),
    {
        proof {
            reveal_strlit("");
        }
        let progress = ProgressRenderer {
            chat_id,
            message_id,
            desired: "".to_owned(),
            rendered: "".to_owned(),
            closed: false,
        };
        assert(progress@.desired =~= Seq::empty());
        assert(progress@.rendered =~= Seq::empty());
        progress
    }

    /// Says that the message should read `text`. Tells whether that is a change.
    pub fn update(&mut self, text: &str) -> (changed: bool)
        ensures
            final(self)@ == old(self)@.updated(text@),
            changed == (!old(self)@.closed && old(self)@.desired != text@),
    {
        if self.closed || same_text(self.desired.as_str(), text) {
            return false;
        }
        self.desired = text.to_owned();
        true
    }

    /// Says that the turn has ended and the message should read `text` for good.
    pub fn finish(&mut self, text: &str)
        ensures
            final(self)@ == old(self)@.finished(text@),
    {
        self.desired = text.to_owned();
        self.closed = true;
    }

    /// The text that counts.
    pub fn current_text(&self) -> (text: String)
        ensures
            text@ == self@.current(),
    {
        if self.desired.as_str().is_empty() {
            self.rendered.clone()
        } else {
            self.desired.clone()
        }
    }

    /// What is to be done about the message; `allowed` says whether the last edit is long enough
    /// ago.
    pub fn run(&self, allowed: bool) -> (step: RenderStep)
        ensures
            step@ == self@.step(allowed),
    {
        if same_text(self.desired.as_str(), self.rendered.as_str()) {
            if self.closed {
                RenderStep::Finished
            } else {
                RenderStep::WaitForChange
            }
        } else if self.rendered.as_str().is_empty() || self.closed || allowed {
            RenderStep::Edit {
                chat_id: self.chat_id,
                message_id: self.message_id,
                text: self.desired.clone(),
            }
        } else {
            RenderStep::WaitForTime
        }
    }

    /// Records that the message has been edited to `text`. Tells whether this was the final text.
    pub fn record_edit(&mut self, text: String) -> (settled: bool)
        ensures
            final(self)@ == old(self)@.edited(text@),
            settled == final(self)@.settled(),
    {
        self.rendered = text;
        self.closed && same_text(self.rendered.as_str(), self.desired.as_str())
    }
}

/// The final text is final: no update changes it.
pub proof fn law_final_text_stays(progress: ProgressView, last: Seq<char>, text: Seq<char>)
    ensures
        progress.finished(last).updated(text) == progress.finished(last),
{
}

/// Once the turn has ended, the message is edited to the final text without waiting, unless it
/// reads that already, and with this edit the work is done.
pub proof fn law_final_text_is_rendered(progress: ProgressView, last: Seq<char>, allowed: bool)
    ensures
        match progress.finished(last).step(allowed) {
            RenderStepView::Finished => progress.rendered == last,
            RenderStepView::Edit { chat_id, message_id, text } => {
                &&& chat_id == progress.chat_id
                &&& message_id == progress.message_id
                &&& text == last
                &&& progress.finished(last).edited(text).settled()
                &&& progress.finished(last).edited(text).step(allowed) is Finished
            },
            _ => false,
        },
{
}

/// The message is edited only to a text that differs from what it was last edited to.
pub proof fn law_no_idle_edits(progress: ProgressView, allowed: bool)
    ensures
        progress.step(allowed) matches RenderStepView::Edit { text, .. } ==> text == progress.desired
            && text != progress.rendered,
{
}

/// The first text of a turn is shown at once.
pub proof fn law_first_text_is_not_delayed(progress: ProgressView, text: Seq<char>)
    requires
        !progress.closed,
        progress.rendered.len() == 0,
        text.len() > 0,
    ensures
        progress.updated(text).step(false) == (RenderStepView::Edit {
            chat_id: progress.chat_id,
            message_id: progress.message_id,
            text,
        }),
{
}

/// An edit that is made while the text changes does not count as the last one: the new text is
/// still to be shown.
pub proof fn law_late_text_is_not_lost(progress: ProgressView, shown: Seq<char>, text: Seq<char>)
    requires
        !progress.closed,
        text != shown,
    ensures
        progress.updated(text).edited(shown).step(true) == (RenderStepView::Edit {
            chat_id: progress.chat_id,
            message_id: progress.message_id,
            text,
        }),
        !progress.updated(text).edited(shown).settled(),
{
}

} // verus!
