//! How a listener that is ready waits for the next message.

use crate::error::{BackendFailure, FailureCause, ListenError};
use crate::listener;
use crate::listener::{ListenerState, WlClipboardListener};
use std::sync::atomic::{AtomicBool, Ordering};
use vstd::prelude::*;

verus! {

/// How long to pause when there was nothing to read, in milliseconds.
pub const READ_RETRY_INTERVAL: u64 = 30;

/// Tells that the selection was set.
#[derive(Debug)]
pub struct ClipBoardListenMessage {
    /// The types offered since the message before.
    pub _mime_types: Vec<String>,
    /// Whether it is the selection that existed at startup.
    pub is_initial: bool,
}

/// What a message says.
#[verifier::ext_equal]
pub struct Notice {
    pub mime_types: Seq<Seq<char>>,
    pub is_initial: bool,
}

impl View for ClipBoardListenMessage {
    type V = Notice;

    open spec fn view(&self) -> Notice {
        Notice { mime_types: listener::texts(self._mime_types@), is_initial: self.is_initial }
    }
}

/// What a step of [`WlClipboardListener::get_message`] came to.
pub enum MessageEvent {
    /// A message is wanted.
    Started,
    /// The event queue was locked, or not, and why not.
    Locked(Result<(), String>),
    /// Whether the exit flag is raised.
    Checked { exit: bool },
    /// The requests were flushed, or not, and why not.
    Flushed(Result<(), String>),
    /// Whether the read was prepared.
    Prepared(bool),
    /// So many bytes were read.
    Read(Result<usize, BackendFailure>),
    /// The events that were read were dispatched, or not, and why not.
    Dispatched(Result<(), String>),
    /// The pause is over.
    Paused,
}

/// A step of [`WlClipboardListener::get_message`].
pub enum MessageAction {
    /// Lock the event queue.
    Lock,
    /// Look at the exit flag.
    Check,
    Flush,
    PrepareRead,
    Read,
    /// Dispatch the events that were read.
    Dispatch,
    /// Pause for so many milliseconds.
    Pause(u64),
    /// Here is the message.
    Deliver(ClipBoardListenMessage),
    /// There will be no message.
    Fail(ListenError),
}

/// What a step of `get_message` is, with what its message says.
pub enum MessageStep {
    Lock,
    Check,
    Flush,
    PrepareRead,
    Read,
    Dispatch,
    Pause(u64),
    Deliver(Notice),
    Fail(ListenError),
}

impl View for MessageAction {
    type V = MessageStep;

    open spec fn view(&self) -> MessageStep {
        match *self {
            MessageAction::Lock => MessageStep::Lock,
            MessageAction::Check => MessageStep::Check,
            MessageAction::Flush => MessageStep::Flush,
            MessageAction::PrepareRead => MessageStep::PrepareRead,
            MessageAction::Read => MessageStep::Read,
            MessageAction::Dispatch => MessageStep::Dispatch,
            MessageAction::Pause(millis) => MessageStep::Pause(millis),
            MessageAction::Deliver(message) => MessageStep::Deliver(message@),
            MessageAction::Fail(error) => MessageStep::Fail(error),
        }
    }
}

impl ListenerState {
    /// The message that is due.
    pub open spec fn notice(self) -> Notice {
        Notice { mime_types: self.mime_types, is_initial: self.initial_selection }
    }

    /// The step of `get_message` that follows. A finished device comes before the exit flag, and
    /// the exit flag before a message that is due.
    pub open spec fn message_step(self, event: MessageEvent) -> MessageStep {
        match event {
            MessageEvent::Started => if self.queue_attached {
                MessageStep::Lock
            } else {
                MessageStep::Fail(ListenError::QueueMissing)
            },
            MessageEvent::Locked(Ok(())) => MessageStep::Check,
            MessageEvent::Locked(Err(cause)) => MessageStep::Fail(ListenError::Lock(cause)),
            MessageEvent::Checked { exit } => match self.terminated_reason {
                Some(protocol) => MessageStep::Fail(ListenError::DeviceFinished(protocol)),
                None => if exit {
                    MessageStep::Fail(ListenError::Exit)
                } else if self.copied {
                    MessageStep::Deliver(self.notice())
                } else {
                    MessageStep::Flush
                },
            },
            MessageEvent::Flushed(Ok(())) => MessageStep::PrepareRead,
            MessageEvent::Flushed(Err(cause)) => MessageStep::Fail(ListenError::Flush(cause)),
            MessageEvent::Prepared(true) => MessageStep::Read,
            MessageEvent::Prepared(false) => MessageStep::Fail(ListenError::PrepareRead),
            MessageEvent::Read(Ok(count)) if count > 0 => MessageStep::Dispatch,
            MessageEvent::Read(Ok(_)) => MessageStep::Pause(READ_RETRY_INTERVAL),
            MessageEvent::Read(Err(failure)) if failure.cause == FailureCause::WouldBlock =>
                MessageStep::Pause(READ_RETRY_INTERVAL),
            MessageEvent::Read(Err(failure)) => MessageStep::Fail(
                ListenError::Read(failure.message),
            ),
            MessageEvent::Dispatched(Ok(())) => match self.terminated_reason {
                Some(protocol) => MessageStep::Fail(ListenError::DeviceFinished(protocol)),
                None => MessageStep::Check,
            },
            MessageEvent::Dispatched(Err(cause)) => MessageStep::Fail(
                ListenError::DispatchPending(cause),
            ),
            MessageEvent::Paused => MessageStep::Check,
        }
    }

    /// The state after a step of `get_message`: a finished device is reported once, and so is a
    /// selection, whose types go with the message.
    pub open spec fn after_message(self, event: MessageEvent) -> ListenerState {
        let looked = match event {
            MessageEvent::Checked { .. } | MessageEvent::Dispatched(Ok(())) => ListenerState {
                terminated_reason: None,
                ..self
            },
            _ => self,
        };
        if self.message_step(event) is Deliver {
            ListenerState { copied: false, mime_types: Seq::empty(), ..looked }
        } else {
            looked
        }
    }
}

impl WlClipboardListener {
    /// Takes a step of waiting for the next message.
    pub fn get_message(&mut self, event: MessageEvent) -> (action: MessageAction)
        ensures
            action@ == old(self)@.message_step(event),
            final(self)@ == old(self)@.after_message(event),
            final(self).exit_flag == old(self).exit_flag,
    {
        match event {
            MessageEvent::Started => {
                if self.queue_attached {
                    MessageAction::Lock
                } else {
                    MessageAction::Fail(ListenError::QueueMissing)
                }
            },
            MessageEvent::Locked(outcome) => match outcome {
                Ok(()) => MessageAction::Check,
                Err(cause) => MessageAction::Fail(ListenError::Lock(cause)),
            },
            MessageEvent::Checked { exit } => {
                if let Some(protocol) = self.terminated_reason.take() {
                    MessageAction::Fail(ListenError::DeviceFinished(protocol))
                } else if exit {
                    MessageAction::Fail(ListenError::Exit)
                } else if self.copied {
                    // Initialization may already have dispatched a selection event.
                    self.copied = false;
                    MessageAction::Deliver(self.take_message())
                } else {
                    MessageAction::Flush
                }
            },
            MessageEvent::Flushed(outcome) => match outcome {
                Ok(()) => MessageAction::PrepareRead,
                Err(cause) => MessageAction::Fail(ListenError::Flush(cause)),
            },
            MessageEvent::Prepared(prepared) => {
                if prepared {
                    MessageAction::Read
                } else {
                    MessageAction::Fail(ListenError::PrepareRead)
                }
            },
            MessageEvent::Read(outcome) => match outcome {
                Ok(count) => {
                    if count > 0 {
                        MessageAction::Dispatch
                    } else {
                        MessageAction::Pause(READ_RETRY_INTERVAL)
                    }
                },
                Err(failure) => {
                    if matches!(failure.cause, FailureCause::WouldBlock) {
                        MessageAction::Pause(READ_RETRY_INTERVAL)
                    } else {
                        MessageAction::Fail(ListenError::Read(failure.message))
                    }
                },
            },
            MessageEvent::Dispatched(outcome) => match outcome {
                Ok(()) => {
                    if let Some(protocol) = self.terminated_reason.take() {
                        MessageAction::Fail(ListenError::DeviceFinished(protocol))
                    } else {
                        MessageAction::Check
                    }
                },
                Err(cause) => MessageAction::Fail(ListenError::DispatchPending(cause)),
            },
            MessageEvent::Paused => MessageAction::Check,
        }
    }

    /// Makes a message of the selection and the types, which leave the listener.
    fn take_message(&mut self) -> (message: ClipBoardListenMessage)
        ensures
            message@ == old(self)@.notice(),
            final(self)@ == (ListenerState { mime_types: Seq::empty(), ..old(self)@ }),
            final(self).exit_flag == old(self).exit_flag,
    {
        let mut mime_types: Vec<String> = Vec::new();
        core::mem::swap(&mut mime_types, &mut self.mime_types);
        assert(listener::texts(self.mime_types@) =~= Seq::empty());
        ClipBoardListenMessage { _mime_types: mime_types, is_initial: self.initial_selection }
    }

    /// Looks at the exit flag: the event tells what the load of it gave. Other threads raise it at
    /// any time, so either reading of it is possible.
    pub fn check_exit(&self) -> (event: MessageEvent)
        ensures
            exists|exit: bool|
                #[trigger] call_ensures(
                    AtomicBool::load,
                    (&*self.exit_flag, Ordering::Relaxed),
                    exit,
                ) && event == (MessageEvent::Checked { exit }),
    {
        MessageEvent::Checked { exit: self.exit_flag.load(Ordering::Relaxed) }
    }
}

} // verus!
