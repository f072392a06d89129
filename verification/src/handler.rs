//! What is called when the clipboard changes.

use crate::messages::ClipBoardListenMessage;
use vstd::prelude::*;

verus! {

/// `std::io::Error`, carried through unopened.
#[verifier::external_type_specification]
#[verifier::external_body]
pub struct ExIoError(std::io::Error);

/// The duration of so many milliseconds, as `core::time::Duration::from_millis` makes it.
pub uninterp spec fn duration_of_millis(millis: u64) -> core::time::Duration;

/// `core::time::Duration::from_millis`: what it returns is settled by the number of milliseconds.
/// Nothing is said of what a duration is made of.
pub assume_specification[ core::time::Duration::from_millis ](millis: u64) -> (duration:
    core::time::Duration)
    ensures
        duration == duration_of_millis(millis),
;

/// Possible return values of callback.
pub enum CallbackResult {
    /// Wait for next clipboard change.
    Next,
    /// Stop handling messages.
    Stop,
    /// Special variant to propagate IO Error from callback.
    StopWithError(std::io::Error),
}

impl CallbackResult {
    /// With what the handling of messages ends, if it does.
    pub open spec fn ending(self) -> Option<Result<(), std::io::Error>> {
        match self {
            CallbackResult::Next => None,
            CallbackResult::Stop => Some(Ok(())),
            CallbackResult::StopWithError(error) => Some(Err(error)),
        }
    }

    /// With what the handling of messages ends, if it does.
    pub fn conclusion(self) -> (conclusion: Option<Result<(), std::io::Error>>)
        ensures
            conclusion == self.ending(),
    {
        match self {
            CallbackResult::Next => None,
            CallbackResult::Stop => Some(Ok(())),
            CallbackResult::StopWithError(error) => Some(Err(error)),
        }
    }
}

/// Describes Clipboard handler
pub trait ClipboardHandler {
    /// Callback to call on clipboard change.
    fn on_clipboard_change(&mut self) -> CallbackResult;

    /// Called when Wayland announces an existing selection at listener startup.
    /// Defaults to a normal change notification.
    /// This callback is not guaranteed on startup and is not a readiness signal.
    /// An empty initial selection produces no callback. An initial selection batched
    /// with a later change is reported through `on_clipboard_change()` instead.
    fn on_clipboard_initial_selection(&mut self) -> (result: CallbackResult)
        default_ensures
            exists|handler: &mut Self|
                #![trigger call_ensures(Self::on_clipboard_change, (handler,), result)]
                &*handler == &*old(self) && &*final(handler) == &*final(self) && call_ensures(
                    Self::on_clipboard_change,
                    (handler,),
                    result,
                ),
    {
        self.on_clipboard_change()
    }

    /// Callback to call on when error happens in master.
    fn on_clipboard_error(&mut self, error: std::io::Error) -> (result: CallbackResult)
        default_ensures
            result == CallbackResult::StopWithError(error),
            &*final(self) == &*old(self),
    {
        CallbackResult::StopWithError(error)
    }

    /// Returns sleep interval for polling implementations (e.g. Mac).
    ///
    /// Default value is 500ms
    #[inline(always)]
    fn sleep_interval(&self) -> (interval: core::time::Duration)
        default_ensures
            interval == duration_of_millis(500),
    {
        core::time::Duration::from_millis(500)
    }
}

/// Tells a handler of a message: the selection that existed at startup goes to
/// `on_clipboard_initial_selection()`, every other one to `on_clipboard_change()`.
pub fn notify<H: ClipboardHandler>(handler: &mut H, message: &ClipBoardListenMessage) -> (result:
    CallbackResult)
    ensures
        message@.is_initial ==> exists|called: &mut H|
            #![trigger call_ensures(H::on_clipboard_initial_selection, (called,), result)]
            *called == *old(handler) && *final(called) == *final(handler) && call_ensures(
                H::on_clipboard_initial_selection,
                (called,),
                result,
            ),
        !message@.is_initial ==> exists|called: &mut H|
            #![trigger call_ensures(H::on_clipboard_change, (called,), result)]
            *called == *old(handler) && *final(called) == *final(handler) && call_ensures(
                H::on_clipboard_change,
                (called,),
                result,
            ),
{
    if message.is_initial {
        handler.on_clipboard_initial_selection()
    } else {
        handler.on_clipboard_change()
    }
}

/// Settles what a wait for a message came to: with what the handling of messages ends, if it does.
/// A message and an error go to their callbacks, whose result decides. An error that comes while
/// the exit flag is raised, as `exit` tells, is the end that was asked for, and no callback hears
/// of it.
pub fn settle<H: ClipboardHandler>(
    handler: &mut H,
    outcome: Result<ClipBoardListenMessage, std::io::Error>,
    exit: bool,
) -> (conclusion: Option<Result<(), std::io::Error>>)
    ensures
        outcome is Err && exit ==> conclusion == Some(Ok::<(), std::io::Error>(()))
            && *final(handler) == *old(handler),
        outcome matches Err(error) ==> !exit ==> exists|called: &mut H, result: CallbackResult|
            #![trigger call_ensures(H::on_clipboard_error, (called, error), result)]
            *called == *old(handler) && *final(called) == *final(handler) && call_ensures(
                H::on_clipboard_error,
                (called, error),
                result,
            ) && conclusion == result.ending(),
        outcome matches Ok(message) && message@.is_initial ==> exists|
            called: &mut H,
            result: CallbackResult,
        |
            #![trigger call_ensures(H::on_clipboard_initial_selection, (called,), result)]
            *called == *old(handler) && *final(called) == *final(handler) && call_ensures(
                H::on_clipboard_initial_selection,
                (called,),
                result,
            ) && conclusion == result.ending(),
        outcome matches Ok(message) && !message@.is_initial ==> exists|
            called: &mut H,
            result: CallbackResult,
        |
            #![trigger call_ensures(H::on_clipboard_change, (called,), result)]
            *called == *old(handler) && *final(called) == *final(handler) && call_ensures(
                H::on_clipboard_change,
                (called,),
                result,
            ) && conclusion == result.ending(),
{
    let result = match outcome {
        Ok(message) => notify(handler, &message),
        Err(error) => {
            if exit {
                return Some(Ok(()));
            }
            handler.on_clipboard_error(error)
        },
    };
    result.conclusion()
}

/// With what the handling of messages ends where the listener could not be initialized: with the
/// error, unless the exit flag is raised, as `exit` tells.
pub fn settle_startup(error: std::io::Error, exit: bool) -> (conclusion: Result<(), std::io::Error>)
    ensures
        conclusion == (if exit {
            Ok::<(), std::io::Error>(())
        } else {
            Err(error)
        }),
{
    if exit {
        Ok(())
    } else {
        Err(error)
    }
}

} // verus!
