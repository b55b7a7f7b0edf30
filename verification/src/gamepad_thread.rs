//! The gamepad worker: which operation a pressed button sends to the audio
//! worker, and when the worker ends.
//!
//! Polling the gamepads and waiting on the queue of the worker belong to the
//! caller, which runs the loop. What a button or the queue calls for is
//! decided here.

use crate::config::gamepad_switch;
use crate::config::Config;
use crate::error::GamepadThreadError;
use crate::error::GamepadThreadErrorView;
use crate::keys::Button;
use crate::sound_thread::Operation;
use crate::sound_thread::SendOperationError;
use crate::sound_thread::SoundThreadRpc;
use vstd::prelude::*;

verus! {

/// What the gamepad worker is asked to do.
#[derive(Debug, Copy, Clone, PartialEq, Eq, Structural)]
pub enum GamepadOperation {
    Stop,
}

/// What happened while the gamepad worker polled.
#[derive(Debug, PartialEq, Eq)]
pub enum GamepadInput {
    /// A button of a gamepad was pressed.
    ButtonPressed { device_id: usize, button: Button },
    /// A gamepad reported anything else.
    Other,
    /// An operation arrived on the queue of the worker.
    Received { operation: GamepadOperation },
    /// The wait on the queue timed out.
    Timeout,
    /// The queue was closed; `source` is the queue's report.
    Disconnected { source: String },
}

/// What the gamepad worker does next.
#[derive(Debug, PartialEq, Eq)]
pub enum GamepadNext {
    /// Go on polling.
    Continue,
    /// Leave the loop with this result.
    Exit { result: Result<(), GamepadThreadError> },
}

/// The operation that a pressed button sends to the audio worker: that of
/// the switch which the button triggers, if it triggers one.
pub open spec fn button_operation(config: crate::config::ConfigView, device_id: usize, button: Button) -> Option<
    Operation,
> {
    match gamepad_switch(config.switches, device_id, button) {
        Some(i) => Some(Operation::SwitchPressed { switch_ref: config.switches[i].switch_ref }),
        None => None,
    }
}

/// The gamepad worker's share of the decisions.
pub struct GamepadThreadBody {
    config: Config,
    sound_thread_rpc: SoundThreadRpc,
}

impl GamepadThreadBody {
    /// The configuration by which the worker resolves buttons.
    pub closed spec fn config(&self) -> Config {
        self.config
    }

    /// The handle by which the worker submits operations to the audio
    /// worker.
    pub closed spec fn sound_thread_rpc(&self) -> SoundThreadRpc {
        self.sound_thread_rpc
    }

    pub fn new(config: Config, sound_thread_rpc: SoundThreadRpc) -> (body: Self)
        ensures
            body.config() == config,
            body.sound_thread_rpc() == sound_thread_rpc,
    {
        GamepadThreadBody { config, sound_thread_rpc }
    }

    /// The operation that a pressed button sends to the audio worker.
    pub fn button_operation(&self, device_id: usize, button: Button) -> (operation: Option<
        Operation,
    >)
        requires
            self.config().wf(),
        ensures
            operation == button_operation(self.config()@, device_id, button),
    {
        match self.config.find_switch_for_gamepad_button(device_id, button) {
            Some(switch_config) => Some(
                Operation::SwitchPressed { switch_ref: switch_config.switch_ref },
            ),
            None => None,
        }
    }

    /// Sends the operation of a pressed button to the audio worker. A button
    /// that triggers no switch sends nothing and cannot fail; sending fails
    /// when the audio worker has gone.
    pub fn handle_gamepad_button(&self, device_id: usize, button: Button) -> (result: Result<
        (),
        GamepadThreadError,
    >)
        requires
            self.config().wf(),
        ensures
            button_operation(self.config()@, device_id, button) is None ==> result is Ok,
            result matches Err(error) ==> error@ == GamepadThreadErrorView::SendSoundThread,
    {
        match self.forward_gamepad_button(device_id, button) {
            Some(sent) => Self::forwarded(sent.is_ok()),
            None => Ok(()),
        }
    }

    /// Hands the operation of a pressed button to the queue of the audio
    /// worker and says what the send came to. A button that triggers no
    /// switch hands over nothing. A send that fails gives the operation
    /// back.
    pub fn forward_gamepad_button(&self, device_id: usize, button: Button) -> (sent: Option<
        Result<(), SendOperationError>,
    >)
        requires
            self.config().wf(),
        ensures
            sent is None <==> button_operation(self.config()@, device_id, button) is None,
            sent matches Some(Err(error)) ==> Some(error.operation) == button_operation(
                self.config()@,
                device_id,
                button,
            ),
    {
        match self.button_operation(device_id, button) {
            Some(Operation::SwitchPressed { switch_ref }) => Some(
                self.sound_thread_rpc.switch_pressed(switch_ref),
            ),
            _ => None,
        }
    }

    /// What a button press comes to once its operation was sent, or could
    /// not be.
    pub fn forwarded(sent: bool) -> (result: Result<(), GamepadThreadError>)
        ensures
            sent ==> result is Ok,
            !sent ==> (result matches Err(error) && error@
                == GamepadThreadErrorView::SendSoundThread),
    {
        if sent {
            Ok(())
        } else {
            Err(GamepadThreadError::SendSoundThread)
        }
    }

    /// What the worker does after an input, given what handling a button
    /// press came to: it goes on, unless it is told to stop, its queue was
    /// closed, or the operation of a button could not be sent.
    pub fn next(input: GamepadInput, handled: Result<(), GamepadThreadError>) -> (next: GamepadNext)
        ensures
            next == after_input(input, handled),
    {
        match input {
            GamepadInput::ButtonPressed { device_id, button } => match handled {
                Ok(()) => GamepadNext::Continue,
                Err(error) => GamepadNext::Exit { result: Err(error) },
            },
            GamepadInput::Other => GamepadNext::Continue,
            GamepadInput::Received { operation } => match operation {
                GamepadOperation::Stop => GamepadNext::Exit { result: Ok(()) },
            },
            GamepadInput::Timeout => GamepadNext::Continue,
            GamepadInput::Disconnected { source } => GamepadNext::Exit {
                result: Err(GamepadThreadError::Recv2 { source }),
            },
        }
    }

    /// Takes an input of the worker: sends the operation of a pressed
    /// button, and says what the worker does next.
    pub fn step(&self, input: GamepadInput) -> (next: GamepadNext)
        requires
            self.config().wf(),
        ensures
            input matches GamepadInput::ButtonPressed { device_id, button } ==> {
                ||| next == after_input(input, Ok(()))
                ||| button_operation(self.config()@, device_id, button) is Some && next
                    == after_input(input, Err(GamepadThreadError::SendSoundThread))
            },
            !(input is ButtonPressed) ==> next == after_input(input, Ok(())),
    {
        let handled = match &input {
            GamepadInput::ButtonPressed { device_id, button } => {
                let handled = self.handle_gamepad_button(*device_id, *button);
                proof {
                    if handled is Err {
                        assert(handled->Err_0 == GamepadThreadError::SendSoundThread);
                    }
                }
                handled
            },
            _ => Ok(()),
        };
        Self::next(input, handled)
    }
}

/// What the worker does after an input, given what handling a button press
/// came to.
pub open spec fn after_input(input: GamepadInput, handled: Result<(), GamepadThreadError>) -> GamepadNext {
    match input {
        GamepadInput::ButtonPressed { device_id, button } => match handled {
            Ok(()) => GamepadNext::Continue,
            Err(error) => GamepadNext::Exit { result: Err(error) },
        },
        GamepadInput::Other => GamepadNext::Continue,
        GamepadInput::Received { operation } => GamepadNext::Exit { result: Ok(()) },
        GamepadInput::Timeout => GamepadNext::Continue,
        GamepadInput::Disconnected { source } => GamepadNext::Exit {
            result: Err(GamepadThreadError::Recv2 { source }),
        },
    }
}

/// An operation to stop ends the worker without an error, whatever else
/// happened.
pub proof fn lemma_stop_ends_worker(handled: Result<(), GamepadThreadError>)
    ensures
        after_input(GamepadInput::Received { operation: GamepadOperation::Stop }, handled)
            == (GamepadNext::Exit { result: Ok(()) }),
{
}

} // verus!
