//! What a front end shows of the device: whether it is there, and whether a
//! payload was run on it.

use vstd::prelude::*;

use crate::error::SwitchError;

verus! {

/// What is shown of the device.
#[derive(Debug, Clone, Copy, PartialEq, Eq, Structural)]
pub enum State {
    /// No usable device is attached.
    NotAvailable,
    /// A device is attached and waits for a payload.
    Available,
    /// A payload was run on the device.
    Done,
}

/// The state that is shown, and how it follows the device.
#[derive(Debug, Clone, Copy, PartialEq, Eq, Structural)]
pub struct SwitchData {
    state: State,
}

impl SwitchData {
    /// The state that is shown.
    pub closed spec fn spec_state(&self) -> State {
        self.state
    }

    /// The state that follows `state` when the search for the device came
    /// to `found`: `Done` stays until it is reset.
    pub open spec fn state_after(state: State, found: Result<(), SwitchError>) -> State {
        if state == State::Done {
            State::Done
        } else if found is Ok {
            State::Available
        } else {
            State::NotAvailable
        }
    }

    /// Whether a failed search is told to the user: not once a payload was
    /// run, and not where there is only no device.
    pub open spec fn is_told(state: State, error: SwitchError) -> bool {
        state != State::Done && error != SwitchError::SwitchNotFound
    }

    /// Create some new Switch data: no device was seen yet.
    pub fn new() -> (data: SwitchData)
        ensures
            data.spec_state() == State::NotAvailable,
    {
        SwitchData { state: State::NotAvailable }
    }

    /// Check if we need to change our current state, given what the search
    /// for the device came to. That no device is attached is no error.
    pub fn update_state(&mut self, found: Result<(), SwitchError>) -> (result: Result<
        State,
        SwitchError,
    >)
        ensures
            final(self).spec_state() == Self::state_after(old(self).spec_state(), found),
            match found {
                Err(error) if Self::is_told(old(self).spec_state(), error) => result == Err::<
                    State,
                    SwitchError,
                >(error),
                _ => result == Ok::<State, SwitchError>(final(self).spec_state()),
            },
    {
        match self.state {
            State::Done => {
                return Ok(self.state);
            },
            _ => {},
        }
        match found {
            Ok(_) => {
                self.state = State::Available;
                Ok(self.state)
            },
            Err(error) => {
                self.state = State::NotAvailable;
                match error {
                    SwitchError::SwitchNotFound => Ok(self.state),
                    _ => Err(error),
                }
            },
        }
    }

    /// Takes note of what the execution of a payload came to: after a
    /// success the state is `Done`, after a failure it stays.
    pub fn execute(&mut self, outcome: Result<(), SwitchError>) -> (result: Result<(), SwitchError>)
        ensures
            outcome is Ok ==> result is Ok,
            outcome matches Err(error) ==> result == Err::<(), SwitchError>(error),
            outcome is Ok ==> final(self).spec_state() == State::Done,
            outcome is Err ==> final(self).spec_state() == old(self).spec_state(),
    {
        match outcome {
            Ok(_) => {
                self.state = State::Done;
                Ok(())
            },
            Err(error) => Err(error),
        }
    }

    /// Makes the front end look for the device again.
    pub fn reset_state(&mut self)
        ensures
            final(self).spec_state() == State::NotAvailable,
    {
        self.state = State::NotAvailable;
    }

    /// The state that is shown.
    #[verifier::when_used_as_spec(spec_state)]
    pub fn state(&self) -> (state: State)
        ensures
            state == self.spec_state(),
    {
        self.state
    }
}

/// Once a payload was run, the state stays `Done` whatever the search for
/// the device comes to, and nothing is told of a failed search.
pub proof fn lemma_done_stays(found: Result<(), SwitchError>)
    ensures
        SwitchData::state_after(State::Done, found) == State::Done,
        found matches Err(error) ==> !SwitchData::is_told(State::Done, error),
{
}

} // verus!
