use vstd::prelude::*;

verus! {

/// State of a DFU device, as it reports it in its status.
#[derive(Debug, Clone, Copy, PartialEq, Eq, Structural)]
pub enum State {
    AppIdle,
    AppDetach,
    DfuIdle,
    DfuDnloadSync,
    DfuDnbusy,
    DfuDnloadIdle,
    DfuManifestSync,
    DfuManifest,
    DfuManifestWaitReset,
    DfuUploadIdle,
    DfuError,
}

impl State {
    /// The code that stands for the state on the wire.
    pub open spec fn code(self) -> u8 {
        match self {
            State::AppIdle => 0,
            State::AppDetach => 1,
            State::DfuIdle => 2,
            State::DfuDnloadSync => 3,
            State::DfuDnbusy => 4,
            State::DfuDnloadIdle => 5,
            State::DfuManifestSync => 6,
            State::DfuManifest => 7,
            State::DfuManifestWaitReset => 8,
            State::DfuUploadIdle => 9,
            State::DfuError => 10,
        }
    }

    /// The state that has the code `code`, if any.
    pub open spec fn of_code(code: u8) -> Option<State> {
        match code {
            0 => Some(State::AppIdle),
            1 => Some(State::AppDetach),
            2 => Some(State::DfuIdle),
            3 => Some(State::DfuDnloadSync),
            4 => Some(State::DfuDnbusy),
            5 => Some(State::DfuDnloadIdle),
            6 => Some(State::DfuManifestSync),
            7 => Some(State::DfuManifest),
            8 => Some(State::DfuManifestWaitReset),
            9 => Some(State::DfuUploadIdle),
            10 => Some(State::DfuError),
            _ => None,
        }
    }

    /// The state that `code` stands for, if any.
    pub fn from_code(code: u8) -> (r: Option<State>)
        ensures
            r == State::of_code(code),
    {
        match code {
            0 => Some(State::AppIdle),
            1 => Some(State::AppDetach),
            2 => Some(State::DfuIdle),
            3 => Some(State::DfuDnloadSync),
            4 => Some(State::DfuDnbusy),
            5 => Some(State::DfuDnloadIdle),
            6 => Some(State::DfuManifestSync),
            7 => Some(State::DfuManifest),
            8 => Some(State::DfuManifestWaitReset),
            9 => Some(State::DfuUploadIdle),
            10 => Some(State::DfuError),
            _ => None,
        }
    }
}

/// A state is found again by its code, and nothing is found by what is no code of a state.
pub proof fn law_state_codes(state: State, code: u8)
    ensures
        State::of_code(state.code()) == Some(state),
        State::of_code(code) == Some(state) ==> state.code() == code,
        State::of_code(code) is None <==> code > 10,
{
}

} // verus!
