use vstd::prelude::*;

verus! {

/// Mathematical model of the coordinator state; the generation signature is
/// abstracted as its character sequence.
#[verifier::ext_equal]
pub ghost struct StateModel {
    pub generation_signature: Seq<char>,
    pub base_target: u64,
    pub height: u64,
    pub server_target_deadline: u64,
    pub first: bool,
    pub outage: bool,
    pub best_deadline: u64,
}

impl StateModel {
    /// The sentinel state the coordinator starts from, before any poll has
    /// succeeded: no signature, height zero, and no deadline seen yet.
    pub open spec fn init() -> StateModel {
        StateModel {
            generation_signature: Seq::<char>::empty(),
            base_target: 1,
            height: 0,
            server_target_deadline: u64::MAX,
            first: true,
            outage: false,
            best_deadline: u64::MAX,
        }
    }

    /// `first` marks the time before any poll outcome has been observed, so
    /// no outage can have been recorded yet.
    pub open spec fn inv(self) -> bool {
        self.first ==> !self.outage
    }
}

/// The single shared record of the currently active round and the best
/// deadline seen within it. The polling task and the candidate-collection
/// task both read and write it under exclusive access; all transitions are
/// made through the functions of this crate.
pub struct State {
    /// Identifier of the active round; rounds are told apart by value
    /// equality of this signature, not by height.
    pub generation_signature: String,
    /// Difficulty parameter of the active round.
    pub base_target: u64,
    /// Block height of the active round.
    pub height: u64,
    /// Deadline ceiling advertised by the server for the active round.
    pub server_target_deadline: u64,
    /// True until the first poll outcome (success or failure) is observed.
    pub first: bool,
    /// True iff the most recent poll attempt failed.
    pub outage: bool,
    /// Least adjusted deadline accepted so far in the active round;
    /// `u64::MAX` while none has been accepted.
    pub best_deadline: u64,
}

impl View for State {
    type V = StateModel;

    open spec fn view(&self) -> StateModel {
        StateModel {
            generation_signature: self.generation_signature@,
            base_target: self.base_target,
            height: self.height,
            server_target_deadline: self.server_target_deadline,
            first: self.first,
            outage: self.outage,
            best_deadline: self.best_deadline,
        }
    }
}

impl State {
    /// Creates the startup state with its sentinel values.
    pub fn initial() -> (s: State)
        ensures
            s@ == StateModel::init(),
    {
        let s = State {
            generation_signature: String::new(),
            base_target: 1,
            height: 0,
            server_target_deadline: u64::MAX,
            first: true,
            outage: false,
            best_deadline: u64::MAX,
        };
        proof {
            assert(s@ =~= StateModel::init());
        }
        s
    }
}

} // verus!
