//! The fixed four-state vocabulary of the Decision State system property.

use vstd::prelude::*;

use crate::ids::text_equals;

verus! {

/// Type-safe options for the Decision State system property.
#[derive(Debug, Clone, Copy, PartialEq, Eq, Hash, Structural)]
pub enum DecisionStateOption {
    Proposed,
    Accepted,
    Rejected,
    Superseded,
}

/// Option id of `Proposed`.
pub const PROPOSED_UUID: u128 = 0x00000001_0000_0000_0015_000000000001u128;

/// Option id of `Accepted`.
pub const ACCEPTED_UUID: u128 = 0x00000001_0000_0000_0015_000000000002u128;

/// Option id of `Rejected`.
pub const REJECTED_UUID: u128 = 0x00000001_0000_0000_0015_000000000003u128;

/// Option id of `Superseded`.
pub const SUPERSEDED_UUID: u128 = 0x00000001_0000_0000_0015_000000000004u128;

/// The stored option id of a decision state.
pub open spec fn decision_option_id(option: DecisionStateOption) -> u128 {
    match option {
        DecisionStateOption::Proposed => PROPOSED_UUID,
        DecisionStateOption::Accepted => ACCEPTED_UUID,
        DecisionStateOption::Rejected => REJECTED_UUID,
        DecisionStateOption::Superseded => SUPERSEDED_UUID,
    }
}

/// The display name of a decision state.
pub open spec fn decision_display(option: DecisionStateOption) -> Seq<char> {
    match option {
        DecisionStateOption::Proposed => "Proposed"@,
        DecisionStateOption::Accepted => "Accepted"@,
        DecisionStateOption::Rejected => "Rejected"@,
        DecisionStateOption::Superseded => "Superseded"@,
    }
}

/// The decision state whose option id is `id`, if any.
pub open spec fn decision_of_id(id: u128) -> Option<DecisionStateOption> {
    if id == PROPOSED_UUID {
        Some(DecisionStateOption::Proposed)
    } else if id == ACCEPTED_UUID {
        Some(DecisionStateOption::Accepted)
    } else if id == REJECTED_UUID {
        Some(DecisionStateOption::Rejected)
    } else if id == SUPERSEDED_UUID {
        Some(DecisionStateOption::Superseded)
    } else {
        None
    }
}

/// The decision state named by `text` (display or snake-case name), if any.
pub open spec fn decision_of_name(text: Seq<char>) -> Option<DecisionStateOption> {
    if text == "Proposed"@ || text == "proposed"@ {
        Some(DecisionStateOption::Proposed)
    } else if text == "Accepted"@ || text == "accepted"@ {
        Some(DecisionStateOption::Accepted)
    } else if text == "Rejected"@ || text == "rejected"@ {
        Some(DecisionStateOption::Rejected)
    } else if text == "Superseded"@ || text == "superseded"@ {
        Some(DecisionStateOption::Superseded)
    } else {
        None
    }
}

impl DecisionStateOption {
    /// The stored option id.
    pub fn uuid(self) -> (id: u128)
        ensures
            id == decision_option_id(self),
    {
        match self {
            DecisionStateOption::Proposed => PROPOSED_UUID,
            DecisionStateOption::Accepted => ACCEPTED_UUID,
            DecisionStateOption::Rejected => REJECTED_UUID,
            DecisionStateOption::Superseded => SUPERSEDED_UUID,
        }
    }

    /// The display name.
    pub fn display_value(self) -> (text: &'static str)
        ensures
            text@ == decision_display(self),
    {
        match self {
            DecisionStateOption::Proposed => "Proposed",
            DecisionStateOption::Accepted => "Accepted",
            DecisionStateOption::Rejected => "Rejected",
            DecisionStateOption::Superseded => "Superseded",
        }
    }

    /// The decision state with the given option id.
    pub fn from_uuid(id: u128) -> (option: Option<Self>)
        ensures
            option == decision_of_id(id),
    {
        if id == PROPOSED_UUID {
            Some(DecisionStateOption::Proposed)
        } else if id == ACCEPTED_UUID {
            Some(DecisionStateOption::Accepted)
        } else if id == REJECTED_UUID {
            Some(DecisionStateOption::Rejected)
        } else if id == SUPERSEDED_UUID {
            Some(DecisionStateOption::Superseded)
        } else {
            None
        }
    }

    /// Parses a display or snake-case name; unknown names are an error naming the input.
    pub fn try_from(value: &str) -> (parsed: Result<Self, String>)
        ensures
            match parsed {
                Ok(option) => decision_of_name(value@) == Some(option),
                Err(message) => decision_of_name(value@) is None && message@
                    == "unknown decision state option: "@ + value@,
            },
    {
        if text_equals(value, "Proposed") || text_equals(value, "proposed") {
            Ok(DecisionStateOption::Proposed)
        } else if text_equals(value, "Accepted") || text_equals(value, "accepted") {
            Ok(DecisionStateOption::Accepted)
        } else if text_equals(value, "Rejected") || text_equals(value, "rejected") {
            Ok(DecisionStateOption::Rejected)
        } else if text_equals(value, "Superseded") || text_equals(value, "superseded") {
            Ok(DecisionStateOption::Superseded)
        } else {
            let mut message = "unknown decision state option: ".to_owned();
            message.append(value);
            Err(message)
        }
    }
}

/// Option ids and names round-trip: every state is found again from its id
/// and from its display name, and only its own id maps to it.
pub proof fn lemma_decision_state_round_trips(option: DecisionStateOption, id: u128)
    ensures
        decision_of_id(decision_option_id(option)) == Some(option),
        decision_of_name(decision_display(option)) == Some(option),
        decision_of_id(id) == Some(option) ==> id == decision_option_id(option),
{
    reveal_strlit("Proposed");
    reveal_strlit("proposed");
    reveal_strlit("Accepted");
    reveal_strlit("accepted");
    reveal_strlit("Rejected");
    reveal_strlit("rejected");
    reveal_strlit("Superseded");
    reveal_strlit("superseded");
    match option {
        DecisionStateOption::Proposed => {},
        DecisionStateOption::Accepted => {
            assert("Accepted"@[0] != "Proposed"@[0]);
            assert("Accepted"@[0] != "proposed"@[0]);
        },
        DecisionStateOption::Rejected => {
            assert("Rejected"@[0] != "Proposed"@[0]);
            assert("Rejected"@[0] != "proposed"@[0]);
            assert("Rejected"@[0] != "Accepted"@[0]);
            assert("Rejected"@[0] != "accepted"@[0]);
        },
        DecisionStateOption::Superseded => {
            assert("Superseded"@[0] != "Proposed"@[0]);
            assert("Superseded"@[0] != "proposed"@[0]);
            assert("Superseded"@[0] != "Accepted"@[0]);
            assert("Superseded"@[0] != "accepted"@[0]);
            assert("Superseded"@[0] != "Rejected"@[0]);
            assert("Superseded"@[0] != "rejected"@[0]);
        },
    }
}

} // verus!
