//! Nested types of `TrafficToServer`.
use vstd::prelude::*;

use vstd::string::StringSliceAdditionalSpecFns;

verus! {

/// The stage of a stream of traffic from the client to the server.
#[derive(Clone, Copy, Debug, PartialEq, Eq, Hash, PartialOrd, Ord, Structural)]
pub enum Action {
    /// start to send the traffic.
    /// the server expects only receiving `Start` action once.
    Start,
    /// sending the traffic.
    Sending,
    /// finish sending the traffic.
    /// the server expects only receiving `Finished` action once.
    Finished,
    /// the client sends the Close action to tell the server to close the user connection,
    /// generally when it can't dial the local upstream.
    Close,
}

/// The number that encodes an action on the wire.
pub open spec fn action_code(a: Action) -> int {
    match a {
        Action::Start => 0,
        Action::Sending => 1,
        Action::Finished => 2,
        Action::Close => 3,
    }
}

/// The action that a wire number encodes, if any.
pub open spec fn action_of_code(v: int) -> Option<Action> {
    if v == 0 {
        Some(Action::Start)
    } else if v == 1 {
        Some(Action::Sending)
    } else if v == 2 {
        Some(Action::Finished)
    } else if v == 3 {
        Some(Action::Close)
    } else {
        None
    }
}

/// The field name of an action in the protocol definition.
pub open spec fn action_name(a: Action) -> Seq<char> {
    match a {
        Action::Start => "Start"@,
        Action::Sending => "Sending"@,
        Action::Finished => "Finished"@,
        Action::Close => "Close"@,
    }
}

/// The action whose field name is `name`, if any.
pub open spec fn action_of_name(name: Seq<char>) -> Option<Action> {
    if name == "Start"@ {
        Some(Action::Start)
    } else if name == "Sending"@ {
        Some(Action::Sending)
    } else if name == "Finished"@ {
        Some(Action::Finished)
    } else if name == "Close"@ {
        Some(Action::Close)
    } else {
        None
    }
}

/// Whether two texts hold the same characters, compared by their bytes.
fn same_text(a: &str, b: &str) -> (r: bool)
    ensures
        r == (a@ == b@),
{
    let x = a.as_bytes();
    let y = b.as_bytes();
    proof {
        vstd::utf8::encode_utf8_decode_utf8(a@);
        vstd::utf8::encode_utf8_decode_utf8(b@);
        assert(x@ == a.spec_bytes());
        assert(y@ == b.spec_bytes());
    }
    if x.len() != y.len() {
        return false;
    }
    let mut i: usize = 0;
    while i < x.len()
        invariant
            x@ == a.spec_bytes(),
            y@ == b.spec_bytes(),
            x@.len() == y@.len(),
            0 <= i <= x@.len(),
            forall|j: int| 0 <= j < i ==> x@[j] == y@[j],
        decreases x.len() - i,
    {
        if x[i] != y[i] {
            return false;
        }
        i = i + 1;
    }
    assert(x@ =~= y@);
    true
}

impl Action {
    /// String value of the enum field names used in the ProtoBuf definition.
    pub fn as_str_name(&self) -> (r: &'static str)
        ensures
            r@ == action_name(*self),
    {
        match self {
            Action::Start => "Start",
            Action::Sending => "Sending",
            Action::Finished => "Finished",
            Action::Close => "Close",
        }
    }

    /// Creates an enum from field names used in the ProtoBuf definition.
    pub fn from_str_name(value: &str) -> (r: Option<Self>)
        ensures
            r == action_of_name(value@),
    {
        if same_text(value, "Start") {
            Some(Action::Start)
        } else if same_text(value, "Sending") {
            Some(Action::Sending)
        } else if same_text(value, "Finished") {
            Some(Action::Finished)
        } else if same_text(value, "Close") {
            Some(Action::Close)
        } else {
            None
        }
    }

    /// The number that encodes this action on the wire.
    pub fn to_i32(&self) -> (r: i32)
        ensures
            r == action_code(*self),
    {
        match self {
            Action::Start => 0,
            Action::Sending => 1,
            Action::Finished => 2,
            Action::Close => 3,
        }
    }

    /// Decodes a wire number; numbers that name no action give `None`.
    pub fn from_i32(value: i32) -> (r: Option<Self>)
        ensures
            r == action_of_code(value as int),
    {
        if value == 0 {
            Some(Action::Start)
        } else if value == 1 {
            Some(Action::Sending)
        } else if value == 2 {
            Some(Action::Finished)
        } else if value == 3 {
            Some(Action::Close)
        } else {
            None
        }
    }
}

/// The actions in the order the protocol declares them.
pub open spec fn declared_actions() -> Seq<Action> {
    seq![Action::Start, Action::Sending, Action::Finished, Action::Close]
}

/// The wire number of an action is its place in the order the protocol
/// declares the actions (Start, Sending, Finished, Close), counted from
/// zero; exactly the numbers below four name an action.
pub proof fn lemma_action_codes_follow_declaration(a: Action, v: int)
    ensures
        0 <= action_code(a) < declared_actions().len(),
        declared_actions()[action_code(a)] == a,
        action_of_code(v) is Some <==> 0 <= v < declared_actions().len(),
        0 <= v < declared_actions().len() ==> action_of_code(v) == Some(declared_actions()[v]),
{
}

/// Decoding the wire number of an action gives the action back, and no two
/// actions share a number.
pub proof fn lemma_action_code_roundtrip(a: Action, b: Action)
    ensures
        action_of_code(action_code(a)) == Some(a),
        action_code(a) == action_code(b) ==> a == b,
{
}

/// Reading back the field name of an action gives the action, and no two
/// actions share a name.
pub proof fn lemma_action_name_roundtrip(a: Action, b: Action)
    ensures
        action_of_name(action_name(a)) == Some(a),
        action_name(a) == action_name(b) ==> a == b,
{
    reveal_strlit("Start");
    reveal_strlit("Sending");
    reveal_strlit("Finished");
    reveal_strlit("Close");
    // the names differ in their first or second character
    assert("Start"@[0] == 'S' && "Sending"@[0] == 'S' && "Close"@[0] == 'C');
    assert("Finished"@[0] == 'F');
    assert("Start"@[1] == 't' && "Sending"@[1] == 'e');
}

} // verus!
