use vstd::prelude::*;

verus! {

/// The number of times a wire message is sent again before giving up.
pub const WIRE_MESSAGE_RETRY_MAX: usize = 10;

/// The errors of a node.
#[derive(Debug)]
pub enum NodeError {
    Io(std::io::Error),
    Serde(bincode::Error),
    ConnectError,
    HandlerInternalError,
    InvalidSignature,
    HydrabadgerHandlerPoll,
    Dhb(hbbft::dynamic_honey_badger::Error),
    HbStep(hbbft::dynamic_honey_badger::Error),
    SyncKeyGenNew(hbbft::sync_key_gen::Error),
    SyncKeyGenGenerate(hbbft::sync_key_gen::Error),
    ProposeUserContributionNotValidator,
    VoteForNotValidator,
    InstantiateHbListenerDropped,
    VerificationMessageReceivedUnknownPeer,
}

impl From<std::io::Error> for NodeError {
    fn from(err: std::io::Error) -> (e: NodeError) {
        NodeError::Io(err)
    }
}

impl vstd::std_specs::convert::FromSpecImpl<std::io::Error> for NodeError {
    open spec fn obeys_from_spec() -> bool {
        true
    }

    open spec fn from_spec(err: std::io::Error) -> NodeError {
        NodeError::Io(err)
    }
}

impl From<bincode::Error> for NodeError {
    fn from(err: bincode::Error) -> (e: NodeError) {
        NodeError::Serde(err)
    }
}

impl vstd::std_specs::convert::FromSpecImpl<bincode::Error> for NodeError {
    open spec fn obeys_from_spec() -> bool {
        true
    }

    open spec fn from_spec(err: bincode::Error) -> NodeError {
        NodeError::Serde(err)
    }
}

impl From<hbbft::dynamic_honey_badger::Error> for NodeError {
    fn from(err: hbbft::dynamic_honey_badger::Error) -> (e: NodeError) {
        NodeError::Dhb(err)
    }
}

impl vstd::std_specs::convert::FromSpecImpl<hbbft::dynamic_honey_badger::Error> for NodeError {
    open spec fn obeys_from_spec() -> bool {
        true
    }

    open spec fn from_spec(err: hbbft::dynamic_honey_badger::Error) -> NodeError {
        NodeError::Dhb(err)
    }
}

} // verus!

verus! {

impl NodeError {
    /// Describes the error. Where it wraps another error, the description
    /// ends with that error's own rendering.
    pub fn message(&self) -> (s: String)
        ensures
            match self {
                NodeError::Io(e) => exists|d: String|
                    vstd::string::to_string_from_display_ensures::<std::io::Error>(e, d) && s@ == "Io error: "@
                        + d@,
                NodeError::Serde(e) => exists|d: String|
                    vstd::string::to_string_from_display_ensures::<bincode::Error>(e, d) && s@ == "Serde error: "@
                        + d@,
                NodeError::ConnectError => s@ == "Connecting error"@,
                NodeError::HandlerInternalError => s@ == "Handler internal error: Handler is None"@,
                NodeError::InvalidSignature => s@ == "Received a message with invalid signature"@,
                NodeError::HydrabadgerHandlerPoll => s@
                    == "Error polling hydrabadger internal receiver"@,
                NodeError::Dhb(_) => s@ == "DynamicHoneyBadger error"@,
                NodeError::HbStep(_) => s@ == "DynamicHoneyBadger step error"@,
                NodeError::SyncKeyGenNew(e) => exists|d: String|
                    vstd::string::to_string_from_display_ensures::<hbbft::sync_key_gen::Error>(e, d) && s@
                        == "Error creating SyncKeyGen: "@ + d@,
                NodeError::SyncKeyGenGenerate(e) => exists|d: String|
                    vstd::string::to_string_from_display_ensures::<hbbft::sync_key_gen::Error>(e, d) && s@
                        == "Error generating keys: "@ + d@,
                NodeError::ProposeUserContributionNotValidator => s@
                    == "Unable to push user transactions, this node is not a validator"@,
                NodeError::VoteForNotValidator => s@
                    == "Unable to vote for a change, this node is not a validator"@,
                NodeError::InstantiateHbListenerDropped => s@
                    == "Unable to transmit epoch status to listener, listener receiver dropped"@,
                NodeError::VerificationMessageReceivedUnknownPeer => s@
                    == "Message received from unknown peer while attempting to verify"@,
            },
    {
        match self {
            NodeError::Io(e) => {
                let d = e.to_string();
                let mut s = String::from_str("Io error: ");
                s.append(d.as_str());
                s
            },
            NodeError::Serde(e) => {
                let d = e.to_string();
                let mut s = String::from_str("Serde error: ");
                s.append(d.as_str());
                s
            },
            NodeError::ConnectError => String::from_str("Connecting error"),
            NodeError::HandlerInternalError => String::from_str(
                "Handler internal error: Handler is None",
            ),
            NodeError::InvalidSignature => String::from_str(
                "Received a message with invalid signature",
            ),
            NodeError::HydrabadgerHandlerPoll => String::from_str(
                "Error polling hydrabadger internal receiver",
            ),
            NodeError::Dhb(_) => String::from_str("DynamicHoneyBadger error"),
            NodeError::HbStep(_) => String::from_str("DynamicHoneyBadger step error"),
            NodeError::SyncKeyGenNew(e) => {
                let d = e.to_string();
                let mut s = String::from_str("Error creating SyncKeyGen: ");
                s.append(d.as_str());
                s
            },
            NodeError::SyncKeyGenGenerate(e) => {
                let d = e.to_string();
                let mut s = String::from_str("Error generating keys: ");
                s.append(d.as_str());
                s
            },
            NodeError::ProposeUserContributionNotValidator => String::from_str(
                "Unable to push user transactions, this node is not a validator",
            ),
            NodeError::VoteForNotValidator => String::from_str(
                "Unable to vote for a change, this node is not a validator",
            ),
            NodeError::InstantiateHbListenerDropped => String::from_str(
                "Unable to transmit epoch status to listener, listener receiver dropped",
            ),
            NodeError::VerificationMessageReceivedUnknownPeer => String::from_str(
                "Message received from unknown peer while attempting to verify",
            ),
        }
    }
}

} // verus!
