use vstd::prelude::*;

verus! {

/// Why an invocation of the bridge command failed.
///
/// Each variant carries the message of the underlying error.
pub enum BridgeError {
    /// The request could not be sent or no response arrived
    /// (name resolution, connection refused, timeout).
    Transport(String),
    /// A response arrived but its body could not be read as text.
    Decode(String),
}

impl BridgeError {
    /// The message carried by the error, whatever its kind.
    pub open spec fn description(&self) -> Seq<char> {
        match self {
            BridgeError::Transport(m) => m@,
            BridgeError::Decode(m) => m@,
        }
    }

    /// Whether the error came from the transport.
    pub fn is_transport(&self) -> (r: bool)
        ensures
            r == (self is Transport),
    {
        match self {
            BridgeError::Transport(_) => true,
            BridgeError::Decode(_) => false,
        }
    }

    /// A copy of the message carried by the error.
    pub fn message(&self) -> (r: String)
        ensures
            r@ == self.description(),
    {
        match self {
            BridgeError::Transport(m) => m.clone(),
            BridgeError::Decode(m) => m.clone(),
        }
    }

    /// The message carried by the error, consuming it.
    pub fn into_message(self) -> (r: String)
        ensures
            r@ == self.description(),
    {
        match self {
            BridgeError::Transport(m) => m,
            BridgeError::Decode(m) => m,
        }
    }
}

/// What the user interface receives: the body text, or a message to show.
pub open spec fn command_result_spec(r: Result<String, BridgeError>) -> Result<Seq<char>, Seq<char>> {
    match r {
        Ok(text) => Ok(text@),
        Err(e) => Err(e.description()),
    }
}

/// The text view of a string-typed result.
pub open spec fn text_result(r: Result<String, String>) -> Result<Seq<char>, Seq<char>> {
    match r {
        Ok(text) => Ok(text@),
        Err(msg) => Err(msg@),
    }
}

/// Collapses a typed result into the string-typed channel of the command
/// boundary: the body text on success, the underlying message on failure.
pub fn command_result(r: Result<String, BridgeError>) -> (out: Result<String, String>)
    ensures
        text_result(out) == command_result_spec(r),
{
    match r {
        Ok(text) => Ok(text),
        Err(e) => Err(e.into_message()),
    }
}

} // verus!
