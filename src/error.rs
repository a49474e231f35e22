use vstd::prelude::*;
use vstd::string::*;

verus! {

/// Everything that can go wrong while checking one dependency.
#[derive(Clone, Debug)]
pub enum CheckError {
    /// The constraint text is not a valid range expression.
    ConstraintParse { constraint: String },
    /// The version text is not a valid semantic version.
    VersionParse { version: String },
    /// The registry could not be reached.
    Transport { message: String },
    /// The registry's answer could not be decoded.
    Decode { message: String },
}

impl CheckError {
    /// The human-readable text of this error.
    pub open spec fn message_spec(&self) -> Seq<char> {
        match self {
            CheckError::ConstraintParse { constraint } => "invalid version constraint: "@ + constraint@,
            CheckError::VersionParse { version } => "invalid version: "@ + version@,
            CheckError::Transport { message } => message@,
            CheckError::Decode { message } => message@,
        }
    }

    pub fn message(&self) -> (r: String)
        ensures
            r@ == self.message_spec(),
    {
        match self {
            CheckError::ConstraintParse { constraint } => {
                let mut s = String::from_str("invalid version constraint: ");
                s.append(constraint.as_str());
                s
            },
            CheckError::VersionParse { version } => {
                let mut s = String::from_str("invalid version: ");
                s.append(version.as_str());
                s
            },
            CheckError::Transport { message } => message.clone(),
            CheckError::Decode { message } => message.clone(),
        }
    }
}

} // verus!
