//! Errors of the direct text-injection path.
//!
//! Delivering transcribed text as simulated keystrokes is OS work the
//! unverified shell performs; this type carries its two failure shapes
//! back into the daemon, where only the rendered message matters.

use vstd::prelude::*;
use vstd::string::StringExecFns;

verus! {

/// A failure while injecting text at the cursor position.
#[derive(Debug)]
pub enum EnigoInputError {
    /// The injection backend could not be initialized.
    InitError(String),
    /// The text could not be typed.
    InputError(String),
}

impl EnigoInputError {
    /// A readable description of the failure.
    pub fn message(&self) -> (r: String)
        ensures
            self matches EnigoInputError::InitError(m) ==> r@ == "Enigo initialization failed: "@
                + m@,
            self matches EnigoInputError::InputError(m) ==> r@ == "Text input failed: "@ + m@,
    {
        match self {
            EnigoInputError::InitError(m) => String::from_str(
                "Enigo initialization failed: ",
            ).concat(m.as_str()),
            EnigoInputError::InputError(m) => String::from_str("Text input failed: ").concat(
                m.as_str(),
            ),
        }
    }
}

} // verus!
