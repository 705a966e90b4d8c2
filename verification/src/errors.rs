//! Native error values used on this side of the FFI boundary.

use vstd::prelude::*;
use vstd::string::StringExecFns;

verus! {

/// An error produced while building a proxy or while dispatching a call.
///
/// `JavaException` is the distinguished variant meaning "a host-runtime
/// exception is pending in the environment, or was already cleared and
/// stashed by the clearing primitives in [`crate::bridge`]".  Every other
/// failure reported by the JNI layer is carried either as a null-pointer
/// report with the name of the site that saw it, or as the text the JNI
/// layer rendered for it.
#[derive(Debug, Clone, PartialEq, Eq)]
pub enum ProxyError {
    /// A host-runtime exception is (or was) pending in the environment.
    JavaException,
    /// A null object handle where a non-null one was required.
    NullPointer(&'static str),
    /// Any other failure of the JNI layer, carried as rendered text.
    Foreign(String),
}

impl ProxyError {
    /// The text that [`ProxyError::describe`] returns, as a sequence of
    /// characters.
    pub open spec fn spec_text(&self) -> Seq<char> {
        match self {
            ProxyError::JavaException => "Java exception was thrown"@,
            ProxyError::NullPointer(site) => "Null pointer in "@ + site@,
            ProxyError::Foreign(msg) => msg@,
        }
    }

    /// Renders the error as one line of text for diagnostics.
    pub fn describe(&self) -> (r: String)
        ensures
            r@ == self.spec_text(),
    {
        match self {
            ProxyError::JavaException => "Java exception was thrown".to_owned(),
            ProxyError::NullPointer(site) => {
                let mut s = "Null pointer in ".to_owned();
                s.append(site);
                s
            },
            ProxyError::Foreign(msg) => msg.clone(),
        }
    }
}

} // verus!
