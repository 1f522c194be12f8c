use vstd::prelude::*;
use crate::domain::Environment;

verus! {

/// What the interface knows of the session.
#[derive(Debug, Clone)]
pub struct UIState {
    pub cwd: String,
    pub conversation_id: Option<String>,
}

impl UIState {
    /// The state at the start of a session: the working directory of `env`
    /// and no conversation.
    pub fn new(env: Environment) -> (out: UIState)
        ensures
            out.cwd == env.cwd,
            out.conversation_id is None,
    {
        UIState { cwd: env.cwd, conversation_id: None }
    }

    /// Sets the working directory.
    pub fn cwd(self, cwd: String) -> (out: UIState)
        ensures
            out.cwd == cwd,
            out.conversation_id == self.conversation_id,
    {
        UIState { cwd, conversation_id: self.conversation_id }
    }

    /// Sets the conversation.
    pub fn conversation_id(self, conversation_id: String) -> (out: UIState)
        ensures
            out.cwd == self.cwd,
            out.conversation_id == Some(conversation_id),
    {
        UIState { cwd: self.cwd, conversation_id: Some(conversation_id) }
    }
}

impl Default for UIState {
    fn default() -> (out: UIState)
        ensures
            out.cwd@.len() == 0,
            out.conversation_id is None,
    {
        UIState { cwd: String::new(), conversation_id: None }
    }
}

} // verus!
