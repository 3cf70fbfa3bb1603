//! The decision logic of a terminal coding agent: the conversation state that
//! the agent loop and the user interface share, the line editor of the input
//! box, and the handling of the tool calls that the language model requests.

pub mod agent_responses;
pub mod interface;
pub mod text;
pub mod tools;
