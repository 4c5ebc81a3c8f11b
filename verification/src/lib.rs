//! The conversation loop of a console chat client, as a verified state
//! machine: what to print, what to ask of the completion service and when to
//! stop, decided from the lines the user types and the replies that come back.

pub mod conversation;
pub mod error;
pub mod laws;
pub mod policy;
pub mod replay;
pub mod text;
pub mod wording;
