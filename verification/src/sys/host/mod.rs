//! What both host terminals share: the scripts that the host evaluates, the cookies that tell
//! requests apart, and the meaning of the host's replies.

pub mod cookie;
pub mod laws;
pub mod reply;
pub mod request;
pub mod scripts;
