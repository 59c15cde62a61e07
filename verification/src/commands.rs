//! What the commands compute: from the arguments to what is asked of the
//! outside services, and from their answers to what is sent.

pub mod boosts;
pub mod nhentai;
pub mod serverlist;
pub mod tldr;
pub mod translate;
pub mod weather;
