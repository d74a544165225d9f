//! The rewrites behind the flow-checking macros: each reads syntax whose opaque
//! parts are numbered fragments, and says what code to emit.
pub mod attrs;
pub mod fcall;
pub mod mcall;
pub mod pc_block;
pub mod syntax;
