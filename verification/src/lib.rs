//! The verified core of a screen-aware assistant.
//!
//! Its main part captures the screen without the assistant's own window:
//! pixel-format normalisation ([`pixel`]), lossless image encoding
//! ([`encoder`]), text-safe transport encoding ([`transport`]), the decision
//! logic of the capture strategies ([`exclusion`], [`hide_restore`],
//! [`fallback`]) and of the orchestrator that sequences them
//! ([`orchestrator`]). Beside it stand the rules of the exchange with the
//! assistant model ([`exchange`]).
//!
//! Nothing here touches a window, a display or the network. A strategy is a
//! state machine: it names the next thing for the host to do, and takes what
//! the host found. The executable functions carry contracts over
//! mathematical models of the data (`Seq<u8>` for buffers, `Seq<char>` for
//! text), and the properties that relate several functions are stated as
//! public proof functions.

pub mod encoder;
pub mod error;
pub mod exchange;
pub mod exclusion;
pub mod fallback;
pub mod hide_restore;
pub mod orchestrator;
pub mod outcome;
pub mod pixel;
pub mod transport;
