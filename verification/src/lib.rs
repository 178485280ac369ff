//! Bindings to the Objective-C runtime, in two halves.
//!
//! The first half is what a binding does while it runs: handles and the
//! cells that own a retain unit on an object (`marker`, `objcinstance`,
//! `objectpointers`), autorelease pools (`autorelease`), selectors and
//! classes (`sel`, `class`), and the choice of how a message is sent and how
//! its outcome is read (`arguments`, `performselector`). Nothing here calls
//! the runtime. An operation that goes with a runtime call returns that call
//! for the embedder to make, and `runtime` says what the calls are taken to
//! do to the runtime's retain counts and pools.
//!
//! The second half is what the binding macros expand to: the reading of a
//! macro's arguments (`misc`, `flatten`), the parsing of Objective-C method
//! declarations (`declarations`), the generated source text (`classes`,
//! `instances`, `selectors`, `strings`, `export_name`) and the macros
//! themselves (`expand`).

pub mod arguments;
pub mod autorelease;
pub mod cast;
pub mod class;
pub mod classes;
pub mod declarations;
pub mod expand;
pub mod export_name;
pub mod flatten;
pub mod instances;
pub mod marker;
pub mod misc;
pub mod nserror;
pub mod objcinstance;
pub mod objectpointers;
pub mod performselector;
mod private;
pub mod runtime;
pub mod sel;
pub mod selectors;
pub mod strings;
pub mod text;
pub mod threadsafety;
