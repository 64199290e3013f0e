//! Scoped handles over the heap of a script engine.
//!
//! The engine owns its objects and collects them when it sees fit. The host
//! therefore never holds an address of the engine's heap. It holds a
//! [`scope::Local`]: a handle that names one object and is bound to the scope
//! it was made in. Scopes nest and close innermost first, and a handle is of
//! use only while its scope is open: every call that reads through a handle
//! asks for that in its `requires`, and [`scope::HandleScope::is_live`] tells
//! it at run time. One isolate has one `HandleScope`, and a handle means
//! something only to the `HandleScope` through which it was made.
//!
//! * [`heap`] holds the heap as contracts speak of it: a sequence of objects
//!   named by address, and what each call of the engine makes of it.
//! * [`isolate`] holds the heap itself, an arena, and those calls.
//! * [`scope`] holds scopes and handles, and the one place where an address
//!   that the engine returned becomes a handle or the absence of one.
//! * [`context`], [`template`] and [`object`] hold the typed calls on
//!   contexts, templates and the objects made from them.
//! * [`laws`] holds what is true across calls.
use vstd::prelude::*;

pub mod context;
pub mod heap;
pub mod isolate;
pub mod laws;
pub mod object;
pub mod scope;
pub mod template;
pub mod value;
