//! What the operations promise, said of their arguments and results alone.
//!
//! A law speaks of the results of calls: `call_ensures(f, args, r)` says that `r`
//! is what `f` returned for `args`. Where a text holds a name, the law says it with
//! the result of the function that gives that name.
pub mod channels;
pub mod chat;
pub mod names;
pub mod people;
pub mod reading;
pub mod servers;
pub mod text;
pub mod updates;
