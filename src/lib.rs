//! A rewrite pass over JavaScript expression trees that routes `typeof`
//! through a runtime helper, so that Symbol values are classified correctly
//! in environments without native Symbol support.

pub mod ast;
pub mod pass;

pub use pass::TypeOfSymbol;
