//! An instrumentation adapter for an EVM interpreter loop.
//!
//! A host holds one [`Customizable`] handle per execution context and calls
//! its hooks at fixed points of execution. The handle owns one observer
//! behind the [`CustomizableInspector`] interface, forwards every hook to it,
//! and gives the observer back by concrete type once execution is over.

pub mod context;
pub mod dispatch;
pub mod erased;
pub mod evm;
pub mod handle;
pub mod inspector;

pub use context::{DatabaseError, InnerEvmContextWrap, StateAccessor};
pub use erased::{AnyBox, AnyMut, AnyRef};
pub use handle::{taken, Customizable};
pub use inspector::{BoxedInspector, CustomizableInspector, DefaultInspector, Hook};
