//! Reactive tracking scopes: the positional hook sequence of a reactive scope, the
//! dependencies it subscribes to, and the rules that decide when it runs again.
pub mod hook_steps;
pub mod hooks;
pub mod outside;
pub mod tracking_scope;
