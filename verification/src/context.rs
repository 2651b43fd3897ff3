//! The engine context, modeled down to the one piece of its state this
//! layer reads: the per-context last-error slot.
//!
//! The native engine keeps, for every context, the details of the most
//! recent failed operation; a later call on the same context may overwrite
//! or clear them.  That slot is explicit state here, owned by the
//! [`Context`] value, written when an operation fails and read only through
//! [`crate::error::Error::new`], which returns an owned snapshot, never a
//! borrowed view into the slot.

use crate::error::ErrorView;
use crate::error::opt_str_view;
use vstd::prelude::*;

verus! {

/// The contents of the last-error slot: what the engine recorded about the
/// most recent failed operation on one context.  The engine may populate
/// any subset of the three texts.
pub struct LastError {
    pub errcode: u32,
    pub msg: Option<String>,
    pub path: Option<String>,
    pub apptag: Option<String>,
}

impl View for LastError {
    type V = ErrorView;

    open spec fn view(&self) -> ErrorView {
        ErrorView {
            errcode: self.errcode,
            msg: opt_str_view(self.msg),
            path: opt_str_view(self.path),
            apptag: opt_str_view(self.apptag),
        }
    }
}

/// A context of the native engine, with its last-error slot as explicit
/// state.  A context views as the state of that slot: `None` when no
/// failure is recorded.
///
/// The slot is not safe for concurrent mutation: when several operations
/// race on one context it reflects only the most recent failure, so callers
/// must serialize operations per context to keep a reliable
/// error-to-operation correspondence.
pub struct Context {
    pub(crate) last_error: Option<LastError>,
}

impl View for Context {
    type V = Option<ErrorView>;

    open(crate) spec fn view(&self) -> Option<ErrorView> {
        match self.last_error {
            Option::None => Option::None,
            Option::Some(e) => Option::Some(e@),
        }
    }
}

impl Context {
    /// A fresh context: no failure recorded yet.
    pub fn new() -> (c: Context)
        ensures
            c@ is None,
    {
        Context { last_error: Option::None }
    }

    /// Records a failed operation: the slot now holds exactly the given
    /// record, overwriting whatever it held before.
    pub fn record_error(&mut self, e: LastError)
        ensures
            final(self)@ == Option::Some(e@),
    {
        self.last_error = Option::Some(e);
    }

    /// Clears the slot, as a successful operation on the context does.
    pub fn clear_error(&mut self)
        ensures
            final(self)@ is None,
    {
        self.last_error = Option::None;
    }

    /// Whether the context currently has a failure recorded.
    pub fn has_error(&self) -> (b: bool)
        ensures
            b == (self@ is Some),
    {
        self.last_error.is_some()
    }
}

} // verus!
