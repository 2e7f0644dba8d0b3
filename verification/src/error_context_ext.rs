//! Saying what was going on when an error came up.

use vstd::prelude::*;

use crate::error::Error;

verus! {

/// `message` with the context behind it.
pub open spec fn message_in_context(message: Seq<char>, ctx: Seq<char>) -> Seq<char> {
    message + "; when:("@ + ctx + ")"@
}

/// Adds context to the message of an error.
pub trait ErrorContextExt: Sized {
    /// `with` is this value with `ctx` added to the error in it, if there
    /// is one.
    spec fn in_context(&self, ctx: Seq<char>, with: &Self) -> bool;

    /// Adds `ctx` to the message of the error.
    fn context(self, ctx: &str) -> (r: Self)
        ensures
            self.in_context(ctx@, &r),
    ;
}

impl ErrorContextExt for Error {
    /// The kind stays, and the message grows by the context.
    open spec fn in_context(&self, ctx: Seq<char>, with: &Self) -> bool {
        &&& with.kind == self.kind
        &&& with.message@ == message_in_context(self.message@, ctx)
    }

    fn context(self, ctx: &str) -> (r: Self) {
        let mut message = self.message;
        message.append("; when:(");
        message.append(ctx);
        message.append(")");
        Error::new(self.kind, message)
    }
}

impl<T> ErrorContextExt for Result<T, Error> {
    /// A success stays as it is, and an error gets the context.
    open spec fn in_context(&self, ctx: Seq<char>, with: &Self) -> bool {
        match self {
            Ok(v) => with == Ok::<T, Error>(*v),
            Err(e) => with matches Err(changed) && e.in_context(ctx, &changed),
        }
    }

    fn context(self, ctx: &str) -> (r: Self) {
        match self {
            Ok(v) => Ok(v),
            Err(e) => Err(e.context(ctx)),
        }
    }
}

} // verus!
