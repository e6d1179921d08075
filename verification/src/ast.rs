//! The closure shape the runtime honors: a closure declares either a `||`
//! token for zero arguments or a pipe-delimited argument list, and a body.
//! The runtime reads only the spans and the argument count; a zero-argument
//! closure and an empty argument list produce the same callable shape.

use crate::span::Span;
use vstd::prelude::*;

verus! {

/// The `||` token announcing a zero-argument closure.
#[derive(Debug, Clone, Copy, PartialEq, Eq, Structural)]
pub struct Or {
    /// Where the token stands in the source.
    pub span: Span,
}

/// A `|` token delimiting an argument list.
#[derive(Debug, Clone, Copy, PartialEq, Eq, Structural)]
pub struct Pipe {
    /// Where the token stands in the source.
    pub span: Span,
}

/// A `,` token between argument bindings.
#[derive(Debug, Clone, Copy, PartialEq, Eq, Structural)]
pub struct Comma {
    /// Where the token stands in the source.
    pub span: Span,
}

/// The `async` keyword in front of a closure.
#[derive(Debug, Clone, Copy, PartialEq, Eq, Structural)]
pub struct Async {
    /// Where the keyword stands in the source.
    pub span: Span,
}

/// An argument binding of a closure. The runtime reads only its span.
#[derive(Debug, Clone, Copy, PartialEq, Eq, Structural)]
pub struct FnArg {
    /// Where the binding stands in the source.
    pub span: Span,
}

/// A body expression. The runtime reads only its span.
#[derive(Debug, Clone, Copy, PartialEq, Eq, Structural)]
pub struct Expr {
    /// Where the expression stands in the source.
    pub span: Span,
}

/// The arguments of a closure: either the `||` token, or a pipe-delimited
/// list of bindings.
#[derive(Debug)]
pub enum ExprClosureArgs {
    /// A zero-argument closure announced by a `||` token.
    Empty {
        /// The `||` token.
        token: Or,
    },
    /// A closure with an argument list.
    List {
        /// The opening pipe of the argument group.
        open: Pipe,
        /// The argument bindings, each with its trailing comma if present.
        args: Vec<(FnArg, Option<Comma>)>,
        /// The closing pipe of the argument group.
        close: Pipe,
    },
}

impl ExprClosureArgs {
    /// The span the closure arguments cover.
    pub open spec fn spec_span(self) -> Span {
        match self {
            ExprClosureArgs::Empty { token } => token.span,
            ExprClosureArgs::List { open, args, close } => open.span.spec_join(close.span),
        }
    }

    /// The number of arguments the closure takes.
    pub open spec fn spec_len(self) -> nat {
        match self {
            ExprClosureArgs::Empty { .. } => 0,
            ExprClosureArgs::List { open, args, close } => args@.len(),
        }
    }

    /// Access the span for the closure arguments.
    pub fn span(&self) -> (s: Span)
        ensures
            s == self.spec_span(),
    {
        match self {
            ExprClosureArgs::Empty { token } => token.span,
            ExprClosureArgs::List { open, close, .. } => open.span.join(close.span),
        }
    }

    /// The number of arguments the closure takes.
    pub fn len(&self) -> (n: usize)
        ensures
            n == self.spec_len(),
    {
        match self {
            ExprClosureArgs::Empty { .. } => 0,
            ExprClosureArgs::List { args, .. } => args.len(),
        }
    }

    /// The argument bindings, empty for a zero-argument closure.
    pub fn as_slice(&self) -> (r: &[(FnArg, Option<Comma>)])
        ensures
            match self {
                ExprClosureArgs::Empty { .. } => r@.len() == 0,
                ExprClosureArgs::List { open, args, close } => r@ == args@,
            },
    {
        match self {
            ExprClosureArgs::Empty { .. } => &[],
            ExprClosureArgs::List { args, .. } => args.as_slice(),
        }
    }
}

/// A closure: an optional `async` marker, an argument shape, and a body.
#[derive(Debug)]
pub struct ExprClosure {
    /// The `async` keyword, if the closure is async.
    pub async_: Option<Async>,
    /// The arguments of the closure.
    pub args: ExprClosureArgs,
    /// The body of the closure.
    pub body: Box<Expr>,
}

impl ExprClosure {
    /// The span identifying the closure: the `async` keyword if present,
    /// joined with the argument shape.
    pub open spec fn spec_item_span(self) -> Span {
        match self.async_ {
            Some(a) => a.span.spec_join(self.args.spec_span()),
            None => self.args.spec_span(),
        }
    }

    /// The span the whole closure covers, body included.
    pub open spec fn spec_span(self) -> Span {
        match self.async_ {
            Some(a) => a.span.spec_join(self.body.span),
            None => self.args.spec_span().spec_join(self.body.span),
        }
    }

    /// Get the identifying span for this closure.
    pub fn item_span(&self) -> (s: Span)
        ensures
            s == self.spec_item_span(),
    {
        if let Some(async_) = &self.async_ {
            async_.span.join(self.args.span())
        } else {
            self.args.span()
        }
    }

    /// Access the span for the closure.
    pub fn span(&self) -> (s: Span)
        ensures
            s == self.spec_span(),
    {
        if let Some(async_) = &self.async_ {
            async_.span.join(self.body.span)
        } else {
            self.args.span().join(self.body.span)
        }
    }
}

} // verus!
