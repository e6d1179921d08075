use runestick::ast::{Async, Comma, Expr, ExprClosure, ExprClosureArgs, FnArg, Or, Pipe};
use runestick::span::Span;

fn sp(start: usize, end: usize) -> Span {
    Span::new(start, end)
}

#[test]
fn span_join_covers_both() {
    let a = sp(2, 5);
    let b = sp(7, 9);
    assert_eq!(a.join(b), sp(2, 9));
    assert_eq!(b.join(a), sp(2, 9));
    assert_eq!(a.len(), 3);
}

#[test]
fn empty_args_have_no_bindings() {
    let args = ExprClosureArgs::Empty { token: Or { span: sp(0, 2) } };
    assert_eq!(args.len(), 0);
    assert_eq!(args.as_slice().len(), 0);
    assert_eq!(args.span(), sp(0, 2));
}

#[test]
fn listed_args_span_their_pipes() {
    let args = ExprClosureArgs::List {
        open: Pipe { span: sp(0, 1) },
        args: vec![
            (FnArg { span: sp(1, 2) }, Some(Comma { span: sp(2, 3) })),
            (FnArg { span: sp(3, 4) }, None),
        ],
        close: Pipe { span: sp(4, 5) },
    };
    assert_eq!(args.len(), 2);
    assert_eq!(args.as_slice().len(), 2);
    assert_eq!(args.span(), sp(0, 5));
}

#[test]
fn closure_spans_include_async_and_body() {
    let plain = ExprClosure {
        async_: None,
        args: ExprClosureArgs::Empty { token: Or { span: sp(6, 8) } },
        body: Box::new(Expr { span: sp(9, 11) }),
    };
    assert_eq!(plain.item_span(), sp(6, 8));
    assert_eq!(plain.span(), sp(6, 11));

    let marked = ExprClosure {
        async_: Some(Async { span: sp(0, 5) }),
        args: ExprClosureArgs::Empty { token: Or { span: sp(6, 8) } },
        body: Box::new(Expr { span: sp(9, 11) }),
    };
    assert_eq!(marked.item_span(), sp(0, 8));
    assert_eq!(marked.span(), sp(0, 11));
}
