use vstd::prelude::*;

verus! {

/// An operation that can be used to map over data.
#[derive(Clone, Copy, Debug, PartialEq, Eq, Structural)]
pub enum Op {
    Add,
    Min,
    Mul,
    Div,
    Mod,
    NoOp,
}

/// Name of the kernel function in every generated source.
pub const ENTRY_POINT: &'static str = "__main__";

/// The compound-assignment symbol of an operator, without its `=`;
/// empty for `Op::NoOp`, which updates nothing.
pub open spec fn assign_symbol(op: Op) -> Seq<char> {
    match op {
        Op::Add => "+"@,
        Op::Min => "-"@,
        Op::Mul => "*"@,
        Op::Div => "/"@,
        Op::Mod => "%"@,
        Op::NoOp => Seq::empty(),
    }
}

/// Whether the operator updates the buffer at all.
pub open spec fn is_update(op: Op) -> bool {
    op != Op::NoOp
}

/// Signature and opening brace of the kernel, up to the updated element.
pub open spec fn update_head() -> Seq<char> {
    "__kernel void __main__(__global float* buffer, float scalar) {\n    buffer[get_global_id(0)] "@
}

/// The rest of the kernel after the operator symbol: the assignment
/// of the scalar and the closing brace.
pub open spec fn update_tail() -> Seq<char> {
    "= scalar;\n}\n"@
}

/// The kernel with the same signature and an empty body.
pub open spec fn empty_kernel() -> Seq<char> {
    "__kernel void __main__(__global float* buffer, float scalar) {}"@
}

/// The source text of the kernel for `op`: one compound assignment
/// `buffer[i] OP= scalar` per work item, or an empty body for `Op::NoOp`.
pub open spec fn rendered_source(op: Op) -> Seq<char> {
    if is_update(op) {
        update_head() + assign_symbol(op) + update_tail()
    } else {
        empty_kernel()
    }
}

/// Rendering is one to one: two operators that differ give kernel sources
/// that differ, so a program's source determines the operation it applies.
pub proof fn lemma_sources_distinct(a: Op, b: Op)
    requires
        a != b,
    ensures
        rendered_source(a) != rendered_source(b),
{
    reveal_strlit("+");
    reveal_strlit("-");
    reveal_strlit("*");
    reveal_strlit("/");
    reveal_strlit("%");
    reveal_strlit(
        "__kernel void __main__(__global float* buffer, float scalar) {\n    buffer[get_global_id(0)] ",
    );
    reveal_strlit("= scalar;\n}\n");
    reveal_strlit("__kernel void __main__(__global float* buffer, float scalar) {}");
    let h = update_head().len();
    if is_update(a) && is_update(b) {
        assert(rendered_source(a)[h as int] == assign_symbol(a)[0]);
        assert(rendered_source(b)[h as int] == assign_symbol(b)[0]);
    } else {
        assert(rendered_source(a).len() != rendered_source(b).len());
    }
}

fn symbol_of(op: &Op) -> (r: &'static str)
    requires
        is_update(*op),
    ensures
        r@ == assign_symbol(*op),
{
    match op {
        Op::Add => "+",
        Op::Min => "-",
        Op::Mul => "*",
        Op::Div => "/",
        Op::Mod => "%",
        Op::NoOp => "",
    }
}

/// Renders the kernel source for `op`. Total over the operators: `Op::NoOp`
/// gives the kernel with an empty body.
pub fn kernel_source(op: &Op) -> (r: String)
    ensures
        r@ == rendered_source(*op),
{
    match op {
        Op::NoOp => String::from_str("__kernel void __main__(__global float* buffer, float scalar) {}"),
        _ => {
            let mut src = String::from_str(
                "__kernel void __main__(__global float* buffer, float scalar) {\n    buffer[get_global_id(0)] ",
            );
            src.append(symbol_of(op));
            src.append("= scalar;\n}\n");
            src
        },
    }
}

} // verus!
