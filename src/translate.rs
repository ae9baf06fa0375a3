//! Lowering of the syntax tree to instructions: operands first, then the
//! operator, as the stack machine evaluates them.
use vstd::prelude::*;
use crate::ast;
use crate::instr::{Expr, Instr};

verus! {

/// The translator.
pub struct AST;

/// What the lowering knows of its surroundings; nothing yet.
#[derive(Clone, Copy)]
pub struct Context {}

/// The instruction of a binary operator on 64-bit integers.
pub open spec fn binop_instr(op: ast::BinOp) -> Instr {
    match op {
        ast::BinOp::Add => Instr::I64Add,
        ast::BinOp::Minus => Instr::I64Sub,
        ast::BinOp::Times => Instr::I64Mul,
        ast::BinOp::Divide => Instr::I64DivU,
    }
}

/// The instruction that pushes a literal.
pub open spec fn literal_instr(l: ast::Literal) -> Instr {
    match l {
        ast::Literal::Int(u) => Instr::I64Const(u),
        ast::Literal::Float(z) => Instr::F64Const(z),
        ast::Literal::Bool(b) => Instr::I64Const(if b { 1 } else { 0 }),
    }
}

/// The instructions of an expression. Functions are not lowered yet and give
/// no instructions.
pub open spec fn expr_code(e: ast::Expr) -> Seq<Instr>
    decreases e,
{
    match e {
        ast::Expr::Block(stmts) => stmts_code(stmts@),
        ast::Expr::BinOp(op, l, r) => expr_code(*l) + expr_code(*r) + seq![binop_instr(op)],
        ast::Expr::Literal(l) => seq![literal_instr(l)],
        ast::Expr::Fn(_, _) => Seq::empty(),
    }
}

/// The instructions of a statement. Declarations are not lowered yet and give
/// no instructions.
pub open spec fn stmt_code(s: ast::Stmt) -> Seq<Instr>
    decreases s,
{
    match s {
        ast::Stmt::Expr(e) => expr_code(e),
        ast::Stmt::Decl(_, _) => Seq::empty(),
    }
}

/// The instructions of statements, one after the other.
pub open spec fn stmts_code(s: Seq<ast::Stmt>) -> Seq<Instr>
    decreases s,
{
    if s.len() == 0 {
        Seq::empty()
    } else {
        stmts_code(s.drop_last()) + stmt_code(s.last())
    }
}

impl AST {
    pub fn expr_to_wasm(ctx: &Context, node: &ast::Expr) -> (r: (Context, Expr))
        ensures
            r.1.instrs@ == expr_code(*node),
        decreases node,
    {
        match node {
            ast::Expr::Block(stmts) => {
                let mut expr = Expr::new();
                let mut k: usize = 0;
                while k < stmts.len()
                    invariant
                        *node == ast::Expr::Block(*stmts),
                        k <= stmts.len(),
                        expr.instrs@ == stmts_code(stmts@.subrange(0, k as int)),
                    decreases stmts.len() - k,
                {
                    proof {
                        vstd::std_specs::vec::axiom_vec_index_decreases(*stmts, k as int);
                        assert(decreases_to!(*node => (*node)->Block_0));
                        assert(decreases_to!(*node => stmts[k as int]));
                    }
                    let (_, mut subexpr) = AST::stmt_to_wasm(ctx, &stmts[k]);
                    expr.append(&mut subexpr);
                    assert(stmts@.subrange(0, k + 1).drop_last() =~= stmts@.subrange(0, k as int));
                    k = k + 1;
                }
                assert(stmts@.subrange(0, stmts.len() as int) =~= stmts@);
                (*ctx, expr)
            },
            ast::Expr::BinOp(op, lexpr, rexpr) => {
                let mut expr = Expr::new();
                let (_, mut lwasm) = AST::expr_to_wasm(ctx, &**lexpr);
                let (_, mut rwasm) = AST::expr_to_wasm(ctx, &**rexpr);
                let (_, mut bowasm) = AST::binop_to_wasm(ctx, op);
                expr.append(&mut lwasm);
                expr.append(&mut rwasm);
                expr.append(&mut bowasm);
                assert(expr.instrs@ =~= expr_code(*node));
                (*ctx, expr)
            },
            ast::Expr::Literal(l) => AST::literal_to_wasm(ctx, l),
            _ => (*ctx, Expr::new()),
        }
    }

    pub fn stmt_to_wasm(ctx: &Context, node: &ast::Stmt) -> (r: (Context, Expr))
        ensures
            r.1.instrs@ == stmt_code(*node),
        decreases node,
    {
        match node {
            ast::Stmt::Expr(e) => AST::expr_to_wasm(ctx, e),
            ast::Stmt::Decl(_, _) => (*ctx, Expr::new()),
        }
    }

    pub fn binop_to_wasm(ctx: &Context, node: &ast::BinOp) -> (r: (Context, Expr))
        ensures
            r.1.instrs@ == seq![binop_instr(*node)],
    {
        let i = match node {
            ast::BinOp::Add => Instr::I64Add,
            ast::BinOp::Minus => Instr::I64Sub,
            ast::BinOp::Times => Instr::I64Mul,
            ast::BinOp::Divide => Instr::I64DivU,
        };
        let r = (*ctx, Expr::from(vec![i]));
        assert(r.1.instrs@ =~= seq![binop_instr(*node)]);
        r
    }

    pub fn literal_to_wasm(ctx: &Context, node: &ast::Literal) -> (r: (Context, Expr))
        ensures
            r.1.instrs@ == seq![literal_instr(*node)],
    {
        let i = match node {
            ast::Literal::Int(u) => Instr::I64Const(*u),
            ast::Literal::Float(z) => Instr::F64Const(*z),
            ast::Literal::Bool(b) => Instr::I64Const(if *b { 1 } else { 0 }),
        };
        let r = (*ctx, Expr::from(vec![i]));
        assert(r.1.instrs@ =~= seq![literal_instr(*node)]);
        r
    }
}

} // verus!
