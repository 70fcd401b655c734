//! Explicit `citizen/read-construct` expression forms: a class symbol and
//! the constructor arguments, tagged as an extension.

use vstd::prelude::*;

use crate::domain::VehicleId;
use crate::expr::{Expr, ExprView, SymView, Symbol, expr_views, vector_expr};
use crate::libs::{symbol_from_text, symbol_of_text};

verus! {

/// The read-construct form of a class and its arguments.
pub open spec fn read_construct_view(class: SymView, args: Seq<ExprView>) -> ExprView {
    ExprView::Extension(
        (Some("citizen"@), "read-construct"@),
        Box::new(ExprView::Vector(seq![ExprView::Sym(class)] + args)),
    )
}

/// The read-construct form of a vehicle identity.
pub open spec fn vehicle_construct_view(namespace: Seq<char>, key: Seq<char>) -> ExprView {
    read_construct_view(
        (Some("auto"@), "VehicleId"@),
        seq![ExprView::Sym((None, "v0"@)), ExprView::Text(namespace), ExprView::Text(key)],
    )
}

/// Builds a `citizen/read-construct` extension from a class symbol and
/// arguments.
pub fn read_construct_expr(class: Symbol, args: Vec<Expr>) -> (r: Expr)
    ensures
        r@ == read_construct_view(class@, expr_views(args@)),
{
    let ghost cv = class@;
    let ghost av = expr_views(args@);
    let mut items: Vec<Expr> = vec![Expr::Symbol(class)];
    let mut rest = args;
    items.append(&mut rest);
    assert(expr_views(items@) =~= seq![ExprView::Sym(cv)] + av);
    let payload = vector_expr(items);
    Expr::Extension { tag: Symbol::qualified("citizen", "read-construct"), payload: Box::new(payload) }
}

/// Builds a `citizen/read-construct` extension from class text, split at
/// its first `/`, and arguments.
pub fn text_read_construct_expr(class: &str, args: Vec<Expr>) -> (r: Expr)
    ensures
        r@ == read_construct_view(symbol_of_text(class@), expr_views(args@)),
{
    read_construct_expr(symbol_from_text(class), args)
}

/// Builds the read-construct form of a modeled vehicle identity.
pub fn vehicle_read_construct(vehicle: &VehicleId) -> (r: Expr)
    ensures
        r@ == vehicle_construct_view(vehicle.namespace@, vehicle.key@),
{
    let args = vec![
        Expr::Symbol(Symbol::new("v0")),
        Expr::String(vehicle.namespace.clone()),
        Expr::String(vehicle.key.clone()),
    ];
    assert(expr_views(args@) =~= seq![
        ExprView::Sym((None, "v0"@)),
        ExprView::Text(vehicle.namespace@),
        ExprView::Text(vehicle.key@),
    ]);
    read_construct_expr(Symbol::qualified("auto", "VehicleId"), args)
}

} // verus!
