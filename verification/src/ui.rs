//! The pure part of the render/input loop: what one input event does to the
//! selection and to the loop, and the cells each record contributes to the
//! table. Reading events and drawing glyphs stay outside the library.

use vstd::prelude::*;

use crate::app::App;
use crate::product::Product;

verus! {

/// One terminal input event, as the loop classifies it: a character key, the
/// two arrow keys the table reacts to, or anything else (other keys and
/// non-key events alike, all of them inert).
#[derive(Clone, Copy, Debug, PartialEq, Eq, Structural)]
pub enum InputEvent {
    Char(char),
    Down,
    Up,
    Other,
}

/// Whether the render/input loop keeps running after an event.
#[derive(Clone, Copy, Debug, PartialEq, Eq, Structural)]
pub enum LoopControl {
    Continue,
    Stop,
}

/// Decides one iteration of the render/input loop: `q` or `Q` stops the loop,
/// the down and up arrows move the selection one row with wrap-around, every
/// other event leaves the state alone and the loop running.
pub fn handle_event(app: &mut App, event: InputEvent) -> (r: LoopControl)
    ensures
        final(app).products == old(app).products,
        old(app).wf() ==> final(app).wf(),
        match event {
            InputEvent::Char(c) => final(app).selected == old(app).selected && r == (if c == 'q'
                || c == 'Q' {
                LoopControl::Stop
            } else {
                LoopControl::Continue
            }),
            InputEvent::Down => r == LoopControl::Continue && final(app).selected == old(
                app,
            ).sel_after_advance(),
            InputEvent::Up => r == LoopControl::Continue && final(app).selected == old(
                app,
            ).sel_after_retreat(),
            InputEvent::Other => r == LoopControl::Continue && final(app).selected == old(
                app,
            ).selected,
        },
{
    match event {
        InputEvent::Char(c) => {
            if c == 'q' || c == 'Q' {
                return LoopControl::Stop;
            }
        },
        InputEvent::Down => app.next(),
        InputEvent::Up => app.previous(),
        InputEvent::Other => {},
    }
    LoopControl::Continue
}

/// The six cells one record contributes to its table row, in the fixed column
/// order Title, Brand, Price, Discount, Rating, Category.
pub fn row_cells(product: &Product) -> (r: Vec<String>)
    ensures
        r.deep_view() == seq![
            product.title@,
            product.brand@,
            product.actual_price@,
            product.discount@,
            product.average_rating@,
            product.category@,
        ],
{
    let mut cells: Vec<String> = Vec::new();
    cells.push(product.title.clone());
    cells.push(product.brand.clone());
    cells.push(product.actual_price.clone());
    cells.push(product.discount.clone());
    cells.push(product.average_rating.clone());
    cells.push(product.category.clone());
    proof {
        assert(cells.deep_view() =~= seq![
            product.title@,
            product.brand@,
            product.actual_price@,
            product.discount@,
            product.average_rating@,
            product.category@,
        ]);
    }
    cells
}

} // verus!
