//! Terminal catalog viewer core: a fixed set of product records decoded from a
//! JSON document, a single-row selection that wraps around at both ends, and
//! the pure decision step of the render/input loop.

pub mod app;
pub mod json;
pub mod product;
pub mod ui;
