//! Interactive terminal forms for records and tagged unions.
//!
//! A form mirrors the shape of a data type: one text field per scalar, one
//! sub-form per nested record or union. Keys are routed to the focused leaf,
//! unhandled arrow keys move the focus, and `build` reassembles a typed value
//! once every visible field parses.

pub mod key;
pub mod editor;
pub mod scalar;
pub mod email;
pub mod filtext;
pub mod area;
pub mod surface;
pub mod paint;
pub mod focus;
pub mod whatever;
pub mod role;
pub mod address;
pub mod user;
pub mod shape;
