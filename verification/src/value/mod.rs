//! Values of the query language: table references, paths, fields and data.

pub mod cond;
pub mod convert;
pub mod data;
pub mod duration;
pub mod field;
pub mod operator;
pub mod table;

pub use cond::Cond;
pub use data::{Entry, IntoTable, Object, Value};
pub use duration::Duration;
pub use field::{Field, Order, Output};
pub use operator::Operator;
pub use table::{Dir, Edges, Id, SurrrealTable, Table, Thing};
