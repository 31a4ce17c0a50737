//! The data that a write statement carries.

pub mod create;
pub mod insert;
pub mod patch;
pub mod set_field;
pub mod update;

pub use create::CreateData;
pub use insert::InsertData;
pub use patch::PatchOp;
pub use set_field::SetField;
pub use update::UpdateData;
