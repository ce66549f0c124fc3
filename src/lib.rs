pub mod association;
pub mod decoration;
pub mod laws;

pub use association::{AlreadyBound, AssociationTable};
pub use decoration::{
    DecorationManager, DecorationObject, DecorationRequest, Mode, XdgDecorationRequest,
};
