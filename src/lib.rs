//! Encoding of statement parameters for the Firebird wire protocol.
//!
//! Host values are turned into [`ParamInfo`] records (see [`ToParam`] and
//! [`IntoParams`]), and a list of records is encoded into a BLR descriptor
//! program and a packed value buffer by [`params_to_blr`]. The same records
//! can instead be laid out for the native client's input descriptor
//! ([`Params`]).
pub mod blr;
pub mod buf;
pub mod convert;
pub mod list;
pub mod model;
pub mod native;

pub use blr::{params_to_blr, ParamsBlr, ParamsError};
pub use convert::{Double, Timestamp, ToParam};
pub use list::IntoParams;
pub use model::{ParamInfo, ParamType, ParamValue};
pub use native::{ParamBuffer, Params, XSqlDa, XSqlVar};
