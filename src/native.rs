//! Parameters laid out for the native client library's input descriptor.
//!
//! The library does not call the native client: it fills plain records with
//! what each native variable must hold, and keeps the data and the null
//! indicators that the variables refer to.
use vstd::prelude::*;

use crate::blr::ParamsError;
use crate::model::{infos_view, ParamInfo, ParamType, ParamValue};

verus! {

/// Native SQL type code of fixed-length text.
pub const SQL_TEXT: i16 = 452;

/// Native SQL type code of a double.
pub const SQL_DOUBLE: i16 = 480;

/// Native SQL type code of a timestamp.
pub const SQL_TIMESTAMP: i16 = 510;

/// Native SQL type code of a 64-bit integer.
pub const SQL_INT64: i16 = 580;

/// Native SQL type code of a null.
pub const SQL_NULL: i16 = 32766;

/// The fields of one native input variable that a parameter sets.
pub struct XSqlVar {
    /// Type code; odd when the variable has a null indicator
    pub sqltype: i16,
    /// Decimal scale
    pub sqlscale: i16,
    /// Length of the data
    pub sqllen: i16,
}

impl XSqlVar {
    /// A variable that holds nothing yet.
    pub fn new() -> (r: Self)
        ensures
            r.sqltype == 0,
            r.sqlscale == 0,
            r.sqllen == 0,
    {
        XSqlVar { sqltype: 0, sqlscale: 0, sqllen: 0 }
    }
}

/// A native input descriptor.
pub struct XSqlDa {
    /// Number of variables the descriptor has room for
    pub sqln: i16,
    /// Number of variables in use
    pub sqld: i16,
    /// The variables
    pub vars: Vec<XSqlVar>,
}

/// Data for the input XSQLVAR
pub struct ParamBuffer {
    /// Buffer for the parameter data
    pub buffer: Vec<u8>,
    /// Null indicator
    pub nullind: i16,
}

/// Stores the data needed to send the parameters
pub struct Params {
    /// Input xsqlda
    pub xsqlda: Option<XSqlDa>,
    /// Data used by the xsqlda above
    pub buffers: Vec<ParamBuffer>,
}

/// The native type code of a parameter kind, marked as having a null
/// indicator.
pub open spec fn sql_type_code(k: ParamType) -> i16 {
    match k {
        ParamType::Text => (SQL_TEXT + 1) as i16,
        ParamType::Integer => (SQL_INT64 + 1) as i16,
        ParamType::Floating => (SQL_DOUBLE + 1) as i16,
        ParamType::Timestamp => (SQL_TIMESTAMP + 1) as i16,
        ParamType::Null => (SQL_NULL + 1) as i16,
    }
}

/// The null indicator that the native library reads for a parameter.
pub open spec fn native_null_indicator(p: ParamValue) -> i16 {
    if p.is_null {
        -1i16
    } else {
        0i16
    }
}

/// Whether a variable is set up for the parameter `p`.
pub open spec fn var_describes(var: XSqlVar, p: ParamValue) -> bool {
    &&& var.sqltype == sql_type_code(p.kind)
    &&& var.sqlscale == 0
    &&& var.sqllen == p.bytes.len() as i16
}

/// Whether a buffer holds the data and null indicator of the parameter `p`.
pub open spec fn buffer_holds(b: ParamBuffer, p: ParamValue) -> bool {
    b.buffer@ == p.bytes && b.nullind == native_null_indicator(p)
}

/// Whether `params` is the native form of the parameters `ps`: no descriptor
/// for an empty list, else one whose variables and buffers describe each
/// parameter in order.
pub open spec fn params_describe(params: Params, ps: Seq<ParamValue>) -> bool {
    &&& params.buffers@.len() == ps.len()
    &&& forall|i: int| 0 <= i < ps.len() ==> buffer_holds(#[trigger] params.buffers@[i], ps[i])
    &&& if ps.len() == 0 {
        params.xsqlda is None
    } else {
        &&& params.xsqlda is Some
        &&& params.xsqlda->0.sqln == ps.len()
        &&& params.xsqlda->0.sqld == ps.len()
        &&& params.xsqlda->0.vars@.len() == ps.len()
        &&& forall|i: int|
            0 <= i < ps.len() ==> var_describes(#[trigger] params.xsqlda->0.vars@[i], ps[i])
    }
}

impl ParamBuffer {
    /// Allocate a buffer from a value to use in an input (parameter) XSQLVAR
    pub fn from_parameter(info: ParamInfo, var: &mut XSqlVar) -> (r: Self)
        ensures
            var_describes(*final(var), info@),
            buffer_holds(r, info@),
    {
        let nullind: i16 = if info.null {
            -1
        } else {
            0
        };
        var.sqltype = match info.sqltype {
            ParamType::Text => SQL_TEXT + 1,
            ParamType::Integer => SQL_INT64 + 1,
            ParamType::Floating => SQL_DOUBLE + 1,
            ParamType::Timestamp => SQL_TIMESTAMP + 1,
            ParamType::Null => SQL_NULL + 1,
        };
        var.sqlscale = 0;
        var.sqllen = #[verifier::truncate] (info.buffer.len() as i16);
        ParamBuffer { buffer: info.buffer, nullind }
    }
}

impl Params {
    /// Validate and set the parameters of a statement, given the number of
    /// parameters that the prepared statement needs.
    pub fn new(infos: Vec<ParamInfo>, needed: i16) -> (r: Result<Self, ParamsError>)
        requires
            infos@.len() <= i16::MAX,
        ensures
            match r {
                Ok(params) => {
                    &&& (infos@.len() == 0 || needed == infos@.len())
                    &&& params_describe(params, infos_view(infos@))
                },
                Err(e) => {
                    &&& infos@.len() != 0
                    &&& needed != infos@.len()
                    &&& e == (ParamsError::WrongParamCount {
                        passed: infos@.len() as i16,
                        needed,
                    })
                },
            },
    {
        let n = infos.len() as i16;
        if n != 0 && needed != n {
            return Err(ParamsError::WrongParamCount { passed: n, needed });
        }
        Ok(Self::new_immediate(infos))
    }

    /// For use when there is no statement, cant verify the number of parameters ahead of time
    pub fn new_immediate(infos: Vec<ParamInfo>) -> (r: Self)
        requires
            infos@.len() <= i16::MAX,
        ensures
            params_describe(r, infos_view(infos@)),
    {
        let ghost ps = infos_view(infos@);
        let n = infos.len() as i16;
        let mut infos = infos;
        let mut vars: Vec<XSqlVar> = Vec::new();
        let mut buffers: Vec<ParamBuffer> = Vec::new();
        while infos.len() > 0
            invariant
                vars@.len() == buffers@.len(),
                vars@.len() + infos@.len() == ps.len(),
                forall|j: int|
                    0 <= j < infos@.len() ==> (#[trigger] infos@[j])@ == ps[vars@.len() + j],
                forall|j: int|
                    0 <= j < vars@.len() ==> var_describes(#[trigger] vars@[j], ps[j]),
                forall|j: int|
                    0 <= j < buffers@.len() ==> buffer_holds(#[trigger] buffers@[j], ps[j]),
            decreases infos@.len(),
        {
            let info = infos.remove(0);
            let mut var = XSqlVar::new();
            let buffer = ParamBuffer::from_parameter(info, &mut var);
            vars.push(var);
            buffers.push(buffer);
        }
        if n == 0 {
            Params { xsqlda: None, buffers }
        } else {
            Params { xsqlda: Some(XSqlDa { sqln: n, sqld: n, vars }), buffers }
        }
    }
}

} // verus!
