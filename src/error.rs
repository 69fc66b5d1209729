use vstd::prelude::*;

use crate::validate::{spec_describe, Violation};

verus! {

/// Code of a bus (I2C) failure.
pub const BUS_ERROR_CODE: i64 = 1;

/// Code of a request whose values break the panel's constraints.
pub const VALIDATION_ERROR_CODE: i64 = 2;

/// JSON-RPC's code for parameters that do not have the expected shape.
pub const INVALID_PARAMS_CODE: i64 = -32602;

/// JSON-RPC's code for an internal error.
pub const INTERNAL_ERROR_CODE: i64 = -32603;

/// Extra detail of an error response.
#[derive(Debug)]
pub enum ErrorData {
    Text(String),
    List(Vec<String>),
}

/// An error response as the caller receives it: code, message and optional detail.
#[derive(Debug)]
pub struct RpcError {
    pub code: i64,
    pub message: String,
    pub data: Option<ErrorData>,
}

/// What an error detail holds.
pub enum ErrorDataView {
    Text(Seq<char>),
    List(Seq<Seq<char>>),
}

/// What an error response holds.
pub struct RpcErrorView {
    pub code: i64,
    pub message: Seq<char>,
    pub data: Option<ErrorDataView>,
}

impl View for ErrorData {
    type V = ErrorDataView;

    open spec fn view(&self) -> ErrorDataView {
        match self {
            ErrorData::Text(t) => ErrorDataView::Text(t@),
            ErrorData::List(l) => ErrorDataView::List(l@.map_values(|s: String| s@)),
        }
    }
}

impl View for RpcError {
    type V = RpcErrorView;

    open spec fn view(&self) -> RpcErrorView {
        RpcErrorView {
            code: self.code,
            message: self.message@,
            data: match self.data {
                Some(d) => Some(d@),
                None => None,
            },
        }
    }
}

/// The failures that a command can meet.
#[derive(Debug)]
pub enum OledError {
    /// The bus to the panel failed; `detail` is the driver's account of it.
    I2CError { detail: String },
    /// The request's values break one or more constraints, all listed.
    ValidationFailed { violations: Vec<Violation> },
    /// The request lacks a parameter; `e` is the response to give.
    MissingParameter { e: RpcError },
    /// A parameter could not be read; `e` is the response to give.
    ParseError { e: RpcError },
    /// An unexpected failure inside the service.
    Internal,
}

fn copy_strings(v: &Vec<String>) -> (r: Vec<String>)
    ensures
        r@ == v@,
{
    let mut r: Vec<String> = Vec::new();
    let mut i: usize = 0;
    while i < v.len()
        invariant
            i <= v@.len(),
            r@ == v@.subrange(0, i as int),
        decreases v@.len() - i,
    {
        r.push(v[i].clone());
        i = i + 1;
    }
    assert(r@ =~= v@);
    r
}

impl ErrorData {
    /// A copy of this detail.
    pub fn duplicate(&self) -> (r: ErrorData)
        ensures
            r@ == self@,
    {
        match self {
            ErrorData::Text(t) => ErrorData::Text(t.clone()),
            ErrorData::List(l) => ErrorData::List(copy_strings(l)),
        }
    }
}

impl RpcError {
    /// A copy of this response.
    pub fn duplicate(&self) -> (r: RpcError)
        ensures
            r@ == self@,
    {
        let data = match &self.data {
            Some(d) => Some(d.duplicate()),
            None => None,
        };
        RpcError { code: self.code, message: self.message.clone(), data }
    }
}

/// The response that an error is reported as.
pub open spec fn spec_translate(err: OledError) -> RpcErrorView {
    match err {
        OledError::I2CError { detail } => RpcErrorView {
            code: BUS_ERROR_CODE,
            message: "I2C device error."@,
            data: Some(ErrorDataView::Text(detail@)),
        },
        OledError::ValidationFailed { violations } => RpcErrorView {
            code: VALIDATION_ERROR_CODE,
            message: "Validation error."@,
            data: Some(ErrorDataView::List(violations@.map_values(|v: Violation| spec_describe(v)))),
        },
        OledError::MissingParameter { e } => e@,
        OledError::ParseError { e } => e@,
        OledError::Internal => RpcErrorView {
            code: INTERNAL_ERROR_CODE,
            message: "Internal error"@,
            data: None,
        },
    }
}

/// The code under which an error is reported.
pub open spec fn spec_code(err: OledError) -> i64 {
    spec_translate(err).code
}

/// Whether an error leaves the panel in a state the service cannot vouch for.
pub open spec fn spec_is_fatal(err: OledError) -> bool {
    err is I2CError
}

/// The kind of an error: bus, validation, request shape, internal.
pub open spec fn spec_kind(err: OledError) -> int {
    match err {
        OledError::I2CError { .. } => 0,
        OledError::ValidationFailed { .. } => 1,
        OledError::MissingParameter { .. } => 2,
        OledError::ParseError { .. } => 2,
        OledError::Internal => 3,
    }
}

/// Whether an error about the request's shape carries JSON-RPC's invalid-params code.
pub open spec fn shape_error_coded(err: OledError) -> bool {
    match err {
        OledError::MissingParameter { e } => e.code == INVALID_PARAMS_CODE,
        OledError::ParseError { e } => e.code == INVALID_PARAMS_CODE,
        _ => true,
    }
}

/// Errors of different kinds are reported under different codes, once the
/// errors about the request's shape carry the invalid-params code that the
/// transport gives them.
pub proof fn lemma_codes_distinct(a: OledError, b: OledError)
    requires
        shape_error_coded(a),
        shape_error_coded(b),
        spec_kind(a) != spec_kind(b),
    ensures
        spec_code(a) != spec_code(b),
{
}

impl OledError {
    /// The response that this error is reported as: a distinct code for each
    /// kind, a message, and for validation failures one description per
    /// violated constraint.
    pub fn translate(&self) -> (r: RpcError)
        ensures
            r@ == spec_translate(*self),
    {
        match self {
            OledError::I2CError { detail } => RpcError {
                code: BUS_ERROR_CODE,
                message: String::from_str("I2C device error."),
                data: Some(ErrorData::Text(detail.clone())),
            },
            OledError::ValidationFailed { violations } => {
                let mut list: Vec<String> = Vec::new();
                let mut i: usize = 0;
                while i < violations.len()
                    invariant
                        i <= violations@.len(),
                        list@.len() == i,
                        forall|j: int| 0 <= j < i ==> (#[trigger] list@[j])@ == spec_describe(violations@[j]),
                    decreases violations@.len() - i,
                {
                    list.push(violations[i].describe());
                    i = i + 1;
                }
                let data = ErrorData::List(list);
                assert(data@ == ErrorDataView::List(violations@.map_values(|v: Violation| spec_describe(v)))) by {
                    assert(list@.map_values(|s: String| s@) =~= violations@.map_values(|v: Violation| spec_describe(v)));
                }
                RpcError {
                    code: VALIDATION_ERROR_CODE,
                    message: String::from_str("Validation error."),
                    data: Some(data),
                }
            },
            OledError::MissingParameter { e } => e.duplicate(),
            OledError::ParseError { e } => e.duplicate(),
            OledError::Internal => RpcError {
                code: INTERNAL_ERROR_CODE,
                message: String::from_str("Internal error"),
                data: None,
            },
        }
    }

    /// Whether the service should stop rather than go on serving: true of a
    /// bus failure, after which the panel may no longer show what was drawn.
    pub fn is_fatal(&self) -> (r: bool)
        ensures
            r == spec_is_fatal(*self),
    {
        match self {
            OledError::I2CError { .. } => true,
            _ => false,
        }
    }
}

} // verus!
