use jsonrpc_core::{Error, ErrorCode, IoHandler, Value};
use jsonrpc_test::Rpc;
use peach_oled::dispatch::complete;
use peach_oled::error::INVALID_PARAMS_CODE;
use peach_oled::{ErrorData, OledError, RpcError};

fn to_jsonrpc(e: RpcError) -> Error {
    Error {
        code: ErrorCode::from(e.code),
        message: e.message,
        data: e.data.map(|d| match d {
            ErrorData::Text(t) => Value::String(t),
            ErrorData::List(l) => Value::Array(l.into_iter().map(Value::String).collect()),
        }),
    }
}

// test to ensure correct success response
#[test]
fn rpc_success() {
    let rpc = {
        let mut io = IoHandler::new();
        io.add_method("rpc_success_response", |_| {
            let reply = complete(None).expect("no bus fault");
            Ok(Value::String(reply))
        });
        Rpc::from(io)
    };

    assert_eq!(rpc.request("rpc_success_response", &()), r#""success""#);
}

// test to ensure correct internal error response
#[test]
fn rpc_internal_error() {
    let rpc = {
        let mut io = IoHandler::new();
        io.add_method("rpc_internal_err", |_| Err(to_jsonrpc(OledError::Internal.translate())));
        Rpc::from(io)
    };

    assert_eq!(
        rpc.request("rpc_internal_err", &()),
        r#"{
  "code": -32603,
  "message": "Internal error"
}"#
    );
}

// test to ensure correct invalid parameters error response
#[test]
fn rpc_invalid_params() {
    let rpc = {
        let mut io = IoHandler::new();
        io.add_method("rpc_invalid_params", |_| {
            let e = RpcError {
                code: INVALID_PARAMS_CODE,
                message: String::from("invalid params"),
                data: Some(ErrorData::Text(
                    "Invalid params: invalid type: null, expected struct Msg.".into(),
                )),
            };
            Err(to_jsonrpc(OledError::MissingParameter { e }.translate()))
        });
        Rpc::from(io)
    };

    assert_eq!(
        rpc.request("rpc_invalid_params", &()),
        r#"{
  "code": -32602,
  "message": "invalid params",
  "data": "Invalid params: invalid type: null, expected struct Msg."
}"#
    );
}

#[test]
fn rpc_validation_error_lists_violations() {
    let rpc = {
        let mut io = IoHandler::new();
        io.add_method("write", |_| {
            let m = peach_oled::Msg {
                x_coord: 200,
                y_coord: 0,
                string: "Hello".to_string(),
                font_size: "6x8".to_string(),
            };
            match peach_oled::plan(&peach_oled::Command::Write(m)) {
                Ok(_) => Ok(Value::String("unexpected".into())),
                Err(e) => Err(to_jsonrpc(e.translate())),
            }
        });
        Rpc::from(io)
    };

    assert_eq!(
        rpc.request("write", &()),
        r#"{
  "code": 2,
  "message": "Validation error.",
  "data": [
    "coordinate x out of range 0-128: 200"
  ]
}"#
    );
}
