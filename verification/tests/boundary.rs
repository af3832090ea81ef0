use grip::ffi::{
    build_request, grip_request, handle_null_ptr, ForeignText, GripError, ResultFFIExt,
    INVALID_CELL,
};
use grip::networking_queue::{Command, Queue, RequestType};

fn running_queue() -> Queue {
    match Queue::new(4) {
        Ok(q) => q,
        Err(_) => panic!("a positive concurrency hint must start the queue"),
    }
}

#[test]
fn malformed_uri_is_rejected_synchronously() {
    // The text never reaches the queue: the boundary rejects it at once.
    let r = build_request(1, 0, ForeignText::Text("not a uri".to_string()), 0x1000, Some(vec![1]));
    match r {
        Err(e) => assert_eq!(e, GripError::UriParseError),
        Ok(_) => panic!("a malformed URI must be rejected"),
    }

    let mut queue = running_queue();
    let out = grip_request(
        &mut queue,
        1,
        ForeignText::Text("not a uri".to_string()),
        0,
        0x1000,
        Some(vec![1]),
    );
    assert_eq!(out.result, INVALID_CELL);
    assert_eq!(out.error, Some(GripError::UriParseError));
    assert!(out.command.is_none());
}

#[test]
fn unknown_method_code_is_rejected_first() {
    // Even alongside a bad URI, the method code is checked first.
    let r = build_request(1, 7, ForeignText::Null, 0, None);
    match r {
        Err(e) => assert_eq!(e, GripError::InvalidRequestType),
        Ok(_) => panic!("an unknown method code must be rejected"),
    }
}

#[test]
fn absent_uri_is_rejected() {
    let r = build_request(1, 0, ForeignText::Null, 0, Some(vec![]));
    match r {
        Err(e) => assert_eq!(e, GripError::InvalidUri),
        Ok(_) => panic!("a null URI must be rejected"),
    }
}

#[test]
fn undecodable_uri_is_rejected() {
    let r = build_request(1, 0, ForeignText::NotUtf8, 0, Some(vec![]));
    match r {
        Err(e) => assert_eq!(e, GripError::UriNotUtf8),
        Ok(_) => panic!("a non-UTF-8 URI must be rejected"),
    }
}

#[test]
fn absent_payload_is_rejected() {
    let r = build_request(1, 0, ForeignText::Text("https://docs.rs/".to_string()), 0, None);
    match r {
        Err(e) => assert_eq!(e, GripError::InvalidUserData),
        Ok(_) => panic!("a null payload must be rejected"),
    }
}

#[test]
fn valid_inputs_build_the_typed_request() {
    let r = build_request(
        9,
        0,
        ForeignText::Text("https://docs.rs/".to_string()),
        0x2000,
        Some(vec![1, 2, 3]),
    );
    match r {
        Ok((request, callback)) => {
            assert_eq!(request.id, 9);
            assert!(matches!(request.http_type, RequestType::Get));
            assert_eq!(request.uri, "https://docs.rs/");
            assert_eq!(callback.handler, 0x2000);
            assert_eq!(callback.user_data, vec![1, 2, 3]);
        },
        Err(e) => panic!("valid inputs were rejected: {:?}", e),
    }
}

#[test]
fn accepted_submission_returns_one_and_the_command() {
    let mut queue = running_queue();
    let out = grip_request(
        &mut queue,
        3,
        ForeignText::Text("https://docs.rs/".to_string()),
        0,
        0x2000,
        Some(vec![9]),
    );
    assert_eq!(out.result, 1);
    assert_eq!(out.error, None);
    match out.command {
        Some(Command::Submit(request, callback)) => {
            assert_eq!(request.id, 3);
            assert_eq!(request.uri, "https://docs.rs/");
            assert_eq!(callback.handler, 0x2000);
            assert_eq!(callback.user_data, vec![9]);
        },
        _ => panic!("an accepted submission must produce the Submit command"),
    }
}

#[test]
fn handle_null_ptr_models_the_null_check() {
    assert_eq!(handle_null_ptr(0), None);
    assert_eq!(handle_null_ptr(0x7fff_0000), Some(0x7fff_0000));
}

#[test]
fn sentinel_conversion_keeps_values_and_collapses_failures() {
    let ok: Result<u32, GripError> = Ok(17);
    assert_eq!(ok.handle_ffi_error(), Ok(17));
    let err: Result<u32, GripError> = Err(GripError::InvalidUri);
    assert_eq!(err.handle_ffi_error(), Err(INVALID_CELL));
    let some: Option<u32> = Some(23);
    assert_eq!(some.handle_ffi_error(), Ok(23));
    let none: Option<u32> = None;
    assert_eq!(none.handle_ffi_error(), Err(INVALID_CELL));
}
