use aigw_console::api::{success, ApiError, ApiReply};

#[test]
fn success_has_code_zero() {
    match success(Some(5u32)) {
        ApiReply::Json(b) => {
            assert_eq!(b.code, 0);
            assert_eq!(b.data, Some(5));
            assert_eq!(b.message, None);
        }
        ApiReply::Status(..) => panic!("expected json"),
    }
}

#[test]
fn failure_has_code_minus_one_and_message() {
    match ApiError::BasicError("Cluster not found.".to_string()).into_reply() {
        ApiReply::Json(b) => {
            assert_eq!(b.code, -1);
            assert_eq!(b.data, None);
            assert_eq!(b.message.as_deref(), Some("Cluster not found."));
        }
        ApiReply::Status(..) => panic!("expected json"),
    }
}

#[test]
fn missing_session_is_unauthorized() {
    match ApiError::AuthenticationError.into_reply() {
        ApiReply::Status(code, text) => {
            assert_eq!(code, 401);
            assert_eq!(text, "Unauthorized");
        }
        ApiReply::Json(_) => panic!("expected status"),
    }
}
