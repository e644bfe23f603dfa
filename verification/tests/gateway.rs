use todo_backend::error::{Error, SqlFault};
use todo_backend::gateway::{handle_rejection, map_status_code, RejectionKind};
use todo_backend::status::{Code, Status};

#[test]
fn error_statuses() {
    let st = Status::from_error(Error::NotFound);
    assert_eq!(st.code, Code::NotFound);
    assert_eq!(st.message, "todo not found");

    let st = Status::from_error(Error::IDGenerationError);
    assert_eq!(st.code, Code::Internal);
    assert_eq!(st.message, "failed to generate id");

    let st = Status::from_error(Error::AlreadyCompleted);
    assert_eq!(st.code, Code::InvalidArgument);
    assert_eq!(st.message, "todo already completed");
}

#[test]
fn row_not_found_fault_narrows_to_not_found() {
    let st = Status::from_error(Error::SQLError(SqlFault::RowNotFound));
    assert_eq!(st.code, Code::NotFound);
    assert_eq!(st.message, "todo not found");
}

#[test]
fn faults_with_messages_map_to_internal() {
    let cases = vec![
        SqlFault::Configuration("c".to_owned()),
        SqlFault::Database("d".to_owned()),
        SqlFault::Io("i".to_owned()),
        SqlFault::Tls("t".to_owned()),
        SqlFault::Protocol("p".to_owned()),
        SqlFault::ColumnNotFound("n".to_owned()),
        SqlFault::Decode("e".to_owned()),
        SqlFault::Migrate("m".to_owned()),
    ];
    let expected = vec!["c", "d", "i", "t", "p", "n", "e", "m"];
    for (fault, message) in cases.into_iter().zip(expected) {
        let st = Status::from_error(Error::SQLError(fault));
        assert_eq!(st.code, Code::Internal);
        assert_eq!(st.message, message);
    }
}

#[test]
fn faults_without_messages_map_to_internal() {
    let cases = vec![
        (SqlFault::ColumnIndexOutOfBounds, "ColumnIndexOutOfBounds"),
        (SqlFault::ColumnDecode, "ColumnDecode"),
        (SqlFault::PoolTimedOut, "PoolTimedOut"),
        (SqlFault::PoolClosed, "PoolClosed"),
        (SqlFault::WorkerCrashed, "WorkerCrashed"),
        (SqlFault::Other, "unknown storage error"),
    ];
    for (fault, message) in cases {
        let st = Status::from_error(Error::SQLError(fault));
        assert_eq!(st.code, Code::Internal);
        assert_eq!(st.message, message);
    }
}

#[test]
fn http_codes() {
    assert_eq!(map_status_code(Code::Okay), 200);
    assert_eq!(map_status_code(Code::Cancelled), 500);
    assert_eq!(map_status_code(Code::Unknown), 500);
    assert_eq!(map_status_code(Code::InvalidArgument), 422);
    assert_eq!(map_status_code(Code::DeadlineExceeded), 500);
    assert_eq!(map_status_code(Code::NotFound), 404);
    assert_eq!(map_status_code(Code::AlreadyExists), 409);
    assert_eq!(map_status_code(Code::PermissionDenied), 403);
    assert_eq!(map_status_code(Code::ResourceExhausted), 500);
    assert_eq!(map_status_code(Code::FailedPrecondition), 500);
    assert_eq!(map_status_code(Code::Aborted), 500);
    assert_eq!(map_status_code(Code::OutOfRange), 500);
    assert_eq!(map_status_code(Code::Unimplemented), 500);
    assert_eq!(map_status_code(Code::Internal), 500);
    assert_eq!(map_status_code(Code::Unavailable), 500);
    assert_eq!(map_status_code(Code::DataLoss), 500);
    assert_eq!(map_status_code(Code::Unauthenticated), 401);
}

#[test]
fn rejection_replies() {
    let (code, body) = handle_rejection(RejectionKind::RouteNotFound);
    assert_eq!(code, 404);
    assert_eq!(body.status, "not found");
    assert_eq!(body.message, "not found");

    let (code, body) = handle_rejection(RejectionKind::InvalidBody);
    assert_eq!(code, 400);
    assert_eq!(body.status, "invalid body");
    assert_eq!(body.message, "invalid body");

    let (code, body) = handle_rejection(RejectionKind::MethodNotAllowed);
    assert_eq!(code, 405);
    assert_eq!(body.status, "method not allowed");
    assert_eq!(body.message, "method not allowed");

    let (code, body) = handle_rejection(RejectionKind::Unhandled);
    assert_eq!(code, 500);
    assert_eq!(body.status, "internal server error");
    assert_eq!(body.message, "internal server error");
}

#[test]
fn rejection_reply_for_backend_status() {
    let st = Status::from_error(Error::AlreadyCompleted);
    let (code, body) = handle_rejection(RejectionKind::Rpc(st));
    assert_eq!(code, 422);
    assert_eq!(body.status, "rpc error");
    assert_eq!(body.message, "todo already completed");

    let st = Status::from_error(Error::NotFound);
    let (code, body) = handle_rejection(RejectionKind::Rpc(st));
    assert_eq!(code, 404);
    assert_eq!(body.message, "todo not found");
}
