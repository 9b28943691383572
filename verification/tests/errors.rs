use rust_web_app::error::AppError;
use rust_web_app::response::respond;
use rust_web_app::response::ApiResponse;
use rust_web_app::response::Response;
use rust_web_app::response::STATUS_OK;

fn all_variants(text: &str) -> Vec<AppError> {
    vec![
        AppError::DatabaseError(text.to_string()),
        AppError::NotFound(text.to_string()),
        AppError::BadRequest(text.to_string()),
        AppError::Unauthorized(text.to_string()),
        AppError::InternalError(text.to_string()),
        AppError::ValidationError(text.to_string()),
    ]
}

#[test]
fn every_variant_has_its_status() {
    let statuses: Vec<u16> = all_variants("x").iter().map(|e| e.status_code()).collect();
    assert_eq!(statuses, vec![500, 404, 400, 401, 500, 422]);
}

#[test]
fn every_variant_has_its_code() {
    let codes: Vec<&str> = all_variants("x").iter().map(|e| e.error_code()).collect();
    assert_eq!(
        codes,
        vec![
            "DATABASE_ERROR",
            "NOT_FOUND",
            "BAD_REQUEST",
            "UNAUTHORIZED",
            "INTERNAL_ERROR",
            "VALIDATION_ERROR",
        ]
    );
}

#[test]
fn every_variant_keeps_its_text() {
    for error in all_variants("what went wrong") {
        assert_eq!(error.message(), "what went wrong");
    }
}

#[test]
fn every_variant_has_its_description() {
    let lines: Vec<String> = all_variants("it").iter().map(|e| e.to_string()).collect();
    assert_eq!(
        lines,
        vec![
            "Database error: it",
            "Not found: it",
            "Bad request: it",
            "Unauthorized: it",
            "Internal error: it",
            "Validation error: it",
        ]
    );
}

#[test]
fn description_of_an_empty_text_is_the_label() {
    assert_eq!(AppError::NotFound(String::new()).to_string(), "Not found: ");
}

#[test]
fn a_failure_renders_as_status_and_failure_envelope() {
    let response: Response<u8> = AppError::NotFound("no such user".to_string()).into_response();
    assert_eq!(response.status, 404);
    assert_eq!(
        response.body,
        ApiResponse {
            success: false,
            data: None,
            error: Some("NOT_FOUND".to_string()),
            message: Some("no such user".to_string()),
        }
    );
}

#[test]
fn a_store_failure_renders_with_the_stores_text() {
    let response: Response<()> =
        AppError::DatabaseError("connection refused".to_string()).into_response();
    assert_eq!(response.status, 500);
    assert_eq!(response.body.error.as_deref(), Some("DATABASE_ERROR"));
    assert_eq!(response.body.message.as_deref(), Some("connection refused"));
}

#[test]
fn success_envelope_holds_the_payload_alone() {
    let body = ApiResponse::success(7u32);
    assert_eq!(body, ApiResponse { success: true, data: Some(7), error: None, message: None });
}

#[test]
fn failure_envelope_holds_code_and_text_alone() {
    let body: ApiResponse<u32> =
        ApiResponse::failure("BAD_REQUEST".to_string(), "nope".to_string());
    assert!(!body.success);
    assert_eq!(body.data, None);
    assert_eq!(body.error.as_deref(), Some("BAD_REQUEST"));
    assert_eq!(body.message.as_deref(), Some("nope"));
}

#[test]
fn respond_gives_a_payload_the_success_status() {
    let response = respond(Ok("payload".to_string()));
    assert_eq!(STATUS_OK, 200);
    assert_eq!(response.status, 200);
    assert_eq!(response.body, ApiResponse::success("payload".to_string()));
}

#[test]
fn respond_gives_each_failure_its_own_status_and_code() {
    let expected = [
        (500, "DATABASE_ERROR"),
        (404, "NOT_FOUND"),
        (400, "BAD_REQUEST"),
        (401, "UNAUTHORIZED"),
        (500, "INTERNAL_ERROR"),
        (422, "VALIDATION_ERROR"),
    ];
    for (error, (status, code)) in all_variants("text").into_iter().zip(expected) {
        let response: Response<u8> = respond(Err(error));
        assert_eq!(response.status, status);
        assert!(!response.body.success);
        assert_eq!(response.body.data, None);
        assert_eq!(response.body.error.as_deref(), Some(code));
        assert_eq!(response.body.message.as_deref(), Some("text"));
    }
}
