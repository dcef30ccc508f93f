use flexnotes::error::ApiError;

#[test]
fn status_codes() {
    assert_eq!(ApiError::NotFound.status_code(), 404);
    assert_eq!(ApiError::InternalError.status_code(), 500);
    assert_eq!(ApiError::MissingPayload.status_code(), 400);
    assert_eq!(ApiError::Unathorized.status_code(), 401);
    assert_eq!(ApiError::UserExist.status_code(), 302);
    assert_eq!(ApiError::TokenExpired.status_code(), 401);
    assert_eq!(ApiError::MissingCredential.status_code(), 401);
    assert_eq!(ApiError::NothingChanged.status_code(), 304);
}

#[test]
fn messages() {
    assert_eq!(ApiError::NotFound.message(), "Resource not found");
    assert_eq!(ApiError::InternalError.message(), "Something went wrong");
    assert_eq!(ApiError::MissingPayload.message(), "Something is missing");
    assert_eq!(ApiError::Unathorized.message(), "User unathorized");
    assert_eq!(ApiError::UserExist.message(), "User already exists");
    assert_eq!(ApiError::TokenExpired.message(), "Your token expired");
    assert_eq!(ApiError::MissingCredential.message(), "Missing auth.. ");
    assert_eq!(ApiError::NothingChanged.message(), "Nothing changed");
}
