use polar::HttpMethod;
use polar::Polar;
use polar::PolarError;

#[test]
fn should_get_polar_when_arguments_are_valid() {
    let result = Polar::new("https://sandbox-api.polar.sh/v1/", "123");

    assert!(result.is_ok());
}

#[test]
fn should_not_get_polar_when_base_url_is_invalid() {
    let result = Polar::new("/v1/", "123");

    assert!(result.is_err());
}

#[test]
fn should_not_get_polar_when_access_token_is_empty() {
    let result = Polar::new("https://sandbox-api.polar.sh/v1/", "");

    assert!(result.is_err());
}

#[test]
fn empty_token_error_names_the_token() {
    let err = Polar::new("https://sandbox-api.polar.sh/v1/", "").err().unwrap();

    assert!(matches!(err, PolarError::Request(_)));
    assert_eq!(err.message(), "Request error: access_token cannot be empty");
}

#[test]
fn invalid_base_url_error_names_the_url() {
    let err = Polar::new("/v1/", "123").err().unwrap();

    assert!(matches!(err, PolarError::Request(_)));
    assert_eq!(err.message(), "Request error: base_url is not a valid URL");
}

#[test]
fn base_url_without_a_host_is_rejected() {
    let mailto = Polar::new("mailto:user@example.com", "123");
    assert!(mailto.is_err());
    assert_eq!(
        mailto.err().unwrap().message(),
        "Request error: base_url is not a valid URL"
    );

    let data = Polar::new("data:text/plain,hello", "123");
    assert!(data.is_err());
}

#[test]
fn request_url_reports_a_failed_resolution() {
    let polar = Polar::new("https://api.example.com/v1/", "123").ok().unwrap();

    let err = polar.request_url("https://[oops").err().unwrap();

    assert!(matches!(err, PolarError::Request(_)));
}

#[test]
fn access_token_is_kept() {
    let polar = Polar::new("https://sandbox-api.polar.sh/v1/", "123").ok().unwrap();

    assert_eq!(polar.access_token(), "123");
}

#[test]
fn request_url_resolves_under_the_base_path() {
    let polar = Polar::new("https://api.example.com/v1/", "123").ok().unwrap();

    let url = polar.request_url("checkouts").ok().unwrap();

    assert_eq!(url.as_str(), "https://api.example.com/v1/checkouts");
}

#[test]
fn base_path_without_trailing_slash_is_given_one() {
    let polar = Polar::new("https://api.example.com/v1", "123").ok().unwrap();

    let url = polar.request_url("checkouts").ok().unwrap();

    assert_eq!(url.as_str(), "https://api.example.com/v1/checkouts");
}

#[test]
fn success_status_is_201_only_for_post() {
    assert_eq!(HttpMethod::Post.success_status(), 201);
    assert_eq!(HttpMethod::Get.success_status(), 200);
    assert_eq!(HttpMethod::Patch.success_status(), 200);
    assert_eq!(HttpMethod::Delete.success_status(), 200);
}

#[test]
fn classify_get_200_returns_the_body() {
    let r = polar::classify_response(&HttpMethod::Get, 200, "{\"id\":1}".to_string());

    assert_eq!(r.ok().unwrap(), "{\"id\":1}");
}

#[test]
fn classify_post_201_returns_the_body() {
    let r = polar::classify_response(&HttpMethod::Post, 201, "created".to_string());

    assert_eq!(r.ok().unwrap(), "created");
}

#[test]
fn classify_post_200_is_unknown() {
    let r = polar::classify_response(&HttpMethod::Post, 200, "body".to_string());

    match r.err().unwrap() {
        PolarError::Unknown(m) => assert_eq!(m, "body"),
        _ => panic!("expected an unknown error"),
    }
}

#[test]
fn classify_get_404_is_not_found() {
    let r = polar::classify_response(&HttpMethod::Get, 404, "missing".to_string());

    assert!(matches!(r.err().unwrap(), PolarError::NotFound));
}

#[test]
fn classify_delete_404_is_not_found() {
    let r = polar::classify_response(&HttpMethod::Delete, 404, "missing".to_string());

    assert!(matches!(r.err().unwrap(), PolarError::NotFound));
}

#[test]
fn classify_post_404_is_unknown() {
    let r = polar::classify_response(&HttpMethod::Post, 404, "missing".to_string());

    match r.err().unwrap() {
        PolarError::Unknown(m) => assert_eq!(m, "missing"),
        _ => panic!("expected an unknown error"),
    }
}

#[test]
fn classify_422_is_validation_with_the_body() {
    for method in [HttpMethod::Get, HttpMethod::Post, HttpMethod::Patch, HttpMethod::Delete] {
        let r = polar::classify_response(&method, 422, "bad field".to_string());

        match r.err().unwrap() {
            PolarError::Validation(m) => assert_eq!(m, "bad field"),
            _ => panic!("expected a validation error"),
        }
    }
}

#[test]
fn classify_401_is_unauthorized() {
    let r = polar::classify_response(&HttpMethod::Patch, 401, "".to_string());

    assert!(matches!(r.err().unwrap(), PolarError::Unauthorized));
}

#[test]
fn classify_500_is_unknown_with_the_body() {
    let r = polar::classify_response(&HttpMethod::Get, 500, "oops".to_string());

    match r.err().unwrap() {
        PolarError::Unknown(m) => assert_eq!(m, "oops"),
        _ => panic!("expected an unknown error"),
    }
}

#[test]
fn error_messages_name_each_case() {
    assert_eq!(PolarError::NotFound.message(), "Not found");
    assert_eq!(PolarError::Unauthorized.message(), "Unauthorized");
    assert_eq!(PolarError::Request("r".to_string()).message(), "Request error: r");
    assert_eq!(PolarError::Unknown("u".to_string()).message(), "Unknown error: u");
    assert_eq!(PolarError::Validation("v".to_string()).message(), "Validation error: v");
}
