use idc_launcher::skin::{
    check_api_status, has_custom_skin_answer, skin_api_base, skin_url, upload_skin_url,
    validate_skin_model, DEFAULT_SKIN_API_URL, QUERY_TIMEOUT_SECS, UPLOAD_TIMEOUT_SECS,
};

#[test]
fn skin_api_base_defaults_to_local_service() {
    assert_eq!(skin_api_base(None), "http://localhost:3228");
    assert_eq!(DEFAULT_SKIN_API_URL, "http://localhost:3228");
    assert_eq!(skin_api_base(Some("https://skins.example".to_string())), "https://skins.example");
}

#[test]
fn skin_endpoints() {
    assert_eq!(
        upload_skin_url("http://localhost:3228", "42"),
        "http://localhost:3228/api/upload-skin/42"
    );
    assert_eq!(skin_url("http://localhost:3228", "42"), "http://localhost:3228/api/skin/42");
}

#[test]
fn skin_timeouts() {
    assert_eq!(UPLOAD_TIMEOUT_SECS, 30);
    assert_eq!(QUERY_TIMEOUT_SECS, 10);
}

#[test]
fn api_status_decision() {
    assert_eq!(check_api_status(200, "ignored"), Ok(()));
    assert_eq!(check_api_status(204, ""), Ok(()));
    assert_eq!(check_api_status(500, "boom"), Err("API Error: boom".to_string()));
    assert_eq!(
        check_api_status(404, "404 Not Found"),
        Err("API Error: 404 Not Found".to_string())
    );
    assert_eq!(check_api_status(302, ""), Err("API Error: ".to_string()));
}

#[test]
fn custom_skin_answer_reads_boolean() {
    assert_eq!(has_custom_skin_answer(200, "200 OK", br#"{"hasCustomSkin": true}"#), Ok(true));
    assert_eq!(has_custom_skin_answer(200, "200 OK", br#"{"hasCustomSkin": false, "x": 1}"#), Ok(false));
}

#[test]
fn custom_skin_answer_rejects_other_documents() {
    let invalid = Err("Invalid response format".to_string());
    assert_eq!(has_custom_skin_answer(200, "200 OK", br#"{"hasCustomSkin": "yes"}"#), invalid);
    assert_eq!(has_custom_skin_answer(200, "200 OK", br#"{"other": true}"#), invalid);
    assert_eq!(has_custom_skin_answer(200, "200 OK", b"true"), invalid);
    assert_eq!(has_custom_skin_answer(200, "200 OK", b"null"), invalid);
}

#[test]
fn custom_skin_answer_with_failure_status() {
    assert_eq!(
        has_custom_skin_answer(404, "404 Not Found", br#"{"hasCustomSkin": true}"#),
        Err("API Error: 404 Not Found".to_string())
    );
}

#[test]
fn custom_skin_answer_that_is_not_json() {
    let cause = serde_json::from_slice::<serde_json::Value>(b"{oops").unwrap_err();
    assert_eq!(
        has_custom_skin_answer(200, "200 OK", b"{oops"),
        Err(format!("error decoding response body: {}", cause))
    );
    assert_eq!(
        has_custom_skin_answer(200, "200 OK", b""),
        Err("error decoding response body: EOF while parsing a value at line 1 column 0".to_string())
    );
}

#[test]
fn skin_models_accepted() {
    assert_eq!(validate_skin_model("default"), Ok(()));
    assert_eq!(validate_skin_model("slim"), Ok(()));
}

#[test]
fn skin_models_refused() {
    let refused = Err("Modèle invalide. Utilisez 'default' ou 'slim'".to_string());
    assert_eq!(validate_skin_model("Slim"), refused);
    assert_eq!(validate_skin_model(""), refused);
    assert_eq!(validate_skin_model("default "), refused);
    assert_eq!(validate_skin_model("classic"), refused);
}
