use go_true::{AdminUserAttributes, Api, EmailOrPhone, HttpMethod, UserAttributes};

fn get_api_client() -> Api {
    Api::new("http://localhost:9998".to_string())
}

#[test]
fn it_should_return_url_for_provider() {
    let api = get_api_client();
    let url = api.get_url_for_provider("Github");

    assert!(url.ends_with("/authorize?provider=Github"));
}

#[test]
fn sign_up_request_with_email() {
    let api = get_api_client();
    let req = api.sign_up(EmailOrPhone::Email("user@example.com".to_string()), "Abcd1234!");

    assert_eq!(req.method, HttpMethod::Post);
    assert_eq!(req.url, "http://localhost:9998/signup");
    assert!(req.headers.is_empty());
    assert!(req.authorization.is_none());
    assert_eq!(
        req.body.as_deref(),
        Some(r#"{"email":"user@example.com","password":"Abcd1234!"}"#)
    );
}

#[test]
fn sign_up_request_with_phone() {
    let api = get_api_client();
    let req = api.sign_up(EmailOrPhone::Phone("+4912345".to_string()), "pw");

    assert_eq!(
        req.body.as_deref(),
        Some(r#"{"phone":"+4912345","password":"pw"}"#)
    );
}

#[test]
fn sign_up_request_escapes_special_characters() {
    let api = get_api_client();
    let req = api.sign_up(
        EmailOrPhone::Email("a\"b\\c".to_string()),
        "tab\there",
    );

    assert_eq!(
        req.body.as_deref(),
        Some("{\"email\":\"a\\\"b\\\\c\",\"password\":\"tab\\there\"}")
    );
}

#[test]
fn sign_in_request_uses_password_grant() {
    let api = get_api_client();
    let req = api.sign_in(EmailOrPhone::Email("user@example.com".to_string()), "Abcd1234!");

    assert_eq!(req.method, HttpMethod::Post);
    assert_eq!(req.url, "http://localhost:9998/token?grant_type=password");
    assert_eq!(
        req.body.as_deref(),
        Some(r#"{"email":"user@example.com","password":"Abcd1234!"}"#)
    );
}

#[test]
fn send_otp_request_without_create_flag() {
    let api = get_api_client();
    let req = api.send_otp(EmailOrPhone::Email("user@example.com".to_string()), None);

    assert_eq!(req.method, HttpMethod::Post);
    assert_eq!(req.url, "http://localhost:9998/otp");
    assert_eq!(
        req.body.as_deref(),
        Some(r#"{"email":"user@example.com","should_create_user":null}"#)
    );
}

#[test]
fn send_otp_request_with_create_flag() {
    let api = get_api_client();
    let req = api.send_otp(EmailOrPhone::Phone("+4912345".to_string()), Some(true));

    assert_eq!(
        req.body.as_deref(),
        Some(r#"{"phone":"+4912345","should_create_user":true}"#)
    );
}

#[test]
fn verify_otp_request_sends_params_verbatim() {
    let api = get_api_client();
    let req = api.verify_otp(r#"{"email":"user@example.com","token":"123456","type":"magiclink"}"#);

    assert_eq!(req.method, HttpMethod::Post);
    assert_eq!(req.url, "http://localhost:9998/verify");
    assert_eq!(
        req.body.as_deref(),
        Some(r#"{"email":"user@example.com","token":"123456","type":"magiclink"}"#)
    );
}

#[test]
fn sign_out_request_carries_bearer_token() {
    let api = get_api_client();
    let req = api.sign_out("some-access-token");

    assert_eq!(req.method, HttpMethod::Post);
    assert_eq!(req.url, "http://localhost:9998/logout");
    assert_eq!(req.authorization.as_deref(), Some("Bearer some-access-token"));
    assert!(req.body.is_none());
}

#[test]
fn reset_password_request() {
    let api = get_api_client();
    let req = api.reset_password_for_email("user@example.com");

    assert_eq!(req.method, HttpMethod::Post);
    assert_eq!(req.url, "http://localhost:9998/recover");
    assert_eq!(req.body.as_deref(), Some(r#"{"email":"user@example.com"}"#));
}

#[test]
fn refresh_access_token_request() {
    let api = get_api_client();
    let req = api.refresh_access_token("some-refresh-token");

    assert_eq!(req.method, HttpMethod::Post);
    assert_eq!(req.url, "http://localhost:9998/token?grant_type=refresh_token");
    assert_eq!(
        req.body.as_deref(),
        Some(r#"{"refresh_token":"some-refresh-token"}"#)
    );
}

#[test]
fn get_user_request_carries_bearer_token() {
    let api = get_api_client();
    let req = api.get_user("some-jwt");

    assert_eq!(req.method, HttpMethod::Get);
    assert_eq!(req.url, "http://localhost:9998/user");
    assert_eq!(req.authorization.as_deref(), Some("Bearer some-jwt"));
    assert!(req.body.is_none());
}

#[test]
fn update_user_request_splices_metadata() {
    let api = get_api_client();
    let attributes = UserAttributes {
        email: "other@example.com".to_string(),
        password: "Abcd12345!".to_string(),
        data: r#"{"test":"test"}"#.to_string(),
    };
    let req = api.update_user(attributes, "some-jwt");

    assert_eq!(req.method, HttpMethod::Put);
    assert_eq!(req.url, "http://localhost:9998/user");
    assert_eq!(req.authorization.as_deref(), Some("Bearer some-jwt"));
    assert_eq!(
        req.body.as_deref(),
        Some(r#"{"email":"other@example.com","password":"Abcd12345!","data":{"test":"test"}}"#)
    );
}

#[test]
fn invite_user_request() {
    let api = get_api_client();
    let req = api.invite_user_by_email("user@example.com");

    assert_eq!(req.method, HttpMethod::Post);
    assert_eq!(req.url, "http://localhost:9998/invite");
    assert_eq!(req.body.as_deref(), Some(r#"{"email":"user@example.com"}"#));
}

#[test]
fn list_users_request_without_query() {
    let api = get_api_client();
    let req = api.list_users(None);

    assert_eq!(req.method, HttpMethod::Get);
    assert_eq!(req.url, "http://localhost:9998/admin/users");
    assert!(req.body.is_none());
}

#[test]
fn list_users_request_with_query() {
    let api = get_api_client();
    let req = api.list_users(Some("?page=2".to_string()));

    assert_eq!(req.url, "http://localhost:9998/admin/users?page=2");
}

#[test]
fn get_user_by_id_request() {
    let api = get_api_client();
    let req = api.get_user_by_id("some-user-id");

    assert_eq!(req.method, HttpMethod::Get);
    assert_eq!(req.url, "http://localhost:9998/admin/users/some-user-id");
}

#[test]
fn create_user_request_renders_absent_fields_as_null() {
    let api = get_api_client();
    let user = AdminUserAttributes {
        email: "createemail@example.com".to_string(),
        password: Some("Abcd1234!".to_string()),
        data: None,
        email_confirmed: None,
        phone_confirmed: None,
    };
    let req = api.create_user(user);

    assert_eq!(req.method, HttpMethod::Post);
    assert_eq!(req.url, "http://localhost:9998/admin/users");
    assert_eq!(
        req.body.as_deref(),
        Some(
            r#"{"email":"createemail@example.com","password":"Abcd1234!","data":null,"email_confirmed":null,"phone_confirmed":null}"#
        )
    );
}

#[test]
fn update_user_by_id_request_reflects_new_email() {
    let api = get_api_client();
    let user = AdminUserAttributes {
        email: "newemail@example.com".to_string(),
        password: None,
        data: Some("null".to_string()),
        email_confirmed: Some(false),
        phone_confirmed: Some(true),
    };
    let req = api.update_user_by_id("some-user-id", user);

    assert_eq!(req.method, HttpMethod::Put);
    assert_eq!(req.url, "http://localhost:9998/admin/users/some-user-id");
    assert_eq!(
        req.body.as_deref(),
        Some(
            r#"{"email":"newemail@example.com","password":null,"data":null,"email_confirmed":false,"phone_confirmed":true}"#
        )
    );
}

#[test]
fn delete_user_request() {
    let api = get_api_client();
    let req = api.delete_user("some-user-id");

    assert_eq!(req.method, HttpMethod::Delete);
    assert_eq!(req.url, "http://localhost:9998/admin/users/some-user-id");
    assert!(req.body.is_none());
    assert!(req.authorization.is_none());
}

#[test]
fn inserted_headers_travel_with_every_request() {
    let api = get_api_client()
        .insert_header("apikey".to_string(), "some-gateway-key".to_string());
    let req = api.list_users(None);

    assert_eq!(req.headers.len(), 1);
    assert_eq!(req.headers[0].0, "apikey");
    assert_eq!(req.headers[0].1, "some-gateway-key");
}

#[test]
fn escaped_body_matches_serde_json_encoding() {
    let api = get_api_client();
    let email = "weird \"email\"@exa\\mple.com";
    let req = api.reset_password_for_email(email);

    let expected = format!("{{\"email\":{}}}", serde_json::to_string(email).unwrap());
    assert_eq!(req.body.as_deref(), Some(expected.as_str()));
}
