//! Request construction for every remote operation.
//!
//! One method per endpoint: each builds the full [`HttpRequest`] for that
//! operation — URL, method, accumulated headers, optional bearer token and
//! exact JSON body — and its contract pins every one of those fields.

use vstd::prelude::*;
use crate::http::{HttpMethod, HttpRequest, request_is};
use crate::json::{json_string_of, json_opt_bool, json_quote, append_opt_bool};
use crate::user_attributes::{AdminUserAttributes, UserAttributes};

verus! {

/// The identity a caller authenticates with.
#[derive(Debug)]
pub enum EmailOrPhone {
    Email(String),
    Phone(String),
}

impl EmailOrPhone {
    /// The JSON field name this identity is sent under.
    pub open spec fn field_name(self) -> Seq<char> {
        match self {
            EmailOrPhone::Email(_) => "email"@,
            EmailOrPhone::Phone(_) => "phone"@,
        }
    }

    /// The identity itself.
    pub open spec fn value(self) -> Seq<char> {
        match self {
            EmailOrPhone::Email(s) => s@,
            EmailOrPhone::Phone(s) => s@,
        }
    }
}

/// The body sent to sign up or sign in: the identity under its field
/// name, then the password.
pub open spec fn credentials_body(field: Seq<char>, id: Seq<char>, password: Seq<char>) -> Seq<
    char,
> {
    "{\""@ + field + "\":"@ + json_string_of(id) + ",\"password\":"@ + json_string_of(password)
        + "}"@
}

/// The body sent to request a one-time passcode.
pub open spec fn otp_body(field: Seq<char>, id: Seq<char>, should_create: Option<bool>) -> Seq<
    char,
> {
    "{\""@ + field + "\":"@ + json_string_of(id) + ",\"should_create_user\":"@ + json_opt_bool(
        should_create,
    ) + "}"@
}

/// A body carrying one email field.
pub open spec fn email_body(email: Seq<char>) -> Seq<char> {
    "{\"email\":"@ + json_string_of(email) + "}"@
}

/// The body sent to exchange a refresh token.
pub open spec fn refresh_body(refresh_token: Seq<char>) -> Seq<char> {
    "{\"refresh_token\":"@ + json_string_of(refresh_token) + "}"@
}

/// The body sent when a signed-in user updates their own record; the
/// metadata text is spliced in verbatim.
pub open spec fn user_attributes_body(user: UserAttributes) -> Seq<char> {
    "{\"email\":"@ + json_string_of(user.email@) + ",\"password\":"@ + json_string_of(
        user.password@,
    ) + ",\"data\":"@ + user.data@ + "}"@
}

/// The body sent for administrative user creation and update: every
/// field present, absent options as `null`, metadata spliced verbatim.
pub open spec fn admin_user_body(user: AdminUserAttributes) -> Seq<char> {
    "{\"email\":"@ + json_string_of(user.email@) + ",\"password\":"@ + (match user.password {
        Some(p) => json_string_of(p@),
        None => "null"@,
    }) + ",\"data\":"@ + (match user.data {
        Some(d) => d@,
        None => "null"@,
    }) + ",\"email_confirmed\":"@ + json_opt_bool(user.email_confirmed)
        + ",\"phone_confirmed\":"@ + json_opt_bool(user.phone_confirmed) + "}"@
}

/// The value of the `Authorization` header for a bearer token.
pub open spec fn bearer_of(token: Seq<char>) -> Seq<char> {
    "Bearer "@ + token
}

/// Copies a header list, entry by entry.
fn clone_headers(headers: &Vec<(String, String)>) -> (r: Vec<(String, String)>)
    ensures
        r@ == headers@,
{
    let mut out: Vec<(String, String)> = Vec::new();
    let mut i: usize = 0;
    while i < headers.len()
        invariant
            i <= headers@.len(),
            out@ == headers@.subrange(0, i as int),
        decreases headers@.len() - i,
    {
        let pair = &headers[i];
        out.push((pair.0.clone(), pair.1.clone()));
        proof {
            assert(out@ =~= headers@.subrange(0, i as int + 1));
        }
        i = i + 1;
    }
    proof {
        assert(out@ =~= headers@);
    }
    out
}

/// Formats a bearer token as an `Authorization` header value.
fn bearer_value(token: &str) -> (r: String)
    ensures
        r@ == bearer_of(token@),
{
    let mut out = String::new();
    out.append("Bearer ");
    out.append(token);
    proof {
        assert(out@ =~= bearer_of(token@));
    }
    out
}

/// Builds the sign-up / sign-in body for an identity and a password.
fn build_credentials_body(identity: &EmailOrPhone, password: &str) -> (r: String)
    ensures
        r@ == credentials_body(identity.field_name(), identity.value(), password@),
{
    let (field, id): (&str, &str) = match identity {
        EmailOrPhone::Email(s) => ("email", s.as_str()),
        EmailOrPhone::Phone(s) => ("phone", s.as_str()),
    };
    let mut out = String::new();
    out.append("{\"");
    out.append(field);
    out.append("\":");
    let quoted_id = json_quote(id);
    out.append(quoted_id.as_str());
    out.append(",\"password\":");
    let quoted_password = json_quote(password);
    out.append(quoted_password.as_str());
    out.append("}");
    proof {
        assert(out@ =~= credentials_body(identity.field_name(), identity.value(), password@));
    }
    out
}

/// Builds the administrative user payload.
fn build_admin_user_body(user: &AdminUserAttributes) -> (r: String)
    ensures
        r@ == admin_user_body(*user),
{
    let mut out = String::new();
    out.append("{\"email\":");
    let quoted_email = json_quote(user.email.as_str());
    out.append(quoted_email.as_str());
    out.append(",\"password\":");
    match &user.password {
        Some(p) => {
            let quoted = json_quote(p.as_str());
            out.append(quoted.as_str());
        },
        None => out.append("null"),
    }
    out.append(",\"data\":");
    match &user.data {
        Some(d) => out.append(d.as_str()),
        None => out.append("null"),
    }
    out.append(",\"email_confirmed\":");
    append_opt_bool(&mut out, user.email_confirmed);
    out.append(",\"phone_confirmed\":");
    append_opt_bool(&mut out, user.phone_confirmed);
    out.append("}");
    proof {
        assert(out@ =~= admin_user_body(*user));
    }
    out
}

/// The request-building side of the client: a base URL and the static
/// headers accumulated so far.
#[derive(Debug)]
pub struct Api {
    pub url: String,
    pub headers: Vec<(String, String)>,
}

impl Api {
    /// Creates an API client for the service at this base URL, with no
    /// extra headers.
    pub fn new(url: String) -> (r: Api)
        ensures
            r.url@ == url@,
            r.headers@ == Seq::<(String, String)>::empty(),
    {
        Api { url, headers: Vec::new() }
    }

    /// Adds an arbitrary header to every request this client builds, for
    /// instance an API key demanded by a gateway.
    pub fn insert_header(self, header_name: String, header_value: String) -> (r: Api)
        ensures
            r.url@ == self.url@,
            r.headers@ == self.headers@.push((header_name, header_value)),
    {
        let mut headers = self.headers;
        headers.push((header_name, header_value));
        Api { url: self.url, headers }
    }

    /// The base URL followed by this suffix.
    fn url_with(&self, suffix: &str) -> (r: String)
        ensures
            r@ == self.url@ + suffix@,
    {
        let mut out = self.url.clone();
        out.append(suffix);
        out
    }

    /// The request that signs up a new account.
    pub fn sign_up(&self, email_or_phone: EmailOrPhone, password: &str) -> (r: HttpRequest)
        ensures
            request_is(
                r,
                HttpMethod::Post,
                self.url@ + "/signup"@,
                self.headers@,
                None,
                Some(
                    credentials_body(
                        email_or_phone.field_name(),
                        email_or_phone.value(),
                        password@,
                    ),
                ),
            ),
    {
        let body = build_credentials_body(&email_or_phone, password);
        HttpRequest {
            method: HttpMethod::Post,
            url: self.url_with("/signup"),
            headers: clone_headers(&self.headers),
            authorization: None,
            body: Some(body),
        }
    }

    /// The request that signs into an existing account.
    pub fn sign_in(&self, email_or_phone: EmailOrPhone, password: &str) -> (r: HttpRequest)
        ensures
            request_is(
                r,
                HttpMethod::Post,
                self.url@ + "/token?grant_type=password"@,
                self.headers@,
                None,
                Some(
                    credentials_body(
                        email_or_phone.field_name(),
                        email_or_phone.value(),
                        password@,
                    ),
                ),
            ),
    {
        let body = build_credentials_body(&email_or_phone, password);
        HttpRequest {
            method: HttpMethod::Post,
            url: self.url_with("/token?grant_type=password"),
            headers: clone_headers(&self.headers),
            authorization: None,
            body: Some(body),
        }
    }

    /// The request that sends a one-time passcode, creating the user if
    /// asked to.
    pub fn send_otp(&self, email_or_phone: EmailOrPhone, should_create_user: Option<bool>) -> (r:
        HttpRequest)
        ensures
            request_is(
                r,
                HttpMethod::Post,
                self.url@ + "/otp"@,
                self.headers@,
                None,
                Some(
                    otp_body(
                        email_or_phone.field_name(),
                        email_or_phone.value(),
                        should_create_user,
                    ),
                ),
            ),
    {
        let (field, id): (&str, &str) = match &email_or_phone {
            EmailOrPhone::Email(s) => ("email", s.as_str()),
            EmailOrPhone::Phone(s) => ("phone", s.as_str()),
        };
        let mut body = String::new();
        body.append("{\"");
        body.append(field);
        body.append("\":");
        let quoted_id = json_quote(id);
        body.append(quoted_id.as_str());
        body.append(",\"should_create_user\":");
        append_opt_bool(&mut body, should_create_user);
        body.append("}");
        proof {
            assert(body@ =~= otp_body(
                email_or_phone.field_name(),
                email_or_phone.value(),
                should_create_user,
            ));
        }
        HttpRequest {
            method: HttpMethod::Post,
            url: self.url_with("/otp"),
            headers: clone_headers(&self.headers),
            authorization: None,
            body: Some(body),
        }
    }

    /// The request that verifies a one-time passcode; the caller supplies
    /// the parameters as JSON text, sent verbatim.
    pub fn verify_otp(&self, params: &str) -> (r: HttpRequest)
        ensures
            request_is(
                r,
                HttpMethod::Post,
                self.url@ + "/verify"@,
                self.headers@,
                None,
                Some(params@),
            ),
    {
        HttpRequest {
            method: HttpMethod::Post,
            url: self.url_with("/verify"),
            headers: clone_headers(&self.headers),
            authorization: None,
            body: Some(params.to_owned()),
        }
    }

    /// The request that signs the holder of this access token out.
    pub fn sign_out(&self, access_token: &str) -> (r: HttpRequest)
        ensures
            request_is(
                r,
                HttpMethod::Post,
                self.url@ + "/logout"@,
                self.headers@,
                Some(bearer_of(access_token@)),
                None,
            ),
    {
        HttpRequest {
            method: HttpMethod::Post,
            url: self.url_with("/logout"),
            headers: clone_headers(&self.headers),
            authorization: Some(bearer_value(access_token)),
            body: None,
        }
    }

    /// The request that sends a password recovery email.
    pub fn reset_password_for_email(&self, email: &str) -> (r: HttpRequest)
        ensures
            request_is(
                r,
                HttpMethod::Post,
                self.url@ + "/recover"@,
                self.headers@,
                None,
                Some(email_body(email@)),
            ),
    {
        let mut body = String::new();
        body.append("{\"email\":");
        let quoted = json_quote(email);
        body.append(quoted.as_str());
        body.append("}");
        proof {
            assert(body@ =~= email_body(email@));
        }
        HttpRequest {
            method: HttpMethod::Post,
            url: self.url_with("/recover"),
            headers: clone_headers(&self.headers),
            authorization: None,
            body: Some(body),
        }
    }

    /// The URL a user visits to sign in through an external provider.
    pub fn get_url_for_provider(&self, provider: &str) -> (r: String)
        ensures
            r@ == self.url@ + "/authorize?provider="@ + provider@,
    {
        let mut out = self.url_with("/authorize?provider=");
        out.append(provider);
        out
    }

    /// The request that exchanges a refresh token for a new session.
    pub fn refresh_access_token(&self, refresh_token: &str) -> (r: HttpRequest)
        ensures
            request_is(
                r,
                HttpMethod::Post,
                self.url@ + "/token?grant_type=refresh_token"@,
                self.headers@,
                None,
                Some(refresh_body(refresh_token@)),
            ),
    {
        let mut body = String::new();
        body.append("{\"refresh_token\":");
        let quoted = json_quote(refresh_token);
        body.append(quoted.as_str());
        body.append("}");
        proof {
            assert(body@ =~= refresh_body(refresh_token@));
        }
        HttpRequest {
            method: HttpMethod::Post,
            url: self.url_with("/token?grant_type=refresh_token"),
            headers: clone_headers(&self.headers),
            authorization: None,
            body: Some(body),
        }
    }

    /// The request that fetches the user this access token belongs to.
    pub fn get_user(&self, jwt: &str) -> (r: HttpRequest)
        ensures
            request_is(
                r,
                HttpMethod::Get,
                self.url@ + "/user"@,
                self.headers@,
                Some(bearer_of(jwt@)),
                None,
            ),
    {
        HttpRequest {
            method: HttpMethod::Get,
            url: self.url_with("/user"),
            headers: clone_headers(&self.headers),
            authorization: Some(bearer_value(jwt)),
            body: None,
        }
    }

    /// The request that updates the signed-in user's own attributes.
    pub fn update_user(&self, user: UserAttributes, jwt: &str) -> (r: HttpRequest)
        ensures
            request_is(
                r,
                HttpMethod::Put,
                self.url@ + "/user"@,
                self.headers@,
                Some(bearer_of(jwt@)),
                Some(user_attributes_body(user)),
            ),
    {
        let mut body = String::new();
        body.append("{\"email\":");
        let quoted_email = json_quote(user.email.as_str());
        body.append(quoted_email.as_str());
        body.append(",\"password\":");
        let quoted_password = json_quote(user.password.as_str());
        body.append(quoted_password.as_str());
        body.append(",\"data\":");
        body.append(user.data.as_str());
        body.append("}");
        proof {
            assert(body@ =~= user_attributes_body(user));
        }
        HttpRequest {
            method: HttpMethod::Put,
            url: self.url_with("/user"),
            headers: clone_headers(&self.headers),
            authorization: Some(bearer_value(jwt)),
            body: Some(body),
        }
    }

    /// The request that invites a user by email.
    pub fn invite_user_by_email(&self, email: &str) -> (r: HttpRequest)
        ensures
            request_is(
                r,
                HttpMethod::Post,
                self.url@ + "/invite"@,
                self.headers@,
                None,
                Some(email_body(email@)),
            ),
    {
        let mut body = String::new();
        body.append("{\"email\":");
        let quoted = json_quote(email);
        body.append(quoted.as_str());
        body.append("}");
        proof {
            assert(body@ =~= email_body(email@));
        }
        HttpRequest {
            method: HttpMethod::Post,
            url: self.url_with("/invite"),
            headers: clone_headers(&self.headers),
            authorization: None,
            body: Some(body),
        }
    }

    /// The request that lists users, with an optional query string
    /// appended as given.
    pub fn list_users(&self, query_string: Option<String>) -> (r: HttpRequest)
        ensures
            request_is(
                r,
                HttpMethod::Get,
                self.url@ + "/admin/users"@ + (match query_string {
                    Some(q) => q@,
                    None => Seq::<char>::empty(),
                }),
                self.headers@,
                None,
                None,
            ),
    {
        let mut url = self.url_with("/admin/users");
        match &query_string {
            Some(q) => url.append(q.as_str()),
            None => (),
        }
        proof {
            assert(url@ =~= self.url@ + "/admin/users"@ + (match query_string {
                Some(q) => q@,
                None => Seq::<char>::empty(),
            }));
        }
        HttpRequest {
            method: HttpMethod::Get,
            url,
            headers: clone_headers(&self.headers),
            authorization: None,
            body: None,
        }
    }

    /// The request that fetches one user by id.
    pub fn get_user_by_id(&self, user_id: &str) -> (r: HttpRequest)
        ensures
            request_is(
                r,
                HttpMethod::Get,
                self.url@ + "/admin/users/"@ + user_id@,
                self.headers@,
                None,
                None,
            ),
    {
        let mut url = self.url_with("/admin/users/");
        url.append(user_id);
        HttpRequest {
            method: HttpMethod::Get,
            url,
            headers: clone_headers(&self.headers),
            authorization: None,
            body: None,
        }
    }

    /// The request that creates a user administratively.
    pub fn create_user(&self, user: AdminUserAttributes) -> (r: HttpRequest)
        ensures
            request_is(
                r,
                HttpMethod::Post,
                self.url@ + "/admin/users"@,
                self.headers@,
                None,
                Some(admin_user_body(user)),
            ),
    {
        let body = build_admin_user_body(&user);
        HttpRequest {
            method: HttpMethod::Post,
            url: self.url_with("/admin/users"),
            headers: clone_headers(&self.headers),
            authorization: None,
            body: Some(body),
        }
    }

    /// The request that updates one user by id; the body carries exactly
    /// the attributes supplied.
    pub fn update_user_by_id(&self, id: &str, user: AdminUserAttributes) -> (r: HttpRequest)
        ensures
            request_is(
                r,
                HttpMethod::Put,
                self.url@ + "/admin/users/"@ + id@,
                self.headers@,
                None,
                Some(admin_user_body(user)),
            ),
    {
        let body = build_admin_user_body(&user);
        let mut url = self.url_with("/admin/users/");
        url.append(id);
        HttpRequest {
            method: HttpMethod::Put,
            url,
            headers: clone_headers(&self.headers),
            authorization: None,
            body: Some(body),
        }
    }

    /// The request that deletes one user by id.
    pub fn delete_user(&self, user_id: &str) -> (r: HttpRequest)
        ensures
            request_is(
                r,
                HttpMethod::Delete,
                self.url@ + "/admin/users/"@ + user_id@,
                self.headers@,
                None,
                None,
            ),
    {
        let mut url = self.url_with("/admin/users/");
        url.append(user_id);
        HttpRequest {
            method: HttpMethod::Delete,
            url,
            headers: clone_headers(&self.headers),
            authorization: None,
            body: None,
        }
    }
}

} // verus!
