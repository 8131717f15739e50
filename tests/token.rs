use logto_rs::token::{
    authorization_code_form, refresh_token_form, revocation_form, RevocationParams,
    TokenByAuthorizationCodeParameters, TokenByRefreshTokenParameters,
};

fn form(pairs: &[(&str, &str)]) -> Vec<(String, String)> {
    pairs
        .iter()
        .map(|(a, b)| (a.to_string(), b.to_string()))
        .collect()
}

#[test]
fn authorization_code_form_fields() {
    let params = TokenByAuthorizationCodeParameters {
        token_endpoint: "https://logto.dev/oidc/token".to_string(),
        client_id: "client_id_value".to_string(),
        redirect_uri: "https://localhost:3000/callback".to_string(),
        code_verifier: "code_verifier_value".to_string(),
        code: "code_value".to_string(),
        resource: Some("resource_value".to_string()),
    };
    assert_eq!(
        authorization_code_form(&params),
        form(&[
            ("client_id", "client_id_value"),
            ("code", "code_value"),
            ("code_verifier", "code_verifier_value"),
            ("redirect_uri", "https://localhost:3000/callback"),
            ("grant_type", "authorization_code"),
            ("resource", "resource_value"),
        ])
    );
}

#[test]
fn authorization_code_form_without_resource() {
    let params = TokenByAuthorizationCodeParameters {
        token_endpoint: "https://logto.dev/oidc/token".to_string(),
        client_id: "c".to_string(),
        redirect_uri: "r".to_string(),
        code_verifier: "v".to_string(),
        code: "x".to_string(),
        resource: None,
    };
    assert_eq!(
        authorization_code_form(&params),
        form(&[
            ("client_id", "c"),
            ("code", "x"),
            ("code_verifier", "v"),
            ("redirect_uri", "r"),
            ("grant_type", "authorization_code"),
        ])
    );
}

#[test]
fn refresh_token_form_with_scopes_and_resource() {
    let params = TokenByRefreshTokenParameters {
        token_endpoint: "https://logto.dev/oidc/token".to_string(),
        client_id: "client".to_string(),
        refresh_token: "refresh".to_string(),
        resource: Some("api".to_string()),
        scopes: Some(vec!["read".to_string(), "register".to_string()]),
    };
    assert_eq!(
        refresh_token_form(&params),
        form(&[
            ("client_id", "client"),
            ("refresh_token", "refresh"),
            ("grant_type", "refresh_token"),
            ("scope", "read register"),
            ("resource", "api"),
        ])
    );
}

#[test]
fn refresh_token_form_never_sends_empty_scope() {
    for scopes in [None, Some(Vec::new()), Some(vec![String::new()])] {
        let params = TokenByRefreshTokenParameters {
            token_endpoint: "https://logto.dev/oidc/token".to_string(),
            client_id: "client".to_string(),
            refresh_token: "refresh".to_string(),
            resource: None,
            scopes,
        };
        assert_eq!(
            refresh_token_form(&params),
            form(&[
                ("client_id", "client"),
                ("refresh_token", "refresh"),
                ("grant_type", "refresh_token"),
            ])
        );
    }
}

#[test]
fn revocation_form_fields() {
    let params = RevocationParams {
        revocation_endpoint: "https://logto.dev/oidc/token/revocation".to_string(),
        client_id: "client_id".to_string(),
        token: "token".to_string(),
    };
    assert_eq!(
        revocation_form(&params),
        form(&[("client_id", "client_id"), ("token", "token")])
    );
}
