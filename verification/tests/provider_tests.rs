use authlink::errors::AuthError;
use authlink::provider::authorize_url;
use authlink::provider::decode_token_response;
use authlink::provider::decode_user_response;
use authlink::provider::ProviderGate;

#[test]
fn token_success_body_decodes_to_its_fields() {
    let body = "{\"access_token\":\"tok-1\",\"expires_in\":604800,\"id_token\":\"idt\",\
                 \"scope\":\"identify\",\"token_type\":\"Bearer\",\"refresh_token\":\"ref-1\"}";
    let token = decode_token_response(body).expect("success schema must decode");
    assert_eq!(token.access_token.as_str(), "tok-1");
    assert_eq!(token.expires_in, 604800);
    assert_eq!(token.id_token.as_str(), "idt");
    assert_eq!(token.scope.as_str(), "identify");
    assert_eq!(token.token_type.as_str(), "Bearer");
    assert_eq!(token.refresh_token.as_deref(), Some("ref-1"));
}

#[test]
fn token_body_without_refresh_token_decodes_to_none() {
    let body = "{\"access_token\":\"tok-2\",\"expires_in\":60,\"id_token\":\"i\",\
                 \"scope\":\"identify\",\"token_type\":\"Bearer\"}";
    let token = decode_token_response(body).unwrap();
    assert_eq!(token.refresh_token, None);
}

#[test]
fn provider_error_payload_decodes_to_its_code() {
    assert_eq!(
        decode_token_response("{\"code\": 50035}"),
        Err(AuthError::ProviderError(50035))
    );
    assert_eq!(
        decode_user_response("{\"code\": 40001}"),
        Err(AuthError::ProviderError(40001))
    );
}

#[test]
fn unrecognizable_body_is_a_decode_error() {
    assert_eq!(decode_token_response("not json at all"), Err(AuthError::DecodeError));
    assert_eq!(decode_token_response("{}"), Err(AuthError::DecodeError));
    assert_eq!(decode_user_response(""), Err(AuthError::DecodeError));
    assert_eq!(decode_user_response("{\"id\": 3}"), Err(AuthError::DecodeError));
}

#[test]
fn user_success_body_decodes_to_its_fields() {
    let body = "{\"id\":\"999\",\"username\":\"alice\",\"discriminator\":\"0\",\
                 \"global_name\":\"Alice\",\"avatar\":null}";
    let user = decode_user_response(body).expect("success schema must decode");
    assert_eq!(user.id.as_str(), "999");
    assert_eq!(user.username.as_str(), "alice");
    assert_eq!(user.discriminator.as_str(), "0");
    assert_eq!(user.global_name.as_deref(), Some("Alice"));
    assert_eq!(user.avatar, None);
}

#[test]
fn authorize_url_carries_the_code_as_state() {
    let url = authorize_url("cid-7", "https://example.net/cb", "abc123");
    assert_eq!(
        url.as_str(),
        "https://discord.com/oauth2/authorize?client_id=cid-7\
         &response_type=code&redirect_uri=https://example.net/cb\
         &scope=identify&state=abc123"
    );
}

#[test]
fn gate_admits_one_holder_at_a_time() {
    let mut gate = ProviderGate::new();
    assert!(gate.try_acquire());
    assert!(!gate.try_acquire());
    gate.release();
    assert!(gate.try_acquire());
}
