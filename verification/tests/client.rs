use operator_config::{
    CAData, ClientConfig, Credentials, KubeConfigError, ResolvedKubeConfig,
    SERVICE_ACCOUNT_CA_PATH, SERVICE_ACCOUNT_TOKEN_PATH,
};
use std::io;

fn resolved() -> ResolvedKubeConfig {
    ResolvedKubeConfig {
        api_server_endpoint: "https://10.0.0.1:6443".to_owned(),
        credentials: Credentials::Pem {
            certificate_base64: "Y2VydA==".to_owned(),
            private_key_base64: "a2V5".to_owned(),
        },
        ca_data: Some(CAData::Contents("-----BEGIN CERTIFICATE-----".to_owned())),
        insecure_skip_tls_verify: false,
        impersonate: Some("jane".to_owned()),
        impersonate_groups: vec!["dev".to_owned(), "ops".to_owned()],
    }
}

#[test]
fn service_account_paths() {
    assert_eq!(SERVICE_ACCOUNT_TOKEN_PATH, "/var/run/secrets/kubernetes.io/serviceaccount/token");
    assert_eq!(SERVICE_ACCOUNT_CA_PATH, "/var/run/secrets/kubernetes.io/serviceaccount/ca.crt");
}

#[test]
fn service_account_without_ca_file() {
    let config = ClientConfig::from_service_account("agent", Ok("abc123".to_owned()), false).unwrap();
    assert_eq!(config.credentials, Credentials::Header("Bearer abc123".to_owned()));
    assert_eq!(config.ca_data, None);
    assert_eq!(config.api_server_endpoint, "https://kubernetes.default.svc");
    assert_eq!(config.user_agent, "agent");
    assert!(config.verify_ssl_certs);
    assert_eq!(config.impersonate, None);
    assert!(config.impersonate_groups.is_empty());
}

#[test]
fn service_account_with_ca_file() {
    let config = ClientConfig::from_service_account("agent", Ok("abc123".to_owned()), true).unwrap();
    assert_eq!(
        config.ca_data,
        Some(CAData::File("/var/run/secrets/kubernetes.io/serviceaccount/ca.crt".to_owned()))
    );
    assert_eq!(config.credentials, Credentials::Header("Bearer abc123".to_owned()));
    assert_eq!(config.api_server_endpoint, "https://kubernetes.default.svc");
    assert!(config.verify_ssl_certs);
}

#[test]
fn service_account_token_is_not_trimmed() {
    let config = ClientConfig::from_service_account("agent", Ok(" tok en\n".to_owned()), false).unwrap();
    assert_eq!(config.credentials, Credentials::Header("Bearer  tok en\n".to_owned()));
    let config = ClientConfig::from_service_account("", Ok(String::new()), false).unwrap();
    assert_eq!(config.credentials, Credentials::Header("Bearer ".to_owned()));
    assert_eq!(config.user_agent, "");
}

#[test]
fn service_account_missing_token_file() {
    let missing = io::Error::new(io::ErrorKind::NotFound, "no such file");
    let error = ClientConfig::from_service_account("agent", Err(missing), false).unwrap_err();
    assert_eq!(error.kind(), io::ErrorKind::NotFound);
    assert_eq!(error.to_string(), "no such file");
}

#[test]
fn service_account_unreadable_token_file() {
    let denied = io::Error::from(io::ErrorKind::PermissionDenied);
    let outcome = ClientConfig::from_service_account("agent", Err(denied), true);
    assert!(outcome.is_err());
    assert_eq!(outcome.unwrap_err().kind(), io::ErrorKind::PermissionDenied);
}

#[test]
fn kubeconfig_pieces_are_assembled() {
    let config = ClientConfig::from_kubeconfig("agent/1.0", Ok(resolved())).unwrap();
    let expected = ClientConfig {
        api_server_endpoint: "https://10.0.0.1:6443".to_owned(),
        credentials: Credentials::Pem {
            certificate_base64: "Y2VydA==".to_owned(),
            private_key_base64: "a2V5".to_owned(),
        },
        ca_data: Some(CAData::Contents("-----BEGIN CERTIFICATE-----".to_owned())),
        user_agent: "agent/1.0".to_owned(),
        verify_ssl_certs: true,
        impersonate: Some("jane".to_owned()),
        impersonate_groups: vec!["dev".to_owned(), "ops".to_owned()],
    };
    assert_eq!(config, expected);
}

#[test]
fn kubeconfig_verifies_certificates_unless_told_otherwise() {
    let mut pieces = resolved();
    pieces.ca_data = None;
    pieces.credentials = Credentials::Header("Bearer t".to_owned());
    let config = ClientConfig::from_kubeconfig("agent", Ok(pieces.clone())).unwrap();
    assert!(config.verify_ssl_certs);
    assert_eq!(config.ca_data, None);
    assert_eq!(config.credentials, Credentials::Header("Bearer t".to_owned()));
    pieces.insecure_skip_tls_verify = true;
    let config = ClientConfig::from_kubeconfig("agent", Ok(pieces)).unwrap();
    assert!(!config.verify_ssl_certs);
}

#[test]
fn kubeconfig_with_file_ca() {
    let mut pieces = resolved();
    pieces.ca_data = Some(CAData::File("/etc/ca.pem".to_owned()));
    let config = ClientConfig::from_kubeconfig("agent", Ok(pieces)).unwrap();
    assert_eq!(config.ca_data, Some(CAData::File("/etc/ca.pem".to_owned())));
}

#[test]
fn kubeconfig_malformed() {
    let error = KubeConfigError::Malformed("line 3".to_owned());
    assert_eq!(ClientConfig::from_kubeconfig("agent", Err(error.clone())), Err(error));
}

#[test]
fn kubeconfig_missing_context() {
    let error = KubeConfigError::MissingContext("prod".to_owned());
    assert_eq!(ClientConfig::from_kubeconfig("agent", Err(error.clone())), Err(error));
}

#[test]
fn kubeconfig_unresolvable_credentials() {
    let error = KubeConfigError::UnresolvableCredentials("exec plugin".to_owned());
    assert_eq!(ClientConfig::from_kubeconfig("agent", Err(error.clone())), Err(error));
}
