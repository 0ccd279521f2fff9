//! The connection profile of an API client, and the two ways of resolving
//! one: from the service account mounted into a pod, or from a kubeconfig.

use crate::text::{optional_text, same_optional_text, same_text_list, text_list};
use vstd::prelude::*;
use vstd::string::*;

verus! {

/// Where the service-account token is mounted inside a pod.
pub const SERVICE_ACCOUNT_TOKEN_PATH: &'static str =
    "/var/run/secrets/kubernetes.io/serviceaccount/token";

/// Where the cluster's CA bundle is mounted inside a pod.
pub const SERVICE_ACCOUNT_CA_PATH: &'static str =
    "/var/run/secrets/kubernetes.io/serviceaccount/ca.crt";

/// The DNS name under which the API server is reachable from inside the
/// cluster.
const API_SERVER_HOSTNAME: &'static str = "kubernetes.default.svc";

/// Makes `std::io::Error`, the error of a failed read, known as an opaque
/// type. Nothing is claimed of what such an error holds: it is only carried
/// from the caller back to the caller.
#[verifier::external_type_specification]
#[verifier::external_body]
pub struct ExIoError(std::io::Error);

/// How the server's certificate is verified.
#[derive(Debug)]
pub enum CAData {
    /// A CA bundle to be read from this path when connecting.
    File(String),
    /// An inline PEM-encoded CA bundle.
    Contents(String),
}

/// Mathematical model of a [`CAData`].
pub enum CADataView {
    File(Seq<char>),
    Contents(Seq<char>),
}

impl View for CAData {
    type V = CADataView;

    open spec fn view(&self) -> CADataView {
        match self {
            CAData::File(path) => CADataView::File(path@),
            CAData::Contents(pem) => CADataView::Contents(pem@),
        }
    }
}

impl Clone for CAData {
    fn clone(&self) -> (copy: CAData)
        ensures
            copy == *self,
    {
        match self {
            CAData::File(path) => CAData::File(path.clone()),
            CAData::Contents(pem) => CAData::Contents(pem.clone()),
        }
    }
}

impl PartialEq for CAData {
    /// Two CA sources are equal when they are of the same kind and hold the
    /// same text.
    fn eq(&self, other: &CAData) -> (equal: bool) {
        match (self, other) {
            (CAData::File(one), CAData::File(other)) => *one == *other,
            (CAData::Contents(one), CAData::Contents(other)) => *one == *other,
            _ => false,
        }
    }
}

impl vstd::std_specs::cmp::PartialEqSpecImpl for CAData {
    open spec fn obeys_eq_spec() -> bool {
        true
    }

    open spec fn eq_spec(&self, other: &CAData) -> bool {
        self@ == other@
    }
}

/// How a request is authenticated.
#[derive(Debug)]
pub enum Credentials {
    /// The value of the `Authorization` header, used as it is.
    Header(String),
    /// A client certificate and its private key, both base64-encoded.
    Pem { certificate_base64: String, private_key_base64: String },
}

/// Mathematical model of a [`Credentials`].
pub enum CredentialsView {
    Header(Seq<char>),
    Pem { certificate_base64: Seq<char>, private_key_base64: Seq<char> },
}

impl View for Credentials {
    type V = CredentialsView;

    open spec fn view(&self) -> CredentialsView {
        match self {
            Credentials::Header(value) => CredentialsView::Header(value@),
            Credentials::Pem { certificate_base64, private_key_base64 } => CredentialsView::Pem {
                certificate_base64: certificate_base64@,
                private_key_base64: private_key_base64@,
            },
        }
    }
}

impl Clone for Credentials {
    fn clone(&self) -> (copy: Credentials)
        ensures
            copy == *self,
    {
        match self {
            Credentials::Header(value) => Credentials::Header(value.clone()),
            Credentials::Pem { certificate_base64, private_key_base64 } => Credentials::Pem {
                certificate_base64: certificate_base64.clone(),
                private_key_base64: private_key_base64.clone(),
            },
        }
    }
}

impl PartialEq for Credentials {
    /// Two credentials are equal when they are of the same kind and hold the
    /// same text.
    fn eq(&self, other: &Credentials) -> (equal: bool) {
        match (self, other) {
            (Credentials::Header(one), Credentials::Header(other)) => *one == *other,
            (
                Credentials::Pem { certificate_base64, private_key_base64 },
                Credentials::Pem {
                    certificate_base64: other_certificate,
                    private_key_base64: other_key,
                },
            ) => *certificate_base64 == *other_certificate && *private_key_base64 == *other_key,
            _ => false,
        }
    }
}

impl vstd::std_specs::cmp::PartialEqSpecImpl for Credentials {
    open spec fn obeys_eq_spec() -> bool {
        true
    }

    open spec fn eq_spec(&self, other: &Credentials) -> bool {
        self@ == other@
    }
}

/// The view of an optional CA source.
pub open spec fn optional_ca_data(ca_data: Option<CAData>) -> Option<CADataView> {
    match ca_data {
        Some(ca_data) => Some(ca_data@),
        None => None,
    }
}

/// Why a kubeconfig could not be resolved into a connection profile.
#[derive(Debug)]
pub enum KubeConfigError {
    /// The file is not a well-formed kubeconfig.
    Malformed(String),
    /// The context to use is not set or names nothing in the file.
    MissingContext(String),
    /// The user's credentials cannot be turned into a usable form.
    UnresolvableCredentials(String),
}

/// Mathematical model of a [`KubeConfigError`].
pub enum KubeConfigErrorView {
    Malformed(Seq<char>),
    MissingContext(Seq<char>),
    UnresolvableCredentials(Seq<char>),
}

impl View for KubeConfigError {
    type V = KubeConfigErrorView;

    open spec fn view(&self) -> KubeConfigErrorView {
        match self {
            KubeConfigError::Malformed(detail) => KubeConfigErrorView::Malformed(detail@),
            KubeConfigError::MissingContext(detail) => KubeConfigErrorView::MissingContext(detail@),
            KubeConfigError::UnresolvableCredentials(detail) =>
                KubeConfigErrorView::UnresolvableCredentials(detail@),
        }
    }
}

impl Clone for KubeConfigError {
    fn clone(&self) -> (copy: KubeConfigError)
        ensures
            copy == *self,
    {
        match self {
            KubeConfigError::Malformed(detail) => KubeConfigError::Malformed(detail.clone()),
            KubeConfigError::MissingContext(detail) => KubeConfigError::MissingContext(
                detail.clone(),
            ),
            KubeConfigError::UnresolvableCredentials(detail) =>
                KubeConfigError::UnresolvableCredentials(detail.clone()),
        }
    }
}

impl PartialEq for KubeConfigError {
    /// Two errors are equal when they are of the same kind and carry the
    /// same detail.
    fn eq(&self, other: &KubeConfigError) -> (equal: bool) {
        match (self, other) {
            (KubeConfigError::Malformed(one), KubeConfigError::Malformed(other)) => *one == *other,
            (KubeConfigError::MissingContext(one), KubeConfigError::MissingContext(other)) => *one
                == *other,
            (
                KubeConfigError::UnresolvableCredentials(one),
                KubeConfigError::UnresolvableCredentials(other),
            ) => *one == *other,
            _ => false,
        }
    }
}

impl vstd::std_specs::cmp::PartialEqSpecImpl for KubeConfigError {
    open spec fn obeys_eq_spec() -> bool {
        true
    }

    open spec fn eq_spec(&self, other: &KubeConfigError) -> bool {
        self@ == other@
    }
}

/// What a kubeconfig resolves to for its current context: the cluster's
/// endpoint and CA material, the user's credentials, and whether the file
/// itself asks to skip certificate verification.
#[derive(Debug)]
pub struct ResolvedKubeConfig {
    pub api_server_endpoint: String,
    pub credentials: Credentials,
    pub ca_data: Option<CAData>,
    /// True only where the kubeconfig says so in as many words.
    pub insecure_skip_tls_verify: bool,
    pub impersonate: Option<String>,
    pub impersonate_groups: Vec<String>,
}

/// Mathematical model of a [`ResolvedKubeConfig`].
pub struct ResolvedKubeConfigView {
    pub api_server_endpoint: Seq<char>,
    pub credentials: CredentialsView,
    pub ca_data: Option<CADataView>,
    pub insecure_skip_tls_verify: bool,
    pub impersonate: Option<Seq<char>>,
    pub impersonate_groups: Seq<Seq<char>>,
}

impl View for ResolvedKubeConfig {
    type V = ResolvedKubeConfigView;

    open spec fn view(&self) -> ResolvedKubeConfigView {
        ResolvedKubeConfigView {
            api_server_endpoint: self.api_server_endpoint@,
            credentials: self.credentials@,
            ca_data: optional_ca_data(self.ca_data),
            insecure_skip_tls_verify: self.insecure_skip_tls_verify,
            impersonate: optional_text(self.impersonate),
            impersonate_groups: text_list(self.impersonate_groups@),
        }
    }
}

impl Clone for ResolvedKubeConfig {
    fn clone(&self) -> (copy: ResolvedKubeConfig)
        ensures
            copy@ == self@,
    {
        let copy = ResolvedKubeConfig {
            api_server_endpoint: self.api_server_endpoint.clone(),
            credentials: self.credentials.clone(),
            ca_data: self.ca_data.clone(),
            insecure_skip_tls_verify: self.insecure_skip_tls_verify,
            impersonate: self.impersonate.clone(),
            impersonate_groups: self.impersonate_groups.clone(),
        };
        assert(text_list(copy.impersonate_groups@) =~= text_list(self.impersonate_groups@));
        copy
    }
}

impl PartialEq for ResolvedKubeConfig {
    /// Two resolutions are equal when all their pieces are.
    fn eq(&self, other: &ResolvedKubeConfig) -> (equal: bool) {
        self.api_server_endpoint == other.api_server_endpoint && self.credentials
            == other.credentials && self.ca_data == other.ca_data && self.insecure_skip_tls_verify
            == other.insecure_skip_tls_verify && same_optional_text(
            &self.impersonate,
            &other.impersonate,
        ) && same_text_list(&self.impersonate_groups, &other.impersonate_groups)
    }
}

impl vstd::std_specs::cmp::PartialEqSpecImpl for ResolvedKubeConfig {
    open spec fn obeys_eq_spec() -> bool {
        true
    }

    open spec fn eq_spec(&self, other: &ResolvedKubeConfig) -> bool {
        self@ == other@
    }
}

/// A resolved, ready-to-use connection profile.
#[derive(Debug)]
pub struct ClientConfig {
    pub api_server_endpoint: String,
    pub credentials: Credentials,
    pub ca_data: Option<CAData>,
    pub user_agent: String,
    pub verify_ssl_certs: bool,
    pub impersonate: Option<String>,
    pub impersonate_groups: Vec<String>,
}

/// Mathematical model of a [`ClientConfig`].
pub struct ClientConfigView {
    pub api_server_endpoint: Seq<char>,
    pub credentials: CredentialsView,
    pub ca_data: Option<CADataView>,
    pub user_agent: Seq<char>,
    pub verify_ssl_certs: bool,
    pub impersonate: Option<Seq<char>>,
    pub impersonate_groups: Seq<Seq<char>>,
}

impl View for ClientConfig {
    type V = ClientConfigView;

    open spec fn view(&self) -> ClientConfigView {
        ClientConfigView {
            api_server_endpoint: self.api_server_endpoint@,
            credentials: self.credentials@,
            ca_data: optional_ca_data(self.ca_data),
            user_agent: self.user_agent@,
            verify_ssl_certs: self.verify_ssl_certs,
            impersonate: optional_text(self.impersonate),
            impersonate_groups: text_list(self.impersonate_groups@),
        }
    }
}

impl Clone for ClientConfig {
    fn clone(&self) -> (copy: ClientConfig)
        ensures
            copy@ == self@,
    {
        let copy = ClientConfig {
            api_server_endpoint: self.api_server_endpoint.clone(),
            credentials: self.credentials.clone(),
            ca_data: self.ca_data.clone(),
            user_agent: self.user_agent.clone(),
            verify_ssl_certs: self.verify_ssl_certs,
            impersonate: self.impersonate.clone(),
            impersonate_groups: self.impersonate_groups.clone(),
        };
        assert(text_list(copy.impersonate_groups@) =~= text_list(self.impersonate_groups@));
        copy
    }
}

impl PartialEq for ClientConfig {
    /// Two profiles are equal when all their settings are.
    fn eq(&self, other: &ClientConfig) -> (equal: bool) {
        self.api_server_endpoint == other.api_server_endpoint && self.credentials
            == other.credentials && self.ca_data == other.ca_data && self.user_agent
            == other.user_agent && self.verify_ssl_certs == other.verify_ssl_certs
            && same_optional_text(&self.impersonate, &other.impersonate) && same_text_list(
            &self.impersonate_groups,
            &other.impersonate_groups,
        )
    }
}

impl vstd::std_specs::cmp::PartialEqSpecImpl for ClientConfig {
    open spec fn obeys_eq_spec() -> bool {
        true
    }

    open spec fn eq_spec(&self, other: &ClientConfig) -> bool {
        self@ == other@
    }
}

impl ClientConfigView {
    /// The profile of a pod that talks to its own cluster: the in-cluster
    /// endpoint, the mounted token as a bearer token, the mounted CA bundle
    /// by path if it is there, certificates verified, nobody impersonated.
    pub open spec fn in_cluster(
        user_agent: Seq<char>,
        token: Seq<char>,
        ca_file_present: bool,
    ) -> ClientConfigView {
        ClientConfigView {
            api_server_endpoint: "https://kubernetes.default.svc"@,
            credentials: CredentialsView::Header("Bearer "@ + token),
            ca_data: if ca_file_present {
                Some(CADataView::File(SERVICE_ACCOUNT_CA_PATH@))
            } else {
                None
            },
            user_agent,
            verify_ssl_certs: true,
            impersonate: None,
            impersonate_groups: Seq::empty(),
        }
    }

    /// The profile assembled from a resolved kubeconfig. Certificates are
    /// verified unless the kubeconfig itself asks to skip that.
    pub open spec fn of_kubeconfig(
        user_agent: Seq<char>,
        resolved: ResolvedKubeConfigView,
    ) -> ClientConfigView {
        ClientConfigView {
            api_server_endpoint: resolved.api_server_endpoint,
            credentials: resolved.credentials,
            ca_data: resolved.ca_data,
            user_agent,
            verify_ssl_certs: !resolved.insecure_skip_tls_verify,
            impersonate: resolved.impersonate,
            impersonate_groups: resolved.impersonate_groups,
        }
    }
}

/// Certificate verification is never switched off silently: a profile
/// resolved from a service account always verifies, and one resolved from a
/// kubeconfig verifies unless that kubeconfig asks in so many words to skip
/// verification.
pub proof fn lemma_verification_is_off_only_on_request(
    user_agent: Seq<char>,
    token: Seq<char>,
    ca_file_present: bool,
    resolved: ResolvedKubeConfigView,
)
    ensures
        ClientConfigView::in_cluster(user_agent, token, ca_file_present).verify_ssl_certs,
        !ClientConfigView::of_kubeconfig(user_agent, resolved).verify_ssl_certs
            <==> resolved.insecure_skip_tls_verify,
{
}

impl ClientConfig {
    /// Resolves the profile of a pod from its mounted service account.
    ///
    /// `token` is the outcome of reading the whole of
    /// [`SERVICE_ACCOUNT_TOKEN_PATH`] as text, and `ca_file_present` says
    /// whether [`SERVICE_ACCOUNT_CA_PATH`] exists. A failed read is handed
    /// back as it is; otherwise the token is used exactly as read.
    pub fn from_service_account(
        user_agent: &str,
        token: Result<String, std::io::Error>,
        ca_file_present: bool,
    ) -> (resolved: Result<ClientConfig, std::io::Error>)
        ensures
            match token {
                Ok(token) => resolved matches Ok(config) && config@ == ClientConfigView::in_cluster(
                    user_agent@,
                    token@,
                    ca_file_present,
                ),
                Err(error) => resolved == Err::<ClientConfig, std::io::Error>(error),
            },
    {
        let service_account_token = match token {
            Ok(token) => token,
            Err(error) => {
                return Err(error);
            },
        };
        let ca_data = if ca_file_present {
            Some(CAData::File(SERVICE_ACCOUNT_CA_PATH.to_owned()))
        } else {
            None
        };
        let mut api_server_endpoint = "https://".to_owned();
        api_server_endpoint.append(API_SERVER_HOSTNAME);
        let mut header = "Bearer ".to_owned();
        header.append(service_account_token.as_str());
        proof {
            reveal_strlit("https://");
            reveal_strlit("kubernetes.default.svc");
            reveal_strlit("https://kubernetes.default.svc");
            assert(api_server_endpoint@ =~= "https://kubernetes.default.svc"@);
        }
        let impersonate_groups: Vec<String> = Vec::new();
        assert(text_list(impersonate_groups@) =~= Seq::<Seq<char>>::empty());
        Ok(
            ClientConfig {
                api_server_endpoint,
                ca_data,
                credentials: Credentials::Header(header),
                user_agent: user_agent.to_owned(),
                verify_ssl_certs: true,
                impersonate: None,
                impersonate_groups,
            },
        )
    }

    /// Resolves the profile described by a kubeconfig.
    ///
    /// `resolved` is what the kubeconfig loader made of the file. Its error
    /// is handed back as it is; otherwise the pieces are assembled under
    /// `user_agent`, and certificate verification stays on unless the
    /// kubeconfig itself switched it off.
    pub fn from_kubeconfig(
        user_agent: &str,
        resolved: Result<ResolvedKubeConfig, KubeConfigError>,
    ) -> (config: Result<ClientConfig, KubeConfigError>)
        ensures
            match resolved {
                Ok(pieces) => config matches Ok(client) && client@ == ClientConfigView::of_kubeconfig(
                    user_agent@,
                    pieces@,
                ),
                Err(error) => config == Err::<ClientConfig, KubeConfigError>(error),
            },
    {
        match resolved {
            Ok(pieces) => Ok(
                ClientConfig {
                    api_server_endpoint: pieces.api_server_endpoint,
                    credentials: pieces.credentials,
                    ca_data: pieces.ca_data,
                    user_agent: user_agent.to_owned(),
                    verify_ssl_certs: !pieces.insecure_skip_tls_verify,
                    impersonate: pieces.impersonate,
                    impersonate_groups: pieces.impersonate_groups,
                },
            ),
            Err(error) => Err(error),
        }
    }
}

} // verus!
