//! Identity and configuration model for a Kubernetes operator: the typed
//! identity of the resources it watches and manages, the per-child
//! reconciliation policy, and the connection profile used to reach the API
//! server.

pub mod child;
pub mod child_types;
pub mod client;
pub mod k8s_type;
pub mod operator;
pub mod text;

pub use child::{ChildConfig, UpdateStrategy};
pub use child_types::ChildTypes;
pub use client::{
    CAData, CADataView, ClientConfig, ClientConfigView, Credentials, CredentialsView,
    KubeConfigError, KubeConfigErrorView, ResolvedKubeConfig, ResolvedKubeConfigView,
    SERVICE_ACCOUNT_CA_PATH, SERVICE_ACCOUNT_TOKEN_PATH,
};
pub use k8s_type::{K8sType, K8sTypeRef, K8sTypeRefView, K8sTypeView};
pub use operator::{
    OperatorConfig, OperatorConfigView, DEFAULT_OWNERSHIP_LABEL_NAME, DEFAULT_TRACKING_LABEL_NAME,
};
