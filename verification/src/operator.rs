//! The declared intent of an operator: the parent resource it watches, the
//! child types it manages, and its operational settings.

use crate::child::ChildConfig;
use crate::child_types::ChildTypes;
use crate::k8s_type::{K8sType, K8sTypeView};
use crate::text::{optional_text, same_optional_text};
use vstd::prelude::*;

verus! {

/// The label key that, by default, marks the parent instance a resource
/// belongs to.
pub const DEFAULT_TRACKING_LABEL_NAME: &'static str = "app.kubernetes.io/instance";

/// The label key that, by default, marks the operator managing a resource.
pub const DEFAULT_OWNERSHIP_LABEL_NAME: &'static str = "app.kubernetes.io/managed-by";

/// Mathematical model of an [`OperatorConfig`].
pub struct OperatorConfigView {
    pub parent: K8sTypeView,
    pub child_types: Map<K8sTypeView, ChildConfig>,
    pub namespace: Option<Seq<char>>,
    pub operator_name: Seq<char>,
    pub tracking_label_name: Seq<char>,
    pub ownership_label_name: Seq<char>,
    pub server_port: u16,
    pub expose_metrics: bool,
    pub expose_health: bool,
}

impl OperatorConfigView {
    /// The configuration a new operator starts from: no child types,
    /// cluster-wide, default labels and port, both auxiliary endpoints on.
    pub open spec fn initial(operator_name: Seq<char>, parent: K8sTypeView) -> OperatorConfigView {
        OperatorConfigView {
            parent,
            child_types: Map::empty(),
            namespace: None,
            operator_name,
            tracking_label_name: DEFAULT_TRACKING_LABEL_NAME@,
            ownership_label_name: DEFAULT_OWNERSHIP_LABEL_NAME@,
            server_port: 8080,
            expose_metrics: true,
            expose_health: true,
        }
    }

    /// This configuration with `child_type` managed under `config`. An
    /// earlier policy for the same child type is replaced.
    pub open spec fn with_child(
        self,
        child_type: K8sTypeView,
        config: ChildConfig,
    ) -> OperatorConfigView {
        OperatorConfigView { child_types: self.child_types.insert(child_type, config), ..self }
    }
}

/// What an operator watches and manages, and how it runs.
#[derive(Debug)]
pub struct OperatorConfig {
    /// The custom resource this operator watches.
    pub parent: K8sType,
    /// The child types this operator manages, each with its policy.
    pub child_types: ChildTypes,
    /// The namespace the operator is confined to; `None` means cluster-wide.
    pub namespace: Option<String>,
    pub operator_name: String,
    pub tracking_label_name: String,
    pub ownership_label_name: String,
    pub server_port: u16,
    pub expose_metrics: bool,
    pub expose_health: bool,
}

impl View for OperatorConfig {
    type V = OperatorConfigView;

    open spec fn view(&self) -> OperatorConfigView {
        OperatorConfigView {
            parent: self.parent@,
            child_types: self.child_types@,
            namespace: optional_text(self.namespace),
            operator_name: self.operator_name@,
            tracking_label_name: self.tracking_label_name@,
            ownership_label_name: self.ownership_label_name@,
            server_port: self.server_port,
            expose_metrics: self.expose_metrics,
            expose_health: self.expose_health,
        }
    }
}

impl Clone for OperatorConfig {
    fn clone(&self) -> (copy: OperatorConfig)
        ensures
            copy@ == self@,
    {
        OperatorConfig {
            parent: self.parent.clone(),
            child_types: self.child_types.clone(),
            namespace: self.namespace.clone(),
            operator_name: self.operator_name.clone(),
            tracking_label_name: self.tracking_label_name.clone(),
            ownership_label_name: self.ownership_label_name.clone(),
            server_port: self.server_port,
            expose_metrics: self.expose_metrics,
            expose_health: self.expose_health,
        }
    }
}

impl PartialEq for OperatorConfig {
    /// Two configurations are equal when all their settings are, and they
    /// manage the same child types under the same policies, in whatever
    /// order these were declared.
    fn eq(&self, other: &OperatorConfig) -> (equal: bool) {
        self.parent == other.parent && self.child_types == other.child_types
            && same_optional_text(&self.namespace, &other.namespace) && self.operator_name
            == other.operator_name && self.tracking_label_name == other.tracking_label_name
            && self.ownership_label_name == other.ownership_label_name && self.server_port
            == other.server_port && self.expose_metrics == other.expose_metrics
            && self.expose_health == other.expose_health
    }
}

impl vstd::std_specs::cmp::PartialEqSpecImpl for OperatorConfig {
    open spec fn obeys_eq_spec() -> bool {
        true
    }

    open spec fn eq_spec(&self, other: &OperatorConfig) -> bool {
        self@ == other@
    }
}

impl OperatorConfig {
    /// Declares an operator named `operator_name` that watches `parent`,
    /// with every other setting at its default.
    pub fn new(operator_name: &str, parent: K8sType) -> (config: OperatorConfig)
        ensures
            config@ == OperatorConfigView::initial(operator_name@, parent@),
            config@.server_port == 8080,
            config@.expose_metrics,
            config@.expose_health,
            config@.namespace is None,
            config@.tracking_label_name == "app.kubernetes.io/instance"@,
            config@.ownership_label_name == "app.kubernetes.io/managed-by"@,
            config@.child_types == Map::<K8sTypeView, ChildConfig>::empty(),
    {
        OperatorConfig {
            parent,
            operator_name: operator_name.to_owned(),
            child_types: ChildTypes::new(),
            namespace: None,
            tracking_label_name: DEFAULT_TRACKING_LABEL_NAME.to_owned(),
            ownership_label_name: DEFAULT_OWNERSHIP_LABEL_NAME.to_owned(),
            server_port: 8080,
            expose_metrics: true,
            expose_health: true,
        }
    }

    /// Confines the operator to `namespace`.
    pub fn within_namespace(self, namespace: &str) -> (updated: OperatorConfig)
        ensures
            updated@ == (OperatorConfigView { namespace: Some(namespace@), ..self@ }),
    {
        let mut updated = self;
        updated.namespace = Some(namespace.to_owned());
        updated
    }

    /// Manages `child_type` under `config`. Declaring a child type again
    /// replaces its policy: the last declaration wins.
    pub fn with_child(self, child_type: K8sType, config: ChildConfig) -> (updated: OperatorConfig)
        ensures
            updated@ == self@.with_child(child_type@, config),
    {
        let mut updated = self;
        updated.child_types.insert(child_type, config);
        updated
    }

    /// Turns the health endpoint on or off.
    pub fn expose_health(self, expose_health: bool) -> (updated: OperatorConfig)
        ensures
            updated@ == (OperatorConfigView { expose_health, ..self@ }),
    {
        let mut updated = self;
        updated.expose_health = expose_health;
        updated
    }

    /// Turns the metrics endpoint on or off.
    pub fn expose_metrics(self, expose_metrics: bool) -> (updated: OperatorConfig)
        ensures
            updated@ == (OperatorConfigView { expose_metrics, ..self@ }),
    {
        let mut updated = self;
        updated.expose_metrics = expose_metrics;
        updated
    }

    /// Sets the port of the auxiliary endpoints.
    pub fn server_port(self, port: u16) -> (updated: OperatorConfig)
        ensures
            updated@ == (OperatorConfigView { server_port: port, ..self@ }),
    {
        let mut updated = self;
        updated.server_port = port;
        updated
    }
}

/// Declaring one child type twice leaves a single entry for it, holding the
/// policy of the second declaration: the outcome is the same as if only the
/// second declaration had been made, and the second declaration adds no key
/// to those present after the first.
pub proof fn lemma_with_child_last_write_wins(
    config: OperatorConfigView,
    child_type: K8sTypeView,
    first: ChildConfig,
    second: ChildConfig,
)
    ensures
        config.with_child(child_type, first).with_child(child_type, second) == config.with_child(
            child_type,
            second,
        ),
        config.with_child(child_type, first).with_child(child_type, second).child_types[child_type]
            == second,
        config.with_child(child_type, first).with_child(child_type, second).child_types.dom()
            == config.with_child(child_type, first).child_types.dom(),
        config.child_types.dom().finite() ==> config.with_child(child_type, first).with_child(
            child_type,
            second,
        ).child_types.len() == config.child_types.remove(child_type).len() + 1,
{
    let once = config.with_child(child_type, first);
    let twice = once.with_child(child_type, second);
    assert(twice.child_types =~= config.with_child(child_type, second).child_types);
    assert(twice.child_types.dom() =~= once.child_types.dom());
    assert(twice.child_types.dom() =~= config.child_types.remove(child_type).dom().insert(
        child_type,
    ));
}

/// Child types may be declared in any order: two declarations for different
/// child types commute.
pub proof fn lemma_with_child_order_irrelevant(
    config: OperatorConfigView,
    one: K8sTypeView,
    one_config: ChildConfig,
    other: K8sTypeView,
    other_config: ChildConfig,
)
    requires
        one != other,
    ensures
        config.with_child(one, one_config).with_child(other, other_config) == config.with_child(
            other,
            other_config,
        ).with_child(one, one_config),
{
    assert(config.with_child(one, one_config).with_child(other, other_config).child_types
        =~= config.with_child(other, other_config).with_child(one, one_config).child_types);
}

} // verus!
