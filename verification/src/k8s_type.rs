//! The identity of a Kubernetes resource kind and the API path fragments
//! derived from it.

use vstd::prelude::*;
use vstd::string::*;

verus! {

/// Mathematical model of a [`K8sType`]: its four fields as character sequences.
pub struct K8sTypeView {
    pub group: Seq<char>,
    pub version: Seq<char>,
    pub plural_kind: Seq<char>,
    pub kind: Seq<char>,
}

impl K8sTypeView {
    /// The `apiVersion` of the type: the bare version for the core group
    /// (empty `group`), otherwise `group/version`.
    pub open spec fn api_version(self) -> Seq<char> {
        if self.group.len() == 0 {
            self.version
        } else {
            self.group + seq!['/'] + self.version
        }
    }

    /// The human-readable form of the type, which is also its REST path
    /// fragment: `version/plural` for the core group, otherwise
    /// `group/version/plural`.
    pub open spec fn path(self) -> Seq<char> {
        if self.group.len() == 0 {
            self.version + seq!['/'] + self.plural_kind
        } else {
            self.group + seq!['/'] + self.version + seq!['/'] + self.plural_kind
        }
    }

    /// The path of every type is its `apiVersion` followed by a slash and
    /// its plural kind.
    pub proof fn lemma_path_extends_api_version(self)
        ensures
            self.path() == self.api_version() + seq!['/'] + self.plural_kind,
    {
    }

    /// A type is well formed when neither its version nor its plural kind is
    /// empty. The group may be empty.
    pub open spec fn well_formed(self) -> bool {
        self.version.len() > 0 && self.plural_kind.len() > 0
    }
}

/// Mathematical model of a [`K8sTypeRef`].
pub struct K8sTypeRefView {
    pub api_version: Seq<char>,
    pub kind: Seq<char>,
}

/// A lightweight reference to a resource type: just its `apiVersion` and its
/// kind, for consumers that need the identity but not the REST path.
#[derive(Debug, Eq, Hash)]
pub struct K8sTypeRef {
    pub api_version: String,
    pub kind: String,
}

impl View for K8sTypeRef {
    type V = K8sTypeRefView;

    open spec fn view(&self) -> K8sTypeRefView {
        K8sTypeRefView { api_version: self.api_version@, kind: self.kind@ }
    }
}

impl K8sTypeRef {
    /// Builds a reference from an `apiVersion` and a kind, stored as given.
    pub fn new(api_version: String, kind: String) -> (type_ref: K8sTypeRef)
        ensures
            type_ref.api_version == api_version,
            type_ref.kind == kind,
    {
        K8sTypeRef { api_version, kind }
    }
}

impl Clone for K8sTypeRef {
    fn clone(&self) -> (copy: K8sTypeRef)
        ensures
            copy == *self,
    {
        K8sTypeRef { api_version: self.api_version.clone(), kind: self.kind.clone() }
    }
}

impl PartialEq for K8sTypeRef {
    /// Two references are equal exactly when both fields hold the same text.
    fn eq(&self, other: &K8sTypeRef) -> (equal: bool) {
        self.api_version == other.api_version && self.kind == other.kind
    }
}

impl vstd::std_specs::cmp::PartialEqSpecImpl for K8sTypeRef {
    open spec fn obeys_eq_spec() -> bool {
        true
    }

    open spec fn eq_spec(&self, other: &K8sTypeRef) -> bool {
        self@ == other@
    }
}

/// Identifies a Kubernetes resource kind by group, version, kind and plural.
#[derive(Debug, Eq, Hash)]
pub struct K8sType {
    pub group: String,
    pub version: String,
    pub plural_kind: String,
    pub kind: String,
}

impl View for K8sType {
    type V = K8sTypeView;

    open spec fn view(&self) -> K8sTypeView {
        K8sTypeView {
            group: self.group@,
            version: self.version@,
            plural_kind: self.plural_kind@,
            kind: self.kind@,
        }
    }
}

impl Clone for K8sType {
    fn clone(&self) -> (copy: K8sType)
        ensures
            copy == *self,
    {
        K8sType {
            group: self.group.clone(),
            version: self.version.clone(),
            plural_kind: self.plural_kind.clone(),
            kind: self.kind.clone(),
        }
    }
}

impl PartialEq for K8sType {
    /// Two types are equal exactly when all four fields hold the same text.
    fn eq(&self, other: &K8sType) -> (equal: bool) {
        self.group == other.group && self.version == other.version && self.plural_kind
            == other.plural_kind && self.kind == other.kind
    }
}

impl vstd::std_specs::cmp::PartialEqSpecImpl for K8sType {
    open spec fn obeys_eq_spec() -> bool {
        true
    }

    open spec fn eq_spec(&self, other: &K8sType) -> bool {
        self@ == other@
    }
}

impl K8sType {
    /// Builds a type from its four parts, each stored exactly as given.
    ///
    /// Nothing is validated: the result is well formed exactly when `version`
    /// and `plural_kind` are both non-empty.
    pub fn new(group: &str, version: &str, kind: &str, plural_kind: &str) -> (k8s_type: K8sType)
        ensures
            k8s_type@ == (K8sTypeView {
                group: group@,
                version: version@,
                plural_kind: plural_kind@,
                kind: kind@,
            }),
            k8s_type@.well_formed() <==> version@.len() > 0 && plural_kind@.len() > 0,
    {
        K8sType {
            group: group.to_owned(),
            version: version.to_owned(),
            kind: kind.to_owned(),
            plural_kind: plural_kind.to_owned(),
        }
    }

    /// Projects this type to its lightweight reference form.
    pub fn to_type_ref(&self) -> (type_ref: K8sTypeRef)
        ensures
            type_ref@ == (K8sTypeRefView {
                api_version: self@.api_version(),
                kind: self@.kind,
            }),
    {
        K8sTypeRef::new(self.format_api_version(), self.kind.clone())
    }

    /// Returns the `apiVersion` string of this type.
    pub fn format_api_version(&self) -> (api_version: String)
        ensures
            api_version@ == self@.api_version(),
            self@.group.len() == 0 ==> api_version@ == self@.version,
            self@.group.len() != 0 ==> api_version@ == self@.group + seq!['/'] + self@.version,
    {
        if self.group.as_str().is_empty() {
            self.version.clone()
        } else {
            let mut api_version = self.group.clone();
            proof {
                reveal_strlit("/");
            }
            api_version.append("/");
            api_version.append(self.version.as_str());
            assert("/"@ =~= seq!['/']);
            api_version
        }
    }

    /// Renders the human-readable form of this type: `version/plural` for the
    /// core group, otherwise `group/version/plural`. It is always the
    /// `apiVersion` followed by a slash and the plural kind.
    pub fn to_string(&self) -> (text: String)
        ensures
            text@ == self@.path(),
            text@ == self@.api_version() + seq!['/'] + self@.plural_kind,
    {
        let mut text = self.format_api_version();
        proof {
            reveal_strlit("/");
        }
        text.append("/");
        text.append(self.plural_kind.as_str());
        assert("/"@ =~= seq!['/']);
        text
    }

    /// The built-in `Pod` kind of the core group.
    pub fn pod() -> (k8s_type: K8sType)
        ensures
            k8s_type@ == (K8sTypeView {
                group: Seq::<char>::empty(),
                version: "v1"@,
                plural_kind: "pods"@,
                kind: "Pod"@,
            }),
            k8s_type@.well_formed(),
    {
        proof {
            reveal_strlit("v1");
            reveal_strlit("pods");
        }
        K8sType {
            group: String::new(),
            version: v1(),
            plural_kind: "pods".to_owned(),
            kind: "Pod".to_owned(),
        }
    }

    /// The built-in `Service` kind of the core group.
    pub fn service() -> (k8s_type: K8sType)
        ensures
            k8s_type@ == (K8sTypeView {
                group: Seq::<char>::empty(),
                version: "v1"@,
                plural_kind: "services"@,
                kind: "Service"@,
            }),
            k8s_type@.well_formed(),
    {
        proof {
            reveal_strlit("v1");
            reveal_strlit("services");
        }
        K8sType {
            group: String::new(),
            version: v1(),
            plural_kind: "services".to_owned(),
            kind: "Service".to_owned(),
        }
    }
}

/// The version shared by the built-in kinds of the core group.
fn v1() -> (version: String)
    ensures
        version@ == "v1"@,
{
    "v1".to_owned()
}

} // verus!
