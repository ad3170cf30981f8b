//! The operations that bring a resource from its current state to the
//! desired one, and the words in which each is announced.

use vstd::prelude::*;
use vstd::string::StringExecFns;

use crate::addr::AddressView;
use crate::addr::K8sResourceAddress;
use crate::kind::ResourceKind;

verus! {

/// One operation on one resource.
#[derive(Debug, Clone, PartialEq, Eq)]
pub enum K8sConnectorOp {
    /// Create the resource from this definition.
    Create(String),
    /// Bring the resource to this definition.
    Patch(String),
    /// Delete the resource.
    Delete,
}

/// What an operation says.
pub enum OpView {
    Create(Seq<char>),
    Patch(Seq<char>),
    Delete,
}

impl View for K8sConnectorOp {
    type V = OpView;

    open spec fn view(&self) -> OpView {
        match self {
            K8sConnectorOp::Create(body) => OpView::Create(body@),
            K8sConnectorOp::Patch(body) => OpView::Patch(body@),
            K8sConnectorOp::Delete => OpView::Delete,
        }
    }
}

/// One planned operation with the words that announce it.
#[derive(Debug, PartialEq, Eq)]
pub struct PlanResponseElement {
    pub op: K8sConnectorOp,
    pub friendly_message: String,
}

/// What a planned operation says.
pub struct PlanView {
    pub op: OpView,
    pub friendly_message: Seq<char>,
}

impl View for PlanResponseElement {
    type V = PlanView;

    open spec fn view(&self) -> PlanView {
        PlanView { op: self.op@, friendly_message: self.friendly_message@ }
    }
}

/// The views of the planned operations, in order.
pub open spec fn plan_view(elements: Seq<PlanResponseElement>) -> Seq<PlanView> {
    Seq::new(elements.len(), |i: int| elements[i]@)
}

/// `verb`, the kind and the scoped name of the resource, with a space
/// between each.
pub open spec fn announcement(verb: Seq<char>, addr: AddressView) -> Seq<char> {
    verb + " "@ + addr.kind.spec_name() + " "@ + addr.scoped_name()
}

/// The words that announce a patch: the announcement, a colon and, on a
/// line of its own, how the two definitions differ.
pub open spec fn patch_announcement(addr: AddressView, diff: Seq<char>) -> Seq<char> {
    announcement("Modify"@, addr) + ":\n"@ + diff
}

/// The operations that bring the resource at `addr` from `current` to
/// `desired`: none where there is neither, a creation where there is nothing
/// yet, a deletion where nothing is desired, and a patch to the desired
/// definition otherwise. `diff` is how the two definitions differ, as it is
/// to be shown.
pub open spec fn planned(
    addr: AddressView,
    current: Option<Seq<char>>,
    desired: Option<Seq<char>>,
    diff: Seq<char>,
) -> Seq<PlanView> {
    match (current, desired) {
        (None, None) => Seq::empty(),
        (None, Some(body)) => seq![
            PlanView {
                op: OpView::Create(body),
                friendly_message: announcement("Create"@, addr),
            },
        ],
        (Some(_), None) => seq![
            PlanView { op: OpView::Delete, friendly_message: announcement("Delete"@, addr) },
        ],
        (Some(_), Some(body)) => seq![
            PlanView { op: OpView::Patch(body), friendly_message: patch_announcement(addr, diff) },
        ],
    }
}

/// The table of planning, case by case: nothing to do where there is
/// neither state, one creation with the desired definition where nothing is
/// there yet, one deletion where nothing is desired, and one patch with the
/// desired definition where both are there, equal or not.
pub proof fn lemma_plan_table(
    addr: AddressView,
    current: Seq<char>,
    desired: Seq<char>,
    diff: Seq<char>,
)
    ensures
        planned(addr, None, None, diff).len() == 0,
        planned(addr, None, Some(desired), diff).len() == 1,
        planned(addr, None, Some(desired), diff)[0].op == OpView::Create(desired),
        planned(addr, Some(current), None, diff).len() == 1,
        planned(addr, Some(current), None, diff)[0].op == OpView::Delete,
        planned(addr, Some(current), Some(desired), diff).len() == 1,
        planned(addr, Some(current), Some(desired), diff)[0].op == OpView::Patch(desired),
        planned(addr, Some(desired), Some(desired), diff)[0].op == OpView::Patch(desired),
{
}

/// The words `verb`, the kind and the scoped name of the resource.
pub fn announce(verb: &str, addr: &K8sResourceAddress) -> (words: String)
    ensures
        words@ == announcement(verb@, addr@),
{
    let mut words = String::from_str(verb);
    words.append(" ");
    words.append(addr.kind().name());
    words.append(" ");
    words.append(addr.scoped_name().as_str());
    words
}

/// Plans what is to be done to the resource at `addr`, whose current and
/// desired definitions are the texts given, where there are any.
pub fn plan(addr: &K8sResourceAddress, current: Option<&str>, desired: Option<&str>, diff: &str)
    -> (elements: Vec<PlanResponseElement>)
    ensures
        plan_view(elements@) == planned(
            addr@,
            match current {
                Some(text) => Some(text@),
                None => None,
            },
            match desired {
                Some(text) => Some(text@),
                None => None,
            },
            diff@,
        ),
{
    let mut elements: Vec<PlanResponseElement> = Vec::new();
    match (current, desired) {
        (None, None) => {},
        (None, Some(body)) => {
            elements.push(
                PlanResponseElement {
                    op: K8sConnectorOp::Create(String::from_str(body)),
                    friendly_message: announce("Create", addr),
                },
            );
        },
        (Some(_), None) => {
            elements.push(
                PlanResponseElement {
                    op: K8sConnectorOp::Delete,
                    friendly_message: announce("Delete", addr),
                },
            );
        },
        (Some(_), Some(body)) => {
            let mut words = announce("Modify", addr);
            words.append(":\n");
            words.append(diff);
            elements.push(
                PlanResponseElement {
                    op: K8sConnectorOp::Patch(String::from_str(body)),
                    friendly_message: words,
                },
            );
        },
    }
    proof {
        assert(plan_view(elements@) =~= planned(
            addr@,
            match current {
                Some(text) => Some(text@),
                None => None,
            },
            match desired {
                Some(text) => Some(text@),
                None => None,
            },
            diff@,
        ));
    }
    elements
}

/// A change to be made in the cluster: what to do to which resource, and
/// the words that confirm it once it is done.
#[derive(Debug, PartialEq, Eq)]
pub struct Mutation {
    pub kind: ResourceKind,
    pub namespace: Option<String>,
    pub name: String,
    pub op: K8sConnectorOp,
    pub friendly_message: String,
}

/// What a change in the cluster says.
pub struct MutationView {
    pub kind: ResourceKind,
    pub namespace: Option<Seq<char>>,
    pub name: Seq<char>,
    pub op: OpView,
    pub friendly_message: Seq<char>,
}

impl View for Mutation {
    type V = MutationView;

    open spec fn view(&self) -> MutationView {
        MutationView {
            kind: self.kind,
            namespace: match self.namespace {
                Some(ns) => Some(ns@),
                None => None,
            },
            name: self.name@,
            op: self.op@,
            friendly_message: self.friendly_message@,
        }
    }
}

/// The word that confirms an operation once it is done.
pub open spec fn done_word(op: OpView) -> Seq<char> {
    match op {
        OpView::Create(_) => "Created"@,
        OpView::Patch(_) => "Modified"@,
        OpView::Delete => "Deleted"@,
    }
}

/// The change that carries out `op` on the resource at `addr`. It is
/// confirmed by the word for the operation, the kind and the resource's own
/// name.
pub open spec fn mutation_of(addr: AddressView, op: OpView) -> MutationView {
    MutationView {
        kind: addr.kind,
        namespace: addr.namespace,
        name: addr.name,
        op,
        friendly_message: done_word(op) + " "@ + addr.kind.spec_name() + " "@ + addr.name,
    }
}

/// The change that carries out `op` on the resource at `addr`.
pub fn mutation(addr: &K8sResourceAddress, op: K8sConnectorOp) -> (change: Mutation)
    ensures
        change@ == mutation_of(addr@, op@),
{
    let mut words = match &op {
        K8sConnectorOp::Create(_) => String::from_str("Created"),
        K8sConnectorOp::Patch(_) => String::from_str("Modified"),
        K8sConnectorOp::Delete => String::from_str("Deleted"),
    };
    words.append(" ");
    words.append(addr.kind().name());
    words.append(" ");
    words.append(addr.name().as_str());
    let namespace = match addr.namespace() {
        Some(ns) => Some(ns.clone()),
        None => None,
    };
    Mutation {
        kind: addr.kind(),
        namespace,
        name: addr.name().clone(),
        op,
        friendly_message: words,
    }
}

} // verus!
