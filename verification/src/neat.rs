//! Removing from a resource document what the cluster wrote into it, so that
//! two snapshots of the same intent compare equal.

use vstd::prelude::*;

use crate::document::Document;
use crate::document::Entries;
use crate::document::entries_view;
use crate::document::lemma_mapping_view;
use crate::document::Node;
use crate::mapping::child;
use crate::mapping::find;
use crate::mapping::free_of;
use crate::mapping::key_is;
use crate::mapping::keyed;
use crate::mapping::KeyFilter;
use crate::mapping::lemma_position;
use crate::mapping::lemma_rewritten_frame;
use crate::mapping::lemma_rewritten_idempotent;
use crate::mapping::lemma_rewritten_is_settled;
use crate::mapping::lemma_settled_frame;
use crate::mapping::lemma_settled_is_fixed;
use crate::mapping::lemma_without;
use crate::mapping::lemma_without_removed;
use crate::mapping::named;
use crate::mapping::position;
use crate::mapping::replaced;
use crate::mapping::Rewrite;
use crate::mapping::rewritten;
use crate::mapping::take_child;
use crate::mapping::value_at;
use crate::mapping::without;
use crate::pattern::regex_search;
use crate::pattern::search;
use crate::text::chars_contain;
use crate::text::chars_end_with;
use crate::text::chars_start_with;
use crate::text::contains;
use crate::text::ends_with;
use crate::text::same_text;
use crate::text::starts_with;
use crate::text::to_chars;

verus! {

/// The regular expression for keys that name a checksum or a hash: one of
/// the two words, in any case, as a whole component between `.`, `/`, `-` or
/// the ends of the key.
pub open spec fn hashed_pattern() -> Seq<char> {
    "(?i)(?:^|[./-])(checksum|hash)(?:$|[./-])"@
}

/// Whether `key` names a checksum or a hash.
pub open spec fn looks_hashed(key: Seq<char>) -> bool {
    regex_search(hashed_pattern(), key) == Some(true)
}

/// Whether `key` is one of the metadata fields that the cluster fills in.
pub open spec fn is_server_field(key: Node) -> bool {
    ||| keyed(key, "managedFields"@)
    ||| keyed(key, "resourceVersion"@)
    ||| keyed(key, "uid"@)
    ||| keyed(key, "generation"@)
    ||| keyed(key, "creationTimestamp"@)
    ||| keyed(key, "selfLink"@)
}

/// Whether `key` is an annotation that tools leave behind: one of four
/// known markers, or a key that names a checksum or a hash.
pub open spec fn is_noise_annotation(key: Node) -> bool {
    match key {
        Node::String(text) => {
            ||| text == "kubectl.kubernetes.io/last-applied-configuration"@
            ||| text == "deployment.kubernetes.io/revision"@
            ||| text == "meta.helm.sh/release-name"@
            ||| text == "meta.helm.sh/release-namespace"@
            ||| looks_hashed(text)
            ||| ends_with(text, "-hash"@)
        },
        _ => false,
    }
}

/// Whether `key` is an annotation of a pod template that only records a
/// checksum or a hash.
pub open spec fn is_template_noise_annotation(key: Node) -> bool {
    match key {
        Node::String(text) => {
            ||| looks_hashed(text)
            ||| ends_with(text, "-hash"@)
            ||| contains(text, "config-hash"@)
            ||| starts_with(text, "checksum/"@)
        },
        _ => false,
    }
}

/// Whether `key` is one of the four metadata fields that say when and by
/// whom a resource was last touched.
pub open spec fn is_boring_field(key: Node) -> bool {
    ||| keyed(key, "creationTimestamp"@)
    ||| keyed(key, "managedFields"@)
    ||| keyed(key, "resourceVersion"@)
    ||| keyed(key, "uid"@)
}

/// The metadata fields that say when and by whom a resource was last
/// touched.
pub open spec fn boring_fields() -> KeyFilter {
    |key: Node| is_boring_field(key)
}

/// The metadata fields that the cluster fills in.
pub open spec fn server_fields() -> KeyFilter {
    |key: Node| is_server_field(key)
}

/// The annotations that tools leave behind.
pub open spec fn noise_annotations() -> KeyFilter {
    |key: Node| is_noise_annotation(key)
}

/// The pod template annotations that only record a checksum or a hash.
pub open spec fn template_noise_annotations() -> KeyFilter {
    |key: Node| is_template_noise_annotation(key)
}

/// The label under which a packaging tool records its chart.
pub open spec fn chart_label() -> Seq<char> {
    "helm.sh/chart"@
}

/// The label that says which tool manages the resource.
pub open spec fn managed_by_label() -> Seq<char> {
    "app.kubernetes.io/managed-by"@
}

/// The labels without the chart label, and without the managed-by label
/// where it names the packaging tool.
pub open spec fn clean_labels(labels: Entries) -> Entries {
    let kept = without(labels, named(chart_label()));
    if value_at(kept, managed_by_label()) == Some(Node::String("Helm"@)) {
        without(kept, named(managed_by_label()))
    } else {
        kept
    }
}

/// The annotations without those that tools leave behind.
pub open spec fn clean_annotations(annotations: Entries) -> Entries {
    without(annotations, noise_annotations())
}

/// The change made to `metadata.annotations`.
pub open spec fn annotations_rewrite() -> Rewrite {
    |annotations: Entries| clean_annotations(annotations)
}

/// The change made to `metadata.labels`.
pub open spec fn labels_rewrite() -> Rewrite {
    |labels: Entries| clean_labels(labels)
}

/// The metadata without the fields that the cluster fills in, with its
/// annotations and labels cleaned, and without either where nothing is left
/// of it.
pub open spec fn clean_metadata(metadata: Entries) -> Entries {
    rewritten(
        rewritten(
            without(metadata, server_fields()),
            "annotations"@,
            annotations_rewrite(),
            true,
        ),
        "labels"@,
        labels_rewrite(),
        true,
    )
}

/// The change made to `metadata`.
pub open spec fn metadata_rewrite() -> Rewrite {
    |metadata: Entries| clean_metadata(metadata)
}

/// The change made to `spec.template.metadata.annotations`.
pub open spec fn template_annotations_rewrite() -> Rewrite {
    |annotations: Entries| without(annotations, template_noise_annotations())
}

/// The change made to `spec.template.metadata`: its annotations are cleaned,
/// and go where nothing is left of them.
pub open spec fn template_metadata_rewrite() -> Rewrite {
    |metadata: Entries| rewritten(metadata, "annotations"@, template_annotations_rewrite(), true)
}

/// The change made to `spec.template`: its metadata is cleaned, and goes
/// where nothing is left of it.
pub open spec fn template_rewrite() -> Rewrite {
    |template: Entries| rewritten(template, "metadata"@, template_metadata_rewrite(), true)
}

/// The change made to `spec`.
pub open spec fn spec_rewrite() -> Rewrite {
    |spec: Entries| rewritten(spec, "template"@, template_rewrite(), false)
}

/// The entries of a resource without its status, with its metadata and the
/// metadata of its pod template cleaned.
pub open spec fn clean_resource(resource: Entries) -> Entries {
    rewritten(
        rewritten(without(resource, named("status"@)), "metadata"@, metadata_rewrite(), false),
        "spec"@,
        spec_rewrite(),
        false,
    )
}

/// The document without what the cluster wrote into it. Only a mapping is a
/// resource; anything else stays as it is.
pub open spec fn neat(doc: Node) -> Node {
    match doc {
        Node::Mapping(resource) => Node::Mapping(clean_resource(resource)),
        _ => doc,
    }
}

/// Dropping keys twice is dropping them once.
pub proof fn lemma_without_idempotent(entries: Entries, drops: KeyFilter)
    ensures
        without(without(entries, drops), drops) == without(entries, drops),
{
    lemma_without(entries, drops, drops);
    lemma_without(without(entries, drops), drops, drops);
}

/// Cleaning labels twice is cleaning them once.
pub proof fn lemma_clean_labels_idempotent(labels: Entries)
    ensures
        clean_labels(clean_labels(labels)) == clean_labels(labels),
{
    let chart = named(chart_label());
    let managed = named(managed_by_label());
    let kept = without(labels, chart);
    let once = clean_labels(labels);
    lemma_without(labels, chart, chart);
    lemma_without(kept, managed, chart);
    lemma_without(once, chart, chart);
    assert(without(once, chart) == once);
    if value_at(kept, managed_by_label()) == Some(Node::String("Helm"@)) {
        lemma_without(kept, managed, managed);
        lemma_position(once, managed_by_label());
        match position(once, managed_by_label()) {
            Some(i) => {
                assert(managed(once[i].0));
            },
            None => {},
        }
    }
}

/// Cleaning metadata twice is cleaning it once.
pub proof fn lemma_clean_metadata_idempotent(metadata: Entries)
    ensures
        clean_metadata(clean_metadata(metadata)) == clean_metadata(metadata),
{
    reveal_strlit("annotations");
    reveal_strlit("labels");
    assert("annotations"@.len() != "labels"@.len());
    let swept = without(metadata, server_fields());
    let annotated = rewritten(swept, "annotations"@, annotations_rewrite(), true);
    let once = rewritten(annotated, "labels"@, labels_rewrite(), true);
    assert(once == clean_metadata(metadata));
    lemma_without(metadata, server_fields(), server_fields());
    lemma_rewritten_frame(
        swept,
        "annotations"@,
        annotations_rewrite(),
        true,
        "labels"@,
        server_fields(),
    );
    lemma_rewritten_frame(
        annotated,
        "labels"@,
        labels_rewrite(),
        true,
        "annotations"@,
        server_fields(),
    );
    lemma_without(once, server_fields(), server_fields());
    assert(without(once, server_fields()) == once);
    match child(swept, "annotations"@) {
        Some(inner) => lemma_without_idempotent(inner, noise_annotations()),
        None => {},
    }
    lemma_rewritten_is_settled(swept, "annotations"@, annotations_rewrite(), true);
    lemma_settled_frame(
        annotated,
        "annotations"@,
        annotations_rewrite(),
        true,
        "labels"@,
        labels_rewrite(),
        true,
    );
    lemma_settled_is_fixed(once, "annotations"@, annotations_rewrite(), true);
    match child(annotated, "labels"@) {
        Some(inner) => lemma_clean_labels_idempotent(inner),
        None => {},
    }
    lemma_rewritten_is_settled(annotated, "labels"@, labels_rewrite(), true);
    lemma_settled_is_fixed(once, "labels"@, labels_rewrite(), true);
}

/// Cleaning the `spec` of a resource twice is cleaning it once.
pub proof fn lemma_clean_spec_idempotent(spec: Entries)
    ensures
        spec_rewrite()(spec_rewrite()(spec)) == spec_rewrite()(spec),
{
    assert forall|template: Entries|
        template_rewrite()(#[trigger] template_rewrite()(template)) == template_rewrite()(
            template,
        ) by {
        assert forall|metadata: Entries|
            template_metadata_rewrite()(#[trigger] template_metadata_rewrite()(metadata))
                == template_metadata_rewrite()(metadata) by {
            match child(metadata, "annotations"@) {
                Some(inner) => lemma_without_idempotent(inner, template_noise_annotations()),
                None => {},
            }
            lemma_rewritten_idempotent(
                metadata,
                "annotations"@,
                template_annotations_rewrite(),
                true,
            );
        }
        lemma_rewritten_idempotent(template, "metadata"@, template_metadata_rewrite(), true);
    }
    lemma_rewritten_idempotent(spec, "template"@, template_rewrite(), false);
}

/// Cleaning the entries of a resource twice is cleaning them once.
pub proof fn lemma_clean_resource_idempotent(resource: Entries)
    ensures
        clean_resource(clean_resource(resource)) == clean_resource(resource),
{
    reveal_strlit("metadata");
    reveal_strlit("spec");
    assert("metadata"@.len() != "spec"@.len());
    let status = named("status"@);
    let swept = without(resource, status);
    let described = rewritten(swept, "metadata"@, metadata_rewrite(), false);
    let once = rewritten(described, "spec"@, spec_rewrite(), false);
    assert(once == clean_resource(resource));
    lemma_without(resource, status, status);
    lemma_rewritten_frame(swept, "metadata"@, metadata_rewrite(), false, "spec"@, status);
    lemma_rewritten_frame(described, "spec"@, spec_rewrite(), false, "metadata"@, status);
    lemma_without(once, status, status);
    assert(without(once, status) == once);
    match child(swept, "metadata"@) {
        Some(inner) => lemma_clean_metadata_idempotent(inner),
        None => {},
    }
    lemma_rewritten_is_settled(swept, "metadata"@, metadata_rewrite(), false);
    lemma_settled_frame(
        described,
        "metadata"@,
        metadata_rewrite(),
        false,
        "spec"@,
        spec_rewrite(),
        false,
    );
    lemma_settled_is_fixed(once, "metadata"@, metadata_rewrite(), false);
    match child(described, "spec"@) {
        Some(inner) => lemma_clean_spec_idempotent(inner),
        None => {},
    }
    lemma_rewritten_is_settled(described, "spec"@, spec_rewrite(), false);
    lemma_settled_is_fixed(once, "spec"@, spec_rewrite(), false);
}

/// Normalising a document twice is normalising it once, whatever the
/// document holds.
pub proof fn lemma_neat_idempotent(doc: Node)
    ensures
        neat(neat(doc)) == neat(doc),
{
    match doc {
        Node::Mapping(resource) => lemma_clean_resource_idempotent(resource),
        _ => {},
    }
}

/// A document that is no mapping, or that has neither status, metadata nor
/// spec, is left as it is.
pub proof fn lemma_neat_leaves_plain_documents(doc: Node)
    requires
        doc matches Node::Mapping(resource) ==> free_of(resource, named("status"@)) && free_of(
            resource,
            named("metadata"@),
        ) && free_of(resource, named("spec"@)),
    ensures
        neat(doc) == doc,
{
    match doc {
        Node::Mapping(resource) => {
            lemma_without(resource, named("status"@), named("status"@));
            lemma_position(resource, "metadata"@);
            lemma_position(resource, "spec"@);
            match position(resource, "metadata"@) {
                Some(i) => {
                    assert(named("metadata"@)(resource[i].0));
                },
                None => {},
            }
            match position(resource, "spec"@) {
                Some(i) => {
                    assert(named("spec"@)(resource[i].0));
                },
                None => {},
            }
        },
        _ => {},
    }
}

/// A choice of keys to drop from a mapping.
#[derive(Clone, Copy, Debug)]
pub enum Sweep<'a> {
    /// The key that is this text.
    Field(&'a str),
    /// The metadata fields that say when and by whom a resource was last
    /// touched.
    BoringFields,
    /// The metadata fields that the cluster fills in.
    ServerFields,
    /// The annotations that tools leave behind.
    NoiseAnnotations,
    /// The pod template annotations that only record a checksum or a hash.
    TemplateNoiseAnnotations,
}

impl<'a> Sweep<'a> {
    /// The keys that the choice covers.
    pub open spec fn filter(self) -> KeyFilter {
        match self {
            Sweep::Field(name) => named(name@),
            Sweep::BoringFields => boring_fields(),
            Sweep::ServerFields => server_fields(),
            Sweep::NoiseAnnotations => noise_annotations(),
            Sweep::TemplateNoiseAnnotations => template_noise_annotations(),
        }
    }

    /// Whether the choice covers `key`.
    pub fn drops(&self, key: &Document) -> (dropped: bool)
        ensures
            dropped == (self.filter())(key@),
    {
        match self {
            Sweep::Field(name) => key_is(key, name),
            Sweep::BoringFields => {
                key_is(key, "creationTimestamp") || key_is(key, "managedFields") || key_is(
                    key,
                    "resourceVersion",
                ) || key_is(key, "uid")
            },
            Sweep::ServerFields => {
                key_is(key, "managedFields") || key_is(key, "resourceVersion") || key_is(
                    key,
                    "uid",
                ) || key_is(key, "generation") || key_is(key, "creationTimestamp") || key_is(
                    key,
                    "selfLink",
                )
            },
            Sweep::NoiseAnnotations => match key {
                Document::String(text) => {
                    let chars = to_chars(text.as_str());
                    same_text(text.as_str(), "kubectl.kubernetes.io/last-applied-configuration")
                        || same_text(text.as_str(), "deployment.kubernetes.io/revision")
                        || same_text(text.as_str(), "meta.helm.sh/release-name") || same_text(
                        text.as_str(),
                        "meta.helm.sh/release-namespace",
                    ) || names_hash(text.as_str()) || chars_end_with(&chars, "-hash")
                },
                _ => false,
            },
            Sweep::TemplateNoiseAnnotations => match key {
                Document::String(text) => {
                    let chars = to_chars(text.as_str());
                    names_hash(text.as_str()) || chars_end_with(&chars, "-hash") || chars_contain(
                        &chars,
                        "config-hash",
                    ) || chars_start_with(&chars, "checksum/")
                },
                _ => false,
            },
        }
    }
}

/// Whether `key` names a checksum or a hash.
pub fn names_hash(key: &str) -> (found: bool)
    ensures
        found == looks_hashed(key@),
{
    match search("(?i)(?:^|[./-])(checksum|hash)(?:$|[./-])", key) {
        Some(found) => found,
        None => false,
    }
}

/// Drops from `entries` every entry whose key `rule` covers. The others keep
/// their order.
pub fn sweep(entries: &mut Vec<(Document, Document)>, rule: Sweep)
    ensures
        entries_view(final(entries)@) == without(entries_view(old(entries)@), rule.filter()),
{
    let ghost before = entries_view(entries@);
    let ghost drops = rule.filter();
    let ghost mut seen: int = 0;
    let mut i: usize = 0;
    proof {
        assert(before.take(0) =~= Seq::<(Node, Node)>::empty());
        assert(without(before.take(0), drops) + before.skip(0) =~= before);
    }
    while i < entries.len()
        invariant
            0 <= seen <= before.len(),
            i <= entries.len(),
            drops == rule.filter(),
            i == without(before.take(seen), drops).len(),
            entries_view(entries@) == without(before.take(seen), drops) + before.skip(seen),
        decreases entries.len() - i,
    {
        let ghost kept = without(before.take(seen), drops);
        let ghost now = entries_view(entries@);
        proof {
            assert(now[i as int] == before.skip(seen)[0]);
            assert(before.take(seen + 1).drop_last() =~= before.take(seen));
            assert(before.take(seen + 1).last() == before[seen]);
        }
        if rule.drops(&entries[i].0) {
            entries.remove(i);
            proof {
                assert(entries_view(entries@) =~= now.remove(i as int));
                assert(now.remove(i as int) =~= kept + before.skip(seen + 1));
            }
        } else {
            proof {
                assert(now =~= kept.push(before[seen]) + before.skip(seen + 1));
            }
            i += 1;
        }
        proof {
            seen = seen + 1;
        }
    }
    proof {
        assert(before.take(seen) =~= before);
        assert(without(before, drops) + before.skip(seen) =~= without(before, drops));
    }
}

/// Puts back into `entries` the mapping `inner` of the field `name`, which
/// was taken out at `at` with the key `key`. Where `prune` is set and `inner`
/// is empty, the field is dropped instead.
pub(crate) fn put_child(
    entries: &mut Vec<(Document, Document)>,
    at: usize,
    key: Document,
    inner: Vec<(Document, Document)>,
    name: &str,
    prune: bool,
    Ghost(before): Ghost<Entries>,
)
    requires
        position(before, name@) == Some(at as int),
        key@ == before[at as int].0,
        entries_view(old(entries)@) == before.remove(at as int),
    ensures
        entries_view(final(entries)@) == if prune && inner@.len() == 0 {
            without(before, named(name@))
        } else {
            replaced(before, name@, entries_view(inner@))
        },
{
    proof {
        lemma_position(before, name@);
    }
    if prune && inner.len() == 0 {
        proof {
            lemma_without_removed(before, at as int, named(name@));
        }
        sweep(entries, Sweep::Field(name));
    } else {
        let ghost rest = entries_view(entries@);
        let ghost changed = entries_view(inner@);
        proof {
            lemma_mapping_view(inner);
            assert(rest.len() == entries@.len());
            assert(before.remove(at as int).len() == before.len() - 1);
        }
        entries.insert(at, (key, Document::Mapping(inner)));
        proof {
            assert(entries_view(entries@) =~= rest.insert(
                at as int,
                (before[at as int].0, Node::Mapping(changed)),
            ));
            assert(rest.insert(at as int, (before[at as int].0, Node::Mapping(changed)))
                =~= before.update(at as int, (before[at as int].0, Node::Mapping(changed))));
        }
    }
}

/// Cleans the labels of a resource.
fn clean_labels_in(labels: &mut Vec<(Document, Document)>)
    ensures
        entries_view(final(labels)@) == clean_labels(entries_view(old(labels)@)),
{
    sweep(labels, Sweep::Field("helm.sh/chart"));
    let ghost kept = entries_view(labels@);
    let by_helm = match find(labels, "app.kubernetes.io/managed-by") {
        Some(at) => {
            proof {
                lemma_position(kept, managed_by_label());
            }
            match &labels[at].1 {
                Document::String(tool) => same_text(tool.as_str(), "Helm"),
                _ => false,
            }
        },
        None => false,
    };
    if by_helm {
        sweep(labels, Sweep::Field("app.kubernetes.io/managed-by"));
    }
}

/// Cleans the metadata of a resource.
fn clean_metadata_in(metadata: &mut Vec<(Document, Document)>)
    ensures
        entries_view(final(metadata)@) == clean_metadata(entries_view(old(metadata)@)),
{
    sweep(metadata, Sweep::ServerFields);
    let ghost swept = entries_view(metadata@);
    match take_child(metadata, "annotations") {
        Some((at, key, mut annotations)) => {
            sweep(&mut annotations, Sweep::NoiseAnnotations);
            put_child(metadata, at, key, annotations, "annotations", true, Ghost(swept));
        },
        None => {},
    }
    let ghost annotated = entries_view(metadata@);
    match take_child(metadata, "labels") {
        Some((at, key, mut labels)) => {
            clean_labels_in(&mut labels);
            put_child(metadata, at, key, labels, "labels", true, Ghost(annotated));
        },
        None => {},
    }
}

/// Cleans the metadata of a pod template.
fn clean_template_metadata_in(metadata: &mut Vec<(Document, Document)>)
    ensures
        entries_view(final(metadata)@) == template_metadata_rewrite()(
            entries_view(old(metadata)@),
        ),
{
    let ghost before = entries_view(metadata@);
    match take_child(metadata, "annotations") {
        Some((at, key, mut annotations)) => {
            sweep(&mut annotations, Sweep::TemplateNoiseAnnotations);
            put_child(metadata, at, key, annotations, "annotations", true, Ghost(before));
        },
        None => {},
    }
}

/// Cleans the `spec` of a resource.
fn clean_spec_in(spec: &mut Vec<(Document, Document)>)
    ensures
        entries_view(final(spec)@) == spec_rewrite()(entries_view(old(spec)@)),
{
    let ghost before = entries_view(spec@);
    match take_child(spec, "template") {
        Some((at, key, mut template)) => {
            let ghost inner = entries_view(template@);
            match take_child(&mut template, "metadata") {
                Some((meta_at, meta_key, mut metadata)) => {
                    clean_template_metadata_in(&mut metadata);
                    put_child(
                        &mut template,
                        meta_at,
                        meta_key,
                        metadata,
                        "metadata",
                        true,
                        Ghost(inner),
                    );
                },
                None => {},
            }
            put_child(spec, at, key, template, "template", false, Ghost(before));
        },
        None => {},
    }
}

/// Cleans the entries of a resource.
pub fn clean_resource_in(resource: &mut Vec<(Document, Document)>)
    ensures
        entries_view(final(resource)@) == clean_resource(entries_view(old(resource)@)),
{
    sweep(resource, Sweep::Field("status"));
    let ghost swept = entries_view(resource@);
    match take_child(resource, "metadata") {
        Some((at, key, mut metadata)) => {
            clean_metadata_in(&mut metadata);
            put_child(resource, at, key, metadata, "metadata", false, Ghost(swept));
        },
        None => {},
    }
    let ghost described = entries_view(resource@);
    match take_child(resource, "spec") {
        Some((at, key, mut spec)) => {
            clean_spec_in(&mut spec);
            put_child(resource, at, key, spec, "spec", false, Ghost(described));
        },
        None => {},
    }
}

/// Removes from a resource document the fields that a user does not write:
/// the status, what the cluster fills into the metadata, and the annotations
/// and labels that tools leave behind. A document that is no mapping is left
/// as it is.
pub fn neatify_resource(doc: &mut Document)
    ensures
        final(doc)@ == neat(old(doc)@),
{
    match doc {
        Document::Mapping(resource) => {
            proof {
                lemma_mapping_view(*resource);
            }
            clean_resource_in(resource);
            proof {
                lemma_mapping_view(*resource);
            }
        },
        _ => {},
    }
}

} // verus!
