use k8s_connector::document::Document;
use k8s_connector::neat::names_hash;
use k8s_connector::neat::neatify_resource;
use k8s_connector::neat::sweep;
use k8s_connector::neat::Sweep;

fn text(s: &str) -> Document {
    Document::String(s.to_string())
}

fn null() -> Document {
    Document::Other(serde_yaml::Value::Null)
}

fn number(n: u64) -> Document {
    Document::Other(serde_yaml::Value::Number(n.into()))
}

fn sequence(items: Vec<&str>) -> Document {
    Document::Other(serde_yaml::Value::Sequence(
        items.into_iter().map(|s| serde_yaml::Value::String(s.to_string())).collect(),
    ))
}

fn map(entries: Vec<(&str, Document)>) -> Document {
    Document::Mapping(entries.into_iter().map(|(k, v)| (text(k), v)).collect())
}

fn neat(mut doc: Document) -> Document {
    neatify_resource(&mut doc);
    doc
}

fn annotated(annotations: Vec<(&str, Document)>) -> Document {
    map(vec![("metadata", map(vec![("name", text("web")), ("annotations", map(annotations))]))])
}

fn deployment() -> Document {
    map(vec![
        ("apiVersion", text("apps/v1")),
        ("kind", text("Deployment")),
        (
            "metadata",
            map(vec![
                ("name", text("web")),
                ("namespace", text("default")),
                ("uid", text("1234")),
                ("resourceVersion", text("99")),
                ("generation", number(3)),
                ("creationTimestamp", text("2024-01-01T00:00:00Z")),
                ("selfLink", text("/apis/apps/v1/x")),
                ("managedFields", sequence(vec!["kubectl"])),
                (
                    "annotations",
                    map(vec![
                        ("kubectl.kubernetes.io/last-applied-configuration", text("{}")),
                        ("deployment.kubernetes.io/revision", text("7")),
                        ("meta.helm.sh/release-name", text("web")),
                        ("meta.helm.sh/release-namespace", text("default")),
                        ("team", text("core")),
                    ]),
                ),
                (
                    "labels",
                    map(vec![
                        ("helm.sh/chart", text("web-1.0.0")),
                        ("app.kubernetes.io/managed-by", text("Helm")),
                        ("app", text("web")),
                    ]),
                ),
            ]),
        ),
        (
            "spec",
            map(vec![
                ("replicas", number(2)),
                (
                    "template",
                    map(vec![
                        (
                            "metadata",
                            map(vec![(
                                "annotations",
                                map(vec![
                                    ("checksum/config", text("abc")),
                                    ("hooks-hash", text("def")),
                                    ("my-config-hash-v2", text("ghi")),
                                ]),
                            )]),
                        ),
                        ("spec", map(vec![("containers", sequence(vec![]))])),
                    ]),
                ),
            ]),
        ),
        ("status", map(vec![("readyReplicas", number(2))])),
    ])
}

fn neat_deployment() -> Document {
    map(vec![
        ("apiVersion", text("apps/v1")),
        ("kind", text("Deployment")),
        (
            "metadata",
            map(vec![
                ("name", text("web")),
                ("namespace", text("default")),
                ("annotations", map(vec![("team", text("core"))])),
                ("labels", map(vec![("app", text("web"))])),
            ]),
        ),
        (
            "spec",
            map(vec![
                ("replicas", number(2)),
                (
                    "template",
                    map(vec![("spec", map(vec![("containers", sequence(vec![]))]))]),
                ),
            ]),
        ),
    ])
}

#[test]
fn checksum_annotation_is_removed_and_others_stay() {
    let doc = annotated(vec![("checksum/config", text("abc")), ("app", text("x"))]);
    assert_eq!(neat(doc), annotated(vec![("app", text("x"))]));
}

#[test]
fn annotations_go_when_only_a_checksum_was_there() {
    let doc = annotated(vec![("checksum/config", text("abc"))]);
    assert_eq!(neat(doc), map(vec![("metadata", map(vec![("name", text("web"))]))]));
}

#[test]
fn a_whole_resource_is_cleaned() {
    assert_eq!(neat(deployment()), neat_deployment());
}

#[test]
fn cleaning_twice_is_cleaning_once() {
    for doc in [deployment, neat_deployment] {
        assert_eq!(neat(neat(doc())), neat(doc()));
    }
    let odd = || {
        map(vec![
            ("metadata", map(vec![("labels", map(vec![("helm.sh/chart", text("x"))]))])),
            ("metadata", map(vec![("uid", text("second"))])),
            ("status", text("a")),
            ("status", text("b")),
        ])
    };
    assert_eq!(neat(neat(odd())), neat(odd()));
    assert_eq!(
        neat(odd()),
        map(vec![("metadata", map(vec![])), ("metadata", map(vec![("uid", text("second"))]))])
    );
}

#[test]
fn documents_without_metadata_or_status_are_left_alone() {
    for doc in [
        || null(),
        || Document::Other(serde_yaml::Value::Bool(true)),
        || number(15),
        || Document::String("status".to_string()),
        || sequence(vec!["status"]),
        || Document::Mapping(vec![]),
        || Document::Mapping(vec![(Document::String("kind".to_string()), Document::String("Pod".to_string()))]),
    ] {
        assert_eq!(neat(doc()), doc());
    }
}

#[test]
fn fields_that_hold_no_mapping_are_left_alone() {
    let doc = || {
        map(vec![
            ("metadata", text("not a mapping")),
            ("spec", sequence(vec![])),
            ("status", null()),
        ])
    };
    assert_eq!(
        neat(doc()),
        map(vec![("metadata", text("not a mapping")), ("spec", sequence(vec![]))])
    );
    let inner = || {
        map(vec![(
            "metadata",
            map(vec![("annotations", text("none")), ("labels", null()), ("uid", text("u"))]),
        )])
    };
    assert_eq!(
        neat(inner()),
        map(vec![("metadata", map(vec![("annotations", text("none")), ("labels", null())]))])
    );
}

#[test]
fn managed_by_label_stays_unless_it_names_helm() {
    let labelled = |tool: Document| map(vec![("metadata", map(vec![("labels", map(vec![("app.kubernetes.io/managed-by", tool)]))]))]);
    assert_eq!(neat(labelled(text("kustomize"))), labelled(text("kustomize")));
    assert_eq!(neat(labelled(text("helm"))), labelled(text("helm")));
    assert_eq!(neat(labelled(null())), labelled(null()));
    assert_eq!(neat(labelled(text("Helm"))), map(vec![("metadata", map(vec![]))]));
}

#[test]
fn empty_annotations_and_labels_are_dropped() {
    let doc = map(vec![("metadata", map(vec![("annotations", map(vec![])), ("labels", map(vec![])), ("name", text("a"))]))]);
    assert_eq!(neat(doc), map(vec![("metadata", map(vec![("name", text("a"))]))]));
}

#[test]
fn template_metadata_goes_when_nothing_is_left_of_it() {
    let doc = map(vec![("spec", map(vec![("template", map(vec![("metadata", map(vec![("annotations", map(vec![("checksum/secret", text("1"))]))]))]))]))]);
    assert_eq!(neat(doc), map(vec![("spec", map(vec![("template", map(vec![]))]))]));
    let kept = map(vec![("spec", map(vec![("template", map(vec![("metadata", map(vec![("annotations", map(vec![("checksum/secret", text("1")), ("sidecar", text("on"))]))]))]))]))]);
    assert_eq!(
        neat(kept),
        map(vec![("spec", map(vec![("template", map(vec![("metadata", map(vec![("annotations", map(vec![("sidecar", text("on"))]))]))]))]))])
    );
    let empty = map(vec![("spec", map(vec![("template", map(vec![("metadata", map(vec![]))]))]))]);
    assert_eq!(neat(empty), map(vec![("spec", map(vec![("template", map(vec![]))]))]));
}

#[test]
fn template_rules_do_not_apply_to_resource_annotations() {
    let doc = annotated(vec![("config-hashes", text("1")), ("checksum/x", text("2")), ("checksums/x", text("3"))]);
    assert_eq!(
        neat(doc),
        annotated(vec![("config-hashes", text("1")), ("checksums/x", text("3"))])
    );
    let template = |annotations: Vec<(&str, Document)>| {
        map(vec![("spec", map(vec![("template", map(vec![("metadata", map(vec![("annotations", map(annotations))]))]))]))])
    };
    assert_eq!(
        neat(template(vec![
            ("config-hashes", text("1")),
            ("checksums/x", text("3")),
            ("kubectl.kubernetes.io/last-applied-configuration", text("4")),
        ])),
        template(vec![
            ("checksums/x", text("3")),
            ("kubectl.kubernetes.io/last-applied-configuration", text("4")),
        ])
    );
}

#[test]
fn hash_words_are_found_as_whole_components() {
    for key in ["checksum", "hash", "checksum/config", "a.hash", "x-hash-y", "app/CHECKSUM", "Hash.v1", "a/b-hash"] {
        assert!(names_hash(key), "{}", key);
    }
    for key in ["hashed", "rehash", "checksums", "app", "", "has-h", "checksum_config", "hash_"] {
        assert!(!names_hash(key), "{}", key);
    }
}

#[test]
fn sweeping_keeps_the_order_of_what_stays() {
    let mut entries = vec![
        (text("b"), text("1")),
        (text("uid"), text("2")),
        (text("a"), text("3")),
        (null(), text("4")),
        (text("selfLink"), text("5")),
        (text("uid"), text("6")),
    ];
    sweep(&mut entries, Sweep::ServerFields);
    assert_eq!(
        entries,
        vec![(text("b"), text("1")), (text("a"), text("3")), (null(), text("4"))]
    );
    sweep(&mut entries, Sweep::Field("a"));
    assert_eq!(entries, vec![(text("b"), text("1")), (null(), text("4"))]);
}
