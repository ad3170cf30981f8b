use k8s_connector::cache::ClusterSlots;
use k8s_connector::connector::do_get;
use k8s_connector::connector::eq;
use k8s_connector::connector::filter;
use k8s_connector::connector::is_connector_name;
use k8s_connector::connector::neat_text;
use k8s_connector::connector::FilterResponse;
use k8s_connector::diag::diag;
use k8s_connector::diag::diagnosis;
use k8s_connector::diag::Diagnostic;
use k8s_connector::diag::DiagnosticPosition;
use k8s_connector::diag::DiagnosticResponse;
use k8s_connector::diag::DiagnosticSpan;
use k8s_connector::document::Document;
use k8s_connector::error::ConnectorError;
use k8s_connector::kind::ResourceKind;
use k8s_connector::list::cluster_scoped_kinds;
use k8s_connector::list::do_list;
use k8s_connector::list::namespaced_kinds;
use k8s_connector::list::Listing;
use k8s_connector::resource::K8sResource;
use k8s_connector::util::from_str_option;
use k8s_connector::util::get_ser_resource_output;
use k8s_connector::util::neatify_text;
use k8s_connector::util::serialized_output;
use k8s_connector::util::strip_boring_fields;
use k8s_connector::yaml::ParseFailure;

const CONFIG: &str = "apiVersion: v1
kind: ConfigMap
metadata:
  name: settings
  namespace: default
data:
  colour: blue
  size: large
";

const CONFIG_REORDERED: &str = "data:
  size: large
  colour: blue
kind: ConfigMap
metadata:
  namespace: default
  name: settings
apiVersion: v1
";

const CONFIG_LIVE: &str = "apiVersion: v1
kind: ConfigMap
metadata:
  name: settings
  namespace: default
  uid: 77aa
  resourceVersion: '5'
  creationTimestamp: '2024-05-01T10:00:00Z'
  labels:
    helm.sh/chart: settings-1.0
    app.kubernetes.io/managed-by: Helm
data:
  colour: blue
  size: large
";

const CONFIG_PATH: &str = "k8s/main/ns/default/configmap/settings.yaml";

fn text(s: &str) -> Document {
    Document::String(s.to_string())
}

fn names(list: &[Option<&str>]) -> Vec<Option<String>> {
    list.iter().map(|n| n.map(|s| s.to_string())).collect()
}

#[test]
fn paths_of_the_grammar_are_resources() {
    assert_eq!(filter(CONFIG_PATH), FilterResponse::Resource);
    assert_eq!(filter("k8s/main/ns/default/ns.yml"), FilterResponse::Resource);
    assert_eq!(filter("k8s/main/persistentvolume/disk.yaml"), FilterResponse::Resource);
    assert_eq!(filter("k8s/ns/default/configmap/settings.yaml"), FilterResponse::Unmanaged);
    assert_eq!(filter("README.md"), FilterResponse::Unmanaged);
    assert_eq!(filter(""), FilterResponse::Unmanaged);
}

#[test]
fn definitions_are_equal_whatever_the_order_of_their_fields() {
    assert_eq!(eq(CONFIG_PATH, CONFIG.as_bytes(), CONFIG_REORDERED.as_bytes()).unwrap(), true);
    assert_eq!(eq(CONFIG_PATH, CONFIG.as_bytes(), CONFIG.as_bytes()).unwrap(), true);
    let changed = CONFIG.replace("blue", "red");
    assert_eq!(eq(CONFIG_PATH, CONFIG.as_bytes(), changed.as_bytes()).unwrap(), false);
}

#[test]
fn comparing_needs_two_definitions_of_the_kind() {
    for (a, b) in [
        (CONFIG.as_bytes(), "data: 3".as_bytes()),
        ("data: [".as_bytes(), CONFIG.as_bytes()),
        (&[0xc3u8, 0x28][..], CONFIG.as_bytes()),
    ] {
        match eq(CONFIG_PATH, a, b) {
            Err(ConnectorError::Deserialization { kind, address, .. }) => {
                assert_eq!(kind, ResourceKind::ConfigMap);
                assert_eq!(address, CONFIG_PATH);
            }
            other => panic!("{:?}", other),
        }
    }
    assert!(matches!(
        eq("k8s/main/configmap/settings.yaml", CONFIG.as_bytes(), CONFIG.as_bytes()),
        Err(ConnectorError::InvalidAddress { .. })
    ));
}

#[test]
fn every_role_kind_is_read_in_its_own_shape() {
    let role = "apiVersion: rbac.authorization.k8s.io/v1
kind: Role
metadata:
  name: reader
rules:
- apiGroups: ['']
  resources: [pods]
  verbs: [get]
";
    let binding = "apiVersion: rbac.authorization.k8s.io/v1
kind: RoleBinding
metadata:
  name: read
roleRef:
  apiGroup: rbac.authorization.k8s.io
  kind: Role
  name: reader
subjects:
- kind: User
  name: ann
";
    assert!(K8sResource::from_str(ResourceKind::Role, role).is_ok());
    assert!(K8sResource::from_str(ResourceKind::ClusterRole, role).is_err());
    assert!(K8sResource::from_str(ResourceKind::ClusterRole, &role.replace("kind: Role", "kind: ClusterRole")).is_ok());
    assert!(K8sResource::from_str(ResourceKind::RoleBinding, binding).is_ok());
    assert!(K8sResource::from_str(ResourceKind::ClusterRoleBinding, binding).is_err());
    assert!(K8sResource::from_str(
        ResourceKind::ClusterRoleBinding,
        &binding.replace("kind: RoleBinding", "kind: ClusterRoleBinding")
    )
    .is_ok());
    assert!(K8sResource::from_str(ResourceKind::RoleBinding, role).is_err());
    assert!(K8sResource::from_str(ResourceKind::PersistentVolume, "rules: 3").is_ok());
    assert!(K8sResource::from_str(ResourceKind::Role, "rules: 3").is_err());
    let path = "k8s/main/ns/default/role/reader.yaml";
    assert_eq!(eq(path, role.as_bytes(), role.as_bytes()).unwrap(), true);
    assert_eq!(
        eq(path, role.as_bytes(), role.replace("get", "list").as_bytes()).unwrap(),
        false
    );
    assert_eq!(K8sResource::from_str(ResourceKind::Role, role).unwrap().kind(), ResourceKind::Role);
}

#[test]
fn resources_of_different_kinds_are_never_equal() {
    let empty = "metadata:\n  name: a\n";
    let pod = K8sResource::from_str(ResourceKind::Pod, empty).unwrap();
    let service = K8sResource::from_str(ResourceKind::Service, empty).unwrap();
    assert!(!pod.same_as(&service));
    assert!(pod.same_as(&K8sResource::from_str(ResourceKind::Pod, empty).unwrap()));
}

#[test]
fn a_well_formed_definition_has_nothing_to_report() {
    assert_eq!(
        diag(CONFIG_PATH, CONFIG.as_bytes()).unwrap(),
        DiagnosticResponse { diagnostics: vec![] }
    );
}

#[test]
fn a_malformed_definition_is_reported_where_the_reader_gave_up() {
    let report = diag(CONFIG_PATH, "metadata:\n  name: [a, b]\n".as_bytes()).unwrap();
    assert_eq!(report.diagnostics.len(), 1);
    assert_eq!(report.diagnostics[0].severity, 1);
    assert_eq!(report.diagnostics[0].span.start, DiagnosticPosition { line: 2, col: 9 });
    assert_eq!(report.diagnostics[0].span.start, report.diagnostics[0].span.end);
    assert!(report.diagnostics[0].message.contains("expected a string"));
}

#[test]
fn a_report_needs_text_and_the_path_of_a_resource() {
    assert!(matches!(
        diag(CONFIG_PATH, &[0x80u8]),
        Err(ConnectorError::Deserialization { kind: ResourceKind::ConfigMap, .. })
    ));
    assert!(matches!(
        diag("k8s/main", CONFIG.as_bytes()),
        Err(ConnectorError::InvalidAddress { .. })
    ));
}

#[test]
fn a_report_repeats_what_the_reader_said() {
    assert_eq!(diagnosis(None), DiagnosticResponse { diagnostics: vec![] });
    let place = DiagnosticPosition { line: 3, col: 4 };
    assert_eq!(
        diagnosis(Some(ParseFailure { message: "bad".to_string(), location: Some((3, 4)) })),
        DiagnosticResponse {
            diagnostics: vec![Diagnostic {
                severity: 1,
                span: DiagnosticSpan { start: place, end: place },
                message: "bad".to_string(),
            }],
        }
    );
    let start = DiagnosticPosition { line: 1, col: 1 };
    assert_eq!(
        diagnosis(Some(ParseFailure { message: "worse".to_string(), location: None }))
            .diagnostics[0]
            .span,
        DiagnosticSpan { start, end: start }
    );
    let far = diagnosis(Some(ParseFailure {
        message: "far".to_string(),
        location: Some((usize::MAX, 7)),
    }));
    assert_eq!(far.diagnostics[0].span.start, DiagnosticPosition { line: u32::MAX, col: 7 });
}

#[test]
fn a_fetched_resource_is_written_out_without_what_the_cluster_wrote() {
    let response = do_get(CONFIG_PATH, CONFIG_LIVE).unwrap().unwrap();
    let written = String::from_utf8(response.resource_definition).unwrap();
    assert_eq!(
        written,
        "apiVersion: v1\nkind: ConfigMap\ndata:\n  colour: blue\n  size: large\nmetadata:\n  name: settings\n  namespace: default\n"
    );
    let resource = K8sResource::from_str(ResourceKind::ConfigMap, CONFIG_LIVE).unwrap();
    assert_eq!(
        get_ser_resource_output(&resource).unwrap().unwrap().resource_definition,
        written.into_bytes()
    );
}

#[test]
fn fetching_needs_a_definition_of_the_kind() {
    assert!(matches!(
        do_get(CONFIG_PATH, "data: 3"),
        Err(ConnectorError::Deserialization { kind: ResourceKind::ConfigMap, .. })
    ));
    assert!(matches!(do_get("elsewhere", CONFIG), Err(ConnectorError::InvalidAddress { .. })));
}

#[test]
fn any_document_can_be_written_out() {
    let doc = Document::Mapping(vec![
        (text("status"), text("gone")),
        (
            text("metadata"),
            Document::Mapping(vec![(text("uid"), text("1")), (text("name"), text("a"))]),
        ),
    ]);
    assert_eq!(
        serialized_output(doc).unwrap().unwrap().resource_definition,
        b"metadata:\n  name: a\n".to_vec()
    );
    assert_eq!(
        serialized_output(text("plain")).unwrap().unwrap().resource_definition,
        b"plain\n".to_vec()
    );
    assert_eq!(neat_text(Document::Mapping(vec![(text("status"), text("x"))])).unwrap(), "{}\n");
}

#[test]
fn boring_fields_are_dropped_from_metadata() {
    let mut meta = vec![
        (text("name"), text("a")),
        (text("uid"), text("1")),
        (text("generation"), text("2")),
        (text("managedFields"), text("3")),
        (text("creationTimestamp"), text("4")),
        (text("resourceVersion"), text("5")),
        (text("selfLink"), text("6")),
    ];
    strip_boring_fields(&mut meta);
    assert_eq!(
        meta,
        vec![
            (text("name"), text("a")),
            (text("generation"), text("2")),
            (text("selfLink"), text("6")),
        ]
    );
}

#[test]
fn an_optional_buffer_is_read_where_there_is_one() {
    assert_eq!(from_str_option(ResourceKind::ConfigMap, &None).unwrap(), None);
    let read = from_str_option(ResourceKind::ConfigMap, &Some(CONFIG.as_bytes().to_vec()))
        .unwrap()
        .unwrap();
    assert_eq!(read.kind(), ResourceKind::ConfigMap);
    assert!(read.same_as(&K8sResource::from_str(ResourceKind::ConfigMap, CONFIG_REORDERED).unwrap()));
    assert!(from_str_option(ResourceKind::ConfigMap, &Some(vec![0xff])).is_err());
    assert!(from_str_option(ResourceKind::ConfigMap, &Some(b"data: 1".to_vec())).is_err());
}

#[test]
fn what_was_listed_becomes_paths_in_order() {
    let listings = vec![
        Listing {
            kind: ResourceKind::ClusterRole,
            namespace: String::new(),
            names: names(&[Some("admin")]),
        },
        Listing {
            kind: ResourceKind::Namespace,
            namespace: String::new(),
            names: names(&[Some("default")]),
        },
        Listing {
            kind: ResourceKind::Pod,
            namespace: "default".to_string(),
            names: names(&[Some("web-0"), Some("web-1"), Some("worker")]),
        },
        Listing {
            kind: ResourceKind::Namespace,
            namespace: String::new(),
            names: names(&[Some("empty")]),
        },
        Listing { kind: ResourceKind::Pod, namespace: "empty".to_string(), names: names(&[]) },
    ];
    let paths = do_list("main", &listings);
    assert_eq!(
        paths,
        vec![
            "k8s/main/clusterrole/admin.yaml",
            "k8s/main/ns/default/ns.yaml",
            "k8s/main/ns/default/pod/web-0.yaml",
            "k8s/main/ns/default/pod/web-1.yaml",
            "k8s/main/ns/default/pod/worker.yaml",
            "k8s/main/ns/empty/ns.yaml",
        ]
    );
    for path in &paths {
        assert_eq!(filter(path), FilterResponse::Resource);
    }
}

#[test]
fn resources_without_a_name_are_passed_over() {
    let listings = vec![Listing {
        kind: ResourceKind::Service,
        namespace: "default".to_string(),
        names: names(&[None, Some("api"), None, Some("db"), None]),
    }];
    assert_eq!(
        do_list("main", &listings),
        vec!["k8s/main/ns/default/service/api.yaml", "k8s/main/ns/default/service/db.yaml"]
    );
    assert_eq!(do_list("main", &vec![]), Vec::<String>::new());
}

#[test]
fn kinds_are_listed_in_a_fixed_order() {
    assert_eq!(
        cluster_scoped_kinds(),
        vec![ResourceKind::ClusterRole, ResourceKind::ClusterRoleBinding, ResourceKind::PersistentVolume]
    );
    assert_eq!(
        namespaced_kinds(),
        vec![
            ResourceKind::Pod,
            ResourceKind::Service,
            ResourceKind::Deployment,
            ResourceKind::ConfigMap,
            ResourceKind::Secret,
            ResourceKind::PersistentVolumeClaim,
            ResourceKind::Role,
            ResourceKind::RoleBinding,
        ]
    );
}

#[test]
fn text_is_normalised_as_the_document_that_it_stands_for() {
    assert_eq!(
        neatify_text(CONFIG_LIVE).unwrap(),
        "apiVersion: v1\nkind: ConfigMap\nmetadata:\n  name: settings\n  namespace: default\ndata:\n  colour: blue\n  size: large\n"
    );
    let once = neatify_text(CONFIG_LIVE).unwrap();
    assert_eq!(neatify_text(&once).unwrap(), once);
    assert_eq!(neatify_text("- status\n- 2.5\n- !tagged x\n").unwrap(), "- status\n- 2.5\n- !tagged x\n");
    assert_eq!(neatify_text("status: {}\n").unwrap(), "{}\n");
    assert!(neatify_text("status: [").is_err());
}

#[test]
fn every_cluster_gets_one_slot_and_keeps_it() {
    let slots = ClusterSlots::new();
    assert_eq!(slots.len(), 0);
    assert_eq!(slots.find("east"), None);
    let (slots, east, fresh) = slots.with_slot("east");
    assert_eq!((east, fresh), (0, true));
    let (slots, west, fresh) = slots.with_slot("west");
    assert_eq!((west, fresh), (1, true));
    let (slots, again, fresh) = slots.with_slot("east");
    assert_eq!((again, fresh), (0, false));
    let (slots, empty, fresh) = slots.with_slot("");
    assert_eq!((empty, fresh), (2, true));
    assert_eq!(slots.len(), 3);
    assert_eq!(slots.find("west"), Some(1));
    assert_eq!(slots.find("East"), None);
}

#[test]
fn the_connector_goes_by_one_name() {
    assert!(is_connector_name("k8s"));
    assert!(!is_connector_name("K8s"));
    assert!(!is_connector_name("k8s "));
    assert!(!is_connector_name(""));
}

#[test]
fn a_resource_is_held_as_what_its_shape_makes_of_the_text() {
    let held = K8sResource::from_str(ResourceKind::ConfigMap, CONFIG_REORDERED).unwrap();
    assert_eq!(
        held.definition(),
        "apiVersion: v1\nkind: ConfigMap\ndata:\n  colour: blue\n  size: large\nmetadata:\n  name: settings\n  namespace: default\n"
    );
    assert_eq!(held, K8sResource::from_str(ResourceKind::ConfigMap, CONFIG).unwrap());
    assert_eq!(held, K8sResource::new(ResourceKind::ConfigMap, held.definition().clone()));
    assert_eq!(held.kind(), ResourceKind::ConfigMap);
    let extra = K8sResource::from_str(ResourceKind::ConfigMap, "unknown: 1\ndata:\n  a: b\n").unwrap();
    assert_eq!(
        extra.definition(),
        "apiVersion: v1\nkind: ConfigMap\ndata:\n  a: b\nmetadata: {}\n"
    );
    let failure = K8sResource::from_str(ResourceKind::ConfigMap, "metadata:\n  name: [a, b]\n")
        .unwrap_err();
    assert_eq!(failure.location, Some((2, 9)));
    assert!(failure.message.contains("expected a string"));
}

#[test]
fn the_document_of_a_resource_is_that_of_its_definition() {
    let held = K8sResource::from_str(ResourceKind::ConfigMap, "data:\n  a: b\n").unwrap();
    assert_eq!(
        held.to_document().unwrap(),
        Document::Mapping(vec![
            (text("apiVersion"), text("v1")),
            (text("kind"), text("ConfigMap")),
            (text("data"), Document::Mapping(vec![(text("a"), text("b"))])),
            (text("metadata"), Document::Mapping(vec![])),
        ])
    );
    let broken = K8sResource::new(ResourceKind::Pod, "spec: [".to_string());
    let failure = broken.to_document().unwrap_err();
    assert_eq!(failure.location, None);
    assert!(!failure.message.is_empty());
    assert_eq!(get_ser_resource_output(&broken).unwrap_err(), failure.message);
}

#[test]
fn resources_are_equal_when_kind_and_definition_are() {
    let pod = K8sResource::new(ResourceKind::Pod, "a".to_string());
    assert!(pod.same_as(&K8sResource::new(ResourceKind::Pod, "a".to_string())));
    assert!(!pod.same_as(&K8sResource::new(ResourceKind::Pod, "b".to_string())));
    assert!(!pod.same_as(&K8sResource::new(ResourceKind::Service, "a".to_string())));
}
