use k8s_connector::addr::K8sClusterAddress;
use k8s_connector::addr::K8sResourceAddress;
use k8s_connector::backend::SerdeBackend;
use k8s_connector::error::ConnectorError;
use k8s_connector::kind::ResourceKind;

fn s(text: &str) -> String {
    text.to_string()
}

fn every_address(ns: &str, name: &str) -> Vec<K8sResourceAddress> {
    vec![
        K8sResourceAddress::Namespace(s(ns)),
        K8sResourceAddress::Pod(s(ns), s(name)),
        K8sResourceAddress::Service(s(ns), s(name)),
        K8sResourceAddress::Deployment(s(ns), s(name)),
        K8sResourceAddress::ConfigMap(s(ns), s(name)),
        K8sResourceAddress::Secret(s(ns), s(name)),
        K8sResourceAddress::PersistentVolumeClaim(s(ns), s(name)),
        K8sResourceAddress::PersistentVolume(s(name)),
        K8sResourceAddress::Role(s(ns), s(name)),
        K8sResourceAddress::RoleBinding(s(ns), s(name)),
        K8sResourceAddress::ClusterRole(s(name)),
        K8sResourceAddress::ClusterRoleBinding(s(name)),
    ]
}

#[test]
fn pod_encodes_to_its_path() {
    let addr = K8sResourceAddress::Pod(s("default"), s("nginx"));
    assert_eq!(addr.to_path_buf(), "k8s/ns/default/pod/nginx.yaml");
    assert_eq!(addr.encode(SerdeBackend::YAML), "k8s/ns/default/pod/nginx.yaml");
    assert_eq!(addr.encode(SerdeBackend::RON), "k8s/ns/default/pod/nginx.ron");
}

#[test]
fn pod_path_decodes_to_the_pod() {
    let addr = K8sResourceAddress::from_path("k8s/ns/default/pod/nginx.yaml").unwrap();
    assert_eq!(addr, K8sResourceAddress::Pod(s("default"), s("nginx")));
}

#[test]
fn every_kind_has_the_path_of_the_grammar() {
    let paths: Vec<String> =
        every_address("prod", "web").iter().map(|a| a.to_path_buf()).collect();
    assert_eq!(
        paths,
        vec![
            "k8s/ns/prod/ns.yaml",
            "k8s/ns/prod/pod/web.yaml",
            "k8s/ns/prod/service/web.yaml",
            "k8s/ns/prod/deployment/web.yaml",
            "k8s/ns/prod/configmap/web.yaml",
            "k8s/ns/prod/secret/web.yaml",
            "k8s/ns/prod/persistentvolumeclaim/web.yaml",
            "k8s/persistentvolume/web.yaml",
            "k8s/ns/prod/role/web.yaml",
            "k8s/ns/prod/rolebinding/web.yaml",
            "k8s/clusterrole/web.yaml",
            "k8s/clusterrolebinding/web.yaml",
        ]
    );
}

#[test]
fn every_kind_round_trips() {
    for backend in [SerdeBackend::YAML, SerdeBackend::RON] {
        for (ns, name) in [("default", "nginx"), ("", ""), ("a.b", "x.yaml"), ("ns", "ns"), ("k8s", "pod")] {
            for addr in every_address(ns, name) {
                let path = addr.encode(backend);
                assert_eq!(K8sResourceAddress::decode(&path, backend), Some(addr));
            }
        }
    }
}

#[test]
fn every_kind_round_trips_within_a_cluster() {
    for cluster in ["default", "ns", "", "east-1"] {
        for res_addr in every_address("team", "api") {
            let addr = K8sClusterAddress { cluster: s(cluster), res_addr };
            let path = addr.to_path_buf();
            assert_eq!(K8sClusterAddress::from_path(&path).unwrap(), addr);
        }
    }
}

#[test]
fn cluster_paths_carry_the_cluster_after_the_root() {
    let pod = K8sClusterAddress {
        cluster: s("east"),
        res_addr: K8sResourceAddress::Pod(s("default"), s("nginx")),
    };
    assert_eq!(pod.to_path_buf(), "k8s/east/ns/default/pod/nginx.yaml");
    let volume = K8sClusterAddress {
        cluster: s("east"),
        res_addr: K8sResourceAddress::PersistentVolume(s("disk0")),
    };
    assert_eq!(volume.to_path_buf(), "k8s/east/persistentvolume/disk0.yaml");
    assert_eq!(K8sClusterAddress::from_path("k8s/east/persistentvolume/disk0.yaml").unwrap(), volume);
}

#[test]
fn short_yaml_extension_is_accepted_and_removed() {
    assert_eq!(
        K8sResourceAddress::decode("k8s/ns/default/pod/nginx.yml", SerdeBackend::YAML),
        Some(K8sResourceAddress::Pod(s("default"), s("nginx")))
    );
    assert_eq!(
        K8sResourceAddress::decode("k8s/ns/default/ns.yml", SerdeBackend::YAML),
        Some(K8sResourceAddress::Namespace(s("default")))
    );
    assert_eq!(K8sResourceAddress::decode("k8s/ns/default/pod/nginx.yml", SerdeBackend::RON), None);
    assert_eq!(K8sResourceAddress::decode("k8s/ns/default/pod/nginx.yaml", SerdeBackend::RON), None);
    assert_eq!(
        K8sResourceAddress::decode("k8s/clusterrole/admin.ron", SerdeBackend::RON),
        Some(K8sResourceAddress::ClusterRole(s("admin")))
    );
}

#[test]
fn paths_outside_the_grammar_are_not_resources() {
    for path in [
        "",
        "/",
        "k8s",
        "k8s/",
        "k8s/ns",
        "k8s/ns/default",
        "k8s/ns/default/pod",
        "k8s/ns/default/pod/nginx",
        "k8s/ns/default/pod/nginx.json",
        "k8s/ns/default/pods/nginx.yaml",
        "k8s/ns/default/pod/nginx.yaml/extra",
        "k8s/ns/default/pod/sub/nginx.yaml",
        "k8s/ns/default/namespace.yaml",
        "k8s/ns/default/clusterrole/x.yaml",
        "k8s/pod/nginx.yaml",
        "k8s/clusterrole/admin",
        "K8S/clusterrole/admin.yaml",
        "aws/ns/default/pod/nginx.yaml",
        "/k8s/ns/default/pod/nginx.yaml",
        "k8s//ns/default/pod/nginx.yaml",
        "k8s/ns/default/pod/nginx.yaml/",
    ] {
        assert_eq!(K8sResourceAddress::decode(path, SerdeBackend::YAML), None, "{}", path);
        match K8sResourceAddress::from_path(path) {
            Err(ConnectorError::InvalidAddress { path: reported }) => assert_eq!(reported, path),
            other => panic!("{} gave {:?}", path, other),
        }
    }
}

#[test]
fn cluster_paths_outside_the_grammar_are_not_resources() {
    for path in ["", "k8s", "k8s/east", "k8s/ns/default/pod/nginx.yaml", "k8s/east/pod/nginx.yaml", "x/east/clusterrole/a.yaml"] {
        assert_eq!(K8sClusterAddress::decode(path, SerdeBackend::YAML), None, "{}", path);
        assert!(matches!(
            K8sClusterAddress::from_path(path),
            Err(ConnectorError::InvalidAddress { .. })
        ));
    }
}

#[test]
fn names_are_taken_verbatim() {
    assert_eq!(
        K8sResourceAddress::from_path("k8s/ns/Kube System/configmap/a b.c.yaml").unwrap(),
        K8sResourceAddress::ConfigMap(s("Kube System"), s("a b.c"))
    );
    assert_eq!(
        K8sResourceAddress::from_path("k8s/ns/é/pod/ü.yaml.yaml").unwrap(),
        K8sResourceAddress::Pod(s("é"), s("ü.yaml"))
    );
}

#[test]
fn address_parts_can_be_read_back() {
    let pod = K8sResourceAddress::Pod(s("default"), s("nginx"));
    assert_eq!(pod.kind(), ResourceKind::Pod);
    assert_eq!(pod.namespace(), Some(&s("default")));
    assert_eq!(pod.name(), "nginx");
    assert_eq!(pod.scoped_name(), "default/nginx");
    let ns = K8sResourceAddress::Namespace(s("default"));
    assert_eq!(ns.kind(), ResourceKind::Namespace);
    assert_eq!(ns.namespace(), None);
    assert_eq!(ns.scoped_name(), "default");
    let role = K8sResourceAddress::new(ResourceKind::ClusterRole, s("ignored"), s("admin"));
    assert_eq!(role, K8sResourceAddress::ClusterRole(s("admin")));
    assert_eq!(role.scoped_name(), "admin");
    assert_eq!(
        K8sResourceAddress::new(ResourceKind::Secret, s("a"), s("b")),
        K8sResourceAddress::Secret(s("a"), s("b"))
    );
}

#[test]
fn kinds_know_their_scope() {
    assert!(ResourceKind::PersistentVolume.is_cluster_scoped());
    assert!(ResourceKind::ClusterRole.is_cluster_scoped());
    assert!(ResourceKind::ClusterRoleBinding.is_cluster_scoped());
    assert!(!ResourceKind::Namespace.is_cluster_scoped());
    assert!(!ResourceKind::Namespace.carries_namespace());
    assert!(ResourceKind::Pod.carries_namespace());
    assert!(!ResourceKind::Secret.supports_mutation());
    assert!(ResourceKind::ConfigMap.supports_mutation());
    assert_eq!(ResourceKind::PersistentVolumeClaim.name(), "PersistentVolumeClaim");
    assert_eq!(ResourceKind::PersistentVolumeClaim.segment(), "persistentvolumeclaim");
}
