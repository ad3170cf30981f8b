use k8s_connector::addr::K8sResourceAddress;
use k8s_connector::connector::do_op_exec;
use k8s_connector::connector::do_plan;
use k8s_connector::connector::plan_diff_inputs;
use k8s_connector::error::ConnectorError;
use k8s_connector::kind::ResourceKind;
use k8s_connector::op::announce;
use k8s_connector::op::mutation;
use k8s_connector::op::plan;
use k8s_connector::op::K8sConnectorOp;
use k8s_connector::op::Mutation;
use k8s_connector::op::PlanResponseElement;

const NGINX: &str = "apiVersion: v1
kind: Pod
metadata:
  name: nginx
  namespace: default
spec:
  containers:
  - name: nginx
    image: nginx:1.27
";

const NGINX_LIVE: &str = "apiVersion: v1
kind: Pod
metadata:
  name: nginx
  namespace: default
  uid: 0f6d
  resourceVersion: '812'
  annotations:
    checksum/config: abc
spec:
  containers:
  - name: nginx
    image: nginx:1.26
status:
  phase: Running
";

const POD_PATH: &str = "k8s/main/ns/default/pod/nginx.yaml";

fn pod() -> K8sResourceAddress {
    K8sResourceAddress::Pod("default".to_string(), "nginx".to_string())
}

fn bytes(text: &str) -> Option<Vec<u8>> {
    Some(text.as_bytes().to_vec())
}

#[test]
fn nothing_is_planned_where_there_is_neither_state() {
    assert_eq!(plan(&pod(), None, None, ""), vec![]);
    assert_eq!(do_plan(POD_PATH, None, None, "").unwrap(), vec![]);
}

#[test]
fn creation_is_planned_where_nothing_is_there_yet() {
    let expected = vec![PlanResponseElement {
        op: K8sConnectorOp::Create(NGINX.to_string()),
        friendly_message: "Create Pod default/nginx".to_string(),
    }];
    assert_eq!(plan(&pod(), None, Some(NGINX), "unused"), expected);
    assert_eq!(do_plan(POD_PATH, None, bytes(NGINX), "unused").unwrap(), expected);
}

#[test]
fn deletion_is_planned_where_nothing_is_desired() {
    let expected = vec![PlanResponseElement {
        op: K8sConnectorOp::Delete,
        friendly_message: "Delete Pod default/nginx".to_string(),
    }];
    assert_eq!(plan(&pod(), Some(NGINX), None, "unused"), expected);
    assert_eq!(do_plan(POD_PATH, bytes(NGINX_LIVE), None, "unused").unwrap(), expected);
}

#[test]
fn a_patch_is_planned_where_both_states_are_there() {
    let expected = vec![PlanResponseElement {
        op: K8sConnectorOp::Patch(NGINX.to_string()),
        friendly_message: "Modify Pod default/nginx:\n-1.26\n+1.27\n".to_string(),
    }];
    assert_eq!(plan(&pod(), Some(NGINX_LIVE), Some(NGINX), "-1.26\n+1.27\n"), expected);
    assert_eq!(
        do_plan(POD_PATH, bytes(NGINX_LIVE), bytes(NGINX), "-1.26\n+1.27\n").unwrap(),
        expected
    );
}

#[test]
fn equal_states_still_plan_a_patch_with_nothing_to_show() {
    assert_eq!(
        do_plan(POD_PATH, bytes(NGINX), bytes(NGINX), "").unwrap(),
        vec![PlanResponseElement {
            op: K8sConnectorOp::Patch(NGINX.to_string()),
            friendly_message: "Modify Pod default/nginx:\n".to_string(),
        }]
    );
    let (before, after) =
        plan_diff_inputs(POD_PATH, &bytes(NGINX), &bytes(NGINX)).unwrap().unwrap();
    assert_eq!(before, after);
}

#[test]
fn kinds_without_a_namespace_are_announced_by_name_alone() {
    let role = K8sResourceAddress::ClusterRole("admin".to_string());
    assert_eq!(announce("Create", &role), "Create ClusterRole admin");
    let namespace = K8sResourceAddress::Namespace("staging".to_string());
    assert_eq!(announce("Delete", &namespace), "Delete Namespace staging");
    let claim = K8sResourceAddress::PersistentVolumeClaim("db".to_string(), "data".to_string());
    assert_eq!(announce("Modify", &claim), "Modify PersistentVolumeClaim db/data");
}

#[test]
fn a_plan_needs_the_path_of_a_resource() {
    match do_plan("k8s/main/ns/default/pods/nginx.yaml", None, None, "") {
        Err(ConnectorError::InvalidAddress { path }) => {
            assert_eq!(path, "k8s/main/ns/default/pods/nginx.yaml")
        }
        other => panic!("{:?}", other),
    }
}

#[test]
fn a_plan_fails_on_a_definition_of_another_shape() {
    let broken = "apiVersion: v1\nkind: Pod\nspec:\n  containers: 7\n";
    for (current, desired) in [
        (None, bytes(broken)),
        (bytes(broken), None),
        (bytes(NGINX), bytes(broken)),
        (bytes(broken), bytes(NGINX)),
        (None, Some(vec![0xff, 0xfe])),
        (None, bytes("metadata: [unclosed")),
    ] {
        match do_plan(POD_PATH, current, desired, "") {
            Err(ConnectorError::Deserialization { kind, address, message }) => {
                assert_eq!(kind, ResourceKind::Pod);
                assert_eq!(address, POD_PATH);
                assert!(!message.is_empty());
            }
            other => panic!("{:?}", other),
        }
    }
}

#[test]
fn diff_inputs_are_the_two_states_without_what_the_cluster_wrote() {
    let (before, after) =
        plan_diff_inputs(POD_PATH, &bytes(NGINX_LIVE), &bytes(NGINX)).unwrap().unwrap();
    assert!(before.contains("nginx:1.26"));
    assert!(after.contains("nginx:1.27"));
    for noise in ["uid", "resourceVersion", "checksum", "status", "Running"] {
        assert!(!before.contains(noise), "{}", noise);
    }
    assert_eq!(before.replace("1.26", "1.27"), after);
    assert_eq!(plan_diff_inputs(POD_PATH, &None, &bytes(NGINX)).unwrap(), None);
    assert_eq!(plan_diff_inputs(POD_PATH, &bytes(NGINX), &None).unwrap(), None);
    assert_eq!(plan_diff_inputs(POD_PATH, &None, &None).unwrap(), None);
    assert!(matches!(
        plan_diff_inputs(POD_PATH, &bytes("spec: 3"), &bytes(NGINX)),
        Err(ConnectorError::Deserialization { .. })
    ));
    assert!(matches!(
        plan_diff_inputs("nowhere", &None, &None),
        Err(ConnectorError::InvalidAddress { .. })
    ));
}

#[test]
fn carrying_out_an_operation_names_the_resource_and_confirms_it() {
    assert_eq!(
        do_op_exec(POD_PATH, K8sConnectorOp::Create(NGINX.to_string())).unwrap(),
        Mutation {
            kind: ResourceKind::Pod,
            namespace: Some("default".to_string()),
            name: "nginx".to_string(),
            op: K8sConnectorOp::Create(NGINX.to_string()),
            friendly_message: "Created Pod nginx".to_string(),
        }
    );
    assert_eq!(
        do_op_exec(POD_PATH, K8sConnectorOp::Patch(NGINX.to_string())).unwrap().friendly_message,
        "Modified Pod nginx"
    );
    assert_eq!(
        do_op_exec("k8s/main/clusterrole/admin.yaml", K8sConnectorOp::Delete).unwrap(),
        Mutation {
            kind: ResourceKind::ClusterRole,
            namespace: None,
            name: "admin".to_string(),
            op: K8sConnectorOp::Delete,
            friendly_message: "Deleted ClusterRole admin".to_string(),
        }
    );
    assert_eq!(
        mutation(&K8sResourceAddress::Namespace("staging".to_string()), K8sConnectorOp::Delete)
            .friendly_message,
        "Deleted Namespace staging"
    );
}

#[test]
fn secrets_cannot_be_changed() {
    for op in [
        K8sConnectorOp::Delete,
        K8sConnectorOp::Create("kind: Secret".to_string()),
        K8sConnectorOp::Patch("not: [valid".to_string()),
    ] {
        match do_op_exec("k8s/main/ns/default/secret/token.yaml", op) {
            Err(ConnectorError::UnsupportedKind { kind }) => assert_eq!(kind, ResourceKind::Secret),
            other => panic!("{:?}", other),
        }
    }
    assert!(do_plan("k8s/main/ns/default/secret/token.yaml", None, bytes("kind: Secret\n"), "").is_ok());
}

#[test]
fn an_operation_with_a_definition_of_another_shape_is_not_carried_out() {
    match do_op_exec(POD_PATH, K8sConnectorOp::Create("spec: 3".to_string())) {
        Err(ConnectorError::Deserialization { kind, address, .. }) => {
            assert_eq!(kind, ResourceKind::Pod);
            assert_eq!(address, POD_PATH);
        }
        other => panic!("{:?}", other),
    }
    assert!(matches!(
        do_op_exec("k8s/main/pod/nginx.yaml", K8sConnectorOp::Delete),
        Err(ConnectorError::InvalidAddress { .. })
    ));
}
