use kubegraph::forward::PortForwardInfo;
use kubegraph::forward::PortForwardRegistry;
use kubegraph::forward::PortForwardRequest;

fn info(local_port: u16, name: &str, pid: u32) -> PortForwardInfo {
    PortForwardInfo {
        id: format!("fw-{}", local_port),
        context: "minikube".to_string(),
        namespace: "default".to_string(),
        service_name: name.to_string(),
        service_port: 80,
        local_port,
        pid,
    }
}

#[test]
fn register_and_list_forwards() {
    let mut reg = PortForwardRegistry::new();
    assert!(reg.register(info(8080, "web", 11)).is_ok());
    assert!(reg.register(info(9090, "api", 12)).is_ok());
    let listed = reg.list();
    assert_eq!(listed.len(), 2);
    assert_eq!(listed[0].local_port, 8080);
    assert_eq!(listed[0].service_name, "web");
    assert_eq!(listed[1].local_port, 9090);
    assert_eq!(listed[1].pid, 12);
}

#[test]
fn occupied_port_is_rejected() {
    let mut reg = PortForwardRegistry::new();
    assert!(reg.register(info(8080, "web", 11)).is_ok());
    assert!(reg.occupied(8080));
    assert!(!reg.occupied(9090));
    let err = reg.register(info(8080, "other", 13));
    assert!(err.is_err());
    let listed = reg.list();
    assert_eq!(listed.len(), 1);
    assert_eq!(listed[0].service_name, "web");
}

#[test]
fn remove_returns_the_stored_forward() {
    let mut reg = PortForwardRegistry::new();
    assert!(reg.register(info(8080, "web", 11)).is_ok());
    assert!(reg.register(info(9090, "api", 12)).is_ok());
    let removed = reg.remove(8080);
    match removed {
        Some(e) => {
            assert_eq!(e.local_port, 8080);
            assert_eq!(e.pid, 11);
        }
        None => panic!("the forward on 8080 was registered"),
    }
    assert!(!reg.occupied(8080));
    assert_eq!(reg.list().len(), 1);
    assert!(reg.remove(8080).is_none());
}

#[test]
fn freed_port_can_be_reused() {
    let mut reg = PortForwardRegistry::new();
    assert!(reg.register(info(8080, "web", 11)).is_ok());
    assert!(reg.remove(8080).is_some());
    assert!(reg.register(info(8080, "web-again", 14)).is_ok());
    let listed = reg.list();
    assert_eq!(listed.len(), 1);
    assert_eq!(listed[0].pid, 14);
}

#[test]
fn request_body_carries_plain_values() {
    let req = PortForwardRequest {
        context: "minikube".to_string(),
        namespace: "default".to_string(),
        service_name: "web".to_string(),
        service_port: 80,
        local_port: 8080,
    };
    assert_eq!(req.service_name, "web");
    assert_eq!(req.local_port, 8080);
}
