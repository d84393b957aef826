use docker_monitor::container::{
    build_container_info_list, extract_container_name, format_ports, get_container_state,
    ContainerStats, ContainerSummary, Percent, Port, PortType, StatsMap,
};

fn bare() -> ContainerSummary {
    ContainerSummary {
        id: None,
        names: None,
        image: None,
        ports: None,
        state: None,
        status: None,
    }
}

#[test]
fn state_of_a_container() {
    assert_eq!(get_container_state(&bare()), "unknown");
    let mut container = bare();
    container.state = Some("exited".to_string());
    assert_eq!(get_container_state(&container), "exited");
}

#[test]
fn name_of_a_container() {
    let mut container = bare();
    assert_eq!(extract_container_name(&container), "Unknown");
    container.names = Some(vec![]);
    assert_eq!(extract_container_name(&container), "Unknown");
    container.names = Some(vec!["/web".to_string(), "/other".to_string()]);
    assert_eq!(extract_container_name(&container), "web");
    container.names = Some(vec!["//a/b".to_string()]);
    assert_eq!(extract_container_name(&container), "a/b");
}

#[test]
fn ports_of_a_container() {
    let mut container = bare();
    assert_eq!(format_ports(&container), "");
    container.ports = Some(vec![]);
    assert_eq!(format_ports(&container), "");
    container.ports = Some(vec![
        Port {
            private_port: 80,
            public_port: Some(8080),
            typ: Some(PortType::Tcp),
        },
        Port {
            private_port: 53,
            public_port: None,
            typ: Some(PortType::Udp),
        },
        Port {
            private_port: 65535,
            public_port: Some(0),
            typ: None,
        },
    ]);
    assert_eq!(
        format_ports(&container),
        "8080:80->80/tcp, :53->53/udp, 0:65535->65535/tcp"
    );
}

#[test]
fn transports_are_written_as_the_daemon_does() {
    let written = |typ: PortType| {
        let mut container = bare();
        container.ports = Some(vec![Port {
            private_port: 1,
            public_port: None,
            typ: Some(typ),
        }]);
        format_ports(&container)
    };
    assert_eq!(written(PortType::Empty), ":1->1/");
    assert_eq!(written(PortType::Tcp), ":1->1/tcp");
    assert_eq!(written(PortType::Udp), ":1->1/udp");
    assert_eq!(written(PortType::Sctp), ":1->1/sctp");
    for (typ, name) in [
        (bollard::models::PortTypeEnum::EMPTY, ""),
        (bollard::models::PortTypeEnum::SCTP, "sctp"),
    ] {
        assert_eq!(typ.to_string(), name);
    }
}

#[test]
fn lines_of_containers() {
    let mut first = bare();
    first.id = Some("aaa".to_string());
    first.names = Some(vec!["/web".to_string()]);
    first.image = Some("nginx".to_string());
    first.state = Some("running".to_string());
    first.status = Some("Up 2 hours".to_string());
    let mut last = bare();
    last.id = Some("bbb".to_string());
    let mut stats_map = StatsMap::new();
    stats_map.insert(
        "aaa".to_string(),
        ContainerStats {
            cpu_percent: Percent { bits: f64::to_bits(12.5) },
            memory_usage: "1.0 / 2.0".to_string(),
            memory_percent: Percent { bits: f64::to_bits(50.0) },
        },
    );
    assert!(stats_map.get("aaa").is_some());
    assert!(stats_map.get("bbb").is_none());
    let list = build_container_info_list(vec![first, bare(), last], stats_map).unwrap();
    assert_eq!(list.len(), 2);
    assert_eq!(list[0].id, "aaa");
    assert_eq!(list[0].name, "web");
    assert_eq!(list[0].status, "Up 2 hours");
    assert_eq!(list[0].image, "nginx");
    assert_eq!(list[0].state, "running");
    assert_eq!(list[0].ports, "");
    assert_eq!(list[0].memory_usage, "1.0 / 2.0");
    assert_eq!(f64::from_bits(list[0].cpu_percent.bits), 12.5);
    assert_eq!(f64::from_bits(list[0].memory_percent.bits), 50.0);
    assert_eq!(list[1].id, "bbb");
    assert_eq!(list[1].name, "Unknown");
    assert_eq!(list[1].status, "Unknown");
    assert_eq!(list[1].image, "Unknown");
    assert_eq!(list[1].state, "unknown");
    assert_eq!(list[1].memory_usage, "N/A");
    assert_eq!(list[1].cpu_percent, Percent::zero());
    assert_eq!(list[1].memory_percent, Percent::zero());
    assert_eq!(f64::from_bits(Percent::zero().bits), 0.0);
}
