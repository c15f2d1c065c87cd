use seaport::config::{Address, Banner, BannerVo, Config, DataNode, InfoVo, DEFAULT_LOG_LEVEL, DEFAULT_PORT};

fn node(name: &str, protocol: &str, host: &str, port: u16) -> DataNode {
    DataNode {
        name: name.to_string(),
        address: Address { protocol: protocol.to_string(), host: host.to_string(), port },
    }
}

fn config(nodes: Vec<DataNode>) -> Config {
    Config {
        log_level: DEFAULT_LOG_LEVEL.to_string(),
        port: DEFAULT_PORT,
        dir: String::new(),
        title: String::new(),
        announcement: String::new(),
        gui: false,
        data_nodes: nodes,
        banners: vec![],
    }
}

#[test]
fn address_text_joins_protocol_host_and_port() {
    let n = node("main", "http", "example.org", 8080);
    assert_eq!(n.address.to_address_string(), "http://example.org:8080");
    assert_eq!(n.get_address_string(), "http://example.org:8080");
    assert_eq!(node("x", "https", "10.0.0.1", 0).get_address_string(), "https://10.0.0.1:0");
}

#[test]
fn config_lines_pad_name_and_address() {
    let c = config(vec![node("a", "http", "h", 1), node("a-very-long-node-name-here", "http", "host", 65535)]);
    let lines = c.print_config();
    assert_eq!(lines.len(), 2);
    assert_eq!(
        lines[0],
        format!("data_node[0]: name: {:20}, addr: {:30}", "a", "http://h:1")
    );
    assert_eq!(
        lines[1],
        format!("data_node[1]: name: {:20}, addr: {:30}", "a-very-long-node-name-here", "http://host:65535")
    );
    assert!(config(vec![]).print_config().is_empty());
}

#[test]
fn defaults_are_trace_and_8080() {
    assert_eq!(DEFAULT_LOG_LEVEL, "TRACE");
    assert_eq!(DEFAULT_PORT, 8080);
}

#[test]
fn info_and_banner_answers_copy_the_configuration() {
    let nodes = vec![node("a", "http", "h", 1), node("b", "https", "g", 2)];
    let info = InfoVo::from_nodes(&nodes);
    assert_eq!(info.data_nodes.len(), 2);
    assert_eq!(info.data_nodes[1].name, "b");
    assert_eq!(info.data_nodes[1].get_address_string(), "https://g:2");
    let banners = vec![Banner::new("u1", "d1"), Banner::new("u2", "d2")];
    let vo = BannerVo::from_banners(&banners);
    assert_eq!(vo.banners.len(), 2);
    assert_eq!(vo.banners[0].image_url, "u1");
    assert_eq!(vo.banners[1].description, "d2");
    assert_eq!(BannerVo::new(vec![]).banners.len(), 0);
}
