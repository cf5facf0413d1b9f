use skinner::components::{Interface, Route};
use skinner::address::Addr;
use skinner::config::{
    default_config_path, CommandConfig, Config, ConfigParser, InterfacesConfig, RoutesConfig,
    SessionConfig, TemplateConfig,
};

fn sample_config() -> Config {
    Config {
        routes: RoutesConfig {
            count: 1,
            template: vec![(
                "extra".to_string(),
                TemplateConfig { template: "routes/extra.j2".to_string() },
            )],
        },
        interfaces: InterfacesConfig {
            count: 2,
            name_template: "iface-{{ n }}".to_string(),
            template: Vec::new(),
        },
        session: vec![(
            "default".to_string(),
            SessionConfig { prompt: "> ".to_string(), level: 1 },
        )],
        command: vec![(
            "show".to_string(),
            CommandConfig { template_ref: None, level: Some(2) },
        )],
    }
}

#[test]
fn parser_starts_empty() {
    let parser = ConfigParser::new("topology.toml".to_string());
    assert_eq!(parser.path, "topology.toml");
    assert!(parser.config().is_none());
}

#[test]
fn parser_hands_back_stored_config() {
    let mut parser = ConfigParser::new("topology.toml".to_string());
    parser.store(sample_config());
    let config = parser.config().expect("stored configuration");
    assert_eq!(config.interfaces.count, 2);
    assert_eq!(config.interfaces.name_template, "iface-{{ n }}");
    assert_eq!(config.routes.count, 1);
    assert_eq!(config.routes.template[0].0, "extra");
    assert_eq!(config.routes.template[0].1.template, "routes/extra.j2");
    assert_eq!(config.session[0].1.prompt, "> ");
    assert_eq!(config.command[0].1.level, Some(2));
    // the path is untouched by storing
    assert_eq!(parser.path, "topology.toml");
}

#[test]
fn default_parser_uses_default_path() {
    let parser = ConfigParser::default();
    assert_eq!(parser.path, default_config_path());
    assert_eq!(parser.path, "skinner.config.toml");
    assert!(parser.config().is_none());
}

#[test]
fn interface_new_keeps_fields() {
    let iface = Interface::new("eth0".to_string(), Addr { bits: 0x0100_0001 });
    assert_eq!(iface.name, "eth0");
    assert_eq!(iface.address.bits, 0x0100_0001);
}

#[test]
fn route_new_keeps_fields() {
    let route = Route::new(Addr { bits: 0x0100_0002 }, Some(0));
    assert_eq!(route.destination.bits, 0x0100_0002);
    assert_eq!(route.interface, Some(0));
    let bare = Route::new(Addr { bits: 0x0100_0003 }, None);
    assert!(bare.interface.is_none());
}
