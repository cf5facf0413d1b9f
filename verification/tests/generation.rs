use skinner::address::{AddressAllocator, AllocError};
use skinner::components::Interface;
use skinner::config::{InterfacesConfig, RoutesConfig};
use skinner::generate::{
    interface_name_template_id, interfaces, routes, setup_component_template, setup_interfaces,
    setup_routes, GenError,
};
use skinner::render::NameRenderer;

fn iface_config(count: u32, name_template: &str) -> InterfacesConfig {
    InterfacesConfig {
        count,
        name_template: name_template.to_string(),
        template: Vec::new(),
    }
}

fn route_config(count: u32) -> RoutesConfig {
    RoutesConfig { count, template: Vec::new() }
}

#[test]
fn two_interfaces_with_rendered_names_and_distinct_addresses() {
    let mut renderer = NameRenderer::new();
    let config = iface_config(2, "iface-{{ n }}");
    setup_interfaces(&mut renderer, &config, &Vec::new()).unwrap();
    let mut allocator = AddressAllocator::new();
    let generated = interfaces(&renderer, &config, &mut allocator).unwrap();
    assert_eq!(generated.len(), 2);
    // the context handed to the renderer is always { n: 5 }
    assert_eq!(generated[0].name, "iface-5");
    assert_eq!(generated[1].name, "iface-5");
    assert_eq!(generated[0].address.bits, 0x0100_0001);
    assert_eq!(generated[1].address.bits, 0x0100_0002);
    assert_ne!(generated[0].address.bits, generated[1].address.bits);
}

#[test]
fn interface_count_fidelity() {
    let mut renderer = NameRenderer::new();
    let config = iface_config(7, "eth{{ n }}");
    setup_interfaces(&mut renderer, &config, &Vec::new()).unwrap();
    let mut allocator = AddressAllocator::new();
    let generated = interfaces(&renderer, &config, &mut allocator).unwrap();
    assert_eq!(generated.len(), 7);
    assert_eq!(allocator.cursor, 0x0100_0001 + 7);
}

#[test]
fn zero_count_yields_empty_and_leaves_allocator_alone() {
    let renderer = NameRenderer::new();
    let config = iface_config(0, "unused");
    let mut allocator = AddressAllocator::new();
    let generated = interfaces(&renderer, &config, &mut allocator).unwrap();
    assert!(generated.is_empty());
    assert_eq!(allocator.cursor, 0x0100_0001);
}

#[test]
fn missing_name_template_fails_fast_with_no_interfaces() {
    // nothing registered: the very first interface cannot be named
    let renderer = NameRenderer::new();
    let config = iface_config(3, "unregistered");
    let mut allocator = AddressAllocator::new();
    let err = interfaces(&renderer, &config, &mut allocator).unwrap_err();
    assert_eq!(
        err,
        GenError::TemplateMissing { id: interface_name_template_id().to_string() }
    );
    // all-or-nothing: the failed call handed out no interface list at all,
    // and only the first address had been drawn before the failure
    assert_eq!(allocator.cursor, 0x0100_0002);
}

#[test]
fn render_failure_fails_fast() {
    // the name template pulls in a template that was never registered, so
    // rendering itself fails on the first interface
    let mut renderer = NameRenderer::new();
    let config = iface_config(4, "{% include \"nope\" %}");
    setup_interfaces(&mut renderer, &config, &Vec::new()).unwrap();
    let mut allocator = AddressAllocator::new();
    let err = interfaces(&renderer, &config, &mut allocator).unwrap_err();
    assert_eq!(
        err,
        GenError::TemplateRender { id: interface_name_template_id().to_string() }
    );
    assert_eq!(allocator.cursor, 0x0100_0002);
}

#[test]
fn bad_name_template_source_is_rejected_at_setup() {
    let mut renderer = NameRenderer::new();
    let config = iface_config(1, "{{ broken");
    let err = setup_interfaces(&mut renderer, &config, &Vec::new()).unwrap_err();
    assert_eq!(
        err,
        GenError::TemplateInvalid { id: interface_name_template_id().to_string() }
    );
}

#[test]
fn bad_auxiliary_template_names_its_section() {
    let mut renderer = NameRenderer::new();
    let config = iface_config(1, "iface-{{ n }}");
    let sources = vec![("extras".to_string(), "{% endfor %}".to_string())];
    let err = setup_interfaces(&mut renderer, &config, &sources).unwrap_err();
    assert_eq!(
        err,
        GenError::TemplateInvalid { id: "interfaces.template.extras".to_string() }
    );
}

#[test]
fn auxiliary_templates_register_under_their_sections() {
    let mut renderer = NameRenderer::new();
    let sources = vec![
        ("a".to_string(), "alpha {{ n }}".to_string()),
        ("b".to_string(), "beta".to_string()),
    ];
    setup_component_template(&mut renderer, "routes.template", &sources).unwrap();
    setup_routes(&mut renderer, &Vec::new()).unwrap();
    // a name template may include a registered section template
    let mut renderer2 = NameRenderer::new();
    let config = iface_config(1, "{% include \"routes.template.a\" %}");
    setup_component_template(&mut renderer2, "routes.template", &sources).unwrap();
    setup_interfaces(&mut renderer2, &config, &Vec::new()).unwrap();
    let mut allocator = AddressAllocator::new();
    let generated = interfaces(&renderer2, &config, &mut allocator).unwrap();
    assert_eq!(generated[0].name, "alpha 5");
}

#[test]
fn allocator_failure_inside_interfaces_reports_index() {
    let mut renderer = NameRenderer::new();
    let config = iface_config(2, "iface-{{ n }}");
    setup_interfaces(&mut renderer, &config, &Vec::new()).unwrap();
    // 126.255.255.255 is usable; the following candidate 127.0.0.0 is loopback
    let mut allocator = AddressAllocator::from_cursor(0x7EFF_FFFF);
    let err = interfaces(&renderer, &config, &mut allocator).unwrap_err();
    assert_eq!(err, GenError::Address { index: 1, kind: AllocError::Invalid });
}

#[test]
fn exhaustion_inside_interfaces_reports_index() {
    let mut renderer = NameRenderer::new();
    let config = iface_config(1, "iface-{{ n }}");
    setup_interfaces(&mut renderer, &config, &Vec::new()).unwrap();
    let mut allocator = AddressAllocator::from_cursor(u32::MAX);
    let err = interfaces(&renderer, &config, &mut allocator).unwrap_err();
    assert_eq!(err, GenError::Address { index: 0, kind: AllocError::Exhausted });
}

#[test]
fn route_count_fidelity_and_round_robin_references() {
    let mut renderer = NameRenderer::new();
    let iface_cfg = iface_config(3, "iface-{{ n }}");
    setup_interfaces(&mut renderer, &iface_cfg, &Vec::new()).unwrap();
    let mut allocator = AddressAllocator::new();
    let ifaces = interfaces(&renderer, &iface_cfg, &mut allocator).unwrap();
    let generated = routes(&route_config(5), &ifaces, &mut allocator).unwrap();
    assert_eq!(generated.len(), 5);
    let picks: Vec<Option<usize>> = generated.iter().map(|r| r.interface).collect();
    assert_eq!(picks, vec![Some(0), Some(1), Some(2), Some(0), Some(1)]);
    // every reference points into the interface collection
    for route in &generated {
        assert!(route.interface.unwrap() < ifaces.len());
    }
}

#[test]
fn routes_without_interfaces_carry_no_reference() {
    let no_interfaces: Vec<Interface> = Vec::new();
    let mut allocator = AddressAllocator::new();
    let generated = routes(&route_config(3), &no_interfaces, &mut allocator).unwrap();
    assert_eq!(generated.len(), 3);
    assert!(generated.iter().all(|r| r.interface.is_none()));
}

#[test]
fn addresses_unique_across_interfaces_and_routes() {
    let mut renderer = NameRenderer::new();
    let iface_cfg = iface_config(4, "iface-{{ n }}");
    setup_interfaces(&mut renderer, &iface_cfg, &Vec::new()).unwrap();
    let mut allocator = AddressAllocator::new();
    let ifaces = interfaces(&renderer, &iface_cfg, &mut allocator).unwrap();
    let rts = routes(&route_config(4), &ifaces, &mut allocator).unwrap();
    let mut all: Vec<u32> = ifaces
        .iter()
        .map(|i| i.address.bits)
        .chain(rts.iter().map(|r| r.destination.bits))
        .collect();
    let before = all.len();
    all.sort_unstable();
    all.dedup();
    assert_eq!(all.len(), before);
}

#[test]
fn allocator_failure_inside_routes_reports_index() {
    let no_interfaces: Vec<Interface> = Vec::new();
    let mut allocator = AddressAllocator::from_cursor(0x7F00_0000); // 127.0.0.0
    let err = routes(&route_config(2), &no_interfaces, &mut allocator).unwrap_err();
    assert_eq!(err, GenError::Address { index: 0, kind: AllocError::Invalid });
}

#[test]
fn bad_route_template_names_its_section() {
    let mut renderer = NameRenderer::new();
    let sources = vec![("summary".to_string(), "{% if %}".to_string())];
    let err = setup_routes(&mut renderer, &sources).unwrap_err();
    assert_eq!(
        err,
        GenError::TemplateInvalid { id: "routes.template.summary".to_string() }
    );
}

#[test]
fn registration_stops_at_first_bad_source_keeping_earlier_entries() {
    let mut renderer = NameRenderer::new();
    let sources = vec![
        ("ok".to_string(), "fine {{ n }}".to_string()),
        ("bad".to_string(), "{%".to_string()),
        ("later".to_string(), "{% endif %}".to_string()),
    ];
    let err = setup_component_template(&mut renderer, "interfaces.template", &sources).unwrap_err();
    // the error names the first section whose source fails to compile
    assert_eq!(
        err,
        GenError::TemplateInvalid { id: "interfaces.template.bad".to_string() }
    );
    // the entry before it stayed registered and renders
    let config = iface_config(1, "{% include \"interfaces.template.ok\" %}");
    setup_interfaces(&mut renderer, &config, &Vec::new()).unwrap();
    let mut allocator = AddressAllocator::new();
    let generated = interfaces(&renderer, &config, &mut allocator).unwrap();
    assert_eq!(generated[0].name, "fine 5");
}
