//! The generation engine: template registration and the two generators.
//!
//! Both generators draw addresses from one shared allocator, so the
//! addresses issued to interfaces and routes of a run never collide; the
//! interface generator also asks the renderer for a name per interface. A
//! failing step aborts the whole call and discards its partial results:
//! generation is all-or-nothing, and the error names the template or the
//! entity index that failed.

use vstd::prelude::*;
use vstd::string::StringExecFns;
use crate::address::{addr_reserved, AddressAllocator, AllocError};
use crate::components::{Interface, Route};
use crate::config::{InterfacesConfig, RoutesConfig};
use crate::render::{render_output, template_compiles, NameRenderer, RenderFailure};

verus! {

/// Why a generation call failed.
#[derive(Debug, PartialEq, Eq)]
pub enum GenError {
    /// A template this run needs was never registered; `id` names it.
    TemplateMissing { id: String },
    /// The template source meant for `id` failed to compile when registered.
    TemplateInvalid { id: String },
    /// Rendering the template registered under `id` failed.
    TemplateRender { id: String },
    /// The allocator failed while producing the entity at `index`.
    Address { index: usize, kind: AllocError },
}

/// The identifier the interface name template is registered under.
pub open spec fn interface_name_id() -> Seq<char> {
    "interface name"@
}

/// The fixed identifier under which the interface name template is
/// registered and looked up.
pub fn interface_name_template_id() -> (r: &'static str)
    ensures
        r@ == interface_name_id(),
{
    "interface name"
}

/// The allocation at offset `j` of a stride-1 batch starting at cursor
/// `start` succeeds: the advance stays inside the 32-bit space and the
/// candidate is in no reserved class.
pub open spec fn alloc_step_ok(start: u32, j: int) -> bool {
    start + j < u32::MAX && !addr_reserved((start + j) as u32)
}

/// Every allocation of a stride-1 batch of `count` starting at `start`
/// succeeds.
pub open spec fn batch_ok(start: u32, count: int) -> bool {
    forall|j: int| 0 <= j < count ==> alloc_step_ok(start, j)
}

/// The error the allocator reports when the batch's step at offset `j` is
/// the one that fails.
pub open spec fn alloc_step_error(start: u32, j: int) -> AllocError {
    if start + j >= u32::MAX {
        AllocError::Exhausted
    } else {
        AllocError::Invalid
    }
}

/// The identifier an auxiliary template is registered under: the section
/// prefix, a dot, the entry's name — mirroring the section path in the
/// configuration file.
pub open spec fn section_id(prefix: Seq<char>, name: Seq<char>) -> Seq<char> {
    prefix + "."@ + name
}

/// The template store after registering the first `k` auxiliary entries of
/// `entries` under `prefix`, in order, on top of store `m`.
pub open spec fn with_sections(
    m: Map<Seq<char>, Seq<char>>,
    prefix: Seq<char>,
    entries: Seq<(String, String)>,
    k: int,
) -> Map<Seq<char>, Seq<char>>
    decreases k,
{
    if k <= 0 {
        m
    } else {
        with_sections(m, prefix, entries, k - 1).insert(
            section_id(prefix, entries[k - 1].0@),
            entries[k - 1].1@,
        )
    }
}

/// Registers each auxiliary template under `<prefix>.<name>`. Each entry
/// pairs a configured template name with the template source, already read
/// from its configured location by the caller. Succeeds exactly when every
/// handed-in source compiles; otherwise it stops at the first source that
/// fails to compile, naming the section it was meant for, and the entries
/// before it stay registered.
#[verifier::loop_isolation(false)]
pub fn setup_component_template(
    renderer: &mut NameRenderer,
    template_section_prefix: &str,
    templates: &Vec<(String, String)>,
) -> (r: Result<(), GenError>)
    ensures
        r is Ok <==> (forall|j: int|
            0 <= j < templates@.len() ==> template_compiles(#[trigger] templates@[j].1@)),
        r is Ok ==> final(renderer).templates() == with_sections(
            old(renderer).templates(),
            template_section_prefix@,
            templates@,
            templates@.len() as int,
        ),
        r matches Err(e) ==> (e matches GenError::TemplateInvalid { id } && exists|k: int|
            0 <= k < templates@.len() && !template_compiles(templates@[k].1@) && (forall|j: int|
                0 <= j < k ==> template_compiles(#[trigger] templates@[j].1@)) && id@
                == section_id(template_section_prefix@, templates@[k].0@) && final(renderer).templates() == with_sections(
                old(renderer).templates(),
                template_section_prefix@,
                templates@,
                k,
            )),
{
    let mut k: usize = 0;
    while k < templates.len()
        invariant
            k <= templates@.len(),
            renderer.templates() == with_sections(
                old(renderer).templates(),
                template_section_prefix@,
                templates@,
                k as int,
            ),
            forall|j: int| 0 <= j < k ==> template_compiles(#[trigger] templates@[j].1@),
        decreases templates@.len() - k,
    {
        let mut section = String::new();
        section.append(template_section_prefix);
        section.append(".");
        section.append(templates[k].0.as_str());
        match renderer.add_template(section.as_str(), templates[k].1.as_str()) {
            Ok(_) => {},
            Err(_) => {
                return Err(GenError::TemplateInvalid { id: section });
            },
        }
        k = k + 1;
    }
    Ok(())
}

/// Registers the run's interface templates on the renderer: the inline
/// interface name template under its fixed identifier, then each auxiliary
/// entry under `interfaces.template.<name>` (each entry pairing a configured
/// name with the source read from its configured location). Succeeds
/// exactly when the name template and every auxiliary source compile; the
/// error names the first source that does not.
pub fn setup_interfaces(
    renderer: &mut NameRenderer,
    interfaces_config: &InterfacesConfig,
    template_sources: &Vec<(String, String)>,
) -> (r: Result<(), GenError>)
    ensures
        r is Ok <==> (template_compiles(interfaces_config.name_template@) && (forall|j: int|
            0 <= j < template_sources@.len() ==> template_compiles(
                #[trigger] template_sources@[j].1@,
            ))),
        r is Ok ==> final(renderer).templates() == with_sections(
            old(renderer).templates().insert(
                interface_name_id(),
                interfaces_config.name_template@,
            ),
            "interfaces.template"@,
            template_sources@,
            template_sources@.len() as int,
        ),
        r matches Err(e) ==> (e matches GenError::TemplateInvalid { id } && ((!template_compiles(
            interfaces_config.name_template@,
        ) && id@ == interface_name_id() && final(renderer).templates() == old(
            renderer,
        ).templates()) || (template_compiles(interfaces_config.name_template@) && exists|k: int|
            0 <= k < template_sources@.len() && !template_compiles(template_sources@[k].1@) && (
            forall|j: int|
                0 <= j < k ==> template_compiles(#[trigger] template_sources@[j].1@)) && id@
                == section_id("interfaces.template"@, template_sources@[k].0@) && final(renderer).templates() == with_sections(
                old(renderer).templates().insert(
                    interface_name_id(),
                    interfaces_config.name_template@,
                ),
                "interfaces.template"@,
                template_sources@,
                k,
            )))),
{
    match renderer.add_template(
        interface_name_template_id(),
        interfaces_config.name_template.as_str(),
    ) {
        Ok(_) => {},
        Err(_) => {
            return Err(GenError::TemplateInvalid { id: interface_name_template_id().to_owned() });
        },
    }
    setup_component_template(renderer, "interfaces.template", template_sources)
}

/// Registers the run's route templates: each auxiliary entry under
/// `routes.template.<name>`. Succeeds exactly when every handed-in source
/// compiles; the error names the first section whose source does not.
pub fn setup_routes(
    renderer: &mut NameRenderer,
    template_sources: &Vec<(String, String)>,
) -> (r: Result<(), GenError>)
    ensures
        r is Ok <==> (forall|j: int|
            0 <= j < template_sources@.len() ==> template_compiles(
                #[trigger] template_sources@[j].1@,
            )),
        r is Ok ==> final(renderer).templates() == with_sections(
            old(renderer).templates(),
            "routes.template"@,
            template_sources@,
            template_sources@.len() as int,
        ),
        r matches Err(e) ==> (e matches GenError::TemplateInvalid { id } && exists|k: int|
            0 <= k < template_sources@.len() && !template_compiles(template_sources@[k].1@) && (
            forall|j: int|
                0 <= j < k ==> template_compiles(#[trigger] template_sources@[j].1@)) && id@
                == section_id("routes.template"@, template_sources@[k].0@) && final(renderer).templates() == with_sections(
                old(renderer).templates(),
                "routes.template"@,
                template_sources@,
                k,
            )),
{
    setup_component_template(renderer, "routes.template", template_sources)
}

/// Generates `interfaces_config.count` interfaces: for each, one address
/// from the shared allocator (stride 1), then a name rendered from the
/// interface name template against the context `{ n: 5 }`. Fails fast on
/// the first allocator or renderer error, discarding any partially built
/// interfaces; on success every interface carries a fresh, non-reserved
/// address, consecutive from the allocator's old cursor.
#[verifier::loop_isolation(false)]
pub fn interfaces(
    renderer: &NameRenderer,
    interfaces_config: &InterfacesConfig,
    allocator: &mut AddressAllocator,
) -> (r: Result<Vec<Interface>, GenError>)
    ensures
        match r {
            Ok(v) => {
                &&& batch_ok(old(allocator).cursor, interfaces_config.count as int)
                &&& v@.len() == interfaces_config.count as int
                &&& final(allocator).cursor == old(allocator).cursor + interfaces_config.count
                &&& forall|i: int|
                    0 <= i < v@.len() ==> #[trigger] v@[i].address.bits == old(allocator).cursor
                        + i
                &&& forall|i: int| 0 <= i < v@.len() ==> !addr_reserved(#[trigger] v@[i].address.bits)
                &&& forall|i: int|
                    0 <= i < v@.len() ==> render_output(renderer.templates(), interface_name_id(), 5)
                        == Some(#[trigger] v@[i].name@)
                &&& interfaces_config.count > 0 ==> renderer.templates().dom().contains(
                    interface_name_id(),
                ) && render_output(renderer.templates(), interface_name_id(), 5) is Some
            },
            Err(e) => match e {
                GenError::Address { index, kind } => {
                    &&& 0 <= index < interfaces_config.count
                    &&& forall|j: int| 0 <= j < index ==> alloc_step_ok(old(allocator).cursor, j)
                    &&& !alloc_step_ok(old(allocator).cursor, index as int)
                    &&& kind == alloc_step_error(old(allocator).cursor, index as int)
                    // a template failure would have struck at the first
                    // interface: an allocation error later than that means
                    // the name template did render
                    &&& index > 0 ==> renderer.templates().dom().contains(interface_name_id())
                        && render_output(renderer.templates(), interface_name_id(), 5) is Some
                    &&& final(allocator).cursor == (if kind is Exhausted {
                        old(allocator).cursor + index
                    } else {
                        old(allocator).cursor + index + 1
                    })
                },
                GenError::TemplateMissing { id } => {
                    &&& id@ == interface_name_id()
                    &&& !renderer.templates().dom().contains(interface_name_id())
                    &&& interfaces_config.count > 0
                    &&& alloc_step_ok(old(allocator).cursor, 0)
                    &&& final(allocator).cursor == old(allocator).cursor + 1
                },
                GenError::TemplateRender { id } => {
                    &&& id@ == interface_name_id()
                    &&& renderer.templates().dom().contains(interface_name_id())
                    &&& render_output(renderer.templates(), interface_name_id(), 5) is None
                    &&& interfaces_config.count > 0
                    &&& alloc_step_ok(old(allocator).cursor, 0)
                    &&& final(allocator).cursor == old(allocator).cursor + 1
                },
                GenError::TemplateInvalid { .. } => false,
            },
        },
{
    let ghost start: u32 = allocator.cursor;
    let mut out: Vec<Interface> = Vec::new();
    let mut i: u32 = 0;
    while i < interfaces_config.count
        invariant
            i <= interfaces_config.count,
            out@.len() == i as int,
            allocator.cursor == start + i,
            forall|j: int| 0 <= j < i ==> alloc_step_ok(start, j),
            forall|j: int| 0 <= j < i ==> #[trigger] out@[j].address.bits == start + j,
            forall|j: int| 0 <= j < i ==> !addr_reserved(#[trigger] out@[j].address.bits),
            forall|j: int|
                0 <= j < i ==> render_output(renderer.templates(), interface_name_id(), 5) == Some(
                    #[trigger] out@[j].name@,
                ),
            i > 0 ==> renderer.templates().dom().contains(interface_name_id()) && render_output(
                renderer.templates(),
                interface_name_id(),
                5,
            ) is Some,
        decreases interfaces_config.count - i,
    {
        let addr = match allocator.next(1) {
            Ok(a) => a,
            Err(kind) => {
                return Err(GenError::Address { index: i as usize, kind });
            },
        };
        let name = match renderer.render(interface_name_template_id(), 5) {
            Ok(s) => s,
            Err(f) => {
                return Err(
                    match f {
                        RenderFailure::Missing => GenError::TemplateMissing {
                            id: interface_name_template_id().to_owned(),
                        },
                        RenderFailure::Render => GenError::TemplateRender {
                            id: interface_name_template_id().to_owned(),
                        },
                    },
                );
            },
        };
        out.push(Interface::new(name, addr));
        i = i + 1;
    }
    Ok(out)
}

/// The egress interface the route at offset `i` references: deterministic
/// round-robin over the generated interfaces (chosen over first-available to
/// spread references across the collection), or none when there are no
/// interfaces to reference.
pub open spec fn route_egress(i: int, n_interfaces: int) -> Option<usize> {
    if n_interfaces <= 0 {
        None
    } else {
        Some((i % n_interfaces) as usize)
    }
}

/// Generates `routes_config.count` routes: for each, one destination
/// address from the shared allocator (stride 1) and a round-robin egress
/// reference into `interfaces`, or no reference when that collection is
/// empty. Fails fast on the first allocator error, naming the route index
/// that failed; every reference handed out is an index into `interfaces`.
#[verifier::loop_isolation(false)]
pub fn routes(
    routes_config: &RoutesConfig,
    interfaces: &Vec<Interface>,
    allocator: &mut AddressAllocator,
) -> (r: Result<Vec<Route>, GenError>)
    ensures
        match r {
            Ok(v) => {
                &&& batch_ok(old(allocator).cursor, routes_config.count as int)
                &&& v@.len() == routes_config.count as int
                &&& final(allocator).cursor == old(allocator).cursor + routes_config.count
                &&& forall|i: int|
                    0 <= i < v@.len() ==> #[trigger] v@[i].destination.bits == old(
                        allocator,
                    ).cursor + i
                &&& forall|i: int|
                    0 <= i < v@.len() ==> !addr_reserved(#[trigger] v@[i].destination.bits)
                &&& forall|i: int|
                    0 <= i < v@.len() ==> #[trigger] v@[i].interface == route_egress(
                        i,
                        interfaces@.len() as int,
                    )
                &&& forall|i: int|
                    0 <= i < v@.len() ==> (#[trigger] v@[i].interface matches Some(k) ==> 0 <= k
                        < interfaces@.len())
            },
            Err(e) => match e {
                GenError::Address { index, kind } => {
                    &&& 0 <= index < routes_config.count
                    &&& forall|j: int| 0 <= j < index ==> alloc_step_ok(old(allocator).cursor, j)
                    &&& !alloc_step_ok(old(allocator).cursor, index as int)
                    &&& kind == alloc_step_error(old(allocator).cursor, index as int)
                    &&& final(allocator).cursor == (if kind is Exhausted {
                        old(allocator).cursor + index
                    } else {
                        old(allocator).cursor + index + 1
                    })
                },
                _ => false,
            },
        },
{
    let ghost start: u32 = allocator.cursor;
    let mut out: Vec<Route> = Vec::new();
    let mut i: u32 = 0;
    while i < routes_config.count
        invariant
            i <= routes_config.count,
            out@.len() == i as int,
            allocator.cursor == start + i,
            forall|j: int| 0 <= j < i ==> alloc_step_ok(start, j),
            forall|j: int| 0 <= j < i ==> #[trigger] out@[j].destination.bits == start + j,
            forall|j: int| 0 <= j < i ==> !addr_reserved(#[trigger] out@[j].destination.bits),
            forall|j: int|
                0 <= j < i ==> #[trigger] out@[j].interface == route_egress(
                    j,
                    interfaces@.len() as int,
                ),
        decreases routes_config.count - i,
    {
        let destination = match allocator.next(1) {
            Ok(a) => a,
            Err(kind) => {
                return Err(GenError::Address { index: i as usize, kind });
            },
        };
        let egress: Option<usize> = if interfaces.len() == 0 {
            None
        } else {
            Some((i as usize) % interfaces.len())
        };
        out.push(Route::new(destination, egress));
        i = i + 1;
    }
    Ok(out)
}

/// Uniqueness law: within one run the interfaces are generated first and the
/// routes afterwards from the same allocator, so — as the two generators'
/// contracts state of their success cases — the interface addresses are the
/// consecutive block beginning at the allocator's cursor before the
/// interface batch, and the route destinations the consecutive block
/// beginning at the cursor the interface batch left behind. All those
/// addresses are pairwise distinct: within the interfaces, within the
/// routes, and across the two.
pub proof fn lemma_addresses_unique(
    ifaces: Seq<Interface>,
    rts: Seq<Route>,
    start0: u32,
    start1: u32,
)
    requires
        forall|i: int| 0 <= i < ifaces.len() ==> #[trigger] ifaces[i].address.bits == start0 + i,
        start1 == start0 + ifaces.len(),
        forall|j: int| 0 <= j < rts.len() ==> #[trigger] rts[j].destination.bits == start1 + j,
    ensures
        forall|i: int, j: int|
            0 <= i < j < ifaces.len() ==> ifaces[i].address.bits != ifaces[j].address.bits,
        forall|i: int, j: int|
            0 <= i < j < rts.len() ==> rts[i].destination.bits != rts[j].destination.bits,
        forall|i: int, j: int|
            0 <= i < ifaces.len() && 0 <= j < rts.len() ==> ifaces[i].address.bits
                != rts[j].destination.bits,
{
}

} // verus!
