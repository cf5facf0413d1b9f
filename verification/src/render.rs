//! The name-rendering capability: a store of named string templates that can
//! be rendered against a small numeric context.
//!
//! The store is a minijinja template environment. Verified code sees it
//! through the spec-level map from template identifier to template source,
//! and through `render_output`, a name for what rendering produces. With the
//! default environment every built-in filter, test and global is pure, so
//! what rendering yields is a function of the stored templates, the
//! identifier and the context alone.

use vstd::prelude::*;

verus! {

#[verifier::external_type_specification]
#[verifier::external_body]
pub struct ExEnvironment<'a>(minijinja::Environment<'a>);

/// The contents of a minijinja environment: the map from template identifier
/// to template source, covering every template registered on it.
pub uninterp spec fn env_templates(env: minijinja::Environment<'static>) -> Map<
    Seq<char>,
    Seq<char>,
>;

/// What minijinja's `Template::render` produces for the template registered
/// under `id` against the context `{ n: n }`, given the whole template store
/// (a template may pull in others); `None` when rendering fails at run time.
pub uninterp spec fn render_output(
    templates: Map<Seq<char>, Seq<char>>,
    id: Seq<char>,
    n: u64,
) -> Option<Seq<char>>;

/// Whether minijinja compiles `source` as a template. Registration compiles
/// eagerly, and whether that succeeds is a deterministic function of the
/// source text alone: this library only builds default-configured stores, so
/// the syntax settings are fixed, and the template's name enters error
/// messages and escaping defaults but never the parse verdict.
pub uninterp spec fn template_compiles(source: Seq<char>) -> bool;

/// How a single template operation failed.
#[derive(Clone, Copy, PartialEq, Eq, Structural, Debug)]
pub enum RenderFailure {
    /// No template is registered under the requested identifier.
    Missing,
    /// The template exists but rendering it failed.
    Render,
}

/// Holds when a template store has nothing registered.
pub open spec fn no_templates(m: Map<Seq<char>, Seq<char>>) -> bool {
    m == Map::<Seq<char>, Seq<char>>::empty()
}

/// Relies on `minijinja::Environment::new`: a fresh environment holds no
/// templates (only the default filters, tests and globals, which are pure).
#[verifier::external_body]
fn empty_environment() -> (r: minijinja::Environment<'static>)
    ensures
        no_templates(env_templates(r)),
{
    minijinja::Environment::new()
}

/// The renderer handed to the generators: a template store addressed by
/// identifier. Consumed as a capability; the generation logic never looks
/// inside a template, it only asks for registrations and renderings.
pub struct NameRenderer {
    env: minijinja::Environment<'static>,
}

impl NameRenderer {
    /// The spec-level contents of the store: template identifier to source.
    pub closed spec fn templates(self) -> Map<Seq<char>, Seq<char>> {
        env_templates(self.env)
    }

    /// A renderer with no templates registered yet.
    pub fn new() -> (r: Self)
        ensures
            no_templates(r.templates()),
    {
        NameRenderer { env: empty_environment() }
    }

    /// Registers `source` as the template named `id`, replacing any earlier
    /// template of that name. Relies on
    /// `minijinja::Environment::add_template_owned`: it compiles the source
    /// eagerly and succeeds exactly when the source parses, stores the
    /// template on success, and on a syntax error reports failure with the
    /// stored templates unchanged (the owned-name path of the store only
    /// replaces an entry once the source has compiled).
    #[verifier::external_body]
    pub(crate) fn add_template(&mut self, id: &str, source: &str) -> (r: Result<(), ()>)
        ensures
            r is Ok <==> template_compiles(source@),
            r is Ok ==> final(self).templates() == old(self).templates().insert(id@, source@),
            r is Err ==> final(self).templates() == old(self).templates(),
    {
        match self.env.add_template_owned(id.to_string(), source.to_string()) {
            Ok(()) => Ok(()),
            Err(_) => Err(()),
        }
    }

    /// Renders the template named `id` against the context `{ n: n }`.
    /// Relies on `minijinja::Environment::get_template`, which — with no
    /// template loader registered — fails exactly when no template of that
    /// name is stored, and on `minijinja::Template::render`, whose outcome is
    /// a deterministic function of the stored templates, the identifier and
    /// the context: the default environment's filters, tests and globals are
    /// all pure, and this store never registers anything else.
    #[verifier::external_body]
    pub(crate) fn render(&self, id: &str, n: u64) -> (r: Result<String, RenderFailure>)
        ensures
            (r matches Err(f) && f == RenderFailure::Missing) <==> !self.templates().dom()
                .contains(id@),
            r matches Ok(s) ==> render_output(self.templates(), id@, n) == Some(s@),
            (r matches Err(f) && f == RenderFailure::Render) <==> (self.templates().dom().contains(
                id@,
            ) && render_output(self.templates(), id@, n) is None),
    {
        let tmpl = match self.env.get_template(id) {
            Ok(t) => t,
            Err(_) => return Err(RenderFailure::Missing),
        };
        let mut ctx = std::collections::HashMap::new();
        ctx.insert("n", n);
        match tmpl.render(ctx) {
            Ok(s) => Ok(s),
            Err(_) => Err(RenderFailure::Render),
        }
    }
}

} // verus!
