//! Rendering a page: the navigation fragment and the body fragment are
//! substituted into the base template. The substitution itself is done by
//! the minijinja template engine behind a trusted wrapper; this module's
//! verified code decides what is handed to it and how a failure is
//! reported. Reading the fragments from disk is the caller's business: the
//! library only ever sees their text.

use vstd::prelude::*;

verus! {

/// What rendering the base template with the given navigation and body
/// fragments produces: the rendered page, or nothing when the template is
/// rejected. The outcome depends on the three texts alone.
pub uninterp spec fn rendered_page(base: Seq<char>, nav: Seq<char>, body: Seq<char>) -> Option<
    Seq<char>,
>;

/// Rendering failed: the base template was rejected or substitution into it
/// went wrong. The connection this page was meant for is the only one
/// affected.
#[derive(Clone, Copy, Debug, PartialEq, Eq, Structural)]
pub enum RenderError {
    Template,
}

/// Relies on minijinja's `Environment::add_template`, `Environment::get_template`
/// and `Template::render`: rendering a template registered under a fixed name
/// against a two-entry string context is deterministic in the template source
/// and the two strings, and yields an error exactly when the template cannot
/// be compiled or rendered.
#[verifier::external_body]
fn render_template(base: &str, nav: &str, body: &str) -> (r: Option<String>)
    ensures
        match r {
            Some(s) => rendered_page(base@, nav@, body@) == Some(s@),
            None => rendered_page(base@, nav@, body@) is None,
        },
{
    let mut env = minijinja::Environment::new();
    if env.add_template("page", base).is_err() {
        return None;
    }
    let tmpl = match env.get_template("page") {
        Ok(t) => t,
        Err(_) => return None,
    };
    let ctx = std::collections::BTreeMap::from([("nav", nav), ("body", body)]);
    tmpl.render(ctx).ok()
}

/// Renders the final page for one connection: `nav` and `body` substituted
/// into `base`. A template failure is reported to the caller instead of
/// taking the process down: one bad page costs one response, nothing more.
pub fn gethtml(base: &str, nav: &str, body: &str) -> (r: Result<String, RenderError>)
    ensures
        match r {
            Ok(s) => rendered_page(base@, nav@, body@) == Some(s@),
            Err(e) => rendered_page(base@, nav@, body@) is None && e == RenderError::Template,
        },
{
    match render_template(base, nav, body) {
        Some(s) => Ok(s),
        None => Err(RenderError::Template),
    }
}

} // verus!
