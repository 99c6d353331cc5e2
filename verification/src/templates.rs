//! Templates: a handlebars file and the fields to render it with.

use vstd::prelude::*;
use crate::error::TelescopeError;
use crate::name_map::NameMap;

verus! {

/// A JSON value of `serde_json`. The library carries such values; it does
/// not look into them.
#[verifier::external_type_specification]
#[verifier::external_body]
pub struct ExValue(serde_json::Value);

/// The template registry of `handlebars`.
#[verifier::external_type_specification]
#[verifier::external_body]
pub struct ExRegistry<'reg>(handlebars::Handlebars<'reg>);

/// The error that `handlebars` reports when it cannot render.
#[verifier::external_type_specification]
#[verifier::external_body]
pub struct ExRenderError(handlebars::RenderError);

/// A template that can be rendered using the handlebars template registry.
#[derive(Debug)]
pub struct Template {
    /// The file to use to render this template.
    pub handlebars_file: &'static str,
    /// The fields to render.
    pub fields: NameMap<serde_json::Value>,
}

/// Calls `Handlebars::render` with the template's file name and its fields
/// as a map. What comes back depends on the templates and helpers that the
/// registry holds, so nothing is claimed of it.
#[verifier::external_body]
fn render_fields(
    handlebars: &handlebars::Handlebars<'_>,
    file: &str,
    fields: &Vec<(String, serde_json::Value)>,
) -> (page: Result<String, handlebars::RenderError>) {
    let data: std::collections::HashMap<&String, &serde_json::Value> = fields.iter().map(
        |entry| (&entry.0, &entry.1),
    ).collect();
    handlebars.render(file, &data)
}

/// Moves what a `handlebars::RenderError` tells into a rendering error: its
/// description, the template's name and the place in it, as far as they are
/// known.
#[verifier::external_body]
fn rendering_error(error: handlebars::RenderError) -> (converted: TelescopeError)
    ensures
        converted is RenderingError,
{
    TelescopeError::RenderingError {
        desc: error.desc,
        template_name: error.template_name,
        line_no: error.line_no,
        column_no: error.column_no,
    }
}

impl Template {
    /// Create a new template object with the path to the handlebars file
    /// from the templates directory. It has no fields yet.
    pub fn new(path: &'static str) -> (template: Self)
        ensures
            template.handlebars_file == path,
            template.fields@ == Map::<Seq<char>, serde_json::Value>::empty(),
    {
        Template { handlebars_file: path, fields: NameMap::new() }
    }

    /// Builder style method to add a field to this template instance.
    pub fn field(self, key: String, val: serde_json::Value) -> (template: Self)
        ensures
            template.handlebars_file == self.handlebars_file,
            template.fields@ == self.fields@.insert(key@, val),
    {
        Template { handlebars_file: self.handlebars_file, fields: self.fields.with(key, val) }
    }

    /// Setter method for fields on this template instance: the field `key`
    /// is `val` from now on, whether or not it was set before.
    pub fn set_field(&mut self, key: String, val: serde_json::Value)
        ensures
            final(self).handlebars_file == old(self).handlebars_file,
            final(self).fields@ == old(self).fields@.insert(key@, val),
    {
        self.fields.insert(key, val);
    }

    /// Render this template using a reference to the handlebars registry.
    /// Where the registry cannot render it, the failure is a rendering
    /// error.
    pub fn render(&self, handlebars: &handlebars::Handlebars<'_>) -> (page: Result<
        String,
        TelescopeError,
    >)
        ensures
            page matches Err(error) ==> error is RenderingError,
    {
        page_or_error(render_fields(handlebars, self.handlebars_file, self.fields.entries()))
    }
}

/// What an attempt to render amounts to: the page as the registry rendered
/// it, or a rendering error where the registry reported one.
pub fn page_or_error(rendered: Result<String, handlebars::RenderError>) -> (page: Result<
    String,
    TelescopeError,
>)
    ensures
        match rendered {
            Ok(text) => page == Ok::<String, TelescopeError>(text),
            Err(_) => page matches Err(error) && error is RenderingError,
        },
{
    match rendered {
        Ok(text) => Ok(text),
        Err(error) => Err(rendering_error(error)),
    }
}

} // verus!
