//! Response bodies: json, html, the single page app and the error page.

use vstd::prelude::*;
use tera::Tera;
use crate::error::ContextError;
use crate::text::{push_str, to_owned_string};

verus! {

/// a body to be sent as json
pub struct Json<T>(pub T);

/// a body to be sent as html
pub struct Html<T = String> {
    body: T,
}

impl<T> Html<T> {
    /// the body that is sent
    pub closed spec fn spec_body(&self) -> T {
        self.body
    }

    /// an html body
    pub fn new(body: T) -> (rtn: Self)
        ensures
            rtn.spec_body() == body,
    {
        Html { body }
    }

    /// the body that is sent
    pub fn body(&self) -> (rtn: &T)
        ensures
            *rtn == self.spec_body(),
    {
        &self.body
    }

    /// gives the body up
    pub fn into_body(self) -> (rtn: T)
        ensures
            rtn == self.spec_body(),
    {
        self.body
    }
}

/// the templates of the server, carried through the library unread
#[verifier::external_type_specification]
#[verifier::external_body]
pub struct ExTera(tera::Tera);

/// the error of a template that failed to render
#[verifier::external_type_specification]
#[verifier::external_body]
pub struct ExTeraError(tera::Error);

/// Calls `Tera::render` on the named template with an empty context.
/// Nothing is claimed of the page: the templates are loaded from disk and
/// not read by the library.
#[verifier::external_body]
fn render_template(templates: &Tera, name: &str) -> (rtn: Result<String, tera::Error>) {
    templates.render(name, &tera::Context::new())
}

/// the page of the single page app, rendered from its template
pub struct SpaPage(Html<String>);

impl SpaPage {
    /// the rendered page
    pub closed spec fn spec_page(&self) -> Seq<char> {
        self.0.spec_body()@
    }

    /// renders the page from the `pages/spa` template; the error says that
    /// the page failed to render
    pub fn new(templates: &Tera) -> (rtn: Result<Self, ContextError>)
        ensures
            rtn matches Err(e) ==> e.spec_cxt() == "failed to render index page"@,
    {
        match render_template(templates, "pages/spa") {
            Ok(page) => Ok(SpaPage(Html::new(page))),
            Err(_) => Err(ContextError::context(to_owned_string("failed to render index page"))),
        }
    }

    /// the page from its rendered text
    pub fn from_rendered(page: String) -> (rtn: Self)
        ensures
            rtn.spec_page() == page@,
    {
        SpaPage(Html::new(page))
    }

    /// the html body of the page
    pub fn into_html(self) -> (rtn: Html<String>)
        ensures
            rtn.spec_body()@ == self.spec_page(),
    {
        self.0
    }
}

/// the message of the error page when none is given
pub open spec fn default_error_message() -> Seq<char> {
    "There was a problem when requesting this page"@
}

/// the text of the error page around its message
pub open spec fn spec_error_page(message: Seq<char>) -> Seq<char> {
    "\n<!DOCTYPE html><html lang=\"en\"><head><title>TJ2 - Error</title></head><body><main>"@
        + message + "</main></body></html>"@
}

/// the html error page with the given message, or a general one
pub fn error_html(message: Option<&str>) -> (rtn: Html<String>)
    ensures
        rtn.spec_body()@ == spec_error_page(
            match message {
                Some(m) => m@,
                None => default_error_message(),
            },
        ),
{
    let mut page = to_owned_string(
        "\n<!DOCTYPE html><html lang=\"en\"><head><title>TJ2 - Error</title></head><body><main>",
    );
    match message {
        Some(m) => push_str(&mut page, m),
        None => push_str(&mut page, "There was a problem when requesting this page"),
    }
    push_str(&mut page, "</main></body></html>");
    Html::new(page)
}

} // verus!
