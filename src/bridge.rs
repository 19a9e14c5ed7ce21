use vstd::prelude::*;
use vstd::string::StringSliceAdditionalSpecFns;

use crate::error::{BoundaryField, TemplateError};
use vstd::utf8::encode_utf8;

use crate::marshal::{
    check_nul_escape, holds_nul, holds_nul_escape, marshal, refused_at, refused_escape_at,
};
use crate::options::RenderOptions;
use crate::serialize::{serialize_data, serialized};

verus! {

/// What an `Invocation` hands to the engine's entry point.
pub ghost struct InvocationView {
    pub template: Seq<u8>,
    pub data: Seq<u8>,
    pub escape_html: bool,
    pub missing_key_zero: bool,
}

/// The request for one call of the engine: the two null-terminated buffers and
/// the two positional flags. It is fixed once built; the engine only reads it.
pub struct Invocation {
    template: Vec<u8>,
    data: Vec<u8>,
    escape_html: bool,
    missing_key_zero: bool,
}

impl View for Invocation {
    type V = InvocationView;

    closed spec fn view(&self) -> InvocationView {
        InvocationView {
            template: self.template@,
            data: self.data@,
            escape_html: self.escape_html,
            missing_key_zero: self.missing_key_zero,
        }
    }
}

/// The request for template bytes `t`, JSON bytes `d` and `options`.
pub open spec fn request_of(t: Seq<u8>, d: Seq<u8>, options: RenderOptions) -> InvocationView {
    InvocationView {
        template: t.push(0),
        data: d.push(0),
        escape_html: options.escape_html,
        missing_key_zero: options.spec_missing_key_zero(),
    }
}

/// The outcome of preparing a call on template bytes `t` and JSON bytes `d`:
/// the template is checked first, then the data for a raw null byte, then for
/// a `\u0000` escape.
pub open spec fn prepared(
    r: Result<Invocation, TemplateError>,
    t: Seq<u8>,
    d: Seq<u8>,
    options: RenderOptions,
) -> bool {
    if holds_nul(t) {
        r matches Err(e) && refused_at(e, BoundaryField::Template, t)
    } else if holds_nul(d) {
        r matches Err(e) && refused_at(e, BoundaryField::Data, d)
    } else if holds_nul_escape(d) {
        r matches Err(e) && refused_escape_at(e, d)
    } else {
        r matches Ok(inv) && inv@ == request_of(t, d, options)
    }
}

/// The outcome of preparing a call on template bytes `t` and the serializer's
/// result `json`: the template is checked first, then a serializer's failure is
/// passed on, then the text is checked as `prepared` says.
pub open spec fn prepared_from(
    r: Result<Invocation, TemplateError>,
    t: Seq<u8>,
    json: Result<String, TemplateError>,
    options: RenderOptions,
) -> bool {
    if holds_nul(t) {
        r matches Err(e) && refused_at(e, BoundaryField::Template, t)
    } else {
        match json {
            Err(e) => r == Err::<Invocation, TemplateError>(e),
            Ok(s) => prepared(r, t, encode_utf8(s@), options),
        }
    }
}

impl Invocation {
    /// The null-terminated template buffer.
    pub fn template_buffer(&self) -> (r: &[u8])
        ensures
            r@ == self@.template,
    {
        self.template.as_slice()
    }

    /// The null-terminated JSON buffer.
    pub fn data_buffer(&self) -> (r: &[u8])
        ensures
            r@ == self@.data,
    {
        self.data.as_slice()
    }

    /// The engine's `escape_html` flag.
    pub fn escape_html(&self) -> (r: bool)
        ensures
            r == self@.escape_html,
    {
        self.escape_html
    }

    /// The engine's `missing_key_zero` flag.
    pub fn missing_key_zero(&self) -> (r: bool)
        ensures
            r == self@.missing_key_zero,
    {
        self.missing_key_zero
    }
}

/// Builds the request for template text `template` and the JSON text `json` of
/// the data. Fails with `InvalidInput` when either holds a null byte, or when
/// the JSON text writes a null character as a `\u0000` escape.
pub fn prepare_invocation(template: &str, json: &str, options: RenderOptions) -> (r: Result<
    Invocation,
    TemplateError,
>)
    ensures
        prepared(r, template.spec_bytes(), json.spec_bytes(), options),
{
    let t = match marshal(template, BoundaryField::Template) {
        Ok(t) => t,
        Err(e) => return Err(e),
    };
    let d = match marshal(json, BoundaryField::Data) {
        Ok(d) => d,
        Err(e) => return Err(e),
    };
    if let Err(e) = check_nul_escape(json) {
        return Err(e);
    }
    Ok(
        Invocation {
            template: t,
            data: d,
            escape_html: options.escape_html,
            missing_key_zero: options.missing_key_zero(),
        },
    )
}

/// Builds the request for template text `template` and the serializer's
/// result `json`, as `prepared_from` says.
pub fn prepare_serialized(
    template: &str,
    json: Result<String, TemplateError>,
    options: RenderOptions,
) -> (r: Result<Invocation, TemplateError>)
    ensures
        prepared_from(r, template.spec_bytes(), json, options),
{
    if let Err(e) = marshal(template, BoundaryField::Template) {
        return Err(e);
    }
    match json {
        Err(e) => Err(e),
        Ok(text) => {
            let t = text.as_str();
            prepare_invocation(template, t, options)
        },
    }
}

/// Builds the request for `template` and `data`: checks the template, then
/// serializes the data to JSON and checks that text. Nothing crosses the
/// boundary here, so no failure leaves a foreign resource behind. A failed
/// serialization is passed on as it came, and builds no request.
pub fn prepare_render<T: serde::Serialize>(
    template: &str,
    data: &T,
    options: RenderOptions,
) -> (r: Result<Invocation, TemplateError>)
    ensures
        holds_nul(template.spec_bytes()) ==> (r matches Err(e) && refused_at(
            e,
            BoundaryField::Template,
            template.spec_bytes(),
        )),
        !holds_nul(template.spec_bytes()) ==> exists|json: Result<String, TemplateError>|
            serialized(json) && prepared_from(r, template.spec_bytes(), json, options),
{
    if let Err(e) = marshal(template, BoundaryField::Template) {
        return Err(e);
    }
    let json = serialize_data(data);
    let ghost j = json;
    let r = prepare_serialized(template, json, options);
    assert(serialized(j) && prepared_from(r, template.spec_bytes(), j, options));
    r
}

/// A render being set up: borrows the template text and the data, and holds
/// the options, which start from the safe settings.
pub struct Render<'a, T: ?Sized> {
    template: &'a str,
    data: &'a T,
    options: RenderOptions,
}

impl<'a, T: ?Sized> Render<'a, T> {
    /// The template text.
    pub closed spec fn spec_template(&self) -> &'a str {
        self.template
    }

    /// The data.
    pub closed spec fn spec_data(&self) -> &'a T {
        self.data
    }

    /// The options set so far.
    pub closed spec fn spec_options(&self) -> RenderOptions {
        self.options
    }

    pub fn new(template: &'a str, data: &'a T) -> (r: Self)
        ensures
            r.spec_template() == template,
            r.spec_data() == data,
            r.spec_options() == RenderOptions::spec_default(),
    {
        Render { template, data, options: RenderOptions::new() }
    }

    /// Sets whether HTML is escaped.
    pub fn escape_html(self, on: bool) -> (r: Self)
        ensures
            r.spec_template() == self.spec_template(),
            r.spec_data() == self.spec_data(),
            r.spec_options() == (RenderOptions { escape_html: on, ..self.spec_options() }),
    {
        Render { options: self.options.escape_html(on), ..self }
    }

    /// Sets the policy for keys that the data lacks.
    pub fn missing_key(self, policy: crate::options::MissingKeyPolicy) -> (r: Self)
        ensures
            r.spec_template() == self.spec_template(),
            r.spec_data() == self.spec_data(),
            r.spec_options() == (RenderOptions { missing_key: policy, ..self.spec_options() }),
    {
        Render { options: self.options.missing_key(policy), ..self }
    }

    /// The options set so far.
    pub fn options(&self) -> (r: RenderOptions)
        ensures
            r == self.spec_options(),
    {
        self.options
    }
}

impl<'a, T: serde::Serialize> Render<'a, T> {
    /// Fixes the options and prepares the call, as `prepare_render` does.
    pub fn build(self) -> (r: Result<Invocation, TemplateError>)
        ensures
            holds_nul(self.spec_template().spec_bytes()) ==> (r matches Err(e) && refused_at(
                e,
                BoundaryField::Template,
                self.spec_template().spec_bytes(),
            )),
            !holds_nul(self.spec_template().spec_bytes()) ==> exists|
                json: Result<String, TemplateError>,
            |
                serialized(json) && prepared_from(
                    r,
                    self.spec_template().spec_bytes(),
                    json,
                    self.spec_options(),
                ),
    {
        prepare_render(self.template, self.data, self.options)
    }
}

} // verus!
