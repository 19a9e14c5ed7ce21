use vstd::prelude::*;

verus! {

/// What the engine does when the template names a key that the data lacks.
#[derive(Clone, Copy, Debug, PartialEq, Eq)]
pub enum MissingKeyPolicy {
    /// The render fails.
    ErrorOnMissing,
    /// The zero value of the key's type stands in, and the render goes on.
    ZeroOnMissing,
}

/// The options of one render.
///
/// Starts from the safe settings (escape HTML, fail on a missing key); each
/// setter returns a new value with one option changed.
#[derive(Clone, Copy, Debug, PartialEq, Eq)]
pub struct RenderOptions {
    pub escape_html: bool,
    pub missing_key: MissingKeyPolicy,
}

impl RenderOptions {
    /// The safe settings: HTML is escaped, a missing key fails the render.
    pub open spec fn spec_default() -> RenderOptions {
        RenderOptions { escape_html: true, missing_key: MissingKeyPolicy::ErrorOnMissing }
    }

    /// The positional flag that the engine takes for the missing-key policy.
    pub open spec fn spec_missing_key_zero(&self) -> bool {
        self.missing_key == MissingKeyPolicy::ZeroOnMissing
    }

    pub fn new() -> (r: RenderOptions)
        ensures
            r == Self::spec_default(),
    {
        RenderOptions { escape_html: true, missing_key: MissingKeyPolicy::ErrorOnMissing }
    }

    /// Sets whether `<`, `>`, `&`, `'` and `"` in the output are escaped.
    pub fn escape_html(self, on: bool) -> (r: RenderOptions)
        ensures
            r == (RenderOptions { escape_html: on, ..self }),
    {
        RenderOptions { escape_html: on, ..self }
    }

    /// Sets the policy for keys that the data lacks.
    pub fn missing_key(self, policy: MissingKeyPolicy) -> (r: RenderOptions)
        ensures
            r == (RenderOptions { missing_key: policy, ..self }),
    {
        RenderOptions { missing_key: policy, ..self }
    }

    /// The engine's `missing_key_zero` flag for these options.
    #[verifier::when_used_as_spec(spec_missing_key_zero)]
    pub fn missing_key_zero(&self) -> (r: bool)
        ensures
            r == self.spec_missing_key_zero(),
    {
        match self.missing_key {
            MissingKeyPolicy::ErrorOnMissing => false,
            MissingKeyPolicy::ZeroOnMissing => true,
        }
    }
}

impl Default for RenderOptions {
    fn default() -> (r: RenderOptions)
        ensures
            r == RenderOptions::spec_default(),
    {
        RenderOptions::new()
    }
}

} // verus!
