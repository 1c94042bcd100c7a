//! Deprecation message rendering.
use vstd::prelude::*;

use crate::config::{ApolloCodegenConfiguration, Composition};
use crate::text::{opt_str_view, opt_view};
use crate::templates::rendering_helpers::string_swift_name_escaping::{
    escaped_swift_string_special_characters, spec_escaped_swift_string,
};
use crate::templates::ConfigurationContext;

verus! {

/// The deprecation annotation for a reason, with the reason escaped for a string literal.
pub open spec fn spec_deprecation_annotation(reason: Seq<char>) -> Seq<char> {
    "@available(*, deprecated, message: \""@ + spec_escaped_swift_string(reason) + "\")"@
}

/// The deprecation annotation as rendered under the configuration: present when warnings
/// on deprecated usage are included and there is a reason.
pub open spec fn spec_rendered_deprecation(reason: Option<Seq<char>>, config: ApolloCodegenConfiguration) -> Option<Seq<char>> {
    match reason {
        Some(r) => if config.options.warnings_on_deprecated_usage == Composition::Include {
            Some(spec_deprecation_annotation(r))
        } else {
            None
        },
        None => None,
    }
}

/// Renders a deprecation annotation when warnings on deprecated usage are included.
///
/// Returns `None` when the configuration excludes deprecation warnings or when there is no
/// reason; otherwise `@available(*, deprecated, message: "...")` with the reason's special
/// characters escaped.
pub fn render_deprecation_reason(reason: Option<&str>, config: &ConfigurationContext) -> (r: Option<String>)
    ensures
        r is Some <==> (config.config.options.warnings_on_deprecated_usage == Composition::Include && reason is Some),
        r matches Some(s) ==> s@ == spec_deprecation_annotation(reason->0@),
        opt_view(r) == spec_rendered_deprecation(opt_str_view(reason), config.config),
{
    if config.options().warnings_on_deprecated_usage != Composition::Include {
        return None;
    }
    let reason = match reason {
        Some(r) => r,
        None => return None,
    };
    let escaped = escaped_swift_string_special_characters(reason);
    let mut r = String::from_str("@available(*, deprecated, message: \"");
    r.append(escaped.as_str());
    r.append("\")");
    Some(r)
}

/// The `#warning` directive for a deprecated field argument.
pub open spec fn spec_field_argument_warning(field: Seq<char>, argument: Seq<char>, warning_reason: Seq<char>) -> Seq<char> {
    "#warning(\"Argument '"@ + argument + "' of field '"@ + field + "' is deprecated. Reason: '"@
        + spec_escaped_swift_string(warning_reason) + "'\")"@
}

/// Renders a field argument deprecation warning as a `#warning` directive.
pub fn render_field_argument_warning(field: &str, argument: &str, warning_reason: &str) -> (r: String)
    ensures
        r@ == spec_field_argument_warning(field@, argument@, warning_reason@),
{
    let escaped = escaped_swift_string_special_characters(warning_reason);
    let mut r = String::from_str("#warning(\"Argument '");
    r.append(argument);
    r.append("' of field '");
    r.append(field);
    r.append("' is deprecated. Reason: '");
    r.append(escaped.as_str());
    r.append("'\")");
    r
}

} // verus!
