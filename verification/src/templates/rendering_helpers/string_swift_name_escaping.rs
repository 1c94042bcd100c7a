//! Swift name escaping and conversion helpers.
use vstd::prelude::*;

use crate::config::{is_in, spec_is_in, ApolloCodegenConfiguration, FieldAccessors, SwiftKeywords};
use crate::templates::rendering_helpers::string_casing::{
    first_lowercased, first_uppercased, is_all_uppercased, spec_first_lowercased,
    spec_first_uppercased, spec_is_all_uppercased,
};
use crate::text::{
    char_is_lowercase, char_lower, char_to_lowercase, char_to_uppercase, char_upper, chars_of,
    concat, contains_char, copy_str, is_lowercase, push_char, join_strings, split_char, split_pieces, str_lower, to_lowercase, views,
};

verus! {

// ---------------------------------------------------------------------------
// Escaping by name sets
// ---------------------------------------------------------------------------

/// `s` wrapped in backticks when it is in `set`, else `s`.
pub open spec fn spec_escape_if(s: Seq<char>, set: Seq<&str>) -> Seq<char> {
    if spec_is_in(set, s) {
        seq!['`'] + s + seq!['`']
    } else {
        s
    }
}

/// `s` prefixed with an underscore when it is in `set`, else `s`.
pub open spec fn spec_alias_if(s: Seq<char>, set: Seq<&str>) -> Seq<char> {
    if spec_is_in(set, s) {
        seq!['_'] + s
    } else {
        s
    }
}

/// `` `s` _s `` when `s` is in `set`, else `s`.
pub open spec fn spec_escape_with_alias_if(s: Seq<char>, set: Seq<&str>) -> Seq<char> {
    if spec_is_in(set, s) {
        seq!['`'] + s + seq!['`', ' ', '_'] + s
    } else {
        s
    }
}

/// Backtick-wraps the string if it is contained in the given set.
pub fn escape_if(s: &str, set: &[&str]) -> (r: String)
    ensures
        r@ == spec_escape_if(s@, set@),
{
    if is_in(set, s) {
        let mut r = String::new();
        r.append("`");
        r.append(s);
        r.append("`");
        proof {
            reveal_strlit("`");
        }
        r
    } else {
        copy_str(s)
    }
}

/// Prefixes the string with an underscore if it is contained in the given set.
pub fn alias_if(s: &str, set: &[&str]) -> (r: String)
    ensures
        r@ == spec_alias_if(s@, set@),
{
    if is_in(set, s) {
        let mut r = String::new();
        r.append("_");
        r.append(s);
        proof {
            reveal_strlit("_");
        }
        r
    } else {
        copy_str(s)
    }
}

/// Backtick-wraps the string and adds an underscore alias if it is contained in the set.
pub fn escape_with_alias_if(s: &str, set: &[&str]) -> (r: String)
    ensures
        r@ == spec_escape_with_alias_if(s@, set@),
{
    if is_in(set, s) {
        let mut r = String::new();
        r.append("`");
        r.append(s);
        r.append("` _");
        r.append(s);
        proof {
            reveal_strlit("`");
            reveal_strlit("` _");
        }
        r
    } else {
        copy_str(s)
    }
}

/// Returns the string as an enum case name, escaping it if it is a Swift keyword.
pub fn as_enum_case_name(s: &str) -> (r: String)
    ensures
        r@ == spec_escape_if(s@, SwiftKeywords::FIELD_ACCESSOR_NAMES_TO_ESCAPE@),
{
    escape_if(s, &SwiftKeywords::FIELD_ACCESSOR_NAMES_TO_ESCAPE)
}

/// `s` as a selection set name: suffixed with `_SelectionSet` when it is a reserved type name.
pub open spec fn spec_as_selection_set_name(s: Seq<char>) -> Seq<char> {
    if spec_is_in(SwiftKeywords::TYPE_NAMES_TO_SUFFIX@, s) {
        s + "_SelectionSet"@
    } else {
        s
    }
}

/// Returns the string as a selection set name, suffixing it if it conflicts with a
/// reserved type name.
pub fn as_selection_set_name(s: &str) -> (r: String)
    ensures
        r@ == spec_as_selection_set_name(s@),
{
    if is_in(&SwiftKeywords::TYPE_NAMES_TO_SUFFIX, s) {
        let mut r = copy_str(s);
        r.append("_SelectionSet");
        r
    } else {
        copy_str(s)
    }
}

/// `s` as a fragment name: first uppercased, and suffixed with `_Fragment` when that is a
/// reserved type name.
pub open spec fn spec_as_fragment_name(s: Seq<char>) -> Seq<char> {
    let u = spec_first_uppercased(s);
    if spec_is_in(SwiftKeywords::TYPE_NAMES_TO_SUFFIX@, u) {
        u + "_Fragment"@
    } else {
        u
    }
}

/// Returns the string as a fragment name (first uppercased), suffixing it if it conflicts
/// with a reserved type name.
pub fn as_fragment_name(s: &str) -> (r: String)
    ensures
        r@ == spec_as_fragment_name(s@),
{
    let mut uppercased_name = first_uppercased(s);
    if is_in(&SwiftKeywords::TYPE_NAMES_TO_SUFFIX, uppercased_name.as_str()) {
        uppercased_name.append("_Fragment");
    }
    uppercased_name
}

/// Returns the string as a test mock field property name, escaping it if it conflicts.
pub fn as_test_mock_field_property_name(s: &str) -> (r: String)
    ensures
        r@ == spec_escape_if(s@, SwiftKeywords::TEST_MOCK_FIELD_NAMES_TO_ESCAPE@),
{
    escape_if(s, &SwiftKeywords::TEST_MOCK_FIELD_NAMES_TO_ESCAPE)
}

/// Returns the suffixed test mock initializer parameter name if the name conflicts, or
/// `None` if no suffix is needed.
pub fn as_test_mock_initializer_parameter_name(s: &str) -> (r: Option<String>)
    ensures
        spec_is_in(SwiftKeywords::TEST_MOCK_INITIALIZER_PARAMETERS_TO_SUFFIX@, s@) <==> r is Some,
        r matches Some(p) ==> p@ == s@ + "_value"@,
{
    if is_in(&SwiftKeywords::TEST_MOCK_INITIALIZER_PARAMETERS_TO_SUFFIX, s) {
        let mut r = copy_str(s);
        r.append("_value");
        Some(r)
    } else {
        None
    }
}

/// Returns `true` if the name conflicts with a member of test mocks.
pub fn is_conflicting_test_mock_field_name(s: &str) -> (r: bool)
    ensures
        r == spec_is_in(SwiftKeywords::TEST_MOCK_CONFLICTING_FIELD_NAMES@, s@),
{
    is_in(&SwiftKeywords::TEST_MOCK_CONFLICTING_FIELD_NAMES, s)
}

// ---------------------------------------------------------------------------
// Camel case conversion
// ---------------------------------------------------------------------------

/// The characters of `t`, each lowercased with `char::to_lowercase`.
pub open spec fn lower_each(t: Seq<char>) -> Seq<char>
    decreases t.len(),
{
    if t.len() == 0 {
        Seq::empty()
    } else {
        lower_each(t.drop_last()) + char_lower(t.last())
    }
}

/// A word with its first character uppercased and the rest lowercased; nothing for an
/// empty piece.
pub open spec fn capitalized_segment(seg: Seq<char>) -> Seq<char> {
    if seg.len() == 0 {
        Seq::empty()
    } else {
        char_upper(seg[0]) + lower_each(seg.drop_first())
    }
}

/// Whether some character of `s` is lowercase.
pub open spec fn has_lowercase(s: Seq<char>) -> bool {
    exists|i: int| 0 <= i < s.len() && char_is_lowercase(#[trigger] s[i])
}

/// The number of underscores that `s` starts with.
pub open spec fn leading_underscores(s: Seq<char>) -> nat
    decreases s.len(),
{
    if s.len() > 0 && s[0] == '_' {
        1 + leading_underscores(s.drop_first())
    } else {
        0
    }
}

/// The number of underscores that `s` ends with.
pub open spec fn trailing_underscores(s: Seq<char>) -> nat
    decreases s.len(),
{
    if s.len() > 0 && s.last() == '_' {
        1 + trailing_underscores(s.drop_last())
    } else {
        0
    }
}

/// A run of `n` underscores.
pub open spec fn underscores(n: nat) -> Seq<char> {
    Seq::new(n, |i: int| '_')
}

/// `s` converted to `camelCase`: without underscores it is first lowercased if it has a
/// lowercase character and lowercased entirely if not. With underscores, the run of
/// underscores that `s` starts with is kept, then each word between underscores is
/// capitalized and the words are concatenated (inner underscores are removed), then the
/// run of underscores that the rest of `s` ends with is kept; the result is first
/// lowercased.
pub open spec fn spec_convert_to_camel_case(s: Seq<char>) -> Seq<char> {
    if !s.contains('_') {
        if has_lowercase(s) {
            spec_first_lowercased(s)
        } else {
            str_lower(s)
        }
    } else {
        let k = leading_underscores(s);
        spec_first_lowercased(
            underscores(k) + concat(split_pieces(s, '_').map_values(|seg: Seq<char>| capitalized_segment(seg)))
                + underscores(trailing_underscores(s.skip(k as int))),
        )
    }
}

/// A run of `n` underscores.
fn underscore_run(n: usize) -> (r: String)
    ensures
        r@ == underscores(n as nat),
{
    let mut r = String::new();
    let mut i: usize = 0;
    while i < n
        invariant
            i <= n,
            r@ == underscores(i as nat),
        decreases n - i,
    {
        push_char(&mut r, '_');
        proof {
            assert(r@ =~= underscores((i + 1) as nat));
        }
        i = i + 1;
    }
    r
}

/// The number of underscores that the characters start with.
fn count_leading_underscores(v: &Vec<char>) -> (k: usize)
    ensures
        k == leading_underscores(v@),
        k <= v@.len(),
{
    let mut i: usize = 0;
    proof {
        assert(v@.skip(0) =~= v@);
    }
    while i < v.len() && v[i] == '_'
        invariant
            i <= v@.len(),
            leading_underscores(v@) == i + leading_underscores(v@.skip(i as int)),
        decreases v.len() - i,
    {
        proof {
            assert(v@.skip(i as int).drop_first() =~= v@.skip(i + 1));
            assert(v@.skip(i as int)[0] == v@[i as int]);
        }
        i = i + 1;
    }
    proof {
        if i < v.len() {
            assert(v@.skip(i as int)[0] == v@[i as int]);
        }
    }
    i
}

/// The number of underscores that the characters from `k` on end with.
fn count_trailing_underscores(v: &Vec<char>, k: usize) -> (m: usize)
    requires
        k <= v@.len(),
    ensures
        m == trailing_underscores(v@.skip(k as int)),
{
    let mut j: usize = v.len();
    proof {
        assert(v@.subrange(k as int, j as int) =~= v@.skip(k as int));
    }
    while j > k && v[j - 1] == '_'
        invariant
            k <= j <= v@.len(),
            trailing_underscores(v@.skip(k as int)) == (v@.len() - j) + trailing_underscores(v@.subrange(k as int, j as int)),
        decreases j,
    {
        proof {
            assert(v@.subrange(k as int, j as int).drop_last() =~= v@.subrange(k as int, j - 1));
            assert(v@.subrange(k as int, j as int).last() == v@[j - 1]);
        }
        j = j - 1;
    }
    proof {
        if j > k {
            assert(v@.subrange(k as int, j as int).last() == v@[j - 1]);
        }
    }
    v.len() - j
}

/// Whether some character of `s` is lowercase.
fn any_lowercase(s: &str) -> (r: bool)
    ensures
        r == has_lowercase(s@),
{
    let v = chars_of(s);
    let mut i: usize = 0;
    while i < v.len()
        invariant
            v@ == s@,
            i <= v.len(),
            forall|j: int| 0 <= j < i ==> !char_is_lowercase(#[trigger] s@[j]),
        decreases v.len() - i,
    {
        if is_lowercase(v[i]) {
            assert(char_is_lowercase(s@[i as int]));
            return true;
        }
        i = i + 1;
    }
    false
}

/// A segment capitalized as `capitalized_segment` describes.
fn capitalize_segment(seg: &str) -> (r: String)
    ensures
        r@ == capitalized_segment(seg@),
{
    let v = chars_of(seg);
    if v.len() == 0 {
        return String::new();
    }
    let mut r = char_to_uppercase(v[0]);
    let mut i: usize = 1;
    proof {
        assert(v@.subrange(1, 1) =~= Seq::<char>::empty());
    }
    while i < v.len()
        invariant
            v@ == seg@,
            1 <= i <= v.len(),
            r@ == char_upper(v@[0]) + lower_each(v@.subrange(1, i as int)),
        decreases v.len() - i,
    {
        let lowered = char_to_lowercase(v[i]);
        proof {
            assert(v@.subrange(1, i + 1).drop_last() =~= v@.subrange(1, i as int));
        }
        r.append(lowered.as_str());
        i = i + 1;
    }
    proof {
        assert(v@.subrange(1, v.len() as int) =~= seg@.drop_first());
    }
    r
}

/// Converts a string to `camelCase` from `snake_case`, `UpperCamelCase`, or `UPPERCASE`.
///
/// All inner `_` characters are removed, each word is capitalized, and the result is first
/// lowercased, preserving leading and trailing `_` characters.
pub fn convert_to_camel_case(s: &str) -> (r: String)
    ensures
        r@ == spec_convert_to_camel_case(s@),
{
    let chars = chars_of(s);
    if !contains_char(s, '_') {
        if any_lowercase(s) {
            return first_lowercased(s);
        } else {
            return to_lowercase(s);
        }
    }
    let segments = split_char(s, '_');
    let ghost caps = split_pieces(s@, '_').map_values(|seg: Seq<char>| capitalized_segment(seg));
    let mut parts: Vec<String> = Vec::new();
    let mut i: usize = 0;
    while i < segments.len()
        invariant
            i <= segments.len(),
            views(segments@) == split_pieces(s@, '_'),
            caps == split_pieces(s@, '_').map_values(|seg: Seq<char>| capitalized_segment(seg)),
            views(parts@) == caps.take(i as int),
        decreases segments.len() - i,
    {
        let part = capitalize_segment(segments[i].as_str());
        proof {
            assert(segments@[i as int]@ == views(segments@)[i as int]);
            assert(caps[i as int] == capitalized_segment(split_pieces(s@, '_')[i as int]));
            assert(caps.take(i + 1) =~= caps.take(i as int).push(part@));
        }
        parts.push(part);
        proof {
            assert(views(parts@) =~= caps.take(i + 1));
        }
        i = i + 1;
    }
    let joined = join_strings(&parts, "");
    proof {
        assert(views(parts@) =~= caps);
        reveal_strlit("");
        assert(""@ =~= Seq::<char>::empty());
    }
    let k = count_leading_underscores(&chars);
    let m = count_trailing_underscores(&chars, k);
    let mut r = underscore_run(k);
    r.append(joined.as_str());
    r.append(underscore_run(m).as_str());
    first_lowercased(r.as_str())
}

// ---------------------------------------------------------------------------
// Property and parameter names
// ---------------------------------------------------------------------------

/// The property name of `s` under `config`: camel-cased when the configuration asks for it,
/// then lowercased entirely if it is all uppercase and first lowercased otherwise.
pub open spec fn spec_rendered_as_property_name(s: Seq<char>, config: ApolloCodegenConfiguration) -> Seq<char> {
    let p = match config.options.conversion_strategies.field_accessors {
        FieldAccessors::CamelCase => spec_convert_to_camel_case(s),
        FieldAccessors::Idiomatic => s,
    };
    if spec_is_all_uppercased(p) {
        str_lower(p)
    } else {
        spec_first_lowercased(p)
    }
}

/// The common part of rendering a property name with configuration-driven casing.
pub fn rendered_as_property_name(s: &str, config: &ApolloCodegenConfiguration) -> (r: String)
    ensures
        r@ == spec_rendered_as_property_name(s@, *config),
{
    let property_name = match config.options.conversion_strategies.field_accessors {
        FieldAccessors::CamelCase => convert_to_camel_case(s),
        FieldAccessors::Idiomatic => copy_str(s),
    };
    if is_all_uppercased(property_name.as_str()) {
        to_lowercase(property_name.as_str())
    } else {
        first_lowercased(property_name.as_str())
    }
}

/// Renders the string as the property name of a field accessor on a generated selection
/// set, escaping names that are Swift keywords.
pub fn render_as_field_property_name(s: &str, config: &ApolloCodegenConfiguration) -> (r: String)
    ensures
        r@ == spec_escape_if(
            spec_rendered_as_property_name(s@, *config),
            SwiftKeywords::FIELD_ACCESSOR_NAMES_TO_ESCAPE@,
        ),
{
    let property_name = rendered_as_property_name(s, config);
    escape_if(property_name.as_str(), &SwiftKeywords::FIELD_ACCESSOR_NAMES_TO_ESCAPE)
}

/// Renders the string as a parameter name of an initializer on a generated selection set,
/// escaping and aliasing names that are Swift keywords.
pub fn render_as_initializer_parameter_name(s: &str, config: &ApolloCodegenConfiguration) -> (r: String)
    ensures
        r@ == spec_escape_with_alias_if(
            spec_rendered_as_property_name(s@, *config),
            SwiftKeywords::FIELD_ACCESSOR_NAMES_TO_ESCAPE@,
        ),
{
    let property_name = rendered_as_property_name(s, config);
    escape_with_alias_if(property_name.as_str(), &SwiftKeywords::FIELD_ACCESSOR_NAMES_TO_ESCAPE)
}

/// Renders the string as the name an initializer uses to read its parameter, aliasing names
/// that are Swift keywords.
pub fn render_as_initializer_parameter_accessor_name(s: &str, config: &ApolloCodegenConfiguration) -> (r: String)
    ensures
        r@ == spec_alias_if(
            spec_rendered_as_property_name(s@, *config),
            SwiftKeywords::FIELD_ACCESSOR_NAMES_TO_ESCAPE@,
        ),
{
    let property_name = rendered_as_property_name(s, config);
    alias_if(property_name.as_str(), &SwiftKeywords::FIELD_ACCESSOR_NAMES_TO_ESCAPE)
}

/// The initializer parameter name of a field is its external name, a space and its internal
/// name when the field's property name is escaped; otherwise all three names are the plain
/// property name.
pub proof fn law_initializer_parameter_names_agree(s: Seq<char>, config: ApolloCodegenConfiguration)
    ensures
        ({
            let set = SwiftKeywords::FIELD_ACCESSOR_NAMES_TO_ESCAPE@;
            let p = spec_rendered_as_property_name(s, config);
            let field = spec_escape_if(p, set);
            let param = spec_escape_with_alias_if(p, set);
            let accessor = spec_alias_if(p, set);
            if field == p {
                param == p && accessor == p
            } else {
                param == field + seq![' '] + accessor
            }
        }),
{
    let set = SwiftKeywords::FIELD_ACCESSOR_NAMES_TO_ESCAPE@;
    let p = spec_rendered_as_property_name(s, config);
    if spec_is_in(set, p) {
        let field = spec_escape_if(p, set);
        assert(field.len() == p.len() + 2);
        assert(spec_escape_with_alias_if(p, set) =~= field + seq![' '] + spec_alias_if(p, set));
    }
}

// ---------------------------------------------------------------------------
// String literal escaping
// ---------------------------------------------------------------------------

/// How one character is written inside a Swift string literal.
pub open spec fn escaped_char(c: char) -> Seq<char> {
    if c == '\0' {
        seq!['\\', '0']
    } else if c == '\\' {
        seq!['\\', '\\']
    } else if c == '\t' {
        seq!['\\', 't']
    } else if c == '\n' {
        seq!['\\', 'n']
    } else if c == '\r' {
        seq!['\\', 'r']
    } else if c == '"' {
        seq!['\\', '"']
    } else if c == '\'' {
        seq!['\\', '\'']
    } else {
        seq![c]
    }
}

/// `s` with each character written as `escaped_char` gives.
pub open spec fn spec_escaped_swift_string(s: Seq<char>) -> Seq<char>
    decreases s.len(),
{
    if s.len() == 0 {
        Seq::empty()
    } else {
        spec_escaped_swift_string(s.drop_last()) + escaped_char(s.last())
    }
}

/// Replaces Swift string special characters with their escaped forms.
pub fn escaped_swift_string_special_characters(s: &str) -> (r: String)
    ensures
        r@ == spec_escaped_swift_string(s@),
{
    let v = chars_of(s);
    let mut r = String::new();
    let mut i: usize = 0;
    while i < v.len()
        invariant
            v@ == s@,
            i <= v.len(),
            r@ == spec_escaped_swift_string(v@.take(i as int)),
        decreases v.len() - i,
    {
        let c = v[i];
        proof {
            assert(v@.take(i + 1).drop_last() =~= v@.take(i as int));
        }
        let escape: Option<char> = if c == '\0' {
            Some('0')
        } else if c == '\\' {
            Some('\\')
        } else if c == '\t' {
            Some('t')
        } else if c == '\n' {
            Some('n')
        } else if c == '\r' {
            Some('r')
        } else if c == '"' {
            Some('"')
        } else if c == '\'' {
            Some('\'')
        } else {
            None
        };
        match escape {
            Some(e) => {
                push_char(&mut r, '\\');
                push_char(&mut r, e);
            },
            None => {
                push_char(&mut r, c);
            },
        }
        proof {
            assert(r@ =~= spec_escaped_swift_string(v@.take(i + 1)));
        }
        i = i + 1;
    }
    proof {
        assert(v@.take(v.len() as int) =~= v@);
    }
    r
}

/// No escaped character is a newline, carriage return, tab or NUL.
pub open spec fn free_of_control(s: Seq<char>) -> bool {
    forall|i: int| 0 <= i < s.len() ==> {
        let c = #[trigger] s[i];
        c != '\n' && c != '\r' && c != '\t' && c != '\0'
    }
}

/// An escaped string holds no newline, carriage return, tab or NUL, so it can stand inside
/// a single-line Swift string literal.
pub proof fn law_escaped_string_has_no_control_characters(s: Seq<char>)
    ensures
        free_of_control(spec_escaped_swift_string(s)),
    decreases s.len(),
{
    if s.len() > 0 {
        law_escaped_string_has_no_control_characters(s.drop_last());
        let a = spec_escaped_swift_string(s.drop_last());
        let b = escaped_char(s.last());
        assert(free_of_control(b));
        assert forall|i: int| 0 <= i < (a + b).len() implies {
            let c = #[trigger] (a + b)[i];
            c != '\n' && c != '\r' && c != '\t' && c != '\0'
        } by {
            if i < a.len() {
                assert((a + b)[i] == a[i]);
            } else {
                assert((a + b)[i] == b[i - a.len()]);
            }
        }
    }
}

} // verus!
