//! The Swift struct generated for a GraphQL input object type.
use vstd::prelude::*;

use crate::config::{ApolloCodegenConfiguration, Composition};
use crate::graphql::{GraphQLInputField, GraphQLInputObjectType, GraphQLNamedType, spec_distinct_field_names, spec_type_name_documentation};
use crate::templates::rendering_helpers::graphql_input_field_rendered::{
    has_default_value, is_nullable, render_input_value_type, spec_field_is_nullable,
    spec_render_input_value_type,
};
use crate::templates::rendering_helpers::graphql_name_rendering::{
    RenderContext, render_input_field, render_named_type, spec_render_input_field, spec_render_named_type,
};
use crate::templates::rendering_helpers::template_string_deprecation::{
    render_deprecation_reason, spec_rendered_deprecation,
};
use crate::templates::rendering_helpers::template_string_documentation::{
    render_documentation, spec_rendered_documentation,
};
use crate::templates::{
    spec_template_access, standard_header_template, ConfigurationContext, NonFatalErrorRecorder,
    SchemaFileType, Scope, TemplateRenderer, TemplateTarget,
};
use crate::text::{
    join, join_strings, lines, opt_part, opt_str_view, opt_view, push_opt_part, push_part, spec_lines,
    views,
};

verus! {

/// Whether a field is deprecated.
pub open spec fn is_deprecated_field(f: GraphQLInputField) -> bool {
    f.deprecation_reason is Some
}

/// Whether a field is not deprecated.
pub open spec fn is_valid_field(f: GraphQLInputField) -> bool {
    f.deprecation_reason is None
}

/// The fields that are not deprecated, in order.
pub open spec fn spec_valid_fields(fields: Seq<GraphQLInputField>) -> Seq<GraphQLInputField>
    decreases fields.len(),
{
    if fields.len() == 0 {
        Seq::empty()
    } else {
        spec_valid_fields(fields.drop_last()) + if is_valid_field(fields.last()) {
            seq![fields.last()]
        } else {
            Seq::empty()
        }
    }
}

/// The fields that are deprecated, in order.
pub open spec fn spec_deprecated_fields(fields: Seq<GraphQLInputField>) -> Seq<GraphQLInputField>
    decreases fields.len(),
{
    if fields.len() == 0 {
        Seq::empty()
    } else {
        spec_deprecated_fields(fields.drop_last()) + if is_deprecated_field(fields.last()) {
            seq![fields.last()]
        } else {
            Seq::empty()
        }
    }
}

proof fn lemma_valid_fields_come_from(fields: Seq<GraphQLInputField>)
    ensures
        forall|k: int| 0 <= k < spec_valid_fields(fields).len() ==> exists|i: int|
            0 <= i < fields.len() && #[trigger] spec_valid_fields(fields)[k] == fields[i],
    decreases fields.len(),
{
    if fields.len() > 0 {
        let prev = fields.drop_last();
        lemma_valid_fields_come_from(prev);
        assert forall|k: int| 0 <= k < spec_valid_fields(fields).len() implies exists|i: int|
            0 <= i < fields.len() && #[trigger] spec_valid_fields(fields)[k] == fields[i] by {
            if k < spec_valid_fields(prev).len() {
                let i = choose|i: int| 0 <= i < prev.len() && spec_valid_fields(prev)[k] == prev[i];
                assert(fields[i] == prev[i]);
            } else {
                assert(spec_valid_fields(fields)[k] == fields[fields.len() - 1]);
            }
        }
    }
}

proof fn lemma_deprecated_fields_come_from(fields: Seq<GraphQLInputField>)
    ensures
        forall|k: int| 0 <= k < spec_deprecated_fields(fields).len() ==> exists|i: int|
            0 <= i < fields.len() && #[trigger] spec_deprecated_fields(fields)[k] == fields[i],
    decreases fields.len(),
{
    if fields.len() > 0 {
        let prev = fields.drop_last();
        lemma_deprecated_fields_come_from(prev);
        assert forall|k: int| 0 <= k < spec_deprecated_fields(fields).len() implies exists|i: int|
            0 <= i < fields.len() && #[trigger] spec_deprecated_fields(fields)[k] == fields[i] by {
            if k < spec_deprecated_fields(prev).len() {
                let i = choose|i: int| 0 <= i < prev.len() && spec_deprecated_fields(prev)[k] == prev[i];
                assert(fields[i] == prev[i]);
            } else {
                assert(spec_deprecated_fields(fields)[k] == fields[fields.len() - 1]);
            }
        }
    }
}

/// Splitting fields keyed by name into those that are not deprecated and those that are
/// keeps every field exactly once: the two parts have distinct names, no name is in both,
/// and together they hold as many fields as there were.
pub proof fn law_field_split_keeps_each_field_once(fields: Seq<GraphQLInputField>)
    requires
        spec_distinct_field_names(fields),
    ensures
        spec_distinct_field_names(spec_valid_fields(fields)),
        spec_distinct_field_names(spec_deprecated_fields(fields)),
        spec_valid_fields(fields).len() + spec_deprecated_fields(fields).len() == fields.len(),
        forall|i: int, j: int|
            0 <= i < spec_valid_fields(fields).len() && 0 <= j < spec_deprecated_fields(fields).len()
                ==> #[trigger] spec_valid_fields(fields)[i].name.schema_name@
                != #[trigger] spec_deprecated_fields(fields)[j].name.schema_name@,
    decreases fields.len(),
{
    if fields.len() > 0 {
        let prev = fields.drop_last();
        let last = fields.last();
        assert(spec_distinct_field_names(prev)) by {
            assert forall|i: int, j: int| 0 <= i < j < prev.len() implies #[trigger] prev[i].name.schema_name@
                != #[trigger] prev[j].name.schema_name@ by {
                assert(prev[i] == fields[i] && prev[j] == fields[j]);
            }
        }
        law_field_split_keeps_each_field_once(prev);
        lemma_valid_fields_come_from(prev);
        lemma_deprecated_fields_come_from(prev);
        let v = spec_valid_fields(fields);
        let d = spec_deprecated_fields(fields);
        let pv = spec_valid_fields(prev);
        let pd = spec_deprecated_fields(prev);
        assert forall|k: int| 0 <= k < pv.len() implies #[trigger] pv[k].name.schema_name@ != last.name.schema_name@ by {
            let i = choose|i: int| 0 <= i < prev.len() && pv[k] == prev[i];
            assert(prev[i] == fields[i]);
            assert(fields[i].name.schema_name@ != fields[fields.len() - 1].name.schema_name@);
        }
        assert forall|k: int| 0 <= k < pd.len() implies #[trigger] pd[k].name.schema_name@ != last.name.schema_name@ by {
            let i = choose|i: int| 0 <= i < prev.len() && pd[k] == prev[i];
            assert(prev[i] == fields[i]);
            assert(fields[i].name.schema_name@ != fields[fields.len() - 1].name.schema_name@);
        }
        if is_valid_field(last) {
            assert(d =~= pd);
            assert(v =~= pv.push(last));
            assert forall|i: int, j: int| 0 <= i < v.len() && 0 <= j < d.len() implies
                #[trigger] v[i].name.schema_name@ != #[trigger] d[j].name.schema_name@ by {
                assert(d[j] == pd[j]);
                assert(pd[j].name.schema_name@ != last.name.schema_name@);
                if i < pv.len() {
                    assert(v[i] == pv[i]);
                    assert(pv[i].name.schema_name@ != pd[j].name.schema_name@);
                } else {
                    assert(v[i] == last);
                }
            }
            assert(v =~= pv.push(last));
            assert forall|i: int, j: int| 0 <= i < j < v.len() implies #[trigger] v[i].name.schema_name@
                != #[trigger] v[j].name.schema_name@ by {
                if j < pv.len() {
                    assert(v[i] == pv[i] && v[j] == pv[j]);
                    assert(pv[i].name.schema_name@ != pv[j].name.schema_name@);
                } else {
                    assert(v[i] == pv[i] && v[j] == last);
                    assert(pv[i].name.schema_name@ != last.name.schema_name@);
                }
            }
        } else {
            assert(v =~= pv);
            assert(d =~= pd.push(last));
            assert forall|i: int, j: int| 0 <= i < v.len() && 0 <= j < d.len() implies
                #[trigger] v[i].name.schema_name@ != #[trigger] d[j].name.schema_name@ by {
                assert(v[i] == pv[i]);
                assert(pv[i].name.schema_name@ != last.name.schema_name@);
                if j < pd.len() {
                    assert(d[j] == pd[j]);
                    assert(pv[i].name.schema_name@ != pd[j].name.schema_name@);
                } else {
                    assert(d[j] == last);
                }
            }
            assert forall|i: int, j: int| 0 <= i < j < d.len() implies #[trigger] d[i].name.schema_name@
                != #[trigger] d[j].name.schema_name@ by {
                if j < pd.len() {
                    assert(d[i] == pd[i] && d[j] == pd[j]);
                    assert(pd[i].name.schema_name@ != pd[j].name.schema_name@);
                } else {
                    assert(d[i] == pd[i] && d[j] == last);
                    assert(pd[i].name.schema_name@ != last.name.schema_name@);
                }
            }
        }
    }
}

/// The fields of an initializer: all of them, or only those that are not deprecated.
pub open spec fn selected_fields(fields: Seq<GraphQLInputField>, valid_only: bool) -> Seq<GraphQLInputField> {
    if valid_only {
        spec_valid_fields(fields)
    } else {
        fields
    }
}

/// An initializer parameter for a field.
pub open spec fn spec_parameter(f: GraphQLInputField, config: ApolloCodegenConfiguration) -> Seq<char> {
    "    "@ + spec_render_input_field(f, config) + ": "@ + spec_render_input_value_type(f, true, config)
}

/// The input dictionary entry for a field; a non-null field with a default value falls back
/// to `GraphQLNullable.none`.
pub open spec fn spec_dict_entry(f: GraphQLInputField, config: ApolloCodegenConfiguration) -> Seq<char> {
    "      \""@ + f.name.schema_name@ + "\": "@ + spec_render_input_field(f, config)
        + if !spec_field_is_nullable(f) && f.default_value is Some {
        " ?? GraphQLNullable.none"@
    } else {
        Seq::empty()
    }
}

/// The initializer parameters of the fields.
pub open spec fn spec_parameters(fields: Seq<GraphQLInputField>, config: ApolloCodegenConfiguration) -> Seq<Seq<char>>
    decreases fields.len(),
{
    if fields.len() == 0 {
        Seq::empty()
    } else {
        spec_parameters(fields.drop_last(), config).push(spec_parameter(fields.last(), config))
    }
}

/// The input dictionary entries of the fields.
pub open spec fn spec_dict_entries(fields: Seq<GraphQLInputField>, config: ApolloCodegenConfiguration) -> Seq<Seq<char>>
    decreases fields.len(),
{
    if fields.len() == 0 {
        Seq::empty()
    } else {
        spec_dict_entries(fields.drop_last(), config).push(spec_dict_entry(fields.last(), config))
    }
}

/// The Swift property names of the fields.
pub open spec fn spec_field_names(fields: Seq<GraphQLInputField>, config: ApolloCodegenConfiguration) -> Seq<Seq<char>>
    decreases fields.len(),
{
    if fields.len() == 0 {
        Seq::empty()
    } else {
        spec_field_names(fields.drop_last(), config).push(spec_render_input_field(fields.last(), config))
    }
}

/// There is one name for each field.
pub proof fn lemma_field_names_len(fields: Seq<GraphQLInputField>, config: ApolloCodegenConfiguration)
    ensures
        spec_field_names(fields, config).len() == fields.len(),
    decreases fields.len(),
{
    if fields.len() > 0 {
        lemma_field_names_len(fields.drop_last(), config);
    }
}

/// An initializer that takes the given fields and stores them in the input dictionary.
pub open spec fn spec_initializer(fields: Seq<GraphQLInputField>, member: Seq<char>, config: ApolloCodegenConfiguration) -> Seq<char> {
    "  "@ + member + "init(\n"@ + join(spec_parameters(fields, config), ",\n"@)
        + "\n  ) {\n    __data = InputDict([\n"@
        + join(spec_dict_entries(fields, config), ",\n"@) + "\n    ])\n  }"@
}

/// The message of the deprecation annotation of the initializer that takes deprecated
/// fields, naming them.
pub open spec fn spec_deprecated_message(deprecated: Seq<GraphQLInputField>, config: ApolloCodegenConfiguration) -> Seq<char> {
    let names = join(spec_field_names(deprecated, config), ", "@);
    if deprecated.len() == 0 {
        Seq::empty()
    } else if deprecated.len() > 1 {
        "Arguments '"@ + names + "' are deprecated."@
    } else {
        "Argument '"@ + names + "' is deprecated."@
    }
}

/// Each line of `s`, prefixed by two spaces, joined with newlines.
pub open spec fn spec_indented_lines(s: Seq<char>) -> Seq<char> {
    join(spec_lines(s).map_values(|l: Seq<char>| "  "@ + l), seq!['\n'])
}

/// An indented rendering of an optional block of lines.
pub open spec fn opt_indented(o: Option<Seq<char>>) -> Option<Seq<char>> {
    match o {
        Some(s) => Some(spec_indented_lines(s)),
        None => None,
    }
}

/// The property of a field: its documentation, its deprecation annotation, the note on its
/// schema name, and the accessors into the input dictionary.
pub open spec fn spec_field_property(f: GraphQLInputField, member: Seq<char>, config: ApolloCodegenConfiguration) -> Seq<char> {
    let name = spec_render_input_field(f, config);
    let schema_name = f.name.schema_name@;
    let accessor = "  "@ + member + "var "@ + name + ": "@ + spec_render_input_value_type(f, false, config)
        + " {\n    get { __data[\""@ + schema_name + "\"] }\n    set { __data[\""@ + schema_name
        + "\"] = newValue }\n  }"@;
    join(
        opt_part(opt_indented(spec_rendered_documentation(opt_view(f.documentation), config)))
            + opt_part(opt_indented(spec_rendered_deprecation(opt_view(f.deprecation_reason), config)))
            + opt_part(match spec_type_name_documentation(f.name) {
                Some(t) => Some("  "@ + t),
                None => None,
            }) + seq![accessor],
        seq!['\n'],
    )
}

/// A blank line and the property, for each field.
pub open spec fn spec_property_lines(fields: Seq<GraphQLInputField>, member: Seq<char>, config: ApolloCodegenConfiguration) -> Seq<Seq<char>>
    decreases fields.len(),
{
    if fields.len() == 0 {
        Seq::empty()
    } else {
        spec_property_lines(fields.drop_last(), member, config) + seq![Seq::empty(), spec_field_property(fields.last(), member, config)]
    }
}

/// The lines of the struct's body: the input dictionary and its initializer; when some
/// fields are deprecated and warnings are included, an initializer without them (if any
/// remain) and a deprecation annotation; the initializer of all fields; the properties.
pub open spec fn spec_struct_body(o: GraphQLInputObjectType, member: Seq<char>, config: ApolloCodegenConfiguration) -> Seq<Seq<char>> {
    let fields = o.fields@;
    let valid = spec_valid_fields(fields);
    let deprecated = spec_deprecated_fields(fields);
    let warnings = config.options.warnings_on_deprecated_usage == Composition::Include;
    seq![
        "  "@ + member + "private(set) var __data: InputDict"@,
        Seq::empty(),
        "  "@ + member + "init(_ data: InputDict) {\n    __data = data\n  }"@,
        Seq::empty(),
    ] + (if deprecated.len() > 0 && valid.len() > 0 && warnings {
        seq![spec_initializer(valid, member, config)]
    } else {
        Seq::empty()
    }) + (if deprecated.len() > 0 && warnings {
        seq![Seq::empty(), "  @available(*, deprecated, message: \""@ + spec_deprecated_message(deprecated, config) + "\")"@]
    } else {
        Seq::empty()
    }) + seq![spec_initializer(fields, member, config)] + spec_property_lines(fields, member, config)
}

/// The body of an input object's file: its documentation, the note on its schema name, and
/// the struct.
pub open spec fn spec_input_object_body(o: GraphQLInputObjectType, config: ConfigurationContext) -> Seq<char> {
    let target = TemplateTarget::SchemaFile(SchemaFileType::InputObject);
    let member = spec_template_access(target, config.config, Scope::Member);
    let declaration = spec_template_access(target, config.config, Scope::Parent) + "struct "@
        + spec_render_named_type(GraphQLNamedType::InputObject(&o), RenderContext::Typename { is_input_value: false })
        + ": InputObject {\n"@ + join(spec_struct_body(o, member, config.config), seq!['\n']) + "\n}\n"@;
    join(
        opt_part(spec_rendered_documentation(opt_view(o.documentation), config.config))
            + opt_part(spec_type_name_documentation(o.name)) + seq![declaration],
        seq!['\n'],
    )
}

/// Each line of `s`, prefixed by two spaces, joined with newlines.
fn indented_lines(s: &str) -> (r: String)
    ensures
        r@ == spec_indented_lines(s@),
{
    let ls = lines(s);
    let ghost target = spec_lines(s@).map_values(|l: Seq<char>| "  "@ + l);
    let mut out: Vec<String> = Vec::new();
    let mut i: usize = 0;
    while i < ls.len()
        invariant
            i <= ls.len(),
            views(ls@) == spec_lines(s@),
            target == spec_lines(s@).map_values(|l: Seq<char>| "  "@ + l),
            views(out@) == target.take(i as int),
        decreases ls.len() - i,
    {
        let mut line = String::from_str("  ");
        line.append(ls[i].as_str());
        proof {
            assert(ls@[i as int]@ == views(ls@)[i as int]);
            assert(target.take(i + 1) =~= target.take(i as int).push(line@));
        }
        push_part(&mut out, line);
        i = i + 1;
    }
    proof {
        assert(target.take(ls.len() as int) =~= target);
        reveal_strlit("\n");
        assert("\n"@ =~= seq!['\n']);
    }
    join_strings(&out, "\n")
}

fn indented_opt(o: Option<String>) -> (r: Option<String>)
    ensures
        opt_view(r) == opt_indented(opt_view(o)),
{
    match o {
        Some(s) => Some(indented_lines(s.as_str())),
        None => None,
    }
}

/// Renders a GraphQL input object as a Swift struct over an input dictionary.
pub struct InputObjectTemplate {
    pub graphql_input_object: GraphQLInputObjectType,
    pub config: ConfigurationContext,
}

impl TemplateRenderer for InputObjectTemplate {
    open spec fn spec_config(&self) -> ConfigurationContext {
        self.config
    }

    open spec fn spec_target(&self) -> TemplateTarget {
        TemplateTarget::SchemaFile(SchemaFileType::InputObject)
    }

    open spec fn spec_body(&self) -> Seq<char> {
        spec_input_object_body(self.graphql_input_object, self.config)
    }

    fn config(&self) -> (r: &ConfigurationContext) {
        &self.config
    }

    fn target(&self) -> (r: TemplateTarget) {
        TemplateTarget::SchemaFile(SchemaFileType::InputObject)
    }

    fn render_header_template(&self, _non_fatal_error_recorder: &NonFatalErrorRecorder) -> (r: Option<String>) {
        standard_header_template()
    }

    fn render_detached_template(&self, _non_fatal_error_recorder: &NonFatalErrorRecorder) -> (r: Option<String>) {
        None
    }

    fn render_body_template(&self, _non_fatal_error_recorder: &NonFatalErrorRecorder) -> (r: String) {
        let member = self.access_control_renderer(Scope::Member).render();
        let parent_access = self.access_control_renderer(Scope::Parent).render();
        let typename = render_named_type(
            &GraphQLNamedType::InputObject(&self.graphql_input_object),
            &RenderContext::Typename { is_input_value: false },
        );
        let mut parts: Vec<String> = Vec::new();
        let documentation = match &self.graphql_input_object.documentation {
            Some(d) => Some(d.as_str()),
            None => None,
        };
        proof {
            assert(opt_str_view(documentation) == opt_view(self.graphql_input_object.documentation));
        }
        push_opt_part(&mut parts, render_documentation(documentation, &self.config));
        push_opt_part(&mut parts, self.graphql_input_object.name.type_name_documentation());
        let struct_body = self.struct_body(member.as_str());
        let body_text = join_strings(&struct_body, "\n");
        let mut declaration = parent_access;
        declaration.append("struct ");
        declaration.append(typename.as_str());
        declaration.append(": InputObject {\n");
        declaration.append(body_text.as_str());
        declaration.append("\n}\n");
        let ghost declaration_v = declaration@;
        push_part(&mut parts, declaration);
        proof {
            reveal_strlit("\n");
            assert("\n"@ =~= seq!['\n']);
            let o = self.graphql_input_object;
            let c = self.config;
            let target = TemplateTarget::SchemaFile(SchemaFileType::InputObject);
            assert(declaration_v =~= spec_template_access(target, c.config, Scope::Parent) + "struct "@
                + spec_render_named_type(GraphQLNamedType::InputObject(&o), RenderContext::Typename { is_input_value: false })
                + ": InputObject {\n"@ + join(spec_struct_body(o, spec_template_access(target, c.config, Scope::Member), c.config), seq!['\n'])
                + "\n}\n"@);
            assert(views(parts@) =~= opt_part(spec_rendered_documentation(opt_view(o.documentation), c.config))
                + opt_part(spec_type_name_documentation(o.name)) + seq![declaration_v]);
        }
        join_strings(&parts, "\n")
    }
}

impl InputObjectTemplate {
    fn struct_body(&self, member: &str) -> (r: Vec<String>)
        ensures
            views(r@) == spec_struct_body(self.graphql_input_object, member@, self.config.config),
    {
        let ghost config = self.config.config;
        let ghost fields = self.graphql_input_object.fields@;
        let (valid_count, deprecated_count) = self.field_counts();
        let warnings = self.config.options().warnings_on_deprecated_usage == Composition::Include;
        let mut body: Vec<String> = Vec::new();
        let mut line = String::from_str("  ");
        line.append(member);
        line.append("private(set) var __data: InputDict");
        push_part(&mut body, line);
        push_part(&mut body, String::new());
        let mut init = String::from_str("  ");
        init.append(member);
        init.append("init(_ data: InputDict) {\n    __data = data\n  }");
        push_part(&mut body, init);
        push_part(&mut body, String::new());
        let ghost head = views(body@);
        if deprecated_count > 0 && valid_count > 0 && warnings {
            push_part(&mut body, self.initializer_template(member, true));
        }
        let ghost after_valid = views(body@);
        if deprecated_count > 0 && warnings {
            push_part(&mut body, String::new());
            let message = self.deprecated_message();
            let mut annotation = String::from_str("  @available(*, deprecated, message: \"");
            annotation.append(message.as_str());
            annotation.append("\")");
            push_part(&mut body, annotation);
        }
        let ghost after_deprecated = views(body@);
        push_part(&mut body, self.initializer_template(member, false));
        let ghost before_properties = views(body@);
        let all_fields = &self.graphql_input_object.fields;
        let mut i: usize = 0;
        while i < all_fields.len()
            invariant
                i <= all_fields.len(),
                all_fields == &self.graphql_input_object.fields,
                fields == all_fields@,
                config == self.config.config,
                views(body@) == before_properties + spec_property_lines(fields.take(i as int), member@, config),
            decreases all_fields.len() - i,
        {
            push_part(&mut body, String::new());
            let property = self.field_property_template(&all_fields[i], member);
            push_part(&mut body, property);
            proof {
                assert(fields.take(i + 1).drop_last() =~= fields.take(i as int));
                assert(fields.take(i + 1).last() == fields[i as int]);
                assert(views(body@) =~= before_properties + spec_property_lines(fields.take(i + 1), member@, config));
            }
            i = i + 1;
        }
        proof {
            assert(fields.take(all_fields.len() as int) =~= fields);
            reveal_strlit("  ");
            reveal_strlit("private(set) var __data: InputDict");
            let valid = spec_valid_fields(fields);
            let deprecated = spec_deprecated_fields(fields);
            assert(head =~= seq![
                "  "@ + member@ + "private(set) var __data: InputDict"@,
                Seq::empty(),
                "  "@ + member@ + "init(_ data: InputDict) {\n    __data = data\n  }"@,
                Seq::empty(),
            ]);
            assert(after_valid =~= head + (if deprecated.len() > 0 && valid.len() > 0 && warnings {
                seq![spec_initializer(valid, member@, config)]
            } else {
                Seq::empty()
            }));
            assert(after_deprecated =~= after_valid + (if deprecated.len() > 0 && warnings {
                seq![Seq::empty(), "  @available(*, deprecated, message: \""@ + spec_deprecated_message(deprecated, config) + "\")"@]
            } else {
                Seq::empty()
            }));
            assert(views(body@) =~= spec_struct_body(self.graphql_input_object, member@, config));
        }
        body
    }

    /// The numbers of fields that are not deprecated and that are.
    fn field_counts(&self) -> (r: (usize, usize))
        ensures
            r.0 == spec_valid_fields(self.graphql_input_object.fields@).len(),
            r.1 == spec_deprecated_fields(self.graphql_input_object.fields@).len(),
    {
        let fields = &self.graphql_input_object.fields;
        let mut valid: usize = 0;
        let mut deprecated: usize = 0;
        let mut i: usize = 0;
        while i < fields.len()
            invariant
                i <= fields.len(),
                valid == spec_valid_fields(fields@.take(i as int)).len(),
                deprecated == spec_deprecated_fields(fields@.take(i as int)).len(),
                valid + deprecated == i,
            decreases fields.len() - i,
        {
            proof {
                assert(fields@.take(i + 1).drop_last() =~= fields@.take(i as int));
                assert(fields@.take(i + 1).last() == fields@[i as int]);
            }
            if fields[i].deprecation_reason.is_some() {
                deprecated = deprecated + 1;
            } else {
                valid = valid + 1;
            }
            i = i + 1;
        }
        proof {
            assert(fields@.take(fields.len() as int) =~= fields@);
        }
        (valid, deprecated)
    }

    fn deprecated_message(&self) -> (r: String)
        ensures
            r@ == spec_deprecated_message(spec_deprecated_fields(self.graphql_input_object.fields@), self.config.config),
    {
        let ghost config = self.config.config;
        let fields = &self.graphql_input_object.fields;
        let mut names: Vec<String> = Vec::new();
        let mut i: usize = 0;
        while i < fields.len()
            invariant
                i <= fields.len(),
                config == self.config.config,
                fields == &self.graphql_input_object.fields,
                views(names@) == spec_field_names(spec_deprecated_fields(fields@.take(i as int)), config),
            decreases fields.len() - i,
        {
            let ghost before = spec_deprecated_fields(fields@.take(i as int));
            proof {
                assert(fields@.take(i + 1).drop_last() =~= fields@.take(i as int));
                assert(fields@.take(i + 1).last() == fields@[i as int]);
            }
            if fields[i].deprecation_reason.is_some() {
                let name = render_input_field(&fields[i], &self.config.config);
                push_part(&mut names, name);
                proof {
                    assert(spec_deprecated_fields(fields@.take(i + 1)) =~= before.push(fields@[i as int]));
                    assert(before.push(fields@[i as int]).drop_last() =~= before);
                }
            } else {
                proof {
                    assert(spec_deprecated_fields(fields@.take(i + 1)) =~= before);
                }
            }
            i = i + 1;
        }
        proof {
            assert(fields@.take(fields.len() as int) =~= fields@);
            lemma_field_names_len(spec_deprecated_fields(fields@), config);
        }
        if names.len() == 0 {
            return String::new();
        }
        let joined = join_strings(&names, ", ");
        let mut r = if names.len() > 1 {
            String::from_str("Arguments '")
        } else {
            String::from_str("Argument '")
        };
        r.append(joined.as_str());
        if names.len() > 1 {
            r.append("' are deprecated.");
        } else {
            r.append("' is deprecated.");
        }
        r
    }

    /// The parameters of an initializer of the selected fields.
    fn initializer_parameters_template(&self, valid_only: bool) -> (r: String)
        ensures
            r@ == join(
                spec_parameters(selected_fields(self.graphql_input_object.fields@, valid_only), self.config.config),
                ",\n"@,
            ),
    {
        let ghost config = self.config.config;
        let fields = &self.graphql_input_object.fields;
        let mut params: Vec<String> = Vec::new();
        let mut i: usize = 0;
        while i < fields.len()
            invariant
                i <= fields.len(),
                config == self.config.config,
                fields == &self.graphql_input_object.fields,
                views(params@) == spec_parameters(selected_fields(fields@.take(i as int), valid_only), config),
            decreases fields.len() - i,
        {
            let ghost before = selected_fields(fields@.take(i as int), valid_only);
            proof {
                assert(fields@.take(i + 1).drop_last() =~= fields@.take(i as int));
                assert(fields@.take(i + 1).last() == fields@[i as int]);
            }
            let field = &fields[i];
            if !valid_only || field.deprecation_reason.is_none() {
                let name = render_input_field(field, &self.config.config);
                let type_str = render_input_value_type(field, true, &self.config.config);
                let mut param = String::from_str("    ");
                param.append(name.as_str());
                param.append(": ");
                param.append(type_str.as_str());
                push_part(&mut params, param);
            }
            proof {
                if !valid_only || fields@[i as int].deprecation_reason is None {
                    assert(selected_fields(fields@.take(i + 1), valid_only) =~= before.push(fields@[i as int]));
                    assert(before.push(fields@[i as int]).drop_last() =~= before);
                } else {
                    assert(selected_fields(fields@.take(i + 1), valid_only) =~= before);
                }
            }
            i = i + 1;
        }
        proof {
            assert(fields@.take(fields.len() as int) =~= fields@);
        }
        join_strings(&params, ",\n")
    }

    /// The input dictionary entries of an initializer of the selected fields.
    fn input_dict_initializer_template(&self, valid_only: bool) -> (r: String)
        ensures
            r@ == join(spec_dict_entries(selected_fields(self.graphql_input_object.fields@, valid_only), self.config.config), ",\n"@),
    {
        let ghost config = self.config.config;
        let fields = &self.graphql_input_object.fields;
        let mut entries: Vec<String> = Vec::new();
        let mut i: usize = 0;
        while i < fields.len()
            invariant
                i <= fields.len(),
                config == self.config.config,
                fields == &self.graphql_input_object.fields,
                views(entries@) == spec_dict_entries(selected_fields(fields@.take(i as int), valid_only), config),
            decreases fields.len() - i,
        {
            let ghost before = selected_fields(fields@.take(i as int), valid_only);
            let ghost before = selected_fields(fields@.take(i as int), valid_only);
            proof {
                assert(fields@.take(i + 1).drop_last() =~= fields@.take(i as int));
                assert(fields@.take(i + 1).last() == fields@[i as int]);
            }
            let field = &fields[i];
            if !valid_only || field.deprecation_reason.is_none() {
                let name = render_input_field(field, &self.config.config);
                let mut entry = String::from_str("      \"");
                entry.append(field.name.schema_name.as_str());
                entry.append("\": ");
                entry.append(name.as_str());
                if !is_nullable(field) && has_default_value(field) {
                    entry.append(" ?? GraphQLNullable.none");
                }
                push_part(&mut entries, entry);
            }
            proof {
                if !valid_only || fields@[i as int].deprecation_reason is None {
                    assert(selected_fields(fields@.take(i + 1), valid_only) =~= before.push(fields@[i as int]));
                    assert(before.push(fields@[i as int]).drop_last() =~= before);
                } else {
                    assert(selected_fields(fields@.take(i + 1), valid_only) =~= before);
                }
            }
            i = i + 1;
        }
        proof {
            assert(fields@.take(fields.len() as int) =~= fields@);
        }
        join_strings(&entries, ",\n")
    }

    fn initializer_template(&self, member: &str, valid_only: bool) -> (r: String)
        ensures
            r@ == spec_initializer(selected_fields(self.graphql_input_object.fields@, valid_only), member@, self.config.config),
    {
        let params = self.initializer_parameters_template(valid_only);
        let entries = self.input_dict_initializer_template(valid_only);
        let mut r = String::from_str("  ");
        r.append(member);
        r.append("init(\n");
        r.append(params.as_str());
        r.append("\n  ) {\n    __data = InputDict([\n");
        r.append(entries.as_str());
        r.append("\n    ])\n  }");
        r
    }

    fn field_property_template(&self, field: &GraphQLInputField, member: &str) -> (r: String)
        ensures
            r@ == spec_field_property(*field, member@, self.config.config),
    {
        let ghost config = self.config.config;
        let field_name = render_input_field(field, &self.config.config);
        let type_str = render_input_value_type(field, false, &self.config.config);
        let mut parts: Vec<String> = Vec::new();
        let documentation = match &field.documentation {
            Some(d) => Some(d.as_str()),
            None => None,
        };
        let reason = match &field.deprecation_reason {
            Some(d) => Some(d.as_str()),
            None => None,
        };
        proof {
            assert(opt_str_view(documentation) == opt_view(field.documentation));
            assert(opt_str_view(reason) == opt_view(field.deprecation_reason));
        }
        push_opt_part(&mut parts, indented_opt(render_documentation(documentation, &self.config)));
        push_opt_part(&mut parts, indented_opt(render_deprecation_reason(reason, &self.config)));
        let ghost before_name = views(parts@);
        match field.name.type_name_documentation() {
            Some(type_doc) => {
                let mut line = String::from_str("  ");
                line.append(type_doc.as_str());
                push_part(&mut parts, line);
            },
            None => {},
        }
        let ghost after_name = views(parts@);
        let mut accessor = String::from_str("  ");
        accessor.append(member);
        accessor.append("var ");
        accessor.append(field_name.as_str());
        accessor.append(": ");
        accessor.append(type_str.as_str());
        accessor.append(" {\n    get { __data[\"");
        accessor.append(field.name.schema_name.as_str());
        accessor.append("\"] }\n    set { __data[\"");
        accessor.append(field.name.schema_name.as_str());
        accessor.append("\"] = newValue }\n  }");
        let ghost accessor_v = accessor@;
        push_part(&mut parts, accessor);
        proof {
            assert(after_name =~= before_name + opt_part(match spec_type_name_documentation(field.name) {
                Some(t) => Some("  "@ + t),
                None => None,
            }));
            let name = spec_render_input_field(*field, config);
            let schema_name = field.name.schema_name@;
            assert(accessor_v =~= "  "@ + member@ + "var "@ + name + ": "@ + spec_render_input_value_type(*field, false, config)
                + " {\n    get { __data[\""@ + schema_name + "\"] }\n    set { __data[\""@ + schema_name
                + "\"] = newValue }\n  }"@);
            assert(views(parts@) =~= opt_part(opt_indented(spec_rendered_documentation(opt_view(field.documentation), config)))
                + opt_part(opt_indented(spec_rendered_deprecation(opt_view(field.deprecation_reason), config)))
                + opt_part(match spec_type_name_documentation(field.name) {
                    Some(t) => Some("  "@ + t),
                    None => None,
                }) + seq![accessor_v]);
            reveal_strlit("\n");
            assert("\n"@ =~= seq!['\n']);
        }
        join_strings(&parts, "\n")
    }
}

} // verus!
