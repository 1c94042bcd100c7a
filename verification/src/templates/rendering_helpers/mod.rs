//! Rendering helpers used across the templates: string casing, escaping, and
//! documentation and deprecation rendering.
pub mod string_casing;
pub mod string_single_line;
pub mod string_swift_name_escaping;
pub mod ir_definition_rendering;
pub mod graphql_name_rendering;
pub mod graphql_type_rendered;
pub mod graphql_input_field_rendered;
pub mod field_argument_rendering;
pub mod input_variable_renderable;
pub mod composite_type_namespace;
pub mod template_string_deprecation;
pub mod template_string_documentation;
pub mod computed_selection_set_iterators;
pub mod template_blocks;
pub mod template_constants;
pub mod selection_set_name_generator;
pub mod operation_template_renderer;
pub mod selection_set_initializer_check;
