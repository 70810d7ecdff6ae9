use cargo_fl::autofix::{DocTemplateGenerator, NamingConventionFixer};
use cargo_fl::issues::Location;

fn loc(line: usize, column: usize) -> Location {
    Location { line, column, end_line: None, end_column: None }
}

#[test]
fn test_naming_convention_fixer() {
    let fixer = NamingConventionFixer::new();

    assert_eq!(fixer.to_snake_case("CamelCase"), "camel_case");
    assert_eq!(fixer.to_snake_case("XMLHttpRequest"), "x_m_l_http_request");
    assert_eq!(fixer.to_pascal_case("snake_case"), "SnakeCase");
    assert_eq!(fixer.to_pascal_case("already_pascal"), "AlreadyPascal");
}

#[test]
fn snake_case_fix_carries_converted_identifier() {
    let fixer = NamingConventionFixer::new();
    let fix = fixer.create_snake_case_fix("DoThing", &loc(1, 4)).unwrap();
    assert_eq!(fix.description, "Convert 'DoThing' to snake_case: 'do_thing'");
    assert_eq!(fix.replacements.len(), 1);
    assert_eq!(fix.replacements[0].start, 3);
    assert_eq!(fix.replacements[0].end, 10);
    assert_eq!(fix.replacements[0].text, "do_thing");
}

#[test]
fn snake_case_fix_skips_conforming_identifier() {
    let fixer = NamingConventionFixer::new();
    assert!(fixer.create_snake_case_fix("already_snake", &loc(1, 1)).is_none());
}

#[test]
fn pascal_case_fix_carries_converted_identifier() {
    let fixer = NamingConventionFixer::new();
    let fix = fixer.create_pascal_case_fix("my_type", &loc(2, 8)).unwrap();
    assert_eq!(fix.description, "Convert 'my_type' to PascalCase: 'MyType'");
    assert_eq!(fix.replacements[0].text, "MyType");
}

#[test]
fn function_descriptions_follow_prefixes() {
    let generator = DocTemplateGenerator::new();
    assert_eq!(generator.generate_function_description("get_user_name"), "Gets the user name.");
    assert_eq!(generator.generate_function_description("set_limit"), "Sets the limit.");
    assert_eq!(generator.generate_function_description("is_ready"), "Checks if ready.");
    assert_eq!(generator.generate_function_description("has_children"), "Checks if has children.");
    assert_eq!(
        generator.generate_function_description("create_widget"),
        "Creates a new create widget.",
    );
}

#[test]
fn struct_description_is_spaced_and_lowercased() {
    let generator = DocTemplateGenerator::new();
    assert_eq!(generator.generate_struct_description("Http_Server"), "Represents a http server.");
}

#[test]
fn function_doc_fix_inserts_template_before_column() {
    let generator = DocTemplateGenerator::new();
    let fix = generator.generate_function_doc_fix("get_id", &loc(5, 3), true, false);
    assert_eq!(fix.description, "Add documentation template for function 'get_id'");
    assert_eq!(fix.replacements.len(), 1);
    assert_eq!(fix.replacements[0].start, 2);
    assert_eq!(fix.replacements[0].end, 2);
    let text = &fix.replacements[0].text;
    assert!(text.contains("Gets the id."));
    assert!(text.contains("# Arguments"));
    assert!(!text.contains("# Returns"));
    assert!(text.contains("# Examples"));
}

#[test]
fn struct_doc_fix_names_the_struct() {
    let generator = DocTemplateGenerator::new();
    let fix = generator.generate_struct_doc_fix("Widget", &loc(1, 1));
    assert_eq!(fix.description, "Add documentation template for struct 'Widget'");
    assert!(fix.replacements[0].text.contains("Represents a widget."));
    assert!(fix.replacements[0].text.contains("// Example usage of Widget"));
}
