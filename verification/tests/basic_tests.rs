use serde_json::Value;
use tixschema::features::Features;
use tixschema::model_schema;
use tixschema::model_schema::CompiledModel;
#[allow(unused_imports)]
use tixschema::registry::{RegistryEntry, SchemaRegistry};
#[allow(unused_imports)]
use tixschema::syntax::{
    AttrArgs, Attribute, Field, Item, ItemEnum, ItemStruct, MetaItem, MetaValue, TypeExpr, Variant,
};

/// Splits `text` at the commas that stand outside every bracket.
#[allow(dead_code)]
fn split_top(text: &str) -> Vec<String> {
    let mut parts = Vec::new();
    let mut depth = 0i32;
    let mut current = String::new();
    for c in text.chars() {
        match c {
            '<' | '(' | '[' => {
                depth += 1;
                current.push(c);
            }
            '>' | ')' | ']' => {
                depth -= 1;
                current.push(c);
            }
            ',' if depth == 0 => {
                parts.push(current.trim().to_string());
                current = String::new();
            }
            _ => current.push(c),
        }
    }
    if !current.trim().is_empty() {
        parts.push(current.trim().to_string());
    }
    parts
}

/// The last segment of a path.
#[allow(dead_code)]
fn last_segment(path: &str) -> String {
    path.trim().rsplit("::").next().unwrap().trim().to_string()
}

/// Reads a type as it is written in a declaration.
#[allow(dead_code)]
fn ty(text: &str) -> TypeExpr {
    let text = text.trim();
    if let Some(rest) = text.strip_prefix('&') {
        return TypeExpr::Ref(Box::new(ty(rest)));
    }
    if text.starts_with('(') && text.ends_with(')') {
        let inner = &text[1..text.len() - 1];
        return TypeExpr::Tuple(split_top(inner).iter().map(|t| ty(t)).collect());
    }
    if text.starts_with('[') && text.ends_with(']') {
        let inner = &text[1..text.len() - 1];
        return match inner.rfind(';') {
            Some(at) => TypeExpr::Array(Box::new(ty(&inner[..at]))),
            None => TypeExpr::Slice(Box::new(ty(inner))),
        };
    }
    match text.find('<') {
        Some(open) => {
            let args = &text[open + 1..text.len() - 1];
            TypeExpr::Generic(
                last_segment(&text[..open]),
                split_top(args).iter().map(|t| ty(t)).collect(),
            )
        }
        None => TypeExpr::Named(last_segment(text)),
    }
}

/// `#[path(key = "value", ..)]`; an entry without a value is a bare key.
#[allow(dead_code)]
fn list(path: &str, entries: Vec<(&str, Option<MetaValue>)>) -> Attribute {
    Attribute {
        path: path.to_string(),
        args: AttrArgs::List(
            entries
                .into_iter()
                .map(|(key, value)| MetaItem { key: key.to_string(), value })
                .collect(),
        ),
    }
}

#[allow(dead_code)]
fn text(value: &str) -> Option<MetaValue> {
    Some(MetaValue::Str(value.to_string()))
}

#[allow(dead_code)]
fn number(value: usize) -> Option<MetaValue> {
    Some(MetaValue::Int(Some(value)))
}

#[allow(dead_code)]
fn type_value(value: &str) -> Option<MetaValue> {
    Some(MetaValue::Type(value.to_string()))
}

/// `#[doc = "text"]`, as a documentation comment is handed over.
#[allow(dead_code)]
fn doc(line: &str) -> Attribute {
    Attribute { path: "doc".to_string(), args: AttrArgs::Value(MetaValue::Str(line.to_string())) }
}

#[allow(dead_code)]
fn field(attrs: Vec<Attribute>, name: &str, written: &str) -> Field {
    Field { attrs, ident: Some(name.to_string()), ty: ty(written) }
}

#[allow(dead_code)]
fn record(attrs: Vec<Attribute>, name: &str, fields: Vec<Field>) -> Item {
    Item::Struct(ItemStruct { attrs, ident: name.to_string(), fields })
}

#[allow(dead_code)]
fn variant(attrs: Vec<Attribute>, name: &str, fields: Option<Vec<Field>>) -> Variant {
    Variant { attrs, ident: name.to_string(), fields }
}

#[allow(dead_code)]
fn enumeration(attrs: Vec<Attribute>, name: &str, variants: Vec<Variant>) -> Item {
    Item::Enum(ItemEnum { attrs, ident: name.to_string(), variants })
}

/// Every capability switched on.
#[allow(dead_code)]
fn all_features() -> Features {
    Features::all()
}

/// The named capabilities switched on and no other.
#[allow(dead_code)]
fn only(names: &[&str]) -> Features {
    Features {
        serde: names.contains(&"serde"),
        zod: names.contains(&"zod"),
        jsonschema: names.contains(&"jsonschema"),
        object_id: names.contains(&"object_id"),
        typescript: names.contains(&"typescript"),
    }
}

#[allow(dead_code)]
fn declared_name(item: &Item) -> String {
    match item {
        Item::Struct(s) => s.ident.clone(),
        Item::Enum(e) => e.ident.clone(),
        Item::Other(what) => what.clone(),
    }
}

/// Compiles `items` in order, each against the schemas of those before it,
/// and hands back the one declared as `name`.
#[allow(dead_code)]
fn compile(items: Vec<Item>, name: &str, features: &Features) -> CompiledModel {
    let mut registry = SchemaRegistry::new();
    let mut found = None;
    for item in items.iter() {
        let declared = declared_name(item);
        let compiled = model_schema(item, features, &registry);
        if let Ok(model) = &compiled {
            registry.register_model(model);
        }
        if declared == name {
            found = Some(compiled);
        }
    }
    match found {
        Some(Ok(model)) => model,
        Some(Err(e)) => panic!("{}", e.message()),
        None => panic!("no declaration named {}", name),
    }
}

/// The static type and the validator of a compiled declaration as one text.
#[allow(dead_code)]
fn definitions(model: &CompiledModel) -> String {
    format!(
        "{}\n\n{}",
        model.ts_definition.clone().unwrap_or_default(),
        model.zod_schema.clone().unwrap_or_default()
    )
}

/// The declarations of this file, each behind those it names.
fn declarations() -> Vec<Item> {
    vec![
    record(vec![], "BasicUser", vec![
        field(vec![], "id", "String"),
        field(vec![], "name", "String"),
        field(vec![], "age", "u32"),
        field(vec![], "height", "f32"),
        field(vec![], "is_active", "bool")
    ]),
    record(vec![], "UserWithOptionals", vec![
        field(vec![], "id", "String"),
        field(vec![], "name", "String"),
        field(vec![], "email", "Option<String>"),
        field(vec![], "age", "Option<u32>"),
        field(vec![], "nickname", "Option<String>")
    ]),
    record(vec![], "EmptyStruct", vec![]),
    ]
}

fn model(name: &str, features: &Features) -> CompiledModel {
    compile(declarations(), name, features)
}

#[test]
fn basic_tests_test_basic_struct_json_schema() {
    let features = all_features();
    let schema = model("BasicUser", &features).json_schema.unwrap();

    // Check that it's an object
    assert_eq!(schema["type"], "object");
    assert_eq!(schema["additionalProperties"], false);

    // Check properties exist
    let properties = schema["properties"].as_object().unwrap();
    assert!(properties.contains_key("id"));
    assert!(properties.contains_key("name"));
    assert!(properties.contains_key("age"));
    assert!(properties.contains_key("height"));
    assert!(properties.contains_key("is_active"));

    // Check property types
    assert_eq!(properties["id"]["type"], "string");
    assert_eq!(properties["name"]["type"], "string");
    assert_eq!(properties["age"]["type"], "integer");
    assert_eq!(properties["height"]["type"], "number");
    assert_eq!(properties["is_active"]["type"], "boolean");

    // Check required fields
    let required = schema["required"].as_array().unwrap();
    assert_eq!(required.len(), 5);
    assert!(required.contains(&Value::String("id".to_string())));
    assert!(required.contains(&Value::String("name".to_string())));
    assert!(required.contains(&Value::String("age".to_string())));
    assert!(required.contains(&Value::String("height".to_string())));
    assert!(required.contains(&Value::String("is_active".to_string())));
}

#[test]
fn basic_tests_test_basic_struct_ts_definition() {
    let features = all_features();
    let ts_definition = model("BasicUser", &features).ts_definition.unwrap();

    // Check that it contains TypeScript type definition
    assert!(ts_definition.contains("export type BasicUser = {"));
    assert!(ts_definition.contains("id: string;"));
    assert!(ts_definition.contains("name: string;"));
    assert!(ts_definition.contains("age: number;"));
    assert!(ts_definition.contains("height: number;"));
    assert!(ts_definition.contains("is_active: boolean;"));

    // Should NOT contain Zod schema (now separated)
    assert!(!ts_definition.contains("export const BasicUser$Schema"));
    assert!(!ts_definition.contains("z.strictObject"));
    assert!(!ts_definition.contains("z.string()"));
    assert!(!ts_definition.contains("z.number()"));
    assert!(!ts_definition.contains("z.boolean()"));
}

#[test]
fn test_basic_struct_zod_schema() {
    let features = all_features();
    let zod_schema = model("BasicUser", &features).zod_schema.unwrap();

    // Check that it contains Zod schema
    assert!(zod_schema.contains("export const BasicUser$Schema"));
    assert!(zod_schema.contains("z.strictObject({"));
    assert!(zod_schema.contains("id: z.string()"));
    assert!(zod_schema.contains("name: z.string()"));
    assert!(zod_schema.contains("age: z.number().int()"));
    assert!(zod_schema.contains("height: z.number()"));
    assert!(zod_schema.contains("is_active: z.boolean()"));

    // Should NOT contain TypeScript type definition
    assert!(!zod_schema.contains("export type BasicUser"));
    assert!(!zod_schema.contains("id: string;"));
    assert!(!zod_schema.contains("age: number;"));
}

#[test]
fn basic_tests_test_optional_fields_json_schema() {
    let features = all_features();
    let schema = model("UserWithOptionals", &features).json_schema.unwrap();

    // Check properties exist
    let properties = schema["properties"].as_object().unwrap();
    assert!(properties.contains_key("id"));
    assert!(properties.contains_key("name"));
    assert!(properties.contains_key("email"));
    assert!(properties.contains_key("age"));
    assert!(properties.contains_key("nickname"));

    // Check required fields (only non-optional ones)
    let required = schema["required"].as_array().unwrap();
    assert_eq!(required.len(), 2);
    assert!(required.contains(&Value::String("id".to_string())));
    assert!(required.contains(&Value::String("name".to_string())));
    assert!(!required.contains(&Value::String("email".to_string())));
    assert!(!required.contains(&Value::String("age".to_string())));
    assert!(!required.contains(&Value::String("nickname".to_string())));
}

#[test]
fn basic_tests_test_optional_fields_ts_definition() {
    let features = all_features();
    let ts_definition = model("UserWithOptionals", &features).ts_definition.unwrap();

    // Check that optional fields are properly typed
    assert!(ts_definition.contains("id: string;"));
    assert!(ts_definition.contains("name: string;"));
    assert!(ts_definition.contains("email: string | undefined;"));
    assert!(ts_definition.contains("age: number | undefined;"));
    assert!(ts_definition.contains("nickname: string | undefined;"));

    // Should NOT contain Zod schema (now separated)
    assert!(!ts_definition.contains("z.string().or(z.undefined())"));
    assert!(!ts_definition.contains("z.number().int().or(z.undefined())"));
}

#[test]
fn test_optional_fields_zod_schema() {
    let features = all_features();
    let zod_schema = model("UserWithOptionals", &features).zod_schema.unwrap();

    // Check Zod schema has optional fields
    assert!(zod_schema.contains("email: z.string().or(z.undefined())"));
    assert!(zod_schema.contains("age: z.number().int().or(z.undefined())"));
    assert!(zod_schema.contains("nickname: z.string().or(z.undefined())"));

    // Should NOT contain TypeScript type definition
    assert!(!zod_schema.contains("email: string | undefined;"));
    assert!(!zod_schema.contains("age: number | undefined;"));
}

#[test]
fn basic_tests_test_empty_struct_json_schema() {
    let features = all_features();
    let schema = model("EmptyStruct", &features).json_schema.unwrap();

    assert_eq!(schema["type"], "object");
    assert_eq!(schema["additionalProperties"], false);

    let properties = schema["properties"].as_object().unwrap();
    assert!(properties.is_empty());

    let required = schema["required"].as_array().unwrap();
    assert!(required.is_empty());
}

#[test]
fn basic_tests_test_empty_struct_ts_definition() {
    let features = all_features();
    let ts_definition = model("EmptyStruct", &features).ts_definition.unwrap();

    // Should generate Record<string, never> for empty structs
    assert!(ts_definition.contains("export type EmptyStruct = Record<string, never>;"));
}
