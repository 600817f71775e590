use serde_json::Value;
use tixschema::features::Features;
use tixschema::model_schema;
use tixschema::model_schema::CompiledModel;
#[allow(unused_imports)]
use tixschema::registry::{RegistryEntry, SchemaRegistry};
#[allow(unused_imports)]
use tixschema::syntax::{
    AttrArgs, Attribute, Field, Item, ItemEnum, ItemStruct, MetaItem, MetaValue, TypeExpr, Variant,
};

/// Splits `text` at the commas that stand outside every bracket.
#[allow(dead_code)]
fn split_top(text: &str) -> Vec<String> {
    let mut parts = Vec::new();
    let mut depth = 0i32;
    let mut current = String::new();
    for c in text.chars() {
        match c {
            '<' | '(' | '[' => {
                depth += 1;
                current.push(c);
            }
            '>' | ')' | ']' => {
                depth -= 1;
                current.push(c);
            }
            ',' if depth == 0 => {
                parts.push(current.trim().to_string());
                current = String::new();
            }
            _ => current.push(c),
        }
    }
    if !current.trim().is_empty() {
        parts.push(current.trim().to_string());
    }
    parts
}

/// The last segment of a path.
#[allow(dead_code)]
fn last_segment(path: &str) -> String {
    path.trim().rsplit("::").next().unwrap().trim().to_string()
}

/// Reads a type as it is written in a declaration.
#[allow(dead_code)]
fn ty(text: &str) -> TypeExpr {
    let text = text.trim();
    if let Some(rest) = text.strip_prefix('&') {
        return TypeExpr::Ref(Box::new(ty(rest)));
    }
    if text.starts_with('(') && text.ends_with(')') {
        let inner = &text[1..text.len() - 1];
        return TypeExpr::Tuple(split_top(inner).iter().map(|t| ty(t)).collect());
    }
    if text.starts_with('[') && text.ends_with(']') {
        let inner = &text[1..text.len() - 1];
        return match inner.rfind(';') {
            Some(at) => TypeExpr::Array(Box::new(ty(&inner[..at]))),
            None => TypeExpr::Slice(Box::new(ty(inner))),
        };
    }
    match text.find('<') {
        Some(open) => {
            let args = &text[open + 1..text.len() - 1];
            TypeExpr::Generic(
                last_segment(&text[..open]),
                split_top(args).iter().map(|t| ty(t)).collect(),
            )
        }
        None => TypeExpr::Named(last_segment(text)),
    }
}

/// `#[path(key = "value", ..)]`; an entry without a value is a bare key.
#[allow(dead_code)]
fn list(path: &str, entries: Vec<(&str, Option<MetaValue>)>) -> Attribute {
    Attribute {
        path: path.to_string(),
        args: AttrArgs::List(
            entries
                .into_iter()
                .map(|(key, value)| MetaItem { key: key.to_string(), value })
                .collect(),
        ),
    }
}

#[allow(dead_code)]
fn text(value: &str) -> Option<MetaValue> {
    Some(MetaValue::Str(value.to_string()))
}

#[allow(dead_code)]
fn number(value: usize) -> Option<MetaValue> {
    Some(MetaValue::Int(Some(value)))
}

#[allow(dead_code)]
fn type_value(value: &str) -> Option<MetaValue> {
    Some(MetaValue::Type(value.to_string()))
}

/// `#[doc = "text"]`, as a documentation comment is handed over.
#[allow(dead_code)]
fn doc(line: &str) -> Attribute {
    Attribute { path: "doc".to_string(), args: AttrArgs::Value(MetaValue::Str(line.to_string())) }
}

#[allow(dead_code)]
fn field(attrs: Vec<Attribute>, name: &str, written: &str) -> Field {
    Field { attrs, ident: Some(name.to_string()), ty: ty(written) }
}

#[allow(dead_code)]
fn record(attrs: Vec<Attribute>, name: &str, fields: Vec<Field>) -> Item {
    Item::Struct(ItemStruct { attrs, ident: name.to_string(), fields })
}

#[allow(dead_code)]
fn variant(attrs: Vec<Attribute>, name: &str, fields: Option<Vec<Field>>) -> Variant {
    Variant { attrs, ident: name.to_string(), fields }
}

#[allow(dead_code)]
fn enumeration(attrs: Vec<Attribute>, name: &str, variants: Vec<Variant>) -> Item {
    Item::Enum(ItemEnum { attrs, ident: name.to_string(), variants })
}

/// Every capability switched on.
#[allow(dead_code)]
fn all_features() -> Features {
    Features::all()
}

/// The named capabilities switched on and no other.
#[allow(dead_code)]
fn only(names: &[&str]) -> Features {
    Features {
        serde: names.contains(&"serde"),
        zod: names.contains(&"zod"),
        jsonschema: names.contains(&"jsonschema"),
        object_id: names.contains(&"object_id"),
        typescript: names.contains(&"typescript"),
    }
}

#[allow(dead_code)]
fn declared_name(item: &Item) -> String {
    match item {
        Item::Struct(s) => s.ident.clone(),
        Item::Enum(e) => e.ident.clone(),
        Item::Other(what) => what.clone(),
    }
}

/// Compiles `items` in order, each against the schemas of those before it,
/// and hands back the one declared as `name`.
#[allow(dead_code)]
fn compile(items: Vec<Item>, name: &str, features: &Features) -> CompiledModel {
    let mut registry = SchemaRegistry::new();
    let mut found = None;
    for item in items.iter() {
        let declared = declared_name(item);
        let compiled = model_schema(item, features, &registry);
        if let Ok(model) = &compiled {
            registry.register_model(model);
        }
        if declared == name {
            found = Some(compiled);
        }
    }
    match found {
        Some(Ok(model)) => model,
        Some(Err(e)) => panic!("{}", e.message()),
        None => panic!("no declaration named {}", name),
    }
}

/// The static type and the validator of a compiled declaration as one text.
#[allow(dead_code)]
fn definitions(model: &CompiledModel) -> String {
    format!(
        "{}\n\n{}",
        model.ts_definition.clone().unwrap_or_default(),
        model.zod_schema.clone().unwrap_or_default()
    )
}

/// The declarations of this file, each behind those it names.
fn declarations() -> Vec<Item> {
    vec![
    record(vec![], "LargeNumbersJson", vec![
        field(vec![], "id", "String"),
        field(vec![], "large_unsigned", "u64"),
        field(vec![], "large_signed", "i64"),
        field(vec![], "optional_large_unsigned", "Option<u64>"),
        field(vec![], "optional_large_signed", "Option<i64>"),
        field(vec![], "array_of_u64", "Vec<u64>"),
        field(vec![], "array_of_i64", "Vec<i64>")
    ]),
    record(vec![], "MixedIntegersJson", vec![
        field(vec![], "small_u8", "u8"),
        field(vec![], "small_i8", "i8"),
        field(vec![], "medium_u16", "u16"),
        field(vec![], "medium_i16", "i16"),
        field(vec![], "normal_u32", "u32"),
        field(vec![], "normal_i32", "i32"),
        field(vec![], "large_u64", "u64"),
        field(vec![], "large_i64", "i64"),
        field(vec![], "size_type", "usize"),
        field(vec![], "isize_type", "isize")
    ]),
    record(vec![], "PrimitiveTypesShowcaseJson", vec![
        field(vec![], "tiny_signed", "i8"),
        field(vec![], "tiny_unsigned", "u8"),
        field(vec![], "small_signed", "i16"),
        field(vec![], "small_unsigned", "u16"),
        field(vec![], "medium_signed", "i32"),
        field(vec![], "medium_unsigned", "u32"),
        field(vec![], "large_signed", "i64"),
        field(vec![], "large_unsigned", "u64"),
        field(vec![], "arch_signed", "isize"),
        field(vec![], "arch_unsigned", "usize"),
        field(vec![], "float_single", "f32"),
        field(vec![], "float_double", "f64"),
        field(vec![], "opt_i8", "Option<i8>"),
        field(vec![], "opt_u64", "Option<u64>"),
        field(vec![], "opt_f64", "Option<f64>"),
        field(vec![], "array_i8", "Vec<i8>"),
        field(vec![], "array_u64", "Vec<u64>"),
        field(vec![], "array_f64", "Vec<f64>"),
        field(vec![], "opt_array_i8", "Option<Vec<i8>>"),
        field(vec![], "opt_array_u64", "Option<Vec<u64>>"),
        field(vec![], "opt_array_f64", "Option<Vec<f64>>"),
        field(vec![], "map_to_i8", "HashMap<String, i8>"),
        field(vec![], "map_to_u64", "HashMap<String, u64>"),
        field(vec![], "map_to_f64", "HashMap<String, f64>"),
        field(vec![], "map_to_i8_array", "HashMap<String, Vec<i8>>"),
        field(vec![], "map_to_u64_array", "HashMap<String, Vec<u64>>"),
        field(vec![], "map_to_f64_array", "HashMap<String, Vec<f64>>")
    ]),
    ]
}

fn model(name: &str, features: &Features) -> CompiledModel {
    compile(declarations(), name, features)
}

#[test]
fn test_64bit_integers_json_schema() {
    let features = all_features();
    let schema = model("LargeNumbersJson", &features).json_schema.unwrap();

    let properties = schema["properties"].as_object().unwrap();

    // Check that u64 and i64 are properly typed
    assert!(properties.contains_key("large_unsigned"));
    assert!(properties.contains_key("large_signed"));

    // These should be integer type
    assert_eq!(properties["large_unsigned"]["type"], "integer");
    assert_eq!(properties["large_signed"]["type"], "integer");

    // Check optional fields
    assert!(properties.contains_key("optional_large_unsigned"));
    assert!(properties.contains_key("optional_large_signed"));

    // Check arrays
    assert_eq!(properties["array_of_u64"]["type"], "array");
    assert_eq!(properties["array_of_u64"]["items"]["type"], "integer");
    assert_eq!(properties["array_of_i64"]["type"], "array");
    assert_eq!(properties["array_of_i64"]["items"]["type"], "integer");

    // Check required fields
    let required = schema["required"].as_array().unwrap();
    assert!(required.contains(&Value::String("large_unsigned".to_string())));
    assert!(required.contains(&Value::String("large_signed".to_string())));
    assert!(required.contains(&Value::String("array_of_u64".to_string())));
    assert!(required.contains(&Value::String("array_of_i64".to_string())));

    // Optional fields should NOT be in required
    assert!(!required.contains(&Value::String("optional_large_unsigned".to_string())));
    assert!(!required.contains(&Value::String("optional_large_signed".to_string())));
}

#[test]
fn test_64bit_integers_ts_definition() {
    let features = all_features();
    let ts_definition = model("LargeNumbersJson", &features).ts_definition.unwrap();

    // Check TypeScript type mapping - should be number
    assert!(ts_definition.contains("large_unsigned: number;"));
    assert!(ts_definition.contains("large_signed: number;"));
    assert!(ts_definition.contains("optional_large_unsigned: number | undefined;"));
    assert!(ts_definition.contains("optional_large_signed: number | undefined;"));
    assert!(ts_definition.contains("array_of_u64: Array<number>;"));
    assert!(ts_definition.contains("array_of_i64: Array<number>;"));

    // Check Zod schema - now in separate method
    let zod_schema = model("LargeNumbersJson", &features).zod_schema.unwrap();
    assert!(zod_schema.contains("large_unsigned: z.number().int()"));
    assert!(zod_schema.contains("large_signed: z.number().int()"));
    assert!(zod_schema.contains("optional_large_unsigned: z.number().int().or(z.undefined())"));
    assert!(zod_schema.contains("optional_large_signed: z.number().int().or(z.undefined())"));
    assert!(zod_schema.contains("array_of_u64: z.array(z.number().int())"));
    assert!(zod_schema.contains("array_of_i64: z.array(z.number().int())"));
}

#[test]
fn test_mixed_integers_json_schema() {
    let features = all_features();
    let schema = model("MixedIntegersJson", &features).json_schema.unwrap();

    let properties = schema["properties"].as_object().unwrap();

    // All integer types should map to "integer" in JSON schema
    assert_eq!(properties["small_u8"]["type"], "integer");
    assert_eq!(properties["small_i8"]["type"], "integer");
    assert_eq!(properties["medium_u16"]["type"], "integer");
    assert_eq!(properties["medium_i16"]["type"], "integer");
    assert_eq!(properties["normal_u32"]["type"], "integer");
    assert_eq!(properties["normal_i32"]["type"], "integer");
    assert_eq!(properties["large_u64"]["type"], "integer");
    assert_eq!(properties["large_i64"]["type"], "integer");
    assert_eq!(properties["size_type"]["type"], "integer");
    assert_eq!(properties["isize_type"]["type"], "integer");
}

#[test]
fn test_mixed_integers_ts_definition() {
    let features = all_features();
    let ts_definition = model("MixedIntegersJson", &features).ts_definition.unwrap();

    // All integer types should map to number in TypeScript
    assert!(ts_definition.contains("small_u8: number;"));
    assert!(ts_definition.contains("small_i8: number;"));
    assert!(ts_definition.contains("medium_u16: number;"));
    assert!(ts_definition.contains("medium_i16: number;"));
    assert!(ts_definition.contains("normal_u32: number;"));
    assert!(ts_definition.contains("normal_i32: number;"));
    assert!(ts_definition.contains("large_u64: number;"));
    assert!(ts_definition.contains("large_i64: number;"));
    assert!(ts_definition.contains("size_type: number;"));
    assert!(ts_definition.contains("isize_type: number;"));

    // All should use z.number().int() in Zod - now in separate method
    let zod_schema = model("MixedIntegersJson", &features).zod_schema.unwrap();
    assert!(zod_schema.contains("small_u8: z.number().int()"));
    assert!(zod_schema.contains("small_i8: z.number().int()"));
    assert!(zod_schema.contains("medium_u16: z.number().int()"));
    assert!(zod_schema.contains("medium_i16: z.number().int()"));
    assert!(zod_schema.contains("normal_u32: z.number().int()"));
    assert!(zod_schema.contains("normal_i32: z.number().int()"));
    assert!(zod_schema.contains("large_u64: z.number().int()"));
    assert!(zod_schema.contains("large_i64: z.number().int()"));
    assert!(zod_schema.contains("size_type: z.number().int()"));
    assert!(zod_schema.contains("isize_type: z.number().int()"));
}

#[test]
fn test_primitive_types_json_schema_details() {
    let features = all_features();
    let schema = model("PrimitiveTypesShowcaseJson", &features).json_schema.unwrap();

    let properties = schema["properties"].as_object().unwrap();

    // All integer types should map to "integer" in JSON Schema
    assert_eq!(properties["tiny_signed"]["type"], "integer");
    assert_eq!(properties["tiny_unsigned"]["type"], "integer");
    assert_eq!(properties["small_signed"]["type"], "integer");
    assert_eq!(properties["small_unsigned"]["type"], "integer");
    assert_eq!(properties["medium_signed"]["type"], "integer");
    assert_eq!(properties["medium_unsigned"]["type"], "integer");
    assert_eq!(properties["large_signed"]["type"], "integer");
    assert_eq!(properties["large_unsigned"]["type"], "integer");
    assert_eq!(properties["arch_signed"]["type"], "integer");
    assert_eq!(properties["arch_unsigned"]["type"], "integer");

    // Float types should map to "number" in JSON Schema
    assert_eq!(properties["float_single"]["type"], "number");
    assert_eq!(properties["float_double"]["type"], "number");

    // Optional fields should not be in required array
    let required = schema["required"].as_array().unwrap();
    assert!(!required.contains(&serde_json::Value::String("opt_i8".to_string())));
    assert!(!required.contains(&serde_json::Value::String("opt_u64".to_string())));
    assert!(!required.contains(&serde_json::Value::String("opt_f64".to_string())));

    // Arrays should have proper structure
    assert_eq!(properties["array_i8"]["type"], "array");
    assert_eq!(properties["array_i8"]["items"]["type"], "integer");
    assert_eq!(properties["array_u64"]["type"], "array");
    assert_eq!(properties["array_u64"]["items"]["type"], "integer");
    assert_eq!(properties["array_f64"]["type"], "array");
    assert_eq!(properties["array_f64"]["items"]["type"], "number");

    // HashMap with primitive values
    assert_eq!(properties["map_to_i8"]["type"], "object");
    assert_eq!(properties["map_to_i8"]["additionalProperties"]["type"], "integer");
    assert_eq!(properties["map_to_u64"]["type"], "object");
    assert_eq!(properties["map_to_u64"]["additionalProperties"]["type"], "integer");
    assert_eq!(properties["map_to_f64"]["type"], "object");
    assert_eq!(properties["map_to_f64"]["additionalProperties"]["type"], "number");

    // HashMap with array values
    assert_eq!(properties["map_to_i8_array"]["type"], "object");
    assert_eq!(properties["map_to_i8_array"]["additionalProperties"]["type"], "array");
    assert_eq!(properties["map_to_i8_array"]["additionalProperties"]["items"]["type"], "integer");

    assert_eq!(properties["map_to_u64_array"]["type"], "object");
    assert_eq!(properties["map_to_u64_array"]["additionalProperties"]["type"], "array");
    assert_eq!(properties["map_to_u64_array"]["additionalProperties"]["items"]["type"], "integer");

    assert_eq!(properties["map_to_f64_array"]["type"], "object");
    assert_eq!(properties["map_to_f64_array"]["additionalProperties"]["type"], "array");
    assert_eq!(properties["map_to_f64_array"]["additionalProperties"]["items"]["type"], "number");
}

#[test]
fn test_primitive_types_typescript_generation_details() {
    let features = all_features();
    let ts_definition = model("PrimitiveTypesShowcaseJson", &features).ts_definition.unwrap();

    // All integer and float types should map to "number" in TypeScript
    assert!(ts_definition.contains("tiny_signed: number;"));
    assert!(ts_definition.contains("tiny_unsigned: number;"));
    assert!(ts_definition.contains("small_signed: number;"));
    assert!(ts_definition.contains("small_unsigned: number;"));
    assert!(ts_definition.contains("medium_signed: number;"));
    assert!(ts_definition.contains("medium_unsigned: number;"));
    assert!(ts_definition.contains("large_signed: number;"));
    assert!(ts_definition.contains("large_unsigned: number;"));
    assert!(ts_definition.contains("arch_signed: number;"));
    assert!(ts_definition.contains("arch_unsigned: number;"));
    assert!(ts_definition.contains("float_single: number;"));
    assert!(ts_definition.contains("float_double: number;"));

    // Optional types should include "| undefined"
    assert!(ts_definition.contains("opt_i8: number | undefined;"));
    assert!(ts_definition.contains("opt_u64: number | undefined;"));
    assert!(ts_definition.contains("opt_f64: number | undefined;"));

    // Arrays should use Array<number> syntax
    assert!(ts_definition.contains("array_i8: Array<number>;"));
    assert!(ts_definition.contains("array_u64: Array<number>;"));
    assert!(ts_definition.contains("array_f64: Array<number>;"));

    // Optional arrays should include "| undefined"
    assert!(ts_definition.contains("opt_array_i8: Array<number> | undefined;"));
    assert!(ts_definition.contains("opt_array_u64: Array<number> | undefined;"));
    assert!(ts_definition.contains("opt_array_f64: Array<number> | undefined;"));

    // HashMap with primitive values
    assert!(ts_definition.contains("map_to_i8: Partial<Record<string, number>>;"));
    assert!(ts_definition.contains("map_to_u64: Partial<Record<string, number>>;"));
    assert!(ts_definition.contains("map_to_f64: Partial<Record<string, number>>;"));

    // HashMap with array values
    assert!(ts_definition.contains("map_to_i8_array: Partial<Record<string, Array<number>>>;"));
    assert!(ts_definition.contains("map_to_u64_array: Partial<Record<string, Array<number>>>;"));
    assert!(ts_definition.contains("map_to_f64_array: Partial<Record<string, Array<number>>>;"));

    // Zod schemas - integers use .int(), floats don't - now in separate method
    let zod_schema = model("PrimitiveTypesShowcaseJson", &features).zod_schema.unwrap();
    assert!(zod_schema.contains("tiny_signed: z.number().int()"));
    assert!(zod_schema.contains("tiny_unsigned: z.number().int()"));
    assert!(zod_schema.contains("large_signed: z.number().int()"));
    assert!(zod_schema.contains("large_unsigned: z.number().int()"));
    assert!(zod_schema.contains("float_single: z.number()"));  // No .int() for floats
    assert!(zod_schema.contains("float_double: z.number()"));  // No .int() for floats

    // Optional Zod schemas
    assert!(zod_schema.contains("opt_i8: z.number().int().or(z.undefined())"));
    assert!(zod_schema.contains("opt_u64: z.number().int().or(z.undefined())"));
    assert!(zod_schema.contains("opt_f64: z.number().or(z.undefined())"));  // No .int() for float

    // Array Zod schemas
    assert!(zod_schema.contains("array_i8: z.array(z.number().int())"));
    assert!(zod_schema.contains("array_u64: z.array(z.number().int())"));
    assert!(zod_schema.contains("array_f64: z.array(z.number())"));  // No .int() for float

    // HashMap Zod schemas
    assert!(zod_schema.contains("map_to_i8: z.record(z.string(), z.number().int())"));
    assert!(zod_schema.contains("map_to_u64: z.record(z.string(), z.number().int())"));
    assert!(zod_schema.contains("map_to_f64: z.record(z.string(), z.number())"));  // No .int() for float

    // HashMap with array Zod schemas
    assert!(zod_schema.contains("map_to_i8_array: z.record(z.string(), z.array(z.number().int()))"));
    assert!(zod_schema.contains("map_to_u64_array: z.record(z.string(), z.array(z.number().int()))"));
    assert!(zod_schema.contains("map_to_f64_array: z.record(z.string(), z.array(z.number()))"));  // No .int() for float
}
