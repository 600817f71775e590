use serde_json::Value;
use tixschema::features::Features;
use tixschema::model_schema;
use tixschema::model_schema::CompiledModel;
#[allow(unused_imports)]
use tixschema::registry::{RegistryEntry, SchemaRegistry};
#[allow(unused_imports)]
use tixschema::syntax::{
    AttrArgs, Attribute, Field, Item, ItemEnum, ItemStruct, MetaItem, MetaValue, TypeExpr, Variant,
};

/// Splits `text` at the commas that stand outside every bracket.
#[allow(dead_code)]
fn split_top(text: &str) -> Vec<String> {
    let mut parts = Vec::new();
    let mut depth = 0i32;
    let mut current = String::new();
    for c in text.chars() {
        match c {
            '<' | '(' | '[' => {
                depth += 1;
                current.push(c);
            }
            '>' | ')' | ']' => {
                depth -= 1;
                current.push(c);
            }
            ',' if depth == 0 => {
                parts.push(current.trim().to_string());
                current = String::new();
            }
            _ => current.push(c),
        }
    }
    if !current.trim().is_empty() {
        parts.push(current.trim().to_string());
    }
    parts
}

/// The last segment of a path.
#[allow(dead_code)]
fn last_segment(path: &str) -> String {
    path.trim().rsplit("::").next().unwrap().trim().to_string()
}

/// Reads a type as it is written in a declaration.
#[allow(dead_code)]
fn ty(text: &str) -> TypeExpr {
    let text = text.trim();
    if let Some(rest) = text.strip_prefix('&') {
        return TypeExpr::Ref(Box::new(ty(rest)));
    }
    if text.starts_with('(') && text.ends_with(')') {
        let inner = &text[1..text.len() - 1];
        return TypeExpr::Tuple(split_top(inner).iter().map(|t| ty(t)).collect());
    }
    if text.starts_with('[') && text.ends_with(']') {
        let inner = &text[1..text.len() - 1];
        return match inner.rfind(';') {
            Some(at) => TypeExpr::Array(Box::new(ty(&inner[..at]))),
            None => TypeExpr::Slice(Box::new(ty(inner))),
        };
    }
    match text.find('<') {
        Some(open) => {
            let args = &text[open + 1..text.len() - 1];
            TypeExpr::Generic(
                last_segment(&text[..open]),
                split_top(args).iter().map(|t| ty(t)).collect(),
            )
        }
        None => TypeExpr::Named(last_segment(text)),
    }
}

/// `#[path(key = "value", ..)]`; an entry without a value is a bare key.
#[allow(dead_code)]
fn list(path: &str, entries: Vec<(&str, Option<MetaValue>)>) -> Attribute {
    Attribute {
        path: path.to_string(),
        args: AttrArgs::List(
            entries
                .into_iter()
                .map(|(key, value)| MetaItem { key: key.to_string(), value })
                .collect(),
        ),
    }
}

#[allow(dead_code)]
fn text(value: &str) -> Option<MetaValue> {
    Some(MetaValue::Str(value.to_string()))
}

#[allow(dead_code)]
fn number(value: usize) -> Option<MetaValue> {
    Some(MetaValue::Int(Some(value)))
}

#[allow(dead_code)]
fn type_value(value: &str) -> Option<MetaValue> {
    Some(MetaValue::Type(value.to_string()))
}

/// `#[doc = "text"]`, as a documentation comment is handed over.
#[allow(dead_code)]
fn doc(line: &str) -> Attribute {
    Attribute { path: "doc".to_string(), args: AttrArgs::Value(MetaValue::Str(line.to_string())) }
}

#[allow(dead_code)]
fn field(attrs: Vec<Attribute>, name: &str, written: &str) -> Field {
    Field { attrs, ident: Some(name.to_string()), ty: ty(written) }
}

#[allow(dead_code)]
fn record(attrs: Vec<Attribute>, name: &str, fields: Vec<Field>) -> Item {
    Item::Struct(ItemStruct { attrs, ident: name.to_string(), fields })
}

#[allow(dead_code)]
fn variant(attrs: Vec<Attribute>, name: &str, fields: Option<Vec<Field>>) -> Variant {
    Variant { attrs, ident: name.to_string(), fields }
}

#[allow(dead_code)]
fn enumeration(attrs: Vec<Attribute>, name: &str, variants: Vec<Variant>) -> Item {
    Item::Enum(ItemEnum { attrs, ident: name.to_string(), variants })
}

/// Every capability switched on.
#[allow(dead_code)]
fn all_features() -> Features {
    Features::all()
}

/// The named capabilities switched on and no other.
#[allow(dead_code)]
fn only(names: &[&str]) -> Features {
    Features {
        serde: names.contains(&"serde"),
        zod: names.contains(&"zod"),
        jsonschema: names.contains(&"jsonschema"),
        object_id: names.contains(&"object_id"),
        typescript: names.contains(&"typescript"),
    }
}

#[allow(dead_code)]
fn declared_name(item: &Item) -> String {
    match item {
        Item::Struct(s) => s.ident.clone(),
        Item::Enum(e) => e.ident.clone(),
        Item::Other(what) => what.clone(),
    }
}

/// Compiles `items` in order, each against the schemas of those before it,
/// and hands back the one declared as `name`.
#[allow(dead_code)]
fn compile(items: Vec<Item>, name: &str, features: &Features) -> CompiledModel {
    let mut registry = SchemaRegistry::new();
    let mut found = None;
    for item in items.iter() {
        let declared = declared_name(item);
        let compiled = model_schema(item, features, &registry);
        if let Ok(model) = &compiled {
            registry.register_model(model);
        }
        if declared == name {
            found = Some(compiled);
        }
    }
    match found {
        Some(Ok(model)) => model,
        Some(Err(e)) => panic!("{}", e.message()),
        None => panic!("no declaration named {}", name),
    }
}

/// The static type and the validator of a compiled declaration as one text.
#[allow(dead_code)]
fn definitions(model: &CompiledModel) -> String {
    format!(
        "{}\n\n{}",
        model.ts_definition.clone().unwrap_or_default(),
        model.zod_schema.clone().unwrap_or_default()
    )
}

/// The declarations of this file, each behind those it names.
fn declarations() -> Vec<Item> {
    vec![
    record(vec![], "AddressJson", vec![
        field(vec![], "street", "String"),
        field(vec![], "city", "String"),
        field(vec![], "state", "String"),
        field(vec![], "zip_code", "String"),
        field(vec![], "country", "String")
    ]),
    enumeration(vec![list("serde", vec![("tag", text("type")), ("rename_all", text("camelCase"))])], "RetirementPlanJson", vec![
        variant(vec![], "Option401k", Some(vec![
        field(vec![], "employer_match_percentage", "f32"),
        field(vec![], "vesting_schedule", "String")
    ])),
        variant(vec![], "Pension", Some(vec![
        field(vec![], "years_of_service_required", "u32"),
        field(vec![], "monthly_benefit_multiplier", "f32")
    ])),
        variant(vec![], "Roth", Some(vec![
        field(vec![], "contribution_limit", "u32"),
        field(vec![], "employer_contribution", "bool")
    ]))
    ]),
    record(vec![list("serde", vec![("rename_all", text("camelCase"))])], "CompanySettingsJson", vec![
        field(vec![], "allow_remote_work", "bool"),
        field(vec![], "max_vacation_days", "u32"),
        field(vec![], "health_insurance_provider", "Option<String>"),
        field(vec![], "retirement_plan", "Option<RetirementPlanJson>")
    ]),
    record(vec![], "EmergencyContactJson", vec![
        field(vec![], "name", "String"),
        field(vec![], "relationship", "String"),
        field(vec![], "phone", "String")
    ]),
    record(vec![], "ContactInfoJson", vec![
        field(vec![], "email", "String"),
        field(vec![], "phone", "Option<String>"),
        field(vec![], "emergency_contact", "Option<EmergencyContactJson>")
    ]),
    record(vec![], "EmployeeJson", vec![
        field(vec![], "id", "String"),
        field(vec![], "name", "String"),
        field(vec![], "position", "String"),
        field(vec![], "salary", "u32"),
        field(vec![], "manager", "Option<String>"),
        field(vec![], "skills", "Vec<String>"),
        field(vec![], "contact", "ContactInfoJson")
    ]),
    record(vec![], "CompanyJson", vec![
        field(vec![], "id", "String"),
        field(vec![], "name", "String"),
        field(vec![], "employees", "Vec<EmployeeJson>"),
        field(vec![], "department_names", "Vec<String>"),
        field(vec![], "headquarters", "AddressJson"),
        field(vec![], "settings", "CompanySettingsJson")
    ]),
    enumeration(vec![list("serde", vec![("rename_all", text("camelCase"))])], "ProjectStatusJson", vec![
        variant(vec![], "NotStarted", None),
        variant(vec![], "InProgress", None),
        variant(vec![], "OnHold", None),
        variant(vec![], "Completed", None),
        variant(vec![], "Cancelled", None)
    ]),
    record(vec![], "ProjectJson", vec![
        field(vec![], "id", "String"),
        field(vec![], "name", "String"),
        field(vec![], "status", "ProjectStatusJson"),
        field(vec![], "assigned_employees", "Vec<String>"),
        field(vec![], "deadline", "Option<String>"),
        field(vec![], "budget", "Option<u32>")
    ]),
    record(vec![], "EdgeCasesJson", vec![
        field(vec![], "tiny_number", "u8"),
        field(vec![], "small_number", "u16"),
        field(vec![], "medium_number", "u32"),
        field(vec![], "float_number", "f32"),
        field(vec![], "strings", "Vec<String>"),
        field(vec![], "numbers", "Vec<u32>"),
        field(vec![], "booleans", "Vec<bool>"),
        field(vec![], "optional_strings", "Option<Vec<String>>"),
        field(vec![], "optional_numbers", "Option<Vec<u32>>"),
        field(vec![], "string_map", "HashMap<String, String>"),
        field(vec![], "nested_optional", "Option<ContactInfoJson>"),
        field(vec![], "nested_array", "Vec<ContactInfoJson>"),
        field(vec![], "optional_nested_array", "Option<Vec<ContactInfoJson>>")
    ]),
    record(vec![], "PurchaseItemJson", vec![
        field(vec![], "product_id", "String"),
        field(vec![], "quantity", "u32"),
        field(vec![], "unit_price", "u32"),
        field(vec![], "discount_applied", "Option<u32>")
    ]),
    enumeration(vec![list("serde", vec![("tag", text("eventType")), ("rename_all", text("camelCase"))])], "ComplexEventJson", vec![
        variant(vec![], "UserRegistered", Some(vec![
        field(vec![], "user_id", "String"),
        field(vec![], "email", "String"),
        field(vec![], "registration_source", "String"),
        field(vec![], "metadata", "HashMap<String, String>"),
        field(vec![], "preferences", "Vec<String>")
    ])),
        variant(vec![], "PurchaseCompleted", Some(vec![
        field(vec![], "user_id", "String"),
        field(vec![], "order_id", "String"),
        field(vec![], "items", "Vec<PurchaseItemJson>"),
        field(vec![], "total_amount", "u32"),
        field(vec![], "payment_method", "String"),
        field(vec![], "shipping_address", "Option<AddressJson>")
    ])),
        variant(vec![], "SystemMaintenance", Some(vec![
        field(vec![], "scheduled_start", "String"),
        field(vec![], "estimated_duration", "u32"),
        field(vec![], "affected_services", "Vec<String>"),
        field(vec![], "notification_sent", "bool")
    ]))
    ]),
    record(vec![doc(" A user account in the system")], "DocumentedUserJson", vec![
        field(vec![doc(" The unique identifier for the user")], "id", "String"),
        field(vec![doc(" The user's full name")], "name", "String"),
        field(vec![doc(" The user's email address")], "email", "String"),
        field(vec![doc(" Whether the user's account is active")], "is_active", "bool"),
        field(vec![doc(" Optional additional metadata")], "metadata", "Option<HashMap<String, String>>")
    ]),
    ]
}

fn model(name: &str, features: &Features) -> CompiledModel {
    compile(declarations(), name, features)
}

#[test]
fn test_complex_nested_json_schema() {
    let features = all_features();
    let company_schema = model("CompanyJson", &features).json_schema.unwrap();
    let employee_schema = model("EmployeeJson", &features).json_schema.unwrap();
    let project_schema = model("ProjectJson", &features).json_schema.unwrap();
    let contact_schema = model("ContactInfoJson", &features).json_schema.unwrap();
    let settings_schema = model("CompanySettingsJson", &features).json_schema.unwrap();
    let retirement_schema = model("RetirementPlanJson", &features).json_schema.unwrap();

    // Verify all schemas are objects
    assert_eq!(company_schema["type"], "object");
    assert_eq!(employee_schema["type"], "object");
    assert_eq!(project_schema["type"], "object");
    assert_eq!(contact_schema["type"], "object");
    assert_eq!(settings_schema["type"], "object");
    assert_eq!(retirement_schema["type"], "object");

    // Verify Company schema has all expected properties
    let company_properties = company_schema["properties"].as_object().unwrap();
    assert!(company_properties.contains_key("id"));
    assert!(company_properties.contains_key("name"));
    assert!(company_properties.contains_key("employees"));
    assert!(company_properties.contains_key("department_names"));
    assert!(company_properties.contains_key("headquarters"));
    assert!(company_properties.contains_key("settings"));

    // Verify array properties are correctly typed
    assert_eq!(company_properties["employees"]["type"], "array");
    assert_eq!(company_properties["department_names"]["type"], "array");
    assert_eq!(company_properties["department_names"]["items"]["type"], "string");

    // Verify RetirementPlan is a discriminated union
    assert!(retirement_schema.get("oneOf").is_some());
    let one_of = retirement_schema["oneOf"].as_array().unwrap();
    assert_eq!(one_of.len(), 3);
}

#[test]
fn test_complex_nested_ts_definition() {
    let features = all_features();
    let company_definition = definitions(&model("CompanyJson", &features));
    let employee_definition = definitions(&model("EmployeeJson", &features));
    let retirement_definition = definitions(&model("RetirementPlanJson", &features));

    // Check that nested types are properly referenced (without Json suffix)
    assert!(company_definition.contains("employees: Array<Employee>;"));
    assert!(company_definition.contains("department_names: Array<string>;"));
    assert!(company_definition.contains("headquarters: Address;"));
    assert!(company_definition.contains("settings: CompanySettings;"));

    // Check Zod schema references (without Json suffix)
    assert!(company_definition.contains("employees: z.array(Employee$Schema)"));
    assert!(company_definition.contains("department_names: z.array(z.string())"));
    assert!(company_definition.contains("headquarters: Address$Schema"));
    assert!(company_definition.contains("settings: CompanySettings$Schema"));

    // Check optional fields in nested structures
    assert!(employee_definition.contains("manager: string | undefined;"));
    assert!(employee_definition.contains("manager: z.string().or(z.undefined())"));

    // Check discriminated union
    assert!(retirement_definition.contains("type: \"option401k\""));
    assert!(retirement_definition.contains("type: \"pension\""));
    assert!(retirement_definition.contains("type: \"roth\""));
    assert!(retirement_definition.contains("employerMatchPercentage: number;"));
    assert!(retirement_definition.contains("yearsOfServiceRequired: number;"));
    assert!(retirement_definition.contains("contributionLimit: number;"));
}

#[test]
fn test_edge_cases_json_schema() {
    let features = all_features();
    let schema = model("EdgeCasesJson", &features).json_schema.unwrap();
    let properties = schema["properties"].as_object().unwrap();

    // Check numeric types
    assert_eq!(properties["tiny_number"]["type"], "integer");
    assert_eq!(properties["small_number"]["type"], "integer");
    assert_eq!(properties["medium_number"]["type"], "integer");
    assert_eq!(properties["float_number"]["type"], "number");

    // Check array types
    assert_eq!(properties["strings"]["type"], "array");
    assert_eq!(properties["strings"]["items"]["type"], "string");
    assert_eq!(properties["numbers"]["type"], "array");
    assert_eq!(properties["numbers"]["items"]["type"], "integer");
    assert_eq!(properties["booleans"]["type"], "array");
    assert_eq!(properties["booleans"]["items"]["type"], "boolean");

    // Check map types
    assert_eq!(properties["string_map"]["type"], "object");
    assert_eq!(properties["string_map"]["additionalProperties"]["type"], "string");

    // Check required vs optional fields
    let required = schema["required"].as_array().unwrap();
    assert!(required.contains(&Value::String("tiny_number".to_string())));
    assert!(required.contains(&Value::String("strings".to_string())));
    assert!(required.contains(&Value::String("string_map".to_string())));
    assert!(!required.contains(&Value::String("optional_strings".to_string())));
    assert!(!required.contains(&Value::String("nested_optional".to_string())));
    assert!(!required.contains(&Value::String("optional_nested_array".to_string())));
}

#[test]
fn test_edge_cases_ts_definition() {
    let features = all_features();
    let ts_definition = definitions(&model("EdgeCasesJson", &features));

    // Check numeric types (all should be 'number' in TypeScript)
    assert!(ts_definition.contains("tiny_number: number;"));
    assert!(ts_definition.contains("small_number: number;"));
    assert!(ts_definition.contains("medium_number: number;"));
    assert!(ts_definition.contains("float_number: number;"));

    // Check array types
    assert!(ts_definition.contains("strings: Array<string>;"));
    assert!(ts_definition.contains("numbers: Array<number>;"));
    assert!(ts_definition.contains("booleans: Array<boolean>;"));

    // Check optional arrays
    assert!(ts_definition.contains("optional_strings: Array<string> | undefined;"));
    assert!(ts_definition.contains("optional_numbers: Array<number> | undefined;"));

    // Check maps (they become Partial<Record<...>> in the generated output)
    assert!(ts_definition.contains("string_map: Partial<Record<string, string>>;"));

    // Check nested types (without Json suffix)
    assert!(ts_definition.contains("nested_optional: ContactInfo | undefined;"));
    assert!(ts_definition.contains("nested_array: Array<ContactInfo>;"));
    assert!(ts_definition.contains("optional_nested_array: Array<ContactInfo> | undefined;"));

    // Check Zod schemas (without Json suffix)
    assert!(ts_definition.contains("tiny_number: z.number().int()"));
    assert!(ts_definition.contains("float_number: z.number()"));
    assert!(ts_definition.contains("optional_strings: z.array(z.string()).or(z.undefined())"));
    assert!(ts_definition.contains("nested_optional: ContactInfo$Schema.or(z.undefined())"));
    assert!(ts_definition.contains("optional_nested_array: z.array(ContactInfo$Schema).or(z.undefined())"));
}

#[test]
fn test_complex_discriminated_union() {
    let features = all_features();
    let schema = model("ComplexEventJson", &features).json_schema.unwrap();
    let ts_definition = definitions(&model("ComplexEventJson", &features));

    // Check that it's a discriminated union
    assert_eq!(schema["type"], "object");
    assert!(schema.get("oneOf").is_some());
    let one_of = schema["oneOf"].as_array().unwrap();
    assert_eq!(one_of.len(), 3);

    // Check that each variant has the correct discriminator
    for variant in one_of {
        let properties = variant["properties"].as_object().unwrap();
        assert!(properties.contains_key("eventType"));
        assert_eq!(properties["eventType"]["type"], "string");
        assert!(properties["eventType"].get("const").is_some());
    }

    // Check TypeScript definition
    assert!(ts_definition.contains("eventType: \"userRegistered\""));
    assert!(ts_definition.contains("eventType: \"purchaseCompleted\""));
    assert!(ts_definition.contains("eventType: \"systemMaintenance\""));

    // Check that field names are converted to camelCase
    assert!(ts_definition.contains("userId: string;"));
    assert!(ts_definition.contains("registrationSource: string;"));
    assert!(ts_definition.contains("orderId: string;"));
    assert!(ts_definition.contains("totalAmount: number;"));
    assert!(ts_definition.contains("paymentMethod: string;"));
    // Address type reference should not have Json suffix
    assert!(ts_definition.contains("shippingAddress: Address | undefined;"));
    assert!(ts_definition.contains("scheduledStart: string;"));
    assert!(ts_definition.contains("estimatedDuration: number;"));
    assert!(ts_definition.contains("affectedServices: Array<string>;"));
    assert!(ts_definition.contains("notificationSent: boolean;"));

    // Check Zod discriminated union
    assert!(ts_definition.contains("z.discriminatedUnion(\"eventType\""));
}

#[test]
fn test_documented_struct() {
    let features = all_features();
    let schema = model("DocumentedUserJson", &features).json_schema.unwrap();
    let ts_definition = definitions(&model("DocumentedUserJson", &features));

    // Schema should still be valid
    assert_eq!(schema["type"], "object");
    let properties = schema["properties"].as_object().unwrap();
    assert!(properties.contains_key("id"));
    assert!(properties.contains_key("name"));
    assert!(properties.contains_key("email"));
    assert!(properties.contains_key("is_active"));
    assert!(properties.contains_key("metadata"));

    // TypeScript definition should be generated (without Json suffix)
    assert!(ts_definition.contains("export type DocumentedUser = {"));
    assert!(ts_definition.contains("id: string;"));
    assert!(ts_definition.contains("name: string;"));
    assert!(ts_definition.contains("email: string;"));
    assert!(ts_definition.contains("is_active: boolean;"));
    // HashMap becomes Partial<Record<...>>
    assert!(ts_definition.contains("metadata: Partial<Record<string, string>> | undefined;"));
}

#[test]
fn test_json_schema_validation() {
    let features = all_features();
    let schemas = vec![
        ("CompanyJson", model("CompanyJson", &features).json_schema.unwrap()),
        ("EmployeeJson", model("EmployeeJson", &features).json_schema.unwrap()),
        ("ProjectStatusJson", model("ProjectStatusJson", &features).json_schema.unwrap()),
        ("RetirementPlanJson", model("RetirementPlanJson", &features).json_schema.unwrap()),
        ("EdgeCasesJson", model("EdgeCasesJson", &features).json_schema.unwrap()),
        ("ComplexEventJson", model("ComplexEventJson", &features).json_schema.unwrap()),
    ];

    for (name, schema) in schemas {
        // All schemas should be objects
        assert!(schema.is_object(), "Schema for {} should be an object", name);

        // Should have required fields
        assert!(schema.get("type").is_some(), "Schema for {} should have a type", name);

        // Object schemas should have properties
        if schema["type"] == "object" {
            if let Some(one_of) = schema.get("oneOf") {
                // Discriminated union - check each variant
                let variants = one_of.as_array().unwrap();
                for variant in variants {
                    assert!(variant.get("properties").is_some(),
                        "Discriminated union variant for {} should have properties", name);
                }
            } else {
                // Regular object - should have properties
                assert!(schema.get("properties").is_some(),
                    "Object schema for {} should have properties", name);
            }
        }

        // Should be valid JSON
        let json_str = serde_json::to_string(&schema).unwrap();
        let _: Value = serde_json::from_str(&json_str).unwrap();
    }
}
