//! Bridged functions: the command re-emits each body unchanged, and the
//! stubs follow from each declaration.

use tauri_bridge::{
    generate_backend, generate_client, tauri_bridge, FunctionItem, FunctionSignature, Param,
    TypeDescriptor,
};

fn named(path: &str) -> TypeDescriptor {
    generic(path, vec![])
}

fn generic(path: &str, args: Vec<TypeDescriptor>) -> TypeDescriptor {
    TypeDescriptor::Named { path: path.split("::").map(|s| s.to_string()).collect(), args }
}

fn refer(inner: TypeDescriptor) -> TypeDescriptor {
    TypeDescriptor::Reference { mutable: false, scope: None, inner: Box::new(inner) }
}

fn signature(
    vis: &str,
    name: &str,
    params: Vec<(&str, TypeDescriptor)>,
    output: Option<TypeDescriptor>,
) -> FunctionSignature {
    FunctionSignature {
        name: name.to_string(),
        visibility: vis.to_string(),
        is_async: false,
        params: params.into_iter().map(|(n, ty)| Param { attributes: vec![], name: n.to_string(), ty }).collect(),
        output,
        metadata: vec![],
    }
}

fn item(signature: FunctionSignature, body: &str) -> FunctionItem {
    FunctionItem {
        signature,
        generics: String::new(),
        where_clause: String::new(),
        body: body.to_string(),
    }
}

fn normalize(text: &str) -> String {
    text.split_whitespace().collect::<Vec<_>>().join(" ")
}

fn contains_pattern(generated: &str, pattern: &str) -> bool {
    normalize(generated).contains(pattern)
}

pub fn greet(name: &str) -> String {
    format!("Hello, {}!", name)
}

pub fn get_version() -> String {
    "1.0.0".to_string()
}

pub fn add(a: i32, b: i32) -> i32 {
    a + b
}

pub fn is_even(n: i32) -> bool {
    n % 2 == 0
}

pub fn maybe_greet(name: Option<String>) -> String {
    match name {
        Some(n) => format!("Hello, {}!", n),
        None => "Hello, stranger!".to_string(),
    }
}

pub fn sum_numbers(numbers: Vec<i32>) -> i32 {
    numbers.iter().sum()
}

pub fn log_message(message: &str) {
    println!("LOG: {}", message);
}

pub fn divide(a: i32, b: i32) -> Result<i32, String> {
    if b == 0 {
        Err("Cannot divide by zero".to_string())
    } else {
        Ok(a / b)
    }
}

pub fn concat(a: &str, b: &str) -> String {
    format!("{}{}", a, b)
}

fn str_ref() -> TypeDescriptor {
    refer(named("str"))
}

fn greet_item() -> FunctionItem {
    item(
        signature("pub", "greet", vec![("name", str_ref())], Some(named("String"))),
        "{ format ! (\"Hello, {}!\" , name) }",
    )
}

#[test]
fn test_greet_function_exists() {
    let backend = generate_backend(&greet_item());
    assert!(contains_pattern(&backend, "# [tauri :: command] pub fn greet (name : & str) -> String { format ! (\"Hello, {}!\" , name) }"));
    assert_eq!(greet("World"), "Hello, World!");
}

#[test]
fn test_get_version_exists() {
    let sig = signature("pub", "get_version", vec![], Some(named("String")));
    let client = generate_client(&sig);
    assert!(contains_pattern(&client, "serde_wasm_bindgen :: to_value (& serde_json :: Value :: Null)"));
    assert!(!contains_pattern(&client, "GetVersionArgs"));
    assert_eq!(get_version(), "1.0.0");
}

#[test]
fn test_add_function_exists() {
    let sig = signature("pub", "add", vec![("a", named("i32")), ("b", named("i32"))], Some(named("i32")));
    let client = generate_client(&sig);
    assert!(contains_pattern(&client, "struct AddArgs { a : i32 , b : i32 }"));
    assert!(contains_pattern(&client, "Failed to deserialize number"));
    assert_eq!(add(2, 3), 5);
}

#[test]
fn test_is_even_function() {
    let sig = signature("pub", "is_even", vec![("n", named("i32"))], Some(named("bool")));
    let client = generate_client(&sig);
    assert!(contains_pattern(&client, "result . as_bool () . ok_or_else (|| \"Expected bool response\" . to_string ())"));
    assert!(is_even(4));
    assert!(!is_even(3));
}

#[test]
fn test_maybe_greet_function() {
    let option = generic("Option", vec![named("String")]);
    let sig = signature("pub", "maybe_greet", vec![("name", option)], Some(named("String")));
    let client = generate_client(&sig);
    assert!(contains_pattern(&client, "struct MaybeGreetArgs { name : Option < String > }"));
    assert_eq!(maybe_greet(Some("Alice".to_string())), "Hello, Alice!");
    assert_eq!(maybe_greet(None), "Hello, stranger!");
}

#[test]
fn test_sum_numbers_function() {
    let numbers = generic("Vec", vec![named("i32")]);
    let sig = signature("pub", "sum_numbers", vec![("numbers", numbers)], Some(named("i32")));
    let client = generate_client(&sig);
    assert!(contains_pattern(&client, "pub async fn sum_numbers (numbers : Vec < i32 >) -> i32"));
    assert_eq!(sum_numbers(vec![1, 2, 3, 4, 5]), 15);
    assert_eq!(sum_numbers(vec![]), 0);
}

#[test]
fn test_log_message_compiles() {
    let sig = signature("pub", "log_message", vec![("message", str_ref())], None);
    let client = generate_client(&sig);
    assert!(contains_pattern(&client, "pub async fn try_log_message < 'a > (message : & 'a str) -> Result < () , String >"));
    assert!(contains_pattern(&client, "Ok (())"));
    log_message("test message");
}

#[test]
fn test_divide_function() {
    let result = generic("Result", vec![named("i32"), named("String")]);
    let sig = signature("pub", "divide", vec![("a", named("i32")), ("b", named("i32"))], Some(result));
    let client = generate_client(&sig);
    assert!(contains_pattern(&client, "-> Result < Result < i32 , String > , String >"));
    assert!(contains_pattern(&client, "Failed to deserialize response"));
    assert_eq!(divide(10, 2), Ok(5));
    assert_eq!(divide(10, 0), Err("Cannot divide by zero".to_string()));
}

#[test]
fn test_concat_function() {
    let sig = signature("pub", "concat", vec![("a", str_ref()), ("b", str_ref())], Some(named("String")));
    let client = generate_client(&sig);
    assert!(contains_pattern(&client, "struct ConcatArgs < 'a > { a : & 'a str , b : & 'a str }"));
    assert!(contains_pattern(&client, "try_concat (a , b) . await . unwrap ()"));
    assert_eq!(concat("Hello, ", "World!"), "Hello, World!");
}

#[test]
fn test_macro_generates_valid_code() {
    let both = tauri_bridge(&greet_item());
    assert!(contains_pattern(&both, "pub use __tauri_cmd_greet :: greet ;"));
    assert!(contains_pattern(&both, "pub async fn try_greet"));
    let _ = greet("test");
}

#[test]
fn macro_expansion_test_macro_generates_valid_code() {
    let client = generate_client(&greet_item().signature);
    assert!(contains_pattern(&client, "# [cfg (target_arch = \"wasm32\")]"));
    assert!(!contains_pattern(&client, "tauri :: command"));
}
