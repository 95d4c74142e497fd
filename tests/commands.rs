//! Commands of an application: each runs as the server command re-emits it,
//! and each declaration yields the stubs that call it.

use tauri_bridge::{
    generate_backend, generate_client, FunctionItem, FunctionSignature, Param, TypeDescriptor,
};

fn named(path: &str) -> TypeDescriptor {
    generic(path, vec![])
}

fn generic(path: &str, args: Vec<TypeDescriptor>) -> TypeDescriptor {
    TypeDescriptor::Named { path: path.split("::").map(|s| s.to_string()).collect(), args }
}

fn refer(inner: TypeDescriptor) -> TypeDescriptor {
    TypeDescriptor::Reference { mutable: false, scope: None, inner: Box::new(inner) }
}

fn signature(
    vis: &str,
    name: &str,
    params: Vec<(&str, TypeDescriptor)>,
    output: Option<TypeDescriptor>,
) -> FunctionSignature {
    FunctionSignature {
        name: name.to_string(),
        visibility: vis.to_string(),
        is_async: false,
        params: params.into_iter().map(|(n, ty)| Param { attributes: vec![], name: n.to_string(), ty }).collect(),
        output,
        metadata: vec![],
    }
}

fn item(signature: FunctionSignature, body: &str) -> FunctionItem {
    FunctionItem {
        signature,
        generics: String::new(),
        where_clause: String::new(),
        body: body.to_string(),
    }
}

fn normalize(text: &str) -> String {
    text.split_whitespace().collect::<Vec<_>>().join(" ")
}

fn contains_pattern(generated: &str, pattern: &str) -> bool {
    normalize(generated).contains(pattern)
}

#[derive(Debug, Clone, PartialEq)]
pub struct User {
    pub id: u64,
    pub name: String,
    pub email: Option<String>,
}

#[derive(Debug, Clone, PartialEq)]
pub enum Status {
    Active,
    Inactive,
    Pending,
}

#[derive(Debug, Clone, PartialEq)]
pub struct ApiResponse<T> {
    pub success: bool,
    pub data: Option<T>,
    pub error: Option<String>,
}

pub fn greet(name: &str) -> String {
    format!("Hello, {}!", name)
}

pub fn add_numbers(a: i32, b: i32) -> i32 {
    a + b
}

pub fn get_user(id: u64) -> Option<User> {
    if id > 0 {
        Some(User {
            id,
            name: format!("User{}", id),
            email: Some(format!("user{}@example.com", id)),
        })
    } else {
        None
    }
}

pub fn create_user(name: String, email: Option<String>) -> User {
    User { id: 1, name, email }
}

pub fn validate_input(input: &str) -> Result<String, String> {
    if input.is_empty() {
        Err("Input cannot be empty".to_string())
    } else if input.len() > 100 {
        Err("Input too long".to_string())
    } else {
        Ok(format!("Valid: {}", input))
    }
}

pub fn check_status(user: User) -> Status {
    if user.email.is_some() {
        Status::Active
    } else {
        Status::Pending
    }
}

pub fn process_users(users: Vec<User>) -> ApiResponse<Vec<String>> {
    let names: Vec<String> = users.into_iter().map(|u| u.name).collect();
    ApiResponse { success: true, data: Some(names), error: None }
}

pub fn echo_bool(value: bool) -> bool {
    value
}

pub fn count_items(items: Vec<String>) -> u64 {
    items.len() as u64
}

pub fn noop() {}

fn greet_signature() -> FunctionSignature {
    signature("pub", "greet", vec![("name", refer(named("str")))], Some(named("String")))
}

fn greet_command() -> String {
    generate_backend(&item(greet_signature(), "{ format ! (\"Hello, {}!\" , name) }"))
}

#[test]
fn test_greet_command() {
    assert!(contains_pattern(&greet_command(), "mod __tauri_cmd_greet { use super :: * ; # [tauri :: command] pub fn greet"));
    assert_eq!(greet("Tauri"), "Hello, Tauri!");
}

#[test]
fn test_add_numbers_command() {
    let sig = signature("pub", "add_numbers", vec![("a", named("i32")), ("b", named("i32"))], Some(named("i32")));
    let client = generate_client(&sig);
    assert!(contains_pattern(&client, "crate :: invoke (\"add_numbers\" , args)"));
    assert!(contains_pattern(&client, "& AddNumbersArgs { a , b }"));
    assert_eq!(add_numbers(5, 3), 8);
    assert_eq!(add_numbers(-10, 10), 0);
    assert_eq!(add_numbers(0, 0), 0);
}

#[test]
fn test_get_user_command() {
    let output = generic("Option", vec![named("User")]);
    let sig = signature("pub", "get_user", vec![("id", named("u64"))], Some(output));
    let client = generate_client(&sig);
    assert!(contains_pattern(&client, "-> Result < Option < User > , String >"));
    let user = get_user(1).unwrap();
    assert_eq!(user.id, 1);
    assert_eq!(user.name, "User1");
    assert!(user.email.is_some());
    assert!(get_user(0).is_none());
}

#[test]
fn test_create_user_command() {
    let email = generic("Option", vec![named("String")]);
    let sig = signature("pub", "create_user", vec![("name", named("String")), ("email", email)], Some(named("User")));
    let client = generate_client(&sig);
    assert!(contains_pattern(&client, "struct CreateUserArgs { name : String , email : Option < String > }"));
    let user = create_user("Alice".to_string(), Some("alice@example.com".to_string()));
    assert_eq!(user.id, 1);
    assert_eq!(user.name, "Alice");
    assert_eq!(user.email, Some("alice@example.com".to_string()));

    let user_no_email = create_user("Bob".to_string(), None);
    assert_eq!(user_no_email.name, "Bob");
    assert!(user_no_email.email.is_none());
}

#[test]
fn test_validate_input_command() {
    let output = generic("Result", vec![named("String"), named("String")]);
    let sig = signature("pub", "validate_input", vec![("input", refer(named("str")))], Some(output));
    let client = generate_client(&sig);
    assert!(contains_pattern(&client, "struct ValidateInputArgs < 'a > { input : & 'a str }"));
    assert_eq!(validate_input("hello").unwrap(), "Valid: hello");
    assert_eq!(validate_input("").unwrap_err(), "Input cannot be empty");
    assert_eq!(validate_input(&"x".repeat(101)).unwrap_err(), "Input too long");
}

#[test]
fn test_check_status_command() {
    let sig = signature("pub", "check_status", vec![("user", named("User"))], Some(named("Status")));
    let client = generate_client(&sig);
    assert!(contains_pattern(&client, "Failed to deserialize response"));
    let active_user = User {
        id: 1,
        name: "Alice".to_string(),
        email: Some("alice@example.com".to_string()),
    };
    assert_eq!(check_status(active_user), Status::Active);

    let pending_user = User { id: 2, name: "Bob".to_string(), email: None };
    assert_eq!(check_status(pending_user), Status::Pending);
    assert_ne!(Status::Inactive, Status::Active);
}

#[test]
fn test_process_users_command() {
    let users_ty = generic("Vec", vec![named("User")]);
    let output = generic("ApiResponse", vec![generic("Vec", vec![named("String")])]);
    let sig = signature("pub", "process_users", vec![("users", users_ty)], Some(output));
    let client = generate_client(&sig);
    assert!(contains_pattern(&client, "-> Result < ApiResponse < Vec < String > > , String >"));
    let users = vec![
        User { id: 1, name: "Alice".to_string(), email: None },
        User { id: 2, name: "Bob".to_string(), email: None },
        User { id: 3, name: "Charlie".to_string(), email: None },
    ];
    let response = process_users(users);
    assert!(response.success);
    assert!(response.error.is_none());
    assert_eq!(response.data.unwrap(), vec!["Alice", "Bob", "Charlie"]);
}

#[test]
fn test_echo_bool_command() {
    let sig = signature("pub", "echo_bool", vec![("value", named("bool"))], Some(named("bool")));
    let client = generate_client(&sig);
    assert!(contains_pattern(&client, "Expected bool response"));
    assert!(echo_bool(true));
    assert!(!echo_bool(false));
}

#[test]
fn test_count_items_command() {
    let items = generic("Vec", vec![named("String")]);
    let sig = signature("pub", "count_items", vec![("items", items)], Some(named("u64")));
    let client = generate_client(&sig);
    assert!(contains_pattern(&client, "Failed to deserialize number"));
    assert_eq!(count_items(vec!["a".into(), "b".into(), "c".into()]), 3);
    assert_eq!(count_items(vec![]), 0);
}

#[test]
fn test_noop_command() {
    let sig = signature("pub", "noop", vec![], None);
    let client = generate_client(&sig);
    assert!(contains_pattern(&client, "pub async fn noop () -> () { try_noop () . await . unwrap () }"));
    let backend = generate_backend(&item(sig, "{ }"));
    assert!(contains_pattern(&backend, "pub fn noop () { }"));
    noop();
}

#[test]
fn test_unicode_handling() {
    assert!(contains_pattern(&greet_command(), "pub use __tauri_cmd_greet :: greet ;"));
    assert_eq!(greet("世界"), "Hello, 世界!");
    assert_eq!(greet("🦀 Rust"), "Hello, 🦀 Rust!");
    assert_eq!(greet("مرحبا"), "Hello, مرحبا!");
}

#[test]
fn test_empty_string_handling() {
    assert!(contains_pattern(&greet_command(), "(name : & str) -> String"));
    assert_eq!(greet(""), "Hello, !");
}

#[test]
fn test_large_input_handling() {
    let client = generate_client(&greet_signature());
    assert!(contains_pattern(&client, "Expected string response"));
    let large_name = "x".repeat(10000);
    let result = greet(&large_name);
    assert!(result.starts_with("Hello, "));
    assert!(result.len() > 10000);
}

#[test]
fn test_special_characters_handling() {
    let client = generate_client(&greet_signature());
    assert!(contains_pattern(&client, "crate :: invoke (\"greet\" , args)"));
    assert_eq!(greet("Test<>&\"'"), "Hello, Test<>&\"'!");
    assert_eq!(greet("Line1\nLine2\tTabbed"), "Hello, Line1\nLine2\tTabbed!");
}
