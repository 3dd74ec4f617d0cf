use auth_client::api::{ApiError, ApiMessage, LoginError, RegistrationError};
use auth_client::hashing::generate_hashed_password;
use auth_client::routes::Route;

#[test]
fn hashing_is_deterministic() {
    let first = generate_hashed_password("Secret1!");
    let second = generate_hashed_password("Secret1!");
    assert_eq!(first, second);
}

#[test]
fn close_passwords_hash_differently() {
    let a = generate_hashed_password("Secret1!");
    let b = generate_hashed_password("Secret1?");
    let c = generate_hashed_password("secret1!");
    assert_ne!(a, b);
    assert_ne!(a, c);
    assert_ne!(b, c);
}

#[test]
fn hashing_matches_the_published_sha256_vectors() {
    assert_eq!(
        generate_hashed_password(""),
        "e3b0c44298fc1c149afbf4c8996fb92427ae41e4649b934ca495991b7852b855"
    );
    assert_eq!(
        generate_hashed_password("abc"),
        "ba7816bf8f01cfea414140de5dae2223b00361a396177a9cb410ff61f20015ad"
    );
}

#[test]
fn hashes_are_64_lowercase_hex_characters() {
    let hash = generate_hashed_password("Secret1!");
    assert_eq!(hash.len(), 64);
    assert!(hash.chars().all(|c| c.is_ascii_hexdigit() && !c.is_ascii_uppercase()));
    assert_ne!(hash, "Secret1!");
}

#[test]
fn the_routing_table_serves_its_three_paths() {
    assert_eq!(Route::recognize("/"), Route::Home);
    assert_eq!(Route::recognize("/imprint"), Route::Imprint);
    assert_eq!(Route::recognize("/login"), Route::Login);
}

#[test]
fn unknown_paths_fall_through_to_not_found() {
    assert_eq!(Route::recognize("/404"), Route::NotFound);
    assert_eq!(Route::recognize(""), Route::NotFound);
    assert_eq!(Route::recognize("/imprint/"), Route::NotFound);
    assert_eq!(Route::recognize("/Login"), Route::NotFound);
}

#[test]
fn every_error_code_has_its_text() {
    assert_eq!(
        ApiError::Login(LoginError::EmptyPassWord).text(),
        "Please enter your password."
    );
    assert_eq!(
        ApiError::Registration(RegistrationError::UserNameExistsAlready).text(),
        "This username is already taken."
    );
    assert_eq!(
        ApiError::Registration(RegistrationError::InvalidPasswordConfirmation).text(),
        "The passwords do not match."
    );
}

#[test]
fn a_success_result_shows_the_backend_message() {
    let message = ApiMessage::Success(String::from("Account created."));
    assert_eq!(message.text(), "Account created.");
    let failure = ApiMessage::Failure(ApiError::Login(LoginError::InvalidLoginCredentials));
    assert_eq!(failure.text(), "Invalid login credentials.");
}
