use user_registry::{
    register_new_user, ApiError, FormData, RegisterReply, Registry,
};

fn form_with_username(name: &str) -> FormData {
    let mut form = FormData::new();
    form.insert(String::from("username"), String::from(name));
    form
}

#[test]
fn test_register_new_user_with_username_should_succeed() {
    let req_data = form_with_username("Whatever");
    let mut existing_users = Registry::new();
    let reg_result = register_new_user(&req_data, &mut existing_users);

    assert!(matches!(reg_result, Ok(_)));
}

#[test]
fn test_register_new_user_without_username_should_fail() {
    let mut existing_users = Registry::new();
    let reg_result = register_new_user(&FormData::new(), &mut existing_users);

    match reg_result {
        Ok(_) => panic!("Registration should fail if no username was given"),
        Err(rejection) => assert!(matches!(rejection, ApiError::UsernameMissing)),
    }
}

#[test]
fn test_register_new_user_with_existing_username_should_fail() {
    let mut existing_users = Registry::new();

    let req_data = form_with_username("NewUser");

    let _first_reg_result = register_new_user(&req_data, &mut existing_users);
    let second_reg_result = register_new_user(&req_data, &mut existing_users);

    match second_reg_result {
        Ok(msg) => assert_eq!(msg.into_response().status(), 400),
        Err(_) => panic!(
            "Trying to register a user with an already taken name should return an OK result with a message"
        ),
    }
}

#[test]
fn fresh_username_gets_success_response() {
    let req_data = form_with_username("Whatever");
    let mut existing_users = Registry::new();

    let response = user_registry::handle_registration(&req_data, &mut existing_users);

    assert_eq!(response.status(), 200);
    assert_eq!(response.body(), "Registration done");
    assert_eq!(existing_users.len(), 1);
    assert!(existing_users.contains(&String::from("Whatever")));
}

#[test]
fn empty_form_gets_missing_username_response() {
    let mut existing_users = Registry::new();

    let response = user_registry::handle_registration(&FormData::new(), &mut existing_users);

    assert_eq!(response.status(), 400);
    assert_eq!(response.body(), "ERROR: No username was given");
    assert_eq!(existing_users.len(), 0);
}

#[test]
fn duplicate_username_keeps_one_entry() {
    let req_data = form_with_username("NewUser");
    let mut existing_users = Registry::new();

    let first = user_registry::handle_registration(&req_data, &mut existing_users);
    let second = user_registry::handle_registration(&req_data, &mut existing_users);

    assert_eq!(first.status(), 200);
    assert_eq!(first.body(), "Registration done");
    assert_eq!(second.status(), 400);
    assert_eq!(second.body(), "ERROR: User already exists");
    assert_eq!(existing_users.len(), 1);
    assert!(existing_users.contains(&String::from("NewUser")));
}

#[test]
fn distinct_usernames_all_registered() {
    let mut existing_users = Registry::new();
    let names = ["Ada", "Grace", "Edsger", "Barbara"];

    for name in names {
        let reply = register_new_user(&form_with_username(name), &mut existing_users);
        assert!(matches!(reply, Ok(RegisterReply::Done)));
    }

    assert_eq!(existing_users.len(), names.len());
    for name in names {
        assert!(existing_users.contains(&String::from(name)));
    }
}

#[test]
fn same_username_twice_one_success_one_exists() {
    let req_data = form_with_username("Twin");
    let mut existing_users = Registry::new();

    let first = register_new_user(&req_data, &mut existing_users);
    let second = register_new_user(&req_data, &mut existing_users);

    assert!(matches!(first, Ok(RegisterReply::Done)));
    assert!(matches!(second, Ok(RegisterReply::UserExists)));
    assert_eq!(existing_users.len(), 1);
}

#[test]
fn other_form_fields_are_ignored() {
    let mut req_data = FormData::new();
    req_data.insert(String::from("color"), String::from("green"));
    req_data.insert(String::from("username"), String::from("Whatever"));
    req_data.insert(String::from("age"), String::from("44"));
    let mut existing_users = Registry::new();

    let response = user_registry::handle_registration(&req_data, &mut existing_users);

    assert_eq!(response.status(), 200);
    assert!(existing_users.contains(&String::from("Whatever")));
    assert!(!existing_users.contains(&String::from("green")));
}

#[test]
fn empty_username_value_counts_as_present() {
    let req_data = form_with_username("");
    let mut existing_users = Registry::new();

    let reply = register_new_user(&req_data, &mut existing_users);

    assert!(matches!(reply, Ok(RegisterReply::Done)));
    assert!(existing_users.contains(&String::from("")));
}

#[test]
fn usernames_are_case_sensitive() {
    let mut existing_users = Registry::new();

    let first = register_new_user(&form_with_username("alice"), &mut existing_users);
    let second = register_new_user(&form_with_username("Alice"), &mut existing_users);

    assert!(matches!(first, Ok(RegisterReply::Done)));
    assert!(matches!(second, Ok(RegisterReply::Done)));
    assert_eq!(existing_users.len(), 2);
}
