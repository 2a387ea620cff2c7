use sample_rest::domain;
use sample_rest::dto::task::{NewTask, TodoTask, UpdateTask};
use sample_rest::dto::user::{NewUser, TodoUser};
use sample_rest::dto::check_length;

#[test]
fn bad_user_data_gets_rejected() {
    let bad_user = NewUser {
        first_name: (0..35).map(|_| "A").collect(),
        last_name: (0..55).map(|_| "B").collect(),
    };
    let validation_result = bad_user.validate();
    assert!(validation_result.is_err());
    let validation_errors = validation_result.unwrap_err();
    let field_validations = validation_errors.field_errors();
    assert!(field_validations.contains_key("first_name"));
    assert!(field_validations.contains_key("last_name"));
}

#[test]
fn user_names_at_the_limits_are_accepted() {
    let user = NewUser {
        first_name: "A".repeat(30),
        last_name: "B".repeat(50),
    };
    assert!(user.validate().is_ok());
}

#[test]
fn only_the_long_last_name_is_named() {
    let user = NewUser {
        first_name: "John".to_owned(),
        last_name: "B".repeat(51),
    };
    let errors = user.validate().unwrap_err();
    let fields = errors.field_errors();
    assert!(!fields.contains_key("first_name"));
    assert!(fields.contains_key("last_name"));
    assert_eq!(fields.len(), 1);
    assert_eq!(errors.errors[0].code, "length");
}

#[test]
fn name_length_counts_characters_not_bytes() {
    let user = NewUser {
        first_name: "é".repeat(30),
        last_name: "Doe".to_owned(),
    };
    assert!(user.validate().is_ok());
    assert!(!check_length(&"é".repeat(31), None, Some(30)));
}

#[test]
fn empty_task_description_is_rejected() {
    let task = NewTask { item_desc: String::new() };
    let errors = task.validate().unwrap_err();
    assert!(errors.field_errors().contains_key("item_desc"));
    assert!(NewTask { item_desc: "x".to_owned() }.validate().is_ok());

    let update = UpdateTask { description: String::new() };
    let errors = update.validate().unwrap_err();
    assert!(errors.field_errors().contains_key("description"));
    assert!(UpdateTask { description: "Something to do".to_owned() }.validate().is_ok());
}

#[test]
fn task_bodies_convert_to_domain() {
    let new_task = domain::todo::NewTask::from(NewTask { item_desc: "Something to do".to_owned() });
    assert_eq!(new_task.description, "Something to do");
    let update = domain::todo::UpdateTask::from(UpdateTask { description: "Another thing to do".to_owned() });
    assert_eq!(update.description, "Another thing to do");
}

#[test]
fn domain_values_convert_to_responses() {
    let task = TodoTask::from(domain::todo::TodoTask {
        id: 10,
        owner_user_id: 3,
        item_desc: "Something to do".to_owned(),
    });
    assert_eq!(task, TodoTask { id: 10, description: "Something to do".to_owned() });

    let user = TodoUser::from(domain::user::TodoUser {
        id: 4,
        first_name: "John".to_owned(),
        last_name: "Doe".to_owned(),
    });
    assert_eq!(
        user,
        TodoUser { id: 4, first_name: "John".to_owned(), last_name: "Doe".to_owned() }
    );
}
