use sample_rest::domain;
use sample_rest::entity::{TodoTask, TodoUserRow};
use sample_rest::persistence::{anyhowify, Count};

#[test]
fn count_reads_the_value() {
    assert_eq!(Count { count: Some(3) }.count(), 3);
    assert_eq!(Count { count: Some(0) }.count(), 0);
}

#[test]
fn anyhowify_keeps_the_message() {
    let err = anyhowify("pool timed out");
    assert_eq!(err.to_string(), "pool timed out");
    let nested = anyhowify(anyhow::Error::msg("acquire failed"));
    assert_eq!(nested.to_string(), "acquire failed");
}

#[test]
fn rows_convert_to_domain_values() {
    let task = domain::todo::TodoTask::from(TodoTask {
        id: 1,
        user_id: 2,
        item_desc: "abcde".to_owned(),
    });
    assert_eq!(
        task,
        domain::todo::TodoTask { id: 1, owner_user_id: 2, item_desc: "abcde".to_owned() }
    );
    let user = domain::user::TodoUser::from(TodoUserRow {
        id: 4,
        first_name: "Jane".to_owned(),
        last_name: "Doe".to_owned(),
    });
    assert_eq!(user.first_name, "Jane");
    assert_eq!(user.id, 4);
}
