use wallet_shell::demo::{demo_vector, give_ownership, status_label, AccountStatus, User};

#[test]
fn give_ownership_hands_back_the_fixed_string() {
    assert_eq!(give_ownership(), "returning ownership");
}

#[test]
fn status_labels_match_each_variant() {
    assert_eq!(status_label(&AccountStatus::Active), "  Account is active");
    assert_eq!(status_label(&AccountStatus::Inactive), "  Account is inactive");
    assert_eq!(status_label(&AccountStatus::Locked), "  Account is locked");
}

#[test]
fn demo_vector_holds_the_pushed_numbers() {
    assert_eq!(demo_vector(), vec![1, 2, 3, 4, 5, 6]);
}

#[test]
fn user_record_keeps_its_fields() {
    let user = User {
        username: String::from("alice"),
        email: String::from("alice@example.com"),
        sign_in_count: 1,
        active: true,
    };
    assert_eq!(user.username, "alice");
    assert_eq!(user.email, "alice@example.com");
    assert_eq!(user.sign_in_count, 1);
    assert!(user.active);
}
