use order_crud_api::basics::{calculate_length, enum_function, get_value, square, unit_struct, Message};

#[test]
fn square_multiplies_by_itself() {
    assert_eq!(square(4), 16);
    assert_eq!(square(-4), 16);
    assert_eq!(square(0), 0);
}

#[test]
fn add_sums() {
    assert_eq!(order_crud_api::basics::add(3, 7), 10);
    assert_eq!(order_crud_api::basics::add(-3, 3), 0);
}

#[test]
fn calculate_length_counts_bytes() {
    assert_eq!(calculate_length(&"Hello".to_string()), 5);
    assert_eq!(calculate_length(&String::new()), 0);
}

#[test]
fn unit_struct_builds() {
    unit_struct();
}

#[test]
fn enum_function_describes_the_written_message() {
    assert_eq!(enum_function(), "Write message: Hello");
}

#[test]
fn message_texts() {
    assert_eq!(Message::Quit.text(), "Quit message");
    assert_eq!(Message::Move { x: 10, y: 20 }.text(), "Move to coordinates: 10, 20");
    assert_eq!(
        Message::ChangeColor(255, 255, 0).text(),
        "Change color to RGB: 255, 255, 0"
    );
}

#[test]
fn get_value_adds_ten() {
    assert_eq!(get_value(Some(5)), Some(15));
    assert_eq!(get_value(None), None);
}
