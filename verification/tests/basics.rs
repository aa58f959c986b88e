use lab_basics::decimal::{i32_to_string, u64_to_string};
use lab_basics::errors::get_at;
use lab_basics::iterators::{filter_greater_than, fold_sum, square_all};
use lab_basics::ownership::calculate_len;
use lab_basics::patterns::{process_message, Message};

#[test]
fn borrowed_length() {
    let s = String::from("Hello");
    let moved = s;
    let cloned = moved.clone();
    assert_eq!(calculate_len(&cloned), 5);
    assert_eq!(cloned, "Hello");
}

#[test]
fn length_of_empty_string() {
    assert_eq!(calculate_len(&String::new()), 0);
}

#[test]
fn length_counts_encoded_bytes() {
    let s = String::from("é");
    assert_eq!(s.chars().count(), 1);
    assert_eq!(calculate_len(&s), 2);
}

#[test]
fn pipeline_squares_filter_and_sum() {
    let numbers = vec![1, 2, 3, 4, 5];
    let squares = square_all(&numbers);
    assert_eq!(squares, vec![1, 4, 9, 16, 25]);
    let above_ten = filter_greater_than(&squares, 10);
    assert_eq!(above_ten, vec![16, 25]);
    assert_eq!(fold_sum(&numbers), 15);
}

#[test]
fn filter_keeps_order_and_is_strict() {
    let values = vec![10, 11, 9, 10, 12];
    assert_eq!(filter_greater_than(&values, 10), vec![11, 12]);
    assert_eq!(filter_greater_than(&Vec::new(), 0), Vec::<i32>::new());
}

#[test]
fn fold_sum_of_empty_is_zero() {
    assert_eq!(fold_sum(&Vec::new()), 0);
}

#[test]
fn square_of_negative_is_positive() {
    assert_eq!(square_all(&vec![-3, 0, 2]), vec![9, 0, 4]);
}

#[test]
fn dispatch_move_variant() {
    let text = process_message(Message::Move { x: 10, y: 20 });
    assert_eq!(text, "Move to (10, 20)");
}

#[test]
fn dispatch_write_variant() {
    let text = process_message(Message::Write(String::from("Rust")));
    assert_eq!(text, "Write 'Rust'");
}

#[test]
fn dispatch_quit_variant() {
    assert_eq!(process_message(Message::Quit), "Quit");
}

#[test]
fn dispatch_negative_coordinates() {
    let text = process_message(Message::Move { x: -7, y: 0 });
    assert_eq!(text, "Move to (-7, 0)");
}

#[test]
fn decimal_rendering() {
    assert_eq!(u64_to_string(0), "0");
    assert_eq!(u64_to_string(10500), "10500");
    assert_eq!(i32_to_string(-7), "-7");
    assert_eq!(i32_to_string(i32::MIN), "-2147483648");
    assert_eq!(i32_to_string(i32::MAX), "2147483647");
}

#[test]
fn lookup_present_and_absent() {
    let numbers = vec![10, 20, 30];
    assert_eq!(get_at(&numbers, 0), Some(10));
    assert_eq!(get_at(&numbers, 3), None);
}

#[test]
fn lookup_in_empty_list() {
    assert_eq!(get_at(&Vec::new(), 0), None);
}
