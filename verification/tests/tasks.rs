use lab_basics::tasks::{analyze_products, Fibonacci, Product, EXPENSIVE_THRESHOLD_CENTS};

fn product(name: &str, price_cents: u64, in_stock: bool) -> Product {
    Product {
        name: String::from(name),
        price_cents,
        in_stock,
    }
}

#[test]
fn aggregate_on_three_records() {
    let products = vec![
        product("Laptop", 150000, true),
        product("Mouse", 5000, true),
        product("Monitor", 30000, false),
    ];
    let (total_cents, available, expensive) = analyze_products(&products);
    assert_eq!(total_cents, 185000);
    let average = total_cents as f64 / 100.0 / products.len() as f64;
    assert!((average - 616.67).abs() < 0.005);
    assert_eq!(available, 2);
    let expensive_names: Vec<&str> = expensive.iter().map(|p| p.name.as_str()).collect();
    assert_eq!(expensive_names, vec!["Laptop", "Monitor"]);
}

#[test]
fn aggregate_on_empty_list() {
    let products: Vec<Product> = Vec::new();
    let (total_cents, available, expensive) = analyze_products(&products);
    assert_eq!(total_cents, 0);
    let average = if products.is_empty() {
        0.0
    } else {
        total_cents as f64 / 100.0 / products.len() as f64
    };
    assert_eq!(average, 0.0);
    assert_eq!(available, 0);
    assert!(expensive.is_empty());
}

#[test]
fn expensive_threshold_is_strict() {
    let products = vec![
        product("Exactly", EXPENSIVE_THRESHOLD_CENTS, true),
        product("Above", EXPENSIVE_THRESHOLD_CENTS + 1, false),
    ];
    let (_, _, expensive) = analyze_products(&products);
    assert_eq!(expensive.len(), 1);
    assert_eq!(expensive[0].name, "Above");
}

#[test]
fn fibonacci_first_ten() {
    let values = Fibonacci::first_values(10);
    assert_eq!(values, vec![0, 1, 1, 2, 3, 5, 8, 13, 21, 34]);
}

#[test]
fn fibonacci_by_repeated_calls() {
    let mut generator = Fibonacci::new();
    let mut values = Vec::new();
    for _ in 0..10 {
        values.push(generator.next().unwrap());
    }
    assert_eq!(values, vec![0, 1, 1, 2, 3, 5, 8, 13, 21, 34]);
}

#[test]
fn fibonacci_prefix_of_zero_is_empty() {
    assert!(Fibonacci::first_values(0).is_empty());
}

#[test]
fn fibonacci_stops_at_the_width_of_u64() {
    let values = Fibonacci::first_values(200);
    assert_eq!(values.len(), 94);
    assert_eq!(*values.last().unwrap(), 12200160415121876738);
}
