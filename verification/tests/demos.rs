use worker_pool::structs::Rectangle;

#[test]
fn search_returns_lines_with_query() {
    let query = "duct";
    let contents = "\
Rust:
safe, fast, productive.
Pick three.";

    assert_eq!(vec!["safe, fast, productive."], worker_pool::grep::search(query, contents));
}

#[test]
fn exploration() {
    let result = worker_pool::add(2, 2);
    assert_eq!(result, 4);
    assert_ne!(result, 5);
}

#[test]
#[should_panic(expected = "match against the panic msg")]
fn should_panic() {
    panic!("We can use the expected field to match against the panic msg");
}

#[test]
fn larger_can_hold_smaller() {
    let larger = Rectangle { width: 8, height: 7 };
    let smaller = Rectangle { width: 5, height: 1 };

    assert!(larger.can_hold(&smaller), "Larger count not hold smaller `{smaller:?}`");
}

#[test]
fn smaller_cannot_hold_larger() {
    let larger = Rectangle { width: 8, height: 7 };
    let smaller = Rectangle { width: 5, height: 1 };

    assert!(!smaller.can_hold(&larger));
}

#[test]
fn it_works() -> Result<(), String> {
    let result = worker_pool::add(2, 2);

    if result == 4 {
        Ok(())
    } else {
        Err(String::from("two plus two does not equal four"))
    }
}

#[test]
fn add_success() {
    let result = worker_pool::add(2, 2);

    assert_eq!(result, 4);
}
