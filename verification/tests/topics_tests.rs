use primer::back_of_house::{Appetizer, Breakfast};
use primer::closures::{add_to_x1, generate_workout, Workout};
use primer::enums::{plus_one, value_in_cents, Coin, IpAddrKind, UsState};
use primer::generics::{get_largest, largest_char, largest_number, Point, Pointer};
use primer::lifetimes::{longest, longest1, longest_string};
use primer::ownership::{
    calculate_length, change, first_word, first_word_slice, gives_ownership, takes_and_gives_back,
};
use primer::pointers::MyBox;
use primer::structs::{area, build_user, Rectangle};
use primer::traits::{returns_summarizable, NewsArticle, Summary, Tweet};

#[test]
fn workouts_follow_intensity_and_luck() {
    assert_eq!(
        generate_workout(10, 7),
        Workout::Strength {
            pushups: 10,
            situps: 10
        }
    );
    assert_eq!(generate_workout(30, 3), Workout::Rest);
    assert_eq!(generate_workout(30, 7), Workout::Run { minutes: 30 });
}

#[test]
fn adds_in_place() {
    let mut x: i32 = 4;
    add_to_x1(&mut x, 3);
    assert_eq!(x, 7);
}

#[test]
fn coin_values_in_cents() {
    assert_eq!(value_in_cents(Coin::Penny), 1);
    assert_eq!(value_in_cents(Coin::Nickel), 5);
    assert_eq!(value_in_cents(Coin::Dime), 10);
    assert_eq!(value_in_cents(Coin::Quarter(UsState::Alaska)), 25);
}

#[test]
fn plus_one_increments_inside_the_option() {
    assert_eq!(plus_one(Some(5)), Some(6));
    assert_eq!(plus_one(None), None);
}

#[test]
fn routes_both_address_kinds() {
    primer::enums::route(IpAddrKind::V4);
    primer::enums::route(IpAddrKind::V6);
}

#[test]
fn error_chain_accepts_twenty_one() {
    primer::errors::a();
    primer::errors::b();
    primer::errors::c(21);
}

#[test]
fn finds_the_largest_of_each_kind() {
    assert_eq!(largest_number(vec![34, 50, 25, 100, 65]), 100);
    assert_eq!(largest_char(&vec!['y', 'm', 'a', 'q', 'z']), 'z');
    assert_eq!(get_largest(vec![34, 50, 25, 100, 65]), 100);
    assert_eq!(get_largest(vec!['y', 'm', 'a', 'q', 'z']), 'z');
}

#[test]
fn points_expose_and_mix_coordinates() {
    let p1 = Point { x: 1, y: 2 };
    assert_eq!(*p1.x(), 1);
    let a = Pointer { x: 5, y: 10.4 };
    let b = Pointer { x: "Hello", y: 'c' };
    let mixed = a.mixup(b);
    assert_eq!(mixed.x, 5);
    assert_eq!(mixed.y, 'c');
}

#[test]
fn longest_prefers_byte_length() {
    assert_eq!(longest_string("long string", "xyz"), "long string");
    assert_eq!(longest_string("xyz", "long string"), "long string");
    assert_eq!(longest("first", "second"), "first");
    assert_eq!(longest1("a", "b"), "really long string");
}

#[test]
fn ownership_round_trips() {
    assert_eq!(gives_ownership(), "yours");
    assert_eq!(takes_and_gives_back("hello".to_string()), "hello");
    assert_eq!(calculate_length(&"hello".to_string()), 5);
    let mut s = String::from("hello");
    change(&mut s);
    assert_eq!(s, "hello, world");
}

#[test]
fn first_word_finds_the_space() {
    assert_eq!(first_word(&"hello world".to_string()), 5);
    assert_eq!(first_word(&"hello".to_string()), 5);
    assert_eq!(first_word_slice("hello world"), "hello");
    assert_eq!(first_word_slice("hello"), "hello");
}

#[test]
fn a_box_of_five() {
    let b = MyBox::new(5);
    assert_eq!(*b.deref(), 5);
}

#[test]
fn breakfast_comes_with_peaches() {
    let mut meal = Breakfast::summer("Rye");
    assert_eq!(meal.toast, "Rye");
    meal.toast = String::from("Wheat");
    assert_eq!(meal.toast, "Wheat");
    let _order1 = Appetizer::Soup;
    let _order2 = Appetizer::Salad;
}

#[test]
fn restaurant_paths_are_walkable() {
    primer::restaurant::eat_at_restaurant();
    primer::restaurant::eat_at_restaurant2();
    primer::restaurant::eat_at_restaurant3();
    primer::front_of_house::hosting::add_to_waitlist();
    primer::front_of_house1::hosting::add_to_waitlist();
    primer::back_of_house::fix_incorrect_order();
}

#[test]
fn builds_an_active_user() {
    let user = build_user("user2".to_string(), "test2@example.com".to_string());
    assert_eq!(user.username, "user2");
    assert_eq!(user.email, "test2@example.com");
    assert_eq!(user.sign_in_count, 1);
    assert!(user.active);
}

#[test]
fn rectangle_area_and_holding() {
    let rectangle = Rectangle {
        height: 50,
        width: 30,
    };
    assert_eq!(rectangle.area1(), 1500);
    assert_eq!(area(&rectangle), 1500);
    let rect1 = Rectangle {
        height: 30,
        width: 20,
    };
    assert!(rectangle.can_hold(&rect1));
    assert!(!rect1.can_hold(&rectangle));
}

#[test]
fn summaries_name_their_authors() {
    let tweet = Tweet {
        username: String::from("John Doe"),
        content: String::from("I'm learning Rust! #rustlang"),
        reply: false,
        retweet: false,
    };
    assert_eq!(tweet.summarize(), "John Doe: I'm learning Rust! #rustlang");

    let article = NewsArticle {
        author: String::from("Alice Johnson"),
        headline: String::from("Breaking News! U.S. Marines on Mars"),
        content: String::from("We've discovered a new planet in our solar system! #mars"),
    };
    assert_eq!(
        article.summarize(),
        "Breaking News! U.S. Marines on Mars, by Alice Johnson"
    );

    assert_eq!(
        returns_summarizable().summarize(),
        "horse_ebooks: of course, as you probably already know, people"
    );
}

#[test]
fn basic_arithmetic_helpers() {
    assert_eq!(primer::basics::add(10, 20), 30);
    assert_eq!(primer::basics::add_five(5), 10);
}
