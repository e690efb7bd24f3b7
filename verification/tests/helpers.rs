use guessing_game::arith::{largest_char, largest_i32, plus_one};
use guessing_game::coins::{value_in_cents, Coin, UsState};
use guessing_game::message::Message;
use guessing_game::point::Point;
use guessing_game::rectangle::{area, Rectangle};
use guessing_game::summary::{notify, returns_summarizable, NewsArticle, Summary, Tweet};
use guessing_game::text::{first_word, first_word_end, longest};
use guessing_game::users::build_user;

#[test]
fn first_word_ends_at_the_first_space() {
    assert_eq!(first_word_end("hello world"), 5);
    assert_eq!(first_word_end("hello"), 5);
    assert_eq!(first_word_end(""), 0);
    assert_eq!(first_word_end(" hello"), 0);
    assert_eq!(first_word_end("a b c"), 1);
    assert_eq!(first_word_end("tab\tis no space"), 6);
    assert_eq!(first_word_end("gr\u{fc}n blau"), 5);
}

#[test]
fn first_word_is_what_stands_before_the_first_space() {
    assert_eq!(first_word("hello world"), "hello");
    assert_eq!(first_word("hello"), "hello");
    assert_eq!(first_word(""), "");
    assert_eq!(first_word(" hello"), "");
    assert_eq!(first_word("gr\u{fc}n blau"), "gr\u{fc}n");
    assert_eq!(first_word("\u{65e5}\u{672c} go"), "\u{65e5}\u{672c}");
}

#[test]
fn longest_picks_the_longer_text() {
    assert_eq!(longest("long string is long", "xyz"), "long string is long");
    assert_eq!(longest("xyz", "long string is long"), "long string is long");
    assert_eq!(longest("abc", "xyz"), "xyz");
    assert_eq!(longest("", ""), "");
    assert_eq!(longest("\u{fc}", "ab"), "ab");
    assert_eq!(longest("\u{fc}\u{fc}", "abc"), "\u{fc}\u{fc}");
}

#[test]
fn largest_number_of_a_list() {
    assert_eq!(*largest_i32(&[34, 50, 25, 100, 65]), 100);
    assert_eq!(*largest_i32(&[7]), 7);
    assert_eq!(*largest_i32(&[-3, -1, -2]), -1);
    assert_eq!(*largest_i32(&[5, 5, 5]), 5);
    assert_eq!(*largest_i32(&[i32::MIN, i32::MAX, 0]), i32::MAX);
}

#[test]
fn largest_character_of_a_list() {
    assert_eq!(*largest_char(&['y', 'a', 'm', 'q']), 'y');
    assert_eq!(*largest_char(&['a']), 'a');
    assert_eq!(*largest_char(&['a', 'Z', '\u{e9}']), '\u{e9}');
}

#[test]
fn plus_one_adds_one_to_what_is_there() {
    assert_eq!(plus_one(Some(5)), Some(6));
    assert_eq!(plus_one(plus_one(Some(5))), Some(7));
    assert_eq!(plus_one(None), None);
    assert_eq!(plus_one(Some(-1)), Some(0));
    assert_eq!(plus_one(Some(i32::MAX - 1)), Some(i32::MAX));
}

#[test]
fn areas_and_squares() {
    let rect = Rectangle { width: 30, height: 50 };
    assert_eq!(rect.area(), 1500);
    assert_eq!(area(&rect), 1500);
    assert!(rect.width());
    assert!(!Rectangle { width: 0, height: 9 }.width());
    assert_eq!(Rectangle::square(3), Rectangle { width: 3, height: 3 });
    assert_eq!(Rectangle::square(3).area(), 9);
    assert_eq!(Rectangle { width: 65_535, height: 65_537 }.area(), u32::MAX);
    assert!(rect.can_hold(&Rectangle { width: 10, height: 40 }));
}

#[test]
fn coins_have_their_worth() {
    assert_eq!(value_in_cents(Coin::Penny), 1);
    assert_eq!(value_in_cents(Coin::Nickel), 5);
    assert_eq!(value_in_cents(Coin::Dime), 10);
    assert_eq!(value_in_cents(Coin::Quarter(UsState::Alabama)), 25);
    assert_eq!(value_in_cents(Coin::Quarter(UsState::Alaska)), 25);
}

#[test]
fn messages_describe_themselves() {
    assert_eq!(Message::Quit.call(), "Quit");
    assert_eq!(Message::Move { x: 3, y: -4 }.call(), "Move with x as 3 and y as -4");
    assert_eq!(Message::Write(String::from("hello")).call(), "Write with hello");
    assert_eq!(Message::ChangeColor(0, 128, 255).call(), "Change Color with 0, 128, 255");
    assert_eq!(
        Message::Move { x: i32::MIN, y: i32::MAX }.call(),
        "Move with x as -2147483648 and y as 2147483647"
    );
}

#[test]
fn a_built_user_is_active_and_signed_in_once() {
    let user = build_user(String::from("user2@mail.com"), String::from("username2"));
    assert!(user.active);
    assert_eq!(user.email, "user2@mail.com");
    assert_eq!(user.username, "username2");
    assert_eq!(user.sign_in_count, 1);
}

#[test]
fn summaries_of_posts_and_articles() {
    let tweet = returns_summarizable();
    assert_eq!(tweet.username, "horse_ebooks");
    assert_eq!(tweet.content, "of course, as you probably already know, people");
    assert!(!tweet.reply);
    assert!(!tweet.retweet);
    assert_eq!(tweet.get_retweet_count(), 4);
    assert_eq!(
        tweet.summarize(),
        "horse_ebooks: of course, as you probably already know, people "
    );
    assert_eq!(tweet.read_mode_text(), "Read More...");
    assert_eq!(
        tweet.summarize_and_read_more(),
        "horse_ebooks: of course, as you probably already know, people  and Read More..."
    );
    assert_eq!(
        notify(&tweet),
        "Breaking news! horse_ebooks: of course, as you probably already know, people "
    );

    let article = NewsArticle {
        headline: String::from("Penguins win"),
        location: String::from("Pittsburgh"),
        author: String::from("Iceburgh"),
        content: String::from("The Pittsburgh Penguins once again are the best."),
    };
    assert_eq!(article.summarize(), "Penguins win by Iceburgh (Pittsburgh)");
    assert_eq!(
        article.summarize_and_read_more(),
        "Penguins win by Iceburgh (Pittsburgh) and Read More..."
    );
    assert_eq!(notify(&article), "Breaking news! Penguins win by Iceburgh (Pittsburgh)");
}

#[test]
fn a_point_gives_its_first_coordinate() {
    let p = Point { x: 5, y: 10 };
    assert_eq!(*p.x(), 5);
    assert_eq!(p.y, 10);
    let q = Point { x: "left", y: "right" };
    assert_eq!(*q.x(), "left");
}
