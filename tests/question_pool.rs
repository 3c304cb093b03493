use coding_fighters::dto::QUESTION_SECONDS;
use coding_fighters::model::{has_entry, Game};
use coding_fighters::question_pool::{
    questions_java, questions_kotlin, questions_rust, resolve_question_pool,
    JAVA_QUESTION_COUNT, KOTLIN_QUESTION_COUNT, RUST_QUESTION_COUNT,
};

fn game_with_topics(topics: &[&str]) -> Game {
    Game {
        id: None,
        topics: topics.iter().map(|t| t.to_string()).collect(),
        question_number: 3,
        is_private: false,
        is_started: false,
        creator: None,
        users: vec![],
    }
}

#[test]
fn java_catalog_has_its_questions() {
    let qs = questions_java();
    assert_eq!(qs.len(), 35);
    assert_eq!(qs.len(), JAVA_QUESTION_COUNT);
    assert_eq!(qs[0].question_text, "In Java, what type is not a primitive data type ?");
    assert_eq!(qs[0].answer_3, "String");
    assert_eq!(qs[0].good_answer_number, 3);
    for q in &qs {
        assert!(q.topic == "Java" || q.topic == "java");
        assert!((1..=4).contains(&q.good_answer_number));
        assert_eq!(q.remaining_time, QUESTION_SECONDS);
    }
}

#[test]
fn rust_catalog_has_one_question() {
    let qs = questions_rust();
    assert_eq!(qs.len(), RUST_QUESTION_COUNT);
    assert_eq!(qs[0].question_text, "What is a closure in Rust ?");
    assert_eq!(qs[0].good_answer_number, 4);
    assert_eq!(qs[0].topic, "Rust");
    assert_eq!(qs[0].remaining_time, 20);
}

#[test]
fn kotlin_catalog_has_its_questions() {
    let qs = questions_kotlin();
    assert_eq!(qs.len(), 40);
    assert_eq!(qs.len(), KOTLIN_QUESTION_COUNT);
    assert_eq!(qs[0].question_text, "What is Kotlin ?");
    assert_eq!(qs[0].good_answer_number, 3);
    for q in &qs {
        assert_eq!(q.topic, "Kotlin");
        assert!((1..=4).contains(&q.good_answer_number));
    }
}

#[test]
fn pool_of_one_topic_is_its_catalog() {
    let pool = resolve_question_pool(&game_with_topics(&["Java"]));
    assert_eq!(pool.len(), 35);
    assert_eq!(pool[0].question_text, questions_java()[0].question_text);
}

#[test]
fn pool_keeps_catalog_order() {
    let pool = resolve_question_pool(&game_with_topics(&["Kotlin", "Rust", "Java"]));
    assert_eq!(pool.len(), 35 + 1 + 40);
    assert!(pool[0].topic == "Java" || pool[0].topic == "java");
    assert_eq!(pool[35].topic, "Rust");
    assert_eq!(pool[36].topic, "Kotlin");
    assert_eq!(pool[75].topic, "Kotlin");
}

#[test]
fn pool_of_no_topic_is_empty() {
    assert!(resolve_question_pool(&game_with_topics(&[])).is_empty());
}

#[test]
fn pool_of_unknown_topics_is_empty() {
    let pool = resolve_question_pool(&game_with_topics(&["java", "Go", "rust"]));
    assert!(pool.is_empty());
}

#[test]
fn pool_ignores_repeated_topics() {
    let pool = resolve_question_pool(&game_with_topics(&["Rust", "Rust"]));
    assert_eq!(pool.len(), 1);
}

#[test]
fn has_entry_matches_whole_text() {
    let list = vec!["Java".to_string(), "Kotlin".to_string()];
    assert!(has_entry(&list, "Java"));
    assert!(!has_entry(&list, "Jav"));
    assert!(!has_entry(&list, "java"));
    assert!(!has_entry(&vec![], "Java"));
}

#[test]
fn kotlin_catalog_content() {
    let qs = questions_kotlin();
    assert_eq!(qs[39].question_text, "What does the mapOf() function do in Kotlin ?");
    assert_eq!(qs[39].answer_3, "It creates a new Map");
    assert_eq!(qs[39].good_answer_number, 3);
    for q in &qs {
        let correct = match q.good_answer_number {
            1 => &q.answer_1,
            2 => &q.answer_2,
            3 => &q.answer_3,
            _ => &q.answer_4,
        };
        assert!(!correct.is_empty());
    }
}
