use atomus_ai_agent::knowledge_base::KnowledgeBase;

#[test]
fn fresh_base_answers_its_sample_topic() {
    let base = KnowledgeBase::new();
    assert_eq!(
        base.get_response("$BTB").map(|s| s.as_str()),
        Some("Interesting analysis on $BTB! The market dynamics look promising.")
    );
}

#[test]
fn unknown_topic_has_no_response() {
    let base = KnowledgeBase::new();
    assert_eq!(base.get_response("$ETH"), None);
    assert_eq!(base.get_response(""), None);
    assert_eq!(base.get_response("$btb"), None);
}

#[test]
fn first_response_of_a_new_topic_is_given() {
    let mut base = KnowledgeBase::new();
    base.add_response("$ETH".to_string(), "first".to_string());
    base.add_response("$ETH".to_string(), "second".to_string());
    assert_eq!(base.get_response("$ETH").map(|s| s.as_str()), Some("first"));
    assert_eq!(
        base.get_response("$BTB").map(|s| s.as_str()),
        Some("Interesting analysis on $BTB! The market dynamics look promising.")
    );
}

#[test]
fn added_response_goes_after_the_samples() {
    let mut base = KnowledgeBase::new();
    base.add_response("$BTB".to_string(), "late".to_string());
    assert_eq!(
        base.get_response("$BTB").map(|s| s.as_str()),
        Some("Interesting analysis on $BTB! The market dynamics look promising.")
    );
}

#[test]
fn many_topics_are_found_again() {
    let mut base = KnowledgeBase::new();
    for i in 0..200 {
        base.add_response(format!("topic-{}", i), format!("answer-{}", i));
    }
    for i in 0..200 {
        base.add_response(format!("topic-{}", i), format!("other-{}", i));
    }
    for i in 0..200 {
        assert_eq!(
            base.get_response(&format!("topic-{}", i)).map(|s| s.as_str()),
            Some(format!("answer-{}", i).as_str())
        );
    }
}
