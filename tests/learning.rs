use rust_learning::lessons::{default_lessons, CodeExample, Difficulty, Lesson, LessonManager};
use rust_learning::quiz::{grade_short_answer, Question, QuestionType, QuizManager, UserAnswer};
use rust_learning::safety::is_safe_code;

fn lesson(id: &str, difficulty: Difficulty, content: &str) -> Lesson {
    Lesson {
        id: id.to_string(),
        title: format!("title {}", id),
        description: String::new(),
        difficulty,
        content: content.to_string(),
        code_examples: vec![CodeExample {
            title: "t".to_string(),
            code: "fn main() {}".to_string(),
            explanation: String::new(),
            runnable: true,
        }],
        next_lesson: None,
        prev_lesson: None,
    }
}

fn question(question_type: QuestionType) -> Question {
    Question {
        id: "q".to_string(),
        question_type,
        title: String::new(),
        content: String::new(),
        hint: None,
        explanation: None,
    }
}

#[test]
fn default_quiz_is_listed_and_found() {
    let m = QuizManager::new();
    let all = m.list_quizzes();
    assert_eq!(all.len(), 1);
    assert_eq!(all[0].id, "quiz-01-intro");
    let q = m.get_quiz("quiz-01-intro").unwrap();
    assert_eq!(q.questions.len(), 2);
    assert_eq!(q.lesson_id.as_deref(), Some("01-intro"));
    assert!(m.get_quiz("quiz-02").is_none());
}

#[test]
fn multiple_choice_grading() {
    let m = QuizManager::new();
    let q = question(QuestionType::MultipleChoice { options: vec!["a".to_string(), "b".to_string()], correct_answer: 0 });
    let (ok, fb) = m.evaluate_answer(&q, &UserAnswer::MultipleChoice { selected: 0 });
    assert!(ok);
    assert_eq!(fb.unwrap(), "Correct!");
    let (ok, fb) = m.evaluate_answer(&q, &UserAnswer::MultipleChoice { selected: 1 });
    assert!(!ok);
    assert_eq!(fb.unwrap(), "Incorrect. The correct answer was option 1.");
    let q = question(QuestionType::MultipleChoice { options: vec![], correct_answer: 11 });
    let (_, fb) = m.evaluate_answer(&q, &UserAnswer::MultipleChoice { selected: 0 });
    assert_eq!(fb.unwrap(), "Incorrect. The correct answer was option 12.");
}

#[test]
fn short_answer_grading_folds_case() {
    let m = QuizManager::new();
    let kws = vec!["main".to_string(), "function".to_string(), "Entry Point".to_string()];
    let q = question(QuestionType::ShortAnswer { expected_keywords: kws });
    let (ok, fb) = m.evaluate_answer(&q, &UserAnswer::ShortAnswer { text: "The MAIN entry point".to_string() });
    assert!(ok);
    assert_eq!(fb.unwrap(), "Good! You mentioned: main, Entry Point");
    let (ok, fb) = m.evaluate_answer(&q, &UserAnswer::ShortAnswer { text: "no idea".to_string() });
    assert!(!ok);
    assert_eq!(fb.unwrap(), "Try to include these concepts: main, function, Entry Point");
}

#[test]
fn mismatched_answer_kind() {
    let m = QuizManager::new();
    let q = question(QuestionType::ShortAnswer { expected_keywords: vec!["x".to_string()] });
    let (ok, fb) = m.evaluate_answer(&q, &UserAnswer::MultipleChoice { selected: 0 });
    assert!(!ok);
    assert_eq!(fb.unwrap(), "Answer type mismatch");
    let (ok, _) = m.evaluate_answer(&q, &UserAnswer::CodeCompletion { code: "x".to_string() });
    assert!(!ok);
}

#[test]
fn short_answer_from_folded_values() {
    let kws = vec!["Ab".to_string(), "cd".to_string()];
    let folded = vec!["ab".to_string(), "cd".to_string()];
    let (ok, fb) = grade_short_answer(&kws, &folded, "xxabyy");
    assert!(ok);
    assert_eq!(fb, "Good! You mentioned: Ab");
    let (ok, fb) = grade_short_answer(&vec![], &vec![], "anything");
    assert!(!ok);
    assert_eq!(fb, "Try to include these concepts: ");
}

#[test]
fn lessons_listed_in_id_order() {
    let m = LessonManager::new(vec![
        lesson("03-c", Difficulty::Advanced, "c"),
        lesson("01-a", Difficulty::Beginner, "a"),
        lesson("02-b", Difficulty::Beginner, "b"),
    ]);
    let ids: Vec<&str> = m.list_lessons().iter().map(|l| l.id.as_str()).collect();
    assert_eq!(ids, vec!["01-a", "02-b", "03-c"]);
    assert_eq!(m.get_lesson("02-b").unwrap().content, "b");
    assert!(m.get_lesson("04").is_none());
}

#[test]
fn later_lesson_with_same_id_replaces() {
    let mut m = LessonManager::new(vec![lesson("x", Difficulty::Beginner, "old")]);
    m.load_lessons(vec![lesson("x", Difficulty::Advanced, "new"), lesson("a", Difficulty::Beginner, "")]);
    assert_eq!(m.list_lessons().len(), 2);
    assert_eq!(m.get_lesson("x").unwrap().content, "new");
    assert_eq!(m.list_lessons()[0].id, "a");
}

#[test]
fn lessons_by_difficulty() {
    let m = LessonManager::new(vec![
        lesson("1", Difficulty::Beginner, ""),
        lesson("2", Difficulty::Advanced, ""),
        lesson("3", Difficulty::Beginner, ""),
    ]);
    let b: Vec<&str> = m.get_lessons_by_difficulty(&Difficulty::Beginner).iter().map(|l| l.id.as_str()).collect();
    assert_eq!(b, vec!["1", "3"]);
    assert!(m.get_lessons_by_difficulty(&Difficulty::Intermediate).is_empty());
}

#[test]
fn render_html_substitutions() {
    let m = LessonManager::new(vec![]);
    let l = lesson("h", Difficulty::Beginner, "# Title\n\n- **bold**");
    assert_eq!(
        m.render_lesson_html(&l),
        "<div class='lesson-content'><h1>Title</h1></li>\n<p><li><strong>bold<strong></div>"
    );
    assert_eq!(m.get_lessons_dir(), "lessons");
}

#[test]
fn default_lessons_seed() {
    let ls = default_lessons();
    assert_eq!(ls.len(), 2);
    assert_eq!(ls[0].id, "01-intro");
    assert_eq!(ls[1].next_lesson.as_deref(), Some("03-ownership"));
    let m = LessonManager::new(ls);
    assert_eq!(m.list_lessons().len(), 2);
}

#[test]
fn default_quiz_questions_grade() {
    let m = QuizManager::new();
    let quiz = m.get_quiz("quiz-01-intro").unwrap();
    assert!(m.get_quiz("quiz-99").is_none());
    let q0 = &quiz.questions[0];
    assert_eq!(m.evaluate_answer(q0, &UserAnswer::MultipleChoice { selected: 0 }), (true, Some("Correct!".to_string())));
    assert_eq!(
        m.evaluate_answer(q0, &UserAnswer::MultipleChoice { selected: 3 }),
        (false, Some("Incorrect. The correct answer was option 1.".to_string()))
    );
    let q1 = &quiz.questions[1];
    assert_eq!(
        m.evaluate_answer(q1, &UserAnswer::ShortAnswer { text: "The MAIN function".to_string() }),
        (true, Some("Good! You mentioned: main, function".to_string()))
    );
    assert_eq!(
        m.evaluate_answer(q1, &UserAnswer::ShortAnswer { text: "fn start".to_string() }),
        (false, Some("Try to include these concepts: main, function, entry point".to_string()))
    );
}

#[test]
fn default_lessons_links_and_examples() {
    let ls = default_lessons();
    assert!(ls[0].prev_lesson.is_none());
    assert_eq!(ls[0].next_lesson.as_deref(), Some("02-variables"));
    assert_eq!(ls[1].prev_lesson.as_deref(), Some("01-intro"));
    for l in &ls {
        for ex in &l.code_examples {
            assert!(ex.runnable);
            assert!(is_safe_code(&ex.code));
        }
    }
}
