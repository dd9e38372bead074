//! Quizzes and the grading of a learner's answer.
use vstd::prelude::*;
use crate::safety::{occurs_in, str_contains};
use crate::text::{append_joined, decimal_of, decimal_string, join, lower_of, lowercase, views};

verus! {

#[derive(Debug, Clone)]
pub struct Quiz {
    pub id: String,
    pub title: String,
    pub description: String,
    pub lesson_id: Option<String>,
    pub questions: Vec<Question>,
}

#[derive(Debug, Clone)]
pub struct Question {
    pub id: String,
    pub question_type: QuestionType,
    pub title: String,
    pub content: String,
    pub hint: Option<String>,
    pub explanation: Option<String>,
}

#[derive(Debug, Clone)]
pub enum QuestionType {
    MultipleChoice { options: Vec<String>, correct_answer: usize },
    CodeCompletion { template: String, solution: String, test_cases: Vec<TestCase> },
    ShortAnswer { expected_keywords: Vec<String> },
}

#[derive(Debug, Clone)]
pub struct TestCase {
    pub input: String,
    pub expected_output: String,
}

#[derive(Debug, Clone)]
pub enum UserAnswer {
    MultipleChoice { selected: usize },
    CodeCompletion { code: String },
    ShortAnswer { text: String },
}

/// The keywords `kws[i]` whose folded form `folded[i]` occurs in `text`, in
/// their order.
pub open spec fn matching(kws: Seq<Seq<char>>, folded: Seq<Seq<char>>, text: Seq<char>) -> Seq<Seq<char>>
    decreases kws.len(),
{
    if kws.len() == 0 {
        Seq::empty()
    } else {
        let rest = matching(kws.drop_last(), folded.take(kws.len() - 1), text);
        if occurs_in(text, folded[kws.len() - 1]) {
            rest.push(kws.last())
        } else {
            rest
        }
    }
}

/// The grade of a short answer whose folded text is `text`, against
/// keywords `kws` whose folded forms are `folded`: right when some keyword
/// occurs, with the feedback naming those that do, or else all of them.
pub open spec fn short_answer_grade(kws: Seq<Seq<char>>, folded: Seq<Seq<char>>, text: Seq<char>) -> (bool, Seq<char>) {
    let m = matching(kws, folded, text);
    if m.len() > 0 {
        (true, "Good! You mentioned: "@ + join(m, ", "@))
    } else {
        (false, "Try to include these concepts: "@ + join(kws, ", "@))
    }
}

/// The grade of a multiple-choice answer; options are counted from one in
/// the feedback.
pub open spec fn multiple_choice_grade(correct: usize, selected: usize) -> (bool, Seq<char>) {
    if selected == correct {
        (true, "Correct!"@)
    } else {
        (false, "Incorrect. The correct answer was option "@ + decimal_of(correct as nat + 1) + "."@)
    }
}

/// The grade of `a` for a question of type `qt`.
pub open spec fn grade(qt: QuestionType, a: UserAnswer) -> (bool, Seq<char>) {
    match (qt, a) {
        (QuestionType::MultipleChoice { correct_answer, .. }, UserAnswer::MultipleChoice { selected }) =>
            multiple_choice_grade(correct_answer, selected),
        (QuestionType::ShortAnswer { expected_keywords }, UserAnswer::ShortAnswer { text }) => {
            let kws = views(expected_keywords@);
            short_answer_grade(kws, kws.map_values(|k: Seq<char>| lower_of(k)), lower_of(text@))
        },
        _ => (false, "Answer type mismatch"@),
    }
}

/// Grades a short answer from already folded text and keywords.
pub fn grade_short_answer(expected_keywords: &Vec<String>, folded_keywords: &Vec<String>, folded_text: &str) -> (r: (
    bool,
    String,
))
    requires
        folded_keywords@.len() == expected_keywords@.len(),
    ensures
        (r.0, r.1@) == short_answer_grade(views(expected_keywords@), views(folded_keywords@), folded_text@),
{
    let ghost kws = views(expected_keywords@);
    let ghost folded = views(folded_keywords@);
    let mut found: Vec<String> = Vec::new();
    let mut i: usize = 0;
    while i < expected_keywords.len()
        invariant
            i <= expected_keywords@.len(),
            folded_keywords@.len() == expected_keywords@.len(),
            kws == views(expected_keywords@),
            folded == views(folded_keywords@),
            views(found@) == matching(kws.take(i as int), folded.take(i as int), folded_text@),
        decreases expected_keywords@.len() - i,
    {
        proof {
            let k1 = kws.take(i as int + 1);
            assert(k1.drop_last() =~= kws.take(i as int));
            assert(folded.take(i as int + 1).take(i as int) =~= folded.take(i as int));
        }
        if str_contains(folded_text, folded_keywords[i].as_str()) {
            found.push(expected_keywords[i].clone());
            assert(views(found@) =~= matching(kws.take(i as int), folded.take(i as int), folded_text@).push(
                kws[i as int],
            ));
        }
        i = i + 1;
    }
    assert(kws.take(kws.len() as int) =~= kws);
    assert(folded.take(folded.len() as int) =~= folded);
    if found.len() > 0 {
        let mut s = String::from_str("Good! You mentioned: ");
        append_joined(&mut s, &found, ", ");
        (true, s)
    } else {
        let mut s = String::from_str("Try to include these concepts: ");
        append_joined(&mut s, expected_keywords, ", ");
        (false, s)
    }
}

/// Folds each keyword with `str::to_lowercase`.
fn lowercase_all(v: &Vec<String>) -> (r: Vec<String>)
    ensures
        r@.len() == v@.len(),
        views(r@) == views(v@).map_values(|k: Seq<char>| lower_of(k)),
{
    let mut r: Vec<String> = Vec::new();
    let mut i: usize = 0;
    while i < v.len()
        invariant
            i <= v@.len(),
            r@.len() == i,
            forall|j: int| 0 <= j < i ==> #[trigger] r@[j]@ == lower_of(v@[j]@),
        decreases v@.len() - i,
    {
        r.push(lowercase(v[i].as_str()));
        i = i + 1;
    }
    assert(views(r@) =~= views(v@).map_values(|k: Seq<char>| lower_of(k)));
    r
}

/// The quizzes, each under its own id.
#[derive(Debug)]
pub struct QuizManager {
    quizzes: Vec<Quiz>,
}

impl View for QuizManager {
    type V = Seq<Quiz>;

    closed spec fn view(&self) -> Seq<Quiz> {
        self.quizzes@
    }
}

/// Every multiple-choice question of `q` names one of its options as correct.
pub open spec fn choices_sound(q: Quiz) -> bool {
    forall|k: int| 0 <= k < q.questions@.len() ==> (#[trigger] q.questions@[k].question_type matches
        QuestionType::MultipleChoice { options, correct_answer } ==> correct_answer < options@.len())
}

/// The id of the quiz that comes with the first lesson.
pub open spec fn intro_quiz_id() -> Seq<char> {
    "quiz-01-intro"@
}

/// `q` is the quiz of the first lesson: a four-option question whose first
/// option is right, then a short answer on "main", "function" and "entry
/// point".
pub open spec fn is_intro_quiz(q: Quiz) -> bool {
    &&& q.id@ == intro_quiz_id()
    &&& (q.lesson_id matches Some(l) && l@ == "01-intro"@)
    &&& q.questions@.len() == 2
    &&& (q.questions@[0].question_type matches QuestionType::MultipleChoice { options, correct_answer }
        && options@.len() == 4 && correct_answer == 0)
    &&& (q.questions@[1].question_type matches QuestionType::ShortAnswer { expected_keywords }
        && views(expected_keywords@) == seq!["main"@, "function"@, "entry point"@])
}

/// The position of the quiz with id `id` in `qs`, if any.
fn quiz_position(qs: &Vec<Quiz>, id: &String) -> (r: Option<usize>)
    ensures
        r matches Some(k) ==> k < qs@.len() && qs@[k as int].id@ == id@,
        r is None ==> forall|j: int| 0 <= j < qs@.len() ==> #[trigger] qs@[j].id@ != id@,
{
    let mut i: usize = 0;
    while i < qs.len()
        invariant
            i <= qs@.len(),
            forall|j: int| 0 <= j < i ==> #[trigger] qs@[j].id@ != id@,
        decreases qs@.len() - i,
    {
        if qs[i].id == *id {
            return Some(i);
        }
        i = i + 1;
    }
    None
}

/// The quiz that comes with the first lesson.
fn intro_quiz() -> (r: Quiz)
    ensures
        is_intro_quiz(r),
{
    let q1 = Question {
        id: String::from_str("q1"),
        question_type: QuestionType::MultipleChoice {
            options: vec![
                String::from_str("Memory safety and performance"),
                String::from_str("Ease of learning"),
                String::from_str("Large standard library"),
                String::from_str("Dynamic typing"),
            ],
            correct_answer: 0,
        },
        title: String::from_str("What makes Rust special?"),
        content: String::from_str(
            "What is one of the main advantages of Rust over other systems programming languages?",
        ),
        hint: Some(String::from_str("Think about what prevents common programming errors")),
        explanation: Some(
            String::from_str(
                "Rust focuses on memory safety without sacrificing performance, preventing common errors like null pointer dereferences.",
            ),
        ),
    };
    let q2 = Question {
        id: String::from_str("q2"),
        question_type: QuestionType::ShortAnswer {
            expected_keywords: vec![
                String::from_str("main"),
                String::from_str("function"),
                String::from_str("entry point"),
            ],
        },
        title: String::from_str("Entry Point"),
        content: String::from_str(
            "What is the name of the function that serves as the entry point for Rust programs?",
        ),
        hint: Some(String::from_str("Every Rust program starts execution from this function")),
        explanation: Some(
            String::from_str("The main() function is the entry point where Rust programs begin execution."),
        ),
    };
    proof {
        assert(views(q2.question_type->expected_keywords@) =~= seq!["main"@, "function"@, "entry point"@]);
    }
    Quiz {
        id: String::from_str("quiz-01-intro"),
        title: String::from_str("Introduction to Rust Quiz"),
        description: String::from_str("Test your understanding of basic Rust concepts"),
        lesson_id: Some(String::from_str("01-intro")),
        questions: vec![q1, q2],
    }
}

impl QuizManager {
    /// Ids are unique, and every multiple-choice question names one of its
    /// options as correct.
    pub open spec fn wf(&self) -> bool {
        &&& forall|i: int, j: int| 0 <= i < j < self@.len() ==> #[trigger] self@[i].id@ != #[trigger] self@[j].id@
        &&& forall|i: int| 0 <= i < self@.len() ==> choices_sound(#[trigger] self@[i])
    }

    /// A manager holding the built-in quiz.
    pub fn new() -> (r: Self)
        ensures
            r.wf(),
            r@.len() == 1,
            is_intro_quiz(r@[0]),
    {
        let mut manager = QuizManager { quizzes: Vec::new() };
        manager.load_default_quizzes();
        assert(manager@[0].id@ == intro_quiz_id());
        manager
    }

    /// Stores the built-in quiz, in place of the one with its id if there
    /// is one; the other quizzes stay as they are. Loading twice leaves what
    /// loading once left.
    fn load_default_quizzes(&mut self)
        requires
            old(self).wf(),
        ensures
            final(self).wf(),
            (exists|k: int| 0 <= k < old(self)@.len() && #[trigger] old(self)@[k].id@ == intro_quiz_id())
                ==> final(self)@.len() == old(self)@.len(),
            (forall|k: int| 0 <= k < old(self)@.len() ==> #[trigger] old(self)@[k].id@ != intro_quiz_id())
                ==> final(self)@.len() == old(self)@.len() + 1,
            forall|k: int| 0 <= k < old(self)@.len() && #[trigger] old(self)@[k].id@ != intro_quiz_id()
                ==> final(self)@[k] == old(self)@[k],
            forall|k: int| 0 <= k < final(self)@.len() && #[trigger] final(self)@[k].id@ == intro_quiz_id()
                ==> is_intro_quiz(final(self)@[k]),
            exists|k: int| 0 <= k < final(self)@.len() && #[trigger] final(self)@[k].id@ == intro_quiz_id(),
    {
        let q = intro_quiz();
        let ghost g = q;
        let ghost before = self.quizzes@;
        match quiz_position(&self.quizzes, &q.id) {
            Some(k) => {
                self.quizzes.set(k, q);
                assert(self.quizzes@[k as int] == g);
                assert(forall|j: int| 0 <= j < before.len() && j != k ==> self.quizzes@[j] == before[j]);
            },
            None => {
                let ghost n = before.len();
                self.quizzes.push(q);
                assert(self.quizzes@[n as int] == g);
            },
        }
    }

    /// The quiz with id `id`, if there is one.
    pub fn get_quiz(&self, id: &str) -> (r: Option<&Quiz>)
        requires
            self.wf(),
        ensures
            r is None <==> (forall|i: int| 0 <= i < self@.len() ==> #[trigger] self@[i].id@ != id@),
            r matches Some(q) ==> exists|i: int| 0 <= i < self@.len() && *q == #[trigger] self@[i] && q.id@ == id@,
    {
        let key = String::from_str(id);
        let mut i: usize = 0;
        while i < self.quizzes.len()
            invariant
                i <= self.quizzes@.len(),
                key@ == id@,
                forall|j: int| 0 <= j < i ==> #[trigger] self.quizzes@[j].id@ != id@,
            decreases self.quizzes@.len() - i,
        {
            if self.quizzes[i].id == key {
                return Some(&self.quizzes[i]);
            }
            i = i + 1;
        }
        None
    }

    /// All quizzes.
    pub fn list_quizzes(&self) -> (r: Vec<&Quiz>)
        requires
            self.wf(),
        ensures
            r@.len() == self@.len(),
            forall|i: int| 0 <= i < r@.len() ==> *#[trigger] r@[i] == self@[i],
            forall|i: int, j: int| 0 <= i < j < r@.len() ==> (#[trigger] r@[i]).id@ != (#[trigger] r@[j]).id@,
    {
        let mut r: Vec<&Quiz> = Vec::new();
        let mut i: usize = 0;
        while i < self.quizzes.len()
            invariant
                i <= self.quizzes@.len(),
                r@.len() == i,
                forall|j: int| 0 <= j < i ==> *#[trigger] r@[j] == self.quizzes@[j],
            decreases self.quizzes@.len() - i,
        {
            r.push(&self.quizzes[i]);
            i = i + 1;
        }
        r
    }

    /// Grades `answer` to `question`: whether it is right, and feedback.
    /// A multiple-choice answer is right when it selects the correct
    /// option; a short answer when its lower-cased text contains some
    /// lower-cased keyword. An answer of another kind than the question is
    /// wrong.
    pub fn evaluate_answer(&self, question: &Question, answer: &UserAnswer) -> (r: (bool, Option<String>))
        ensures
            r.0 == grade(question.question_type, *answer).0,
            r.1 matches Some(f) && f@ == grade(question.question_type, *answer).1,
    {
        match (&question.question_type, answer) {
            (QuestionType::MultipleChoice { correct_answer, .. }, UserAnswer::MultipleChoice { selected }) => {
                if *selected == *correct_answer {
                    (true, Some(String::from_str("Correct!")))
                } else {
                    let mut s = String::from_str("Incorrect. The correct answer was option ");
                    let n = decimal_string(*correct_answer as u128 + 1);
                    s.append(n.as_str());
                    s.append(".");
                    (false, Some(s))
                }
            },
            (QuestionType::ShortAnswer { expected_keywords }, UserAnswer::ShortAnswer { text }) => {
                let folded_text = lowercase(text.as_str());
                let folded = lowercase_all(expected_keywords);
                let (ok, s) = grade_short_answer(expected_keywords, &folded, folded_text.as_str());
                (ok, Some(s))
            },
            _ => (false, Some(String::from_str("Answer type mismatch"))),
        }
    }
}

} // verus!
