//! Lessons: their store, their order, and their rendering as HTML.
use vstd::prelude::*;
use crate::safety::{is_denied, lemma_passes_without_pairs};
use crate::text::{lex_le, replace_all, replace_str, sort_strings};

verus! {

#[derive(Debug, Clone)]
pub struct Lesson {
    pub id: String,
    pub title: String,
    pub description: String,
    pub difficulty: Difficulty,
    pub content: String,
    pub code_examples: Vec<CodeExample>,
    pub next_lesson: Option<String>,
    pub prev_lesson: Option<String>,
}

#[derive(Debug, Clone, Copy, PartialEq, Eq, Structural)]
pub enum Difficulty {
    Beginner,
    Intermediate,
    Advanced,
}

#[derive(Debug, Clone)]
pub struct CodeExample {
    pub title: String,
    pub code: String,
    pub explanation: String,
    pub runnable: bool,
}

/// The ids of `ls`, in their order.
pub open spec fn ids_of(ls: Seq<Lesson>) -> Seq<String> {
    ls.map_values(|l: Lesson| l.id)
}

/// `content` after the markdown-like substitutions, one after another.
pub open spec fn html_body(content: Seq<char>) -> Seq<char> {
    let h1 = replace_all(content, "# "@, "<h1>"@);
    let p = replace_all(h1, "\n\n"@, "</h1>\n<p>"@);
    let h2 = replace_all(p, "## "@, "<h2>"@);
    let h3 = replace_all(h2, "### "@, "<h3>"@);
    let open_strong = replace_all(h3, "**"@, "<strong>"@);
    let close_strong = replace_all(open_strong, "**"@, "</strong>"@);
    let li = replace_all(close_strong, "- "@, "<li>"@);
    replace_all(li, "\n"@, "</li>\n"@)
}

/// The HTML page of a lesson whose content is `content`.
pub open spec fn lesson_html(content: Seq<char>) -> Seq<char> {
    "<div class='lesson-content'>"@ + html_body(content) + "</div>"@
}

/// The position of the lesson with id `id` in `ls`, if any.
fn position(ls: &Vec<Lesson>, id: &String) -> (r: Option<usize>)
    ensures
        r matches Some(k) ==> k < ls@.len() && ls@[k as int].id@ == id@,
        r is None ==> forall|j: int| 0 <= j < ls@.len() ==> #[trigger] ls@[j].id@ != id@,
{
    let mut i: usize = 0;
    while i < ls.len()
        invariant
            i <= ls@.len(),
            forall|j: int| 0 <= j < i ==> #[trigger] ls@[j].id@ != id@,
        decreases ls@.len() - i,
    {
        if ls[i].id == *id {
            return Some(i);
        }
        i = i + 1;
    }
    None
}

/// Ids in `ls` are pairwise distinct.
pub open spec fn unique_ids(ls: Seq<Lesson>) -> bool {
    forall|i: int, j: int| 0 <= i < j < ls.len() ==> #[trigger] ls[i].id@ != #[trigger] ls[j].id@
}

/// `ls` after storing `l`: in place of the lesson with its id, or at the end.
pub open spec fn stored_after(ls: Seq<Lesson>, l: Lesson) -> Seq<Lesson> {
    if exists|k: int| 0 <= k < ls.len() && #[trigger] ls[k].id@ == l.id@ {
        let k = choose|k: int| 0 <= k < ls.len() && #[trigger] ls[k].id@ == l.id@;
        ls.update(k, l)
    } else {
        ls.push(l)
    }
}

/// `ls` after storing each of `added` in turn.
pub open spec fn store_all(ls: Seq<Lesson>, added: Seq<Lesson>) -> Seq<Lesson>
    decreases added.len(),
{
    if added.len() == 0 {
        ls
    } else {
        stored_after(store_all(ls, added.drop_last()), added.last())
    }
}

/// The lessons, each under its own id, and their ids in ascending order.
#[derive(Debug)]
pub struct LessonManager {
    lessons: Vec<Lesson>,
    lesson_order: Vec<String>,
}

impl LessonManager {
    /// The stored lessons.
    pub closed spec fn lessons(&self) -> Seq<Lesson> {
        self.lessons@
    }

    /// The order in which lessons are listed.
    pub closed spec fn order(&self) -> Seq<String> {
        self.lesson_order@
    }

    /// Ids are unique, and the order lists each id once, ascending.
    pub open spec fn wf(&self) -> bool {
        &&& unique_ids(self.lessons())
        &&& self.order().to_multiset() == ids_of(self.lessons()).to_multiset()
        &&& forall|i: int, j: int|
            0 <= i < j < self.order().len() ==> lex_le(#[trigger] self.order()[i]@, #[trigger] self.order()[j]@)
    }

    /// A manager holding `lessons`, stored one after another as
    /// `load_lessons` does.
    pub fn new(lessons: Vec<Lesson>) -> (r: Self)
        ensures
            r.wf(),
            r.lessons() == store_all(Seq::empty(), lessons@),
    {
        let mut manager = LessonManager { lessons: Vec::new(), lesson_order: Vec::new() };
        proof {
            assert(ids_of(manager.lessons@) =~= Seq::<String>::empty());
            assert(manager.lesson_order@ =~= Seq::<String>::empty());
        }
        manager.load_lessons(lessons);
        manager
    }

    /// Stores `lesson` in place of the one with its id, or after the others.
    fn store(&mut self, lesson: Lesson)
        requires
            unique_ids(old(self).lessons@),
        ensures
            unique_ids(final(self).lessons@),
            final(self).lessons@ == stored_after(old(self).lessons@, lesson),
            final(self).lesson_order@ == old(self).lesson_order@,
    {
        let ghost ls = self.lessons@;
        match position(&self.lessons, &lesson.id) {
            Some(k) => {
                let ghost l = lesson;
                self.lessons.set(k, lesson);
                proof {
                    let w = choose|w: int| 0 <= w < ls.len() && #[trigger] ls[w].id@ == l.id@;
                    assert(w == k);
                    assert(self.lessons@ =~= ls.update(k as int, l));
                }
            },
            None => {
                self.lessons.push(lesson);
            },
        }
    }

    /// Stores each of `lessons` in turn, then lists all ids in ascending
    /// order.
    pub fn load_lessons(&mut self, lessons: Vec<Lesson>)
        requires
            old(self).wf(),
        ensures
            final(self).wf(),
            final(self).lessons() == store_all(old(self).lessons(), lessons@),
    {
        let ghost all = lessons@;
        let mut rest = lessons;
        let ghost mut done: int = 0;
        while rest.len() > 0
            invariant
                0 <= done <= all.len(),
                rest@ == all.skip(done),
                unique_ids(self.lessons@),
                self.lessons@ == store_all(old(self).lessons(), all.take(done)),
            decreases rest@.len(),
        {
            let l = rest.remove(0);
            proof {
                assert(l == all[done]);
                assert(all.take(done + 1).drop_last() =~= all.take(done));
                assert(all.take(done + 1).last() == all[done]);
            }
            self.store(l);
            proof {
                done = done + 1;
                assert(rest@ =~= all.skip(done));
            }
        }
        assert(all.take(all.len() as int) =~= all);
        self.build_lesson_order();
    }

    /// Lists the ids of the stored lessons in ascending order.
    fn build_lesson_order(&mut self)
        requires
            unique_ids(old(self).lessons@),
        ensures
            final(self).wf(),
            final(self).lessons@ == old(self).lessons@,
    {
        let mut ids: Vec<String> = Vec::new();
        let mut i: usize = 0;
        while i < self.lessons.len()
            invariant
                i <= self.lessons@.len(),
                ids@ == ids_of(self.lessons@.take(i as int)),
            decreases self.lessons@.len() - i,
        {
            ids.push(self.lessons[i].id.clone());
            assert(ids@ =~= ids_of(self.lessons@.take(i as int + 1)));
            i = i + 1;
        }
        assert(self.lessons@.take(self.lessons@.len() as int) =~= self.lessons@);
        sort_strings(&mut ids);
        self.lesson_order = ids;
    }

    /// The lesson with id `id`, if there is one.
    pub fn get_lesson(&self, id: &str) -> (r: Option<&Lesson>)
        requires
            self.wf(),
        ensures
            r is None <==> (forall|j: int| 0 <= j < self.lessons().len() ==> #[trigger] self.lessons()[j].id@ != id@),
            r matches Some(l) ==> exists|j: int| 0 <= j < self.lessons().len() && *l == #[trigger] self.lessons()[j] && l.id@ == id@,
    {
        let key = String::from_str(id);
        match position(&self.lessons, &key) {
            Some(k) => Some(&self.lessons[k]),
            None => None,
        }
    }

    /// The lessons in ascending order of id.
    pub fn list_lessons(&self) -> (r: Vec<&Lesson>)
        requires
            self.wf(),
        ensures
            r@.len() == self.order().len(),
            forall|i: int| 0 <= i < r@.len() ==> (#[trigger] r@[i]).id@ == self.order()[i]@
                && exists|j: int| 0 <= j < self.lessons().len() && *r@[i] == #[trigger] self.lessons()[j],
    {
        let mut r: Vec<&Lesson> = Vec::new();
        let mut i: usize = 0;
        while i < self.lesson_order.len()
            invariant
                self.wf(),
                i <= self.lesson_order@.len(),
                r@.len() == i,
                forall|k: int| 0 <= k < i ==> (#[trigger] r@[k]).id@ == self.lesson_order@[k]@
                    && exists|j: int| 0 <= j < self.lessons@.len() && *r@[k] == #[trigger] self.lessons@[j],
            decreases self.lesson_order@.len() - i,
        {
            proof {
                let id = self.lesson_order@[i as int];
                self.lesson_order@.to_multiset_ensures();
                ids_of(self.lessons@).to_multiset_ensures();
                assert(self.lesson_order@.contains(id));
                assert(self.lesson_order@.to_multiset().count(id) > 0);
                assert(ids_of(self.lessons@).to_multiset().count(id) > 0);
                assert(ids_of(self.lessons@).contains(id));
                let j = choose|j: int| 0 <= j < ids_of(self.lessons@).len() && ids_of(self.lessons@)[j] == id;
                assert(self.lessons@[j].id@ == id@);
            }
            match position(&self.lessons, &self.lesson_order[i]) {
                Some(k) => {
                    r.push(&self.lessons[k]);
                },
                None => {
                    assert(false);
                },
            }
            i = i + 1;
        }
        r
    }

    /// The lessons of the given difficulty, in the order they are stored.
    pub fn get_lessons_by_difficulty(&self, difficulty: &Difficulty) -> (r: Vec<&Lesson>)
        ensures
            r@.map_values(|l: &Lesson| *l) == self.lessons().filter(|l: Lesson| l.difficulty == *difficulty),
    {
        let mut r: Vec<&Lesson> = Vec::new();
        let mut i: usize = 0;
        while i < self.lessons.len()
            invariant
                i <= self.lessons@.len(),
                r@.map_values(|l: &Lesson| *l) == self.lessons@.take(i as int).filter(|l: Lesson| l.difficulty == *difficulty),
            decreases self.lessons@.len() - i,
        {
            proof {
                reveal(Seq::filter);
                assert(self.lessons@.take(i as int + 1).drop_last() =~= self.lessons@.take(i as int));
            }
            if self.lessons[i].difficulty == *difficulty {
                r.push(&self.lessons[i]);
            }
            assert(r@.map_values(|l: &Lesson| *l) =~= self.lessons@.take(i as int + 1).filter(
                |l: Lesson| l.difficulty == *difficulty,
            ));
            i = i + 1;
        }
        assert(self.lessons@.take(self.lessons@.len() as int) =~= self.lessons@);
        r
    }

    /// The lesson's content as an HTML fragment.
    pub fn render_lesson_html(&self, lesson: &Lesson) -> (r: String)
        ensures
            r@ == lesson_html(lesson.content@),
    {
        proof {
            reveal_strlit("# ");
            reveal_strlit("\n\n");
            reveal_strlit("## ");
            reveal_strlit("### ");
            reveal_strlit("**");
            reveal_strlit("- ");
            reveal_strlit("\n");
        }
        let h1 = replace_str(lesson.content.as_str(), "# ", "<h1>");
        let p = replace_str(h1.as_str(), "\n\n", "</h1>\n<p>");
        let h2 = replace_str(p.as_str(), "## ", "<h2>");
        let h3 = replace_str(h2.as_str(), "### ", "<h3>");
        let open_strong = replace_str(h3.as_str(), "**", "<strong>");
        let close_strong = replace_str(open_strong.as_str(), "**", "</strong>");
        let li = replace_str(close_strong.as_str(), "- ", "<li>");
        let body = replace_str(li.as_str(), "\n", "</li>\n");
        let mut html = String::from_str("<div class='lesson-content'>");
        html.append(body.as_str());
        html.append("</div>");
        html
    }

    /// The directory, relative to the working directory, that holds one
    /// YAML file per lesson.
    pub fn get_lessons_dir(&self) -> (r: String)
        ensures
            r@ == "lessons"@,
    {
        String::from_str("lessons")
    }
}

/// The lessons that a new lessons directory is seeded with.
pub fn default_lessons() -> (r: Vec<Lesson>)
    ensures
        r@.len() == 2,
        r@[0].id@ == "01-intro"@,
        r@[0].difficulty == Difficulty::Beginner,
        r@[0].code_examples@.len() == 1,
        r@[1].id@ == "02-variables"@,
        r@[1].difficulty == Difficulty::Beginner,
        r@[1].code_examples@.len() == 2,
        r@[0].prev_lesson is None,
        r@[0].next_lesson matches Some(n) && n@ == "02-variables"@,
        r@[1].prev_lesson matches Some(p) && p@ == "01-intro"@,
        r@[1].next_lesson matches Some(n) && n@ == "03-ownership"@,
        forall|i: int, k: int| 0 <= i < 2 && 0 <= k < r@[i].code_examples@.len()
            ==> (#[trigger] r@[i].code_examples@[k]).runnable && !is_denied(r@[i].code_examples@[k].code@),
{
    let intro = Lesson {
        id: String::from_str("01-intro"),
        title: String::from_str("Introduction to Rust"),
        description: String::from_str("Learn the basics of the Rust programming language"),
        difficulty: Difficulty::Beginner,
        content: String::from_str(r#"# Introduction to Rust

Welcome to Rust! Rust is a systems programming language that focuses on safety, speed, and concurrency.

## What makes Rust special?

- **Memory Safety**: Rust prevents common programming errors like null pointer dereferences and buffer overflows
- **Zero-cost abstractions**: High-level features don't sacrifice performance
- **Fearless concurrency**: Safe and efficient concurrent programming

## Your first Rust program

Let's start with the classic "Hello, World!" program:

```rust
fn main() {
    println!("Hello, World!");
}
```

This program defines a `main` function, which is the entry point of every Rust program. The `println!` macro prints text to the console.
"#),
        code_examples: vec![
            CodeExample {
                title: String::from_str("Hello World"),
                code: String::from_str(r#"fn main() {
    println!("Hello, World!");
}"#),
                explanation: String::from_str("This is the simplest Rust program. It prints 'Hello, World!' to the console."),
                runnable: true,
            },
        ],
        next_lesson: Some(String::from_str("02-variables")),
        prev_lesson: None,
    };
    let variables = Lesson {
        id: String::from_str("02-variables"),
        title: String::from_str("Variables and Mutability"),
        description: String::from_str("Learn about variables, mutability, and data types in Rust"),
        difficulty: Difficulty::Beginner,
        content: String::from_str(r#"# Variables and Mutability

In Rust, variables are **immutable by default**. This means once you assign a value to a variable, you can't change it unless you explicitly make it mutable.

## Immutable Variables

```rust
let x = 5;
// x = 6; // This would cause a compile error!
```

## Mutable Variables

To make a variable mutable, use the `mut` keyword:

```rust
let mut x = 5;
x = 6; // This is allowed
```

## Data Types

Rust has several built-in data types:

- **Integers**: `i32`, `u32`, `i64`, `u64`, etc.
- **Floating point**: `f32`, `f64`
- **Boolean**: `bool`
- **Character**: `char`
- **String**: `String` and `&str`
"#),
        code_examples: vec![
            CodeExample {
                title: String::from_str("Immutable Variables"),
                code: String::from_str(r#"fn main() {
    let x = 5;
    println!("The value of x is: {}", x);
}"#),
                explanation: String::from_str("Variables are immutable by default in Rust."),
                runnable: true,
            },
            CodeExample {
                title: String::from_str("Mutable Variables"),
                code: String::from_str(r#"fn main() {
    let mut x = 5;
    println!("The value of x is: {}", x);
    
    x = 6;
    println!("The value of x is: {}", x);
}"#),
                explanation: String::from_str("Use 'mut' to make variables mutable."),
                runnable: true,
            },
        ],
        next_lesson: Some(String::from_str("03-ownership")),
        prev_lesson: Some(String::from_str("01-intro")),
    };
    proof {
        reveal_strlit(r#"fn main() {
    println!("Hello, World!");
}"#);
        lemma_passes_without_pairs(r#"fn main() {
    println!("Hello, World!");
}"#@);
        reveal_strlit(r#"fn main() {
    let x = 5;
    println!("The value of x is: {}", x);
}"#);
        lemma_passes_without_pairs(r#"fn main() {
    let x = 5;
    println!("The value of x is: {}", x);
}"#@);
        reveal_strlit(r#"fn main() {
    let mut x = 5;
    println!("The value of x is: {}", x);
    
    x = 6;
    println!("The value of x is: {}", x);
}"#);
        lemma_passes_without_pairs(r#"fn main() {
    let mut x = 5;
    println!("The value of x is: {}", x);
    
    x = 6;
    println!("The value of x is: {}", x);
}"#@);
    }
    vec![intro, variables]
}

} // verus!
