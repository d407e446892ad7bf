//! Settling the variables of a template. A literal has its value, a
//! specification has its default or, without one, a line that the operator
//! answers. The name of the project and the author's identity are bound
//! last, so they win over a declaration of the same name.

use crate::bindings::Bindings;
use crate::config::Variables;
use crate::descriptor::{declared_once, Descriptor, EntryView, VariableEntry};
use vstd::prelude::*;
use vstd::string::StringExecFns;

verus! {

/// Whether the operator is asked for the value of a declaration: it is a
/// specification without a default.
pub open spec fn needs_answer(entry: EntryView) -> bool {
    entry matches EntryView::Spec(variable) && variable.default is None
}

/// The value of a declaration that the operator is not asked for.
pub open spec fn own_value(entry: EntryView) -> Seq<char> {
    match entry {
        EntryView::Literal(value) => value,
        EntryView::Spec(variable) => variable.default->0,
    }
}

/// The label under which the operator is asked for a variable: the
/// declaration's prompt, or the variable's name where it has none.
pub open spec fn label_of(name: Seq<char>, entry: EntryView) -> Seq<char> {
    match entry {
        EntryView::Spec(variable) => match variable.prompt {
            Some(prompt) => prompt,
            None => name,
        },
        EntryView::Literal(_) => name,
    }
}

/// How many of the declarations the operator is asked for.
pub open spec fn questions(entries: Seq<(Seq<char>, EntryView)>) -> nat
    decreases entries.len(),
{
    if entries.len() == 0 {
        0
    } else {
        questions(entries.drop_last()) + if needs_answer(entries.last().1) {
            1nat
        } else {
            0nat
        }
    }
}

/// The first declaration at or after `from` that the operator is asked
/// for, or the number of declarations where there is none.
pub open spec fn next_question(entries: Seq<(Seq<char>, EntryView)>, from: int) -> int
    decreases entries.len() - from,
{
    if from < 0 || from >= entries.len() {
        entries.len() as int
    } else if needs_answer(entries[from].1) {
        from
    } else {
        next_question(entries, from + 1)
    }
}

/// What the declarations bind, given the operator's answers in the order
/// of the questions.
pub open spec fn settled(entries: Seq<(Seq<char>, EntryView)>, answers: Seq<Seq<char>>) -> Map<
    Seq<char>,
    Seq<char>,
>
    decreases entries.len(),
{
    if entries.len() == 0 {
        Map::empty()
    } else if needs_answer(entries.last().1) {
        settled(entries.drop_last(), answers.drop_last()).insert(entries.last().0, answers.last())
    } else {
        settled(entries.drop_last(), answers).insert(entries.last().0, own_value(entries.last().1))
    }
}

/// The bindings of a run: what the declarations bind, and over it the name
/// of the project and the author's identity.
pub open spec fn resolved(
    entries: Seq<(Seq<char>, EntryView)>,
    answers: Seq<Seq<char>>,
    project_name: Seq<char>,
    full_name: Seq<char>,
    license: Seq<char>,
) -> Map<Seq<char>, Seq<char>> {
    settled(entries, answers).insert("project_name"@, project_name).insert(
        "full_name"@,
        full_name,
    ).insert("license"@, license)
}

/// The names that are declared.
pub open spec fn names_of(entries: Seq<(Seq<char>, EntryView)>) -> Set<Seq<char>> {
    Set::new(|name: Seq<char>| exists|i: int| 0 <= i < entries.len() && entries[i].0 == name)
}

/// The variables of a template while they are settled: which declaration
/// waits for an answer, and what is bound so far.
pub struct Resolver {
    descriptor: Descriptor,
    count: usize,
    cursor: usize,
    bindings: Bindings,
    answers: Ghost<Seq<Seq<char>>>,
}

impl Resolver {
    #[verifier::type_invariant]
    spec fn well_formed(self) -> bool {
        &&& self.count == self.descriptor@.len()
        &&& self.cursor <= self.count
        &&& self.cursor < self.descriptor@.len() ==> needs_answer(
            self.descriptor@[self.cursor as int].1,
        )
        &&& self.answers@.len() == questions(self.descriptor@.take(self.cursor as int))
        &&& self.bindings@ == settled(self.descriptor@.take(self.cursor as int), self.answers@)
    }

    /// The declarations that are settled.
    pub closed spec fn declarations(self) -> Seq<(Seq<char>, EntryView)> {
        self.descriptor@
    }

    /// The answers given so far.
    pub closed spec fn answers(self) -> Seq<Seq<char>> {
        self.answers@
    }

    /// The declaration that waits for an answer; the number of
    /// declarations where none does.
    pub closed spec fn position(self) -> int {
        self.cursor as int
    }

    /// Binds what needs no answer from the declaration at `cursor` on, up to
    /// the next question.
    fn advance(
        descriptor: Descriptor,
        cursor: usize,
        bindings: Bindings,
        answers: Ghost<Seq<Seq<char>>>,
    ) -> (r: Resolver)
        requires
            cursor <= descriptor@.len(),
            answers@.len() == questions(descriptor@.take(cursor as int)),
            bindings@ == settled(descriptor@.take(cursor as int), answers@),
        ensures
            r.declarations() == descriptor@,
            r.answers() == answers@,
            r.position() == next_question(descriptor@, cursor as int),
            r.answers().len() == questions(r.declarations().take(r.position())),
            r.position() <= r.declarations().len(),
    {
        let n: usize = descriptor.len();
        let mut cursor: usize = cursor;
        let mut bindings: Bindings = bindings;
        let ghost start = cursor as int;
        let mut open: bool = false;
        while cursor < n && !open
            invariant
                cursor <= n,
                n == descriptor@.len(),
                answers@.len() == questions(descriptor@.take(cursor as int)),
                bindings@ == settled(descriptor@.take(cursor as int), answers@),
                next_question(descriptor@, start) == next_question(descriptor@, cursor as int),
                open ==> cursor < n && needs_answer(descriptor@[cursor as int].1),
            decreases n - cursor + if open { 0int } else { 1int },
        {
            let ghost entries = descriptor@;
            let value: Option<String> = match descriptor.entry(cursor) {
                VariableEntry::Literal(value) => Some(value.clone()),
                VariableEntry::Spec(variable) => match &variable.default {
                    Some(default) => Some(default.clone()),
                    None => None,
                },
            };
            match value {
                Some(value) => {
                    proof {
                        lemma_take_next(entries, cursor as int);
                    }
                    bindings.insert(descriptor.name(cursor).clone(), value);
                    cursor += 1;
                },
                None => {
                    open = true;
                },
            }
        }
        Resolver { descriptor, count: n, cursor, bindings, answers }
    }

    /// Starts to settle the variables of `descriptor`.
    pub fn new(descriptor: Descriptor) -> (r: Resolver)
        ensures
            r.declarations() == descriptor@,
            r.answers() == Seq::<Seq<char>>::empty(),
            r.position() == next_question(descriptor@, 0),
    {
        let ghost entries = descriptor@;
        assert(entries.take(0) =~= Seq::empty());
        Resolver::advance(descriptor, 0, Bindings::new(), Ghost(Seq::empty()))
    }

    /// The label of the question that waits for an answer.
    pub fn pending(&self) -> (r: Option<String>)
        ensures
            0 <= self.position() <= self.declarations().len(),
            self.answers().len() == questions(self.declarations().take(self.position())),
            match r {
                Some(label) => self.position() < self.declarations().len() && needs_answer(
                    self.declarations()[self.position()].1,
                ) && label@ == label_of(
                    self.declarations()[self.position()].0,
                    self.declarations()[self.position()].1,
                ),
                None => self.position() == self.declarations().len(),
            },
    {
        proof {
            use_type_invariant(self);
        }
        if self.cursor < self.count {
            let label: String = match self.descriptor.entry(self.cursor) {
                VariableEntry::Spec(variable) => match &variable.prompt {
                    Some(prompt) => prompt.clone(),
                    None => self.descriptor.name(self.cursor).clone(),
                },
                VariableEntry::Literal(_) => self.descriptor.name(self.cursor).clone(),
            };
            Some(label)
        } else {
            None
        }
    }

    /// Whether a question waits for an answer.
    pub fn is_waiting(&self) -> (r: bool)
        ensures
            r == (self.position() < self.declarations().len()),
            0 <= self.position() <= self.declarations().len(),
    {
        proof {
            use_type_invariant(self);
        }
        self.cursor < self.count
    }

    /// Takes the operator's answer to the pending question and goes on to
    /// the next one.
    pub fn answer(self, line: String) -> (r: Resolver)
        requires
            self.position() < self.declarations().len(),
        ensures
            r.declarations() == self.declarations(),
            r.answers() == self.answers().push(line@),
            r.position() == next_question(self.declarations(), self.position() + 1),
    {
        proof {
            use_type_invariant(&self);
        }
        let Resolver { descriptor, count: _, cursor, bindings, answers } = self;
        let mut bindings: Bindings = bindings;
        let ghost entries = descriptor@;
        let ghost given = answers@.push(line@);
        proof {
            lemma_take_next(entries, cursor as int);
            assert(given.drop_last() =~= answers@);
        }
        bindings.insert(descriptor.name(cursor).clone(), line);
        Resolver::advance(descriptor, cursor + 1, bindings, Ghost(given))
    }

    /// The bindings of the run, once no question is left: what the
    /// declarations bind, and over it `project_name`, `full_name` and
    /// `license`.
    pub fn finish(self, project_name: String, identity: &Variables) -> (r: Bindings)
        requires
            self.position() == self.declarations().len(),
        ensures
            self.answers().len() == questions(self.declarations()),
            r@ == resolved(
                self.declarations(),
                self.answers(),
                project_name@,
                identity.full_name@,
                identity.license@,
            ),
    {
        proof {
            use_type_invariant(&self);
        }
        let Resolver { descriptor, count: _, cursor, bindings, answers: _ } = self;
        let mut bindings: Bindings = bindings;
        assert(descriptor@.take(cursor as int) =~= descriptor@);
        bindings.insert(String::from_str("project_name"), project_name);
        bindings.insert(String::from_str("full_name"), identity.full_name.clone());
        bindings.insert(String::from_str("license"), identity.license.clone());
        bindings
    }
}

/// The first `at + 1` declarations are the first `at` and the one at `at`.
proof fn lemma_take_next(entries: Seq<(Seq<char>, EntryView)>, at: int)
    requires
        0 <= at < entries.len(),
    ensures
        entries.take(at + 1).drop_last() == entries.take(at),
        entries.take(at + 1).last() == entries[at],
{
    assert(entries.take(at + 1).drop_last() =~= entries.take(at));
}

/// The declarations bind the names that are declared, whatever is
/// answered.
pub proof fn lemma_settled_names(entries: Seq<(Seq<char>, EntryView)>, answers: Seq<Seq<char>>)
    ensures
        settled(entries, answers).dom() == names_of(entries),
    decreases entries.len(),
{
    if entries.len() == 0 {
        assert(settled(entries, answers).dom() =~= names_of(entries));
    } else {
        let front = entries.drop_last();
        let rest = if needs_answer(entries.last().1) {
            answers.drop_last()
        } else {
            answers
        };
        lemma_settled_names(front, rest);
        assert forall|name: Seq<char>| names_of(entries).contains(name) <==> (names_of(
            front,
        ).contains(name) || name == entries.last().0) by {
            if names_of(entries).contains(name) {
                let i = choose|i: int| 0 <= i < entries.len() && entries[i].0 == name;
                if i < front.len() {
                    assert(front[i].0 == name);
                }
            }
            if names_of(front).contains(name) {
                let i = choose|i: int| 0 <= i < front.len() && front[i].0 == name;
                assert(entries[i].0 == name);
            }
            if name == entries.last().0 {
                assert(entries[entries.len() - 1].0 == name);
            }
        }
        assert(settled(entries, answers).dom() =~= names_of(entries));
    }
}

/// A descriptor of literals alone asks nothing, and its bindings are the
/// declared names and `project_name`, `full_name` and `license`, no more
/// and no less.
pub proof fn lemma_literals_ask_nothing(
    entries: Seq<(Seq<char>, EntryView)>,
    project_name: Seq<char>,
    full_name: Seq<char>,
    license: Seq<char>,
)
    requires
        forall|i: int| 0 <= i < entries.len() ==> (#[trigger] entries[i]).1 is Literal,
    ensures
        questions(entries) == 0,
        next_question(entries, 0) == entries.len(),
        resolved(entries, Seq::empty(), project_name, full_name, license).dom() == names_of(
            entries,
        ).insert("project_name"@).insert("full_name"@).insert("license"@),
{
    lemma_no_questions(entries, 0);
    lemma_settled_names(entries, Seq::empty());
    assert(resolved(entries, Seq::empty(), project_name, full_name, license).dom() =~= names_of(
        entries,
    ).insert("project_name"@).insert("full_name"@).insert("license"@));
}

/// Where no declaration needs an answer, there is no question, from any
/// declaration on.
proof fn lemma_no_questions(entries: Seq<(Seq<char>, EntryView)>, from: int)
    requires
        0 <= from <= entries.len(),
        forall|i: int| 0 <= i < entries.len() ==> !needs_answer((#[trigger] entries[i]).1),
    ensures
        questions(entries) == 0,
        next_question(entries, from) == entries.len(),
    decreases entries.len(), entries.len() - from,
{
    if from < entries.len() {
        lemma_no_questions(entries, from + 1);
    } else if entries.len() > 0 {
        let front = entries.drop_last();
        assert forall|i: int| 0 <= i < front.len() implies !needs_answer((#[trigger] front[i]).1) by {
            assert(front[i] == entries[i]);
        }
        lemma_no_questions(front, front.len() as int);
    }
}

/// Every variable that the operator is asked for is bound to the answer to
/// its own question: the question of the declaration at `i` is the one after
/// those of the declarations before it.
pub proof fn lemma_answer_is_bound(
    entries: Seq<(Seq<char>, EntryView)>,
    answers: Seq<Seq<char>>,
    i: int,
)
    requires
        declared_once(entries),
        0 <= i < entries.len(),
        needs_answer(entries[i].1),
        answers.len() == questions(entries),
    ensures
        questions(entries.take(i)) < answers.len(),
        settled(entries, answers).contains_key(entries[i].0),
        settled(entries, answers)[entries[i].0] == answers[questions(entries.take(i)) as int],
    decreases entries.len(),
{
    let front = entries.drop_last();
    if i == entries.len() - 1 {
        assert(entries.take(i) =~= front);
    } else {
        let rest = if needs_answer(entries.last().1) {
            answers.drop_last()
        } else {
            answers
        };
        assert(declared_once(front)) by {
            assert forall|a: int, b: int| 0 <= a < b < front.len() implies front[a].0
                != front[b].0 by {
                assert(front[a] == entries[a] && front[b] == entries[b]);
            }
        }
        assert(front[i] == entries[i]);
        assert(front.take(i) =~= entries.take(i));
        assert(entries[i].0 != entries[entries.len() - 1].0);
        lemma_answer_is_bound(front, rest, i);
    }
}

/// Every variable that the operator is not asked for is bound to its own
/// value: a literal to its text, a specification to its default.
pub proof fn lemma_own_value_is_bound(
    entries: Seq<(Seq<char>, EntryView)>,
    answers: Seq<Seq<char>>,
    i: int,
)
    requires
        declared_once(entries),
        0 <= i < entries.len(),
        !needs_answer(entries[i].1),
    ensures
        settled(entries, answers).contains_key(entries[i].0),
        settled(entries, answers)[entries[i].0] == own_value(entries[i].1),
    decreases entries.len(),
{
    let front = entries.drop_last();
    if i < entries.len() - 1 {
        let rest = if needs_answer(entries.last().1) {
            answers.drop_last()
        } else {
            answers
        };
        assert(declared_once(front)) by {
            assert forall|a: int, b: int| 0 <= a < b < front.len() implies front[a].0
                != front[b].0 by {
                assert(front[a] == entries[a] && front[b] == entries[b]);
            }
        }
        assert(front[i] == entries[i]);
        assert(entries[i].0 != entries[entries.len() - 1].0);
        lemma_own_value_is_bound(front, rest, i);
    }
}

/// The name of the project and the author's identity are bound last: they
/// are what the run was given, whatever the descriptor declares, and every
/// other name is bound as the declarations bind it.
pub proof fn lemma_identity_wins(
    entries: Seq<(Seq<char>, EntryView)>,
    answers: Seq<Seq<char>>,
    project_name: Seq<char>,
    full_name: Seq<char>,
    license: Seq<char>,
    name: Seq<char>,
)
    ensures
        resolved(entries, answers, project_name, full_name, license).contains_key(
            "project_name"@,
        ),
        resolved(entries, answers, project_name, full_name, license).contains_key("full_name"@),
        resolved(entries, answers, project_name, full_name, license).contains_key("license"@),
        resolved(entries, answers, project_name, full_name, license)["project_name"@]
            == project_name,
        resolved(entries, answers, project_name, full_name, license)["full_name"@] == full_name,
        resolved(entries, answers, project_name, full_name, license)["license"@] == license,
        name != "project_name"@ && name != "full_name"@ && name != "license"@ ==> (resolved(
            entries,
            answers,
            project_name,
            full_name,
            license,
        ).contains_key(name) <==> settled(entries, answers).contains_key(name)) && resolved(
            entries,
            answers,
            project_name,
            full_name,
            license,
        )[name] == settled(entries, answers)[name],
{
    reveal_strlit("project_name");
    reveal_strlit("full_name");
    reveal_strlit("license");
    assert("project_name"@.len() != "full_name"@.len());
    assert("project_name"@.len() != "license"@.len());
    assert("full_name"@.len() != "license"@.len());
}

} // verus!
