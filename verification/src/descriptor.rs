//! The descriptor of a template: the variables it declares. A descriptor
//! is a TOML document whose `variables` table maps each name either to a
//! string, the variable's value, or to a table that says how the value is
//! come by.

use crate::document::{
    item_at, lemma_item_at, parse_table, table_child, table_has, table_items, table_keys,
    table_text, toml_document, Item,
};
use vstd::prelude::*;
use vstd::string::StringExecFns;

verus! {

/// The type that a declaration names for its variable. It is advisory.
#[derive(Clone, Copy, Debug, PartialEq, Eq, Structural)]
pub enum VariableType {
    Str,
    Bool,
}

/// How the value of a variable is come by.
#[derive(Debug)]
pub struct Variable {
    pub default: Option<String>,
    pub kind: Option<VariableType>,
    pub prompt: Option<String>,
}

/// One declaration of a descriptor.
#[derive(Debug)]
pub enum VariableEntry {
    /// The variable has this value.
    Literal(String),
    /// The variable has its default or, without one, what the operator
    /// answers.
    Spec(Variable),
}

/// What a key of a declaration's table holds.
#[derive(Debug)]
pub enum RawField {
    Absent,
    Text(String),
    Other,
}

/// Why a text is no descriptor.
#[derive(Debug)]
pub enum DescriptorParseError {
    /// The text is no TOML document; the parser's message.
    Syntax(String),
    /// The document has no table `variables`.
    MissingVariables,
    /// The declaration of this name is neither a string nor a table of the
    /// expected shape.
    Entry(String),
}

/// A specification, as text.
pub struct VariableView {
    pub default: Option<Seq<char>>,
    pub kind: Option<VariableType>,
    pub prompt: Option<Seq<char>>,
}

/// A declaration, as text.
pub enum EntryView {
    Literal(Seq<char>),
    Spec(VariableView),
}

/// A field of a declaration's table, as text.
pub enum FieldView {
    Absent,
    Text(Seq<char>),
    Other,
}

/// The reason why a text is no descriptor, as text.
pub enum ParseErrorView {
    Syntax(Seq<char>),
    MissingVariables,
    Entry(Seq<char>),
}

/// The view of an optional text.
pub open spec fn text_view(text: Option<String>) -> Option<Seq<char>> {
    match text {
        Some(t) => Some(t@),
        None => None,
    }
}

impl View for Variable {
    type V = VariableView;

    open spec fn view(&self) -> VariableView {
        VariableView {
            default: text_view(self.default),
            kind: self.kind,
            prompt: text_view(self.prompt),
        }
    }
}

impl View for VariableEntry {
    type V = EntryView;

    open spec fn view(&self) -> EntryView {
        match self {
            VariableEntry::Literal(value) => EntryView::Literal(value@),
            VariableEntry::Spec(variable) => EntryView::Spec(variable@),
        }
    }
}

impl View for RawField {
    type V = FieldView;

    open spec fn view(&self) -> FieldView {
        match self {
            RawField::Absent => FieldView::Absent,
            RawField::Text(text) => FieldView::Text(text@),
            RawField::Other => FieldView::Other,
        }
    }
}

impl View for DescriptorParseError {
    type V = ParseErrorView;

    open spec fn view(&self) -> ParseErrorView {
        match self {
            DescriptorParseError::Syntax(message) => ParseErrorView::Syntax(message@),
            DescriptorParseError::MissingVariables => ParseErrorView::MissingVariables,
            DescriptorParseError::Entry(name) => ParseErrorView::Entry(name@),
        }
    }
}

/// What is said to the operator of the reason why a text is no descriptor.
pub open spec fn parse_error_text(error: ParseErrorView) -> Seq<char> {
    match error {
        ParseErrorView::Syntax(message) => message,
        ParseErrorView::MissingVariables => "missing table `variables`"@,
        ParseErrorView::Entry(name) => "malformed declaration of '"@ + name + "'"@,
    }
}

impl DescriptorParseError {
    /// What is said to the operator.
    pub fn describe(&self) -> (r: String)
        ensures
            r@ == parse_error_text(self@),
    {
        match self {
            DescriptorParseError::Syntax(message) => message.clone(),
            DescriptorParseError::MissingVariables => String::from_str(
                "missing table `variables`",
            ),
            DescriptorParseError::Entry(name) => String::from_str(
                "malformed declaration of '",
            ).concat(name.as_str()).concat("'"),
        }
    }
}

/// The type that a text names: `string` or `boolean`.
pub open spec fn kind_named(text: Seq<char>) -> Option<VariableType> {
    if text == "string"@ {
        Some(VariableType::Str)
    } else if text == "boolean"@ {
        Some(VariableType::Bool)
    } else {
        None
    }
}

/// Whether a field may stand for an optional text: it is absent or a
/// string.
pub open spec fn is_optional_text(field: FieldView) -> bool {
    !(field is Other)
}

/// The optional text that a field stands for.
pub open spec fn optional_text(field: FieldView) -> Option<Seq<char>> {
    match field {
        FieldView::Text(text) => Some(text),
        _ => None,
    }
}

/// Whether a field may stand for an optional type: it is absent or
/// names a type.
pub open spec fn is_optional_kind(field: FieldView) -> bool {
    match field {
        FieldView::Absent => true,
        FieldView::Text(text) => kind_named(text) is Some,
        FieldView::Other => false,
    }
}

/// The optional type that a field stands for.
pub open spec fn optional_kind(field: FieldView) -> Option<VariableType> {
    match field {
        FieldView::Text(text) => kind_named(text),
        _ => None,
    }
}

/// The variable that the three fields of a declaration's table stand for,
/// if they are well-formed: `default` and `prompt` absent or strings, `type`
/// absent or the name of a type.
pub open spec fn variable_of(default: FieldView, kind: FieldView, prompt: FieldView) -> Option<
    VariableView,
> {
    if is_optional_text(default) && is_optional_kind(kind) && is_optional_text(prompt) {
        Some(
            VariableView {
                default: optional_text(default),
                kind: optional_kind(kind),
                prompt: optional_text(prompt),
            },
        )
    } else {
        None
    }
}

/// What a key of a table holds, as a field.
pub open spec fn field_of(items: Seq<(Seq<char>, Item)>, key: Seq<char>) -> FieldView {
    match item_at(items, key) {
        None => FieldView::Absent,
        Some(Item::Text(text)) => FieldView::Text(text),
        Some(_) => FieldView::Other,
    }
}

/// The declaration that an item of the `variables` table stands for, if it
/// is well-formed: a string is a literal, a table is a specification read
/// from its keys `default`, `type` and `prompt`, and nothing else is a
/// declaration.
pub open spec fn entry_of(item: Item) -> Option<EntryView> {
    match item {
        Item::Text(text) => Some(EntryView::Literal(text)),
        Item::Table(fields) => match variable_of(
            field_of(fields, "default"@),
            field_of(fields, "type"@),
            field_of(fields, "prompt"@),
        ) {
            Some(variable) => Some(EntryView::Spec(variable)),
            None => None,
        },
        Item::Other => None,
    }
}

/// The declaration under `name` in a table, if the table has the name and
/// what it holds is well-formed.
pub open spec fn declared(items: Seq<(Seq<char>, Item)>, name: Seq<char>) -> Option<EntryView> {
    match item_at(items, name) {
        Some(item) => entry_of(item),
        None => None,
    }
}

/// The declarations of the table `variables`, in the table's order, or the
/// first name in that order whose declaration is malformed.
pub open spec fn declarations_of(variables: Seq<(Seq<char>, Item)>) -> Result<
    Seq<(Seq<char>, EntryView)>,
    ParseErrorView,
>
    decreases variables.len(),
{
    if variables.len() == 0 {
        Ok(Seq::empty())
    } else {
        match declarations_of(variables.drop_last()) {
            Err(error) => Err(error),
            Ok(front) => match entry_of(variables.last().1) {
                Some(entry) => Ok(front.push((variables.last().0, entry))),
                None => Err(ParseErrorView::Entry(variables.last().0)),
            },
        }
    }
}

/// What the root table of a document reads as: the declarations of its
/// table `variables`, and `MissingVariables` where it has no such table.
pub open spec fn descriptor_of(root: Seq<(Seq<char>, Item)>) -> Result<
    Seq<(Seq<char>, EntryView)>,
    ParseErrorView,
> {
    match item_at(root, "variables"@) {
        Some(Item::Table(variables)) => declarations_of(variables),
        _ => Err(ParseErrorView::MissingVariables),
    }
}

/// What a document reads as: `Syntax` with the parser's message where the
/// text was no document, and what its root table reads as otherwise.
pub open spec fn parsed(document: Result<Seq<(Seq<char>, Item)>, Seq<char>>) -> Result<
    Seq<(Seq<char>, EntryView)>,
    ParseErrorView,
> {
    match document {
        Ok(root) => descriptor_of(root),
        Err(message) => Err(ParseErrorView::Syntax(message)),
    }
}

/// A malformed declaration among the first items is one among all.
proof fn lemma_first_failure(variables: Seq<(Seq<char>, Item)>, k: int)
    requires
        0 <= k <= variables.len(),
        declarations_of(variables.take(k)) is Err,
    ensures
        declarations_of(variables) == declarations_of(variables.take(k)),
    decreases variables.len() - k,
{
    if k < variables.len() {
        assert(variables.take(k + 1).drop_last() =~= variables.take(k));
        lemma_first_failure(variables, k + 1);
    } else {
        assert(variables.take(k) =~= variables);
    }
}

/// Declarations are as many as the items they are read from, under the same
/// names.
pub proof fn lemma_declarations_names(variables: Seq<(Seq<char>, Item)>)
    requires
        declarations_of(variables) is Ok,
    ensures
        declarations_of(variables)->Ok_0.len() == variables.len(),
        forall|i: int|
            0 <= i < variables.len() ==> (#[trigger] declarations_of(variables)->Ok_0[i]).0
                == variables[i].0,
    decreases variables.len(),
{
    if variables.len() > 0 {
        let front = variables.drop_last();
        lemma_declarations_names(front);
        assert forall|i: int| 0 <= i < variables.len() implies (#[trigger] declarations_of(
            variables,
        )->Ok_0[i]).0 == variables[i].0 by {
            if i < front.len() {
                assert(front[i] == variables[i]);
            }
        }
    }
}

/// The declarations of a list of pairs.
pub open spec fn entries_view(entries: Seq<(String, VariableEntry)>) -> Seq<(Seq<char>, EntryView)> {
    Seq::new(entries.len(), |i: int| (entries[i].0@, entries[i].1@))
}

/// The view of what reading a descriptor gave.
pub open spec fn result_view(result: Result<Descriptor, DescriptorParseError>) -> Result<
    Seq<(Seq<char>, EntryView)>,
    ParseErrorView,
> {
    match result {
        Ok(descriptor) => Ok(descriptor@),
        Err(error) => Err(error@),
    }
}

/// Whether no name is declared twice.
pub open spec fn declared_once(entries: Seq<(Seq<char>, EntryView)>) -> bool {
    forall|i: int, j: int| 0 <= i < j < entries.len() ==> entries[i].0 != entries[j].0
}

/// The variables that a template declares, in the order in which their
/// values are settled. No name is declared twice.
#[derive(Debug)]
pub struct Descriptor {
    pub(crate) entries: Vec<(String, VariableEntry)>,
}

impl View for Descriptor {
    type V = Seq<(Seq<char>, EntryView)>;

    closed spec fn view(&self) -> Seq<(Seq<char>, EntryView)> {
        entries_view(self.entries@)
    }
}

/// The type that `text` names.
pub fn parse_kind(text: &str) -> (r: Option<VariableType>)
    ensures
        r == kind_named(text@),
{
    let owned: String = text.to_owned();
    if owned == String::from_str("string") {
        Some(VariableType::Str)
    } else if owned == String::from_str("boolean") {
        Some(VariableType::Bool)
    } else {
        None
    }
}

impl Variable {
    /// The variable that the fields `default`, `type` and `prompt` of a
    /// declaration's table stand for. There is none where `default` or
    /// `prompt` is neither absent nor a string, or `type` is neither absent
    /// nor one of `string` and `boolean`.
    pub fn from_fields(default: RawField, kind: RawField, prompt: RawField) -> (r: Option<Variable>)
        ensures
            match r {
                Some(variable) => variable_of(default@, kind@, prompt@) == Some(variable@),
                None => variable_of(default@, kind@, prompt@) is None,
            },
    {
        let default: Option<String> = match default {
            RawField::Absent => None,
            RawField::Text(text) => Some(text),
            RawField::Other => {
                return None;
            },
        };
        let kind: Option<VariableType> = match kind {
            RawField::Absent => None,
            RawField::Text(text) => match parse_kind(text.as_str()) {
                Some(kind) => Some(kind),
                None => {
                    return None;
                },
            },
            RawField::Other => {
                return None;
            },
        };
        let prompt: Option<String> = match prompt {
            RawField::Absent => None,
            RawField::Text(text) => Some(text),
            RawField::Other => {
                return None;
            },
        };
        Some(Variable { default, kind, prompt })
    }
}

/// What `key` holds in `table`, as a field of a declaration.
pub fn read_field(table: &toml::Table, key: &str) -> (r: RawField)
    ensures
        r@ == field_of(table_items(*table), key@),
{
    match table_text(table, key) {
        Some(text) => RawField::Text(text),
        None => if table_has(table, key) {
            RawField::Other
        } else {
            RawField::Absent
        },
    }
}

/// The declaration under `name` in the table `variables`, if there is a
/// well-formed one.
pub fn read_entry(variables: &toml::Table, name: &str) -> (r: Option<VariableEntry>)
    ensures
        match r {
            Some(entry) => declared(table_items(*variables), name@) == Some(entry@),
            None => declared(table_items(*variables), name@) is None,
        },
{
    match table_text(variables, name) {
        Some(value) => Some(VariableEntry::Literal(value)),
        None => match table_child(variables, name) {
            Some(fields) => {
                let default = read_field(&fields, "default");
                let kind = read_field(&fields, "type");
                let prompt = read_field(&fields, "prompt");
                match Variable::from_fields(default, kind, prompt) {
                    Some(variable) => Some(VariableEntry::Spec(variable)),
                    None => None,
                }
            },
            None => None,
        },
    }
}

impl Descriptor {
    #[verifier::type_invariant]
    pub(crate) closed spec fn well_formed(self) -> bool {
        declared_once(entries_view(self.entries@))
    }

    /// A descriptor that declares nothing: that of a template without a
    /// descriptor file.
    pub fn new() -> (r: Descriptor)
        ensures
            r@ == Seq::<(Seq<char>, EntryView)>::empty(),
    {
        let r = Descriptor { entries: Vec::new() };
        assert(r@ =~= Seq::empty());
        r
    }

    /// The number of declarations. No name is declared twice.
    pub fn len(&self) -> (n: usize)
        ensures
            n == self@.len(),
            declared_once(self@),
    {
        proof {
            use_type_invariant(self);
        }
        self.entries.len()
    }

    /// The name of the declaration at `index`.
    pub fn name(&self, index: usize) -> (r: &String)
        requires
            index < self@.len(),
        ensures
            r@ == self@[index as int].0,
    {
        &self.entries[index].0
    }

    /// The declaration at `index`.
    pub fn entry(&self, index: usize) -> (r: &VariableEntry)
        requires
            index < self@.len(),
        ensures
            r@ == self@[index as int].1,
    {
        &self.entries[index].1
    }

    /// Whether `name` is declared.
    pub fn declares(&self, name: &str) -> (r: bool)
        ensures
            r == exists|i: int| 0 <= i < self@.len() && (#[trigger] self@[i]).0 == name@,
    {
        let wanted: String = name.to_owned();
        let n: usize = self.entries.len();
        let mut i: usize = 0;
        while i < n
            invariant
                i <= n,
                n == self.entries.len(),
                wanted@ == name@,
                forall|j: int| 0 <= j < i ==> (#[trigger] self@[j]).0 != name@,
            decreases n - i,
        {
            if self.entries[i].0 == wanted {
                assert(self@[i as int].0 == name@);
                return true;
            }
            i += 1;
        }
        false
    }

    /// Adds a declaration at the end, unless the name is declared already.
    /// Says whether it was added.
    pub fn declare(&mut self, name: String, entry: VariableEntry) -> (added: bool)
        ensures
            added == !exists|i: int|
                0 <= i < old(self)@.len() && (#[trigger] old(self)@[i]).0 == name@,
            added ==> final(self)@ == old(self)@.push((name@, entry@)),
            !added ==> final(self)@ == old(self)@,
    {
        proof {
            use_type_invariant(&*self);
        }
        if self.declares(name.as_str()) {
            false
        } else {
            let ghost before = self@;
            let mut entries: Vec<(String, VariableEntry)> = Vec::new();
            std::mem::swap(&mut entries, &mut self.entries);
            entries.push((name, entry));
            assert(entries_view(entries@) =~= before.push((name@, entry@)));
            self.entries = entries;
            true
        }
    }

    /// Reads the root table of a document as a descriptor.
    pub fn from_table(root: &toml::Table) -> (r: Result<Descriptor, DescriptorParseError>)
        ensures
            result_view(r) == descriptor_of(table_items(*root)),
    {
        let variables = match table_child(root, "variables") {
            Some(variables) => variables,
            None => {
                return Err(DescriptorParseError::MissingVariables);
            },
        };
        let ghost items = table_items(variables);
        let names: Vec<String> = table_keys(&variables);
        let n: usize = names.len();
        let mut entries: Vec<(String, VariableEntry)> = Vec::new();
        let mut i: usize = 0;
        proof {
            assert(items.take(0) =~= Seq::empty());
            assert(entries_view(entries@) =~= Seq::empty());
            assert forall|a: int, b: int| 0 <= a < b < items.len() implies items[a].0
                != items[b].0 by {
                assert(names@[a]@ == items[a].0);
                assert(names@[b]@ == items[b].0);
            }
        }
        while i < n
            invariant
                i <= n,
                n == names.len(),
                n == items.len(),
                items == table_items(variables),
                descriptor_of(table_items(*root)) == declarations_of(items),
                crate::document::distinct_keys(items),
                forall|j: int| 0 <= j < n ==> (#[trigger] names@[j])@ == items[j].0,
                entries.len() == i,
                declarations_of(items.take(i as int)) == Ok::<
                    Seq<(Seq<char>, EntryView)>,
                    ParseErrorView,
                >(entries_view(entries@)),
            decreases n - i,
        {
            proof {
                lemma_item_at(items, i as int);
                assert(items.take(i + 1).drop_last() =~= items.take(i as int));
            }
            let ghost before = entries_view(entries@);
            match read_entry(&variables, names[i].as_str()) {
                Some(entry) => {
                    let ghost view = entry@;
                    entries.push((names[i].clone(), entry));
                    assert(entries_view(entries@) =~= before.push((items[i as int].0, view)));
                },
                None => {
                    proof {
                        lemma_first_failure(items, i + 1);
                    }
                    return Err(DescriptorParseError::Entry(names[i].clone()));
                },
            }
            i += 1;
        }
        proof {
            assert(items.take(n as int) =~= items);
            lemma_declarations_names(items);
            let view = entries_view(entries@);
            assert forall|a: int, b: int| 0 <= a < b < view.len() implies view[a].0 != view[b].0 by {
                assert(view[a].0 == items[a].0);
                assert(view[b].0 == items[b].0);
            }
        }
        Ok(Descriptor { entries })
    }

    /// Parses the text of a descriptor file.
    pub fn parse(text: &str) -> (r: Result<Descriptor, DescriptorParseError>)
        ensures
            result_view(r) == parsed(toml_document(text@)),
    {
        match parse_table(text) {
            Ok(root) => Descriptor::from_table(&root),
            Err(message) => Err(DescriptorParseError::Syntax(message)),
        }
    }

    /// The descriptor of a template: parsed from the text of its descriptor
    /// file, and empty where the template has no such file.
    pub fn load(text: Option<&str>) -> (r: Result<Descriptor, DescriptorParseError>)
        ensures
            result_view(r) == loaded(argument_view(text)),
    {
        match text {
            Some(text) => Descriptor::parse(text),
            None => Ok(Descriptor::new()),
        }
    }
}

/// The view of an optional text.
pub open spec fn argument_view(text: Option<&str>) -> Option<Seq<char>> {
    match text {
        Some(text) => Some(text@),
        None => None,
    }
}

/// The descriptor of a template, given the text of its descriptor file if
/// it has one: without the file, no declarations.
pub open spec fn loaded(text: Option<Seq<char>>) -> Result<
    Seq<(Seq<char>, EntryView)>,
    ParseErrorView,
> {
    match text {
        Some(text) => parsed(toml_document(text)),
        None => Ok(Seq::empty()),
    }
}

} // verus!
