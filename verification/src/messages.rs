//! The usages of a localisation message: which functions, messages, terms
//! and variables its pattern refers to.

use vstd::hash_map::StringHashMap;
use vstd::prelude::*;

verus! {

/// A part of a pattern: plain text, or an expression in braces.
#[derive(Debug)]
pub enum PatternElement {
    TextElement { value: String },
    Placeable { expression: Expression },
}

/// One branch of a selection.
#[derive(Debug)]
pub struct Variant {
    pub elements: Vec<PatternElement>,
}

/// An expression: a selection among variants, or an inline expression.
#[derive(Debug)]
pub enum Expression {
    Select { selector: InlineExpression, variants: Vec<Variant> },
    Inline(InlineExpression),
}

/// An inline expression: a literal, a reference by name, or an expression
/// in braces.
#[derive(Debug)]
pub enum InlineExpression {
    StringLiteral { value: String },
    NumberLiteral { value: String },
    FunctionReference { id: String },
    MessageReference { id: String },
    TermReference { id: String },
    VariableReference { id: String },
    Placeable { expression: Box<Expression> },
}

/// The names that a message refers to, as mathematical values: each list in
/// the order in which the names occur, a name as often as it occurs.
pub struct UsagesView {
    pub functions: Seq<Seq<char>>,
    pub messages: Seq<Seq<char>>,
    pub terms: Seq<Seq<char>>,
    pub variables: Seq<Seq<char>>,
}

/// The usages after those of an inline expression were added.
pub open spec fn after_inline(usages: UsagesView, inline_expr: InlineExpression) -> UsagesView
    decreases inline_expr,
{
    match inline_expr {
        InlineExpression::StringLiteral { .. } | InlineExpression::NumberLiteral { .. } => usages,
        InlineExpression::FunctionReference { id } => UsagesView {
            functions: usages.functions.push(id@),
            ..usages
        },
        InlineExpression::MessageReference { id } => UsagesView {
            messages: usages.messages.push(id@),
            ..usages
        },
        InlineExpression::TermReference { id } => UsagesView {
            terms: usages.terms.push(id@),
            ..usages
        },
        InlineExpression::VariableReference { id } => UsagesView {
            variables: usages.variables.push(id@),
            ..usages
        },
        InlineExpression::Placeable { expression } => after_expression(usages, *expression),
    }
}

/// The usages after those of an expression were added. Of a selection the
/// variants count, one after the other; its selector does not.
pub open spec fn after_expression(usages: UsagesView, expression: Expression) -> UsagesView
    decreases expression,
{
    match expression {
        Expression::Select { selector, variants } => after_variants(usages, variants@),
        Expression::Inline(inline_expr) => after_inline(usages, inline_expr),
    }
}

/// The usages after those of the variants were added, one after the other.
pub open spec fn after_variants(usages: UsagesView, variants: Seq<Variant>) -> UsagesView
    decreases variants,
{
    if variants.len() == 0 {
        usages
    } else {
        after_elements(after_variants(usages, variants.drop_last()), variants.last().elements@)
    }
}

/// The usages after those of the elements of a pattern were added, one
/// after the other. Plain text adds nothing.
pub open spec fn after_elements(usages: UsagesView, elements: Seq<PatternElement>) -> UsagesView
    decreases elements,
{
    if elements.len() == 0 {
        usages
    } else {
        let before = after_elements(usages, elements.drop_last());
        match elements.last() {
            PatternElement::TextElement { .. } => before,
            PatternElement::Placeable { expression } => after_expression(before, expression),
        }
    }
}

/// The names that a message refers to, by kind.
#[derive(Debug)]
pub struct MessageUsages {
    functions: Vec<String>,
    messages: Vec<String>,
    terms: Vec<String>,
    variables: Vec<String>,
}

impl View for MessageUsages {
    type V = UsagesView;

    closed spec fn view(&self) -> UsagesView {
        UsagesView {
            functions: self.functions.deep_view(),
            messages: self.messages.deep_view(),
            terms: self.terms.deep_view(),
            variables: self.variables.deep_view(),
        }
    }
}

fn push_name(names: &mut Vec<String>, name: &String)
    ensures
        final(names).deep_view() == old(names).deep_view().push(name@),
{
    names.push(name.clone());
    assert(names.deep_view() =~= old(names).deep_view().push(name@));
}

impl Default for MessageUsages {
    /// No usages.
    fn default() -> (usages: MessageUsages)
        ensures
            usages@ == (UsagesView {
                functions: Seq::empty(),
                messages: Seq::empty(),
                terms: Seq::empty(),
                variables: Seq::empty(),
            }),
    {
        let usages = MessageUsages {
            functions: Vec::new(),
            messages: Vec::new(),
            terms: Vec::new(),
            variables: Vec::new(),
        };
        assert(usages.functions.deep_view() =~= Seq::<Seq<char>>::empty());
        assert(usages.messages.deep_view() =~= Seq::<Seq<char>>::empty());
        assert(usages.terms.deep_view() =~= Seq::<Seq<char>>::empty());
        assert(usages.variables.deep_view() =~= Seq::<Seq<char>>::empty());
        usages
    }
}

impl MessageUsages {
    /// The functions referred to.
    pub fn functions(&self) -> (names: &Vec<String>)
        ensures
            names.deep_view() == self@.functions,
    {
        &self.functions
    }

    /// The messages referred to.
    pub fn messages(&self) -> (names: &Vec<String>)
        ensures
            names.deep_view() == self@.messages,
    {
        &self.messages
    }

    /// The terms referred to.
    pub fn terms(&self) -> (names: &Vec<String>)
        ensures
            names.deep_view() == self@.terms,
    {
        &self.terms
    }

    /// The variables referred to.
    pub fn variables(&self) -> (names: &Vec<String>)
        ensures
            names.deep_view() == self@.variables,
    {
        &self.variables
    }

    /// Adds the usages of the elements of a pattern.
    pub fn add_elements(&mut self, elements: &Vec<PatternElement>)
        ensures
            final(self)@ == after_elements(old(self)@, elements@),
        decreases elements,
    {
        let mut i: usize = 0;
        assert(elements@.take(0) =~= Seq::<PatternElement>::empty());
        while i < elements.len()
            invariant
                i <= elements.len(),
                self@ == after_elements(old(self)@, elements@.take(i as int)),
            decreases elements.len() - i,
        {
            proof {
                assert(elements@.take(i + 1).drop_last() =~= elements@.take(i as int));
                assert(elements@.take(i + 1).last() == elements@[i as int]);
            }
            match &elements[i] {
                PatternElement::TextElement { .. } => (),
                PatternElement::Placeable { expression } => {
                    self.add_expression(expression);
                },
            }
            i += 1;
        }
        assert(elements@.take(elements.len() as int) =~= elements@);
    }

    /// Adds the usages of an expression.
    pub fn add_expression(&mut self, expression: &Expression)
        ensures
            final(self)@ == after_expression(old(self)@, *expression),
        decreases expression,
    {
        match expression {
            Expression::Select { selector: _, variants } => {
                let mut i: usize = 0;
                assert(variants@.take(0) =~= Seq::<Variant>::empty());
                while i < variants.len()
                    invariant
                        i <= variants.len(),
                        *expression is Select,
                        expression->variants == *variants,
                        self@ == after_variants(old(self)@, variants@.take(i as int)),
                    decreases variants.len() - i,
                {
                    proof {
                        assert(variants@.take(i + 1).drop_last() =~= variants@.take(i as int));
                        assert(variants@.take(i + 1).last() == variants@[i as int]);
                    }
                    self.add_elements(&variants[i].elements);
                    i += 1;
                }
                assert(variants@.take(variants.len() as int) =~= variants@);
            },
            Expression::Inline(inline_expr) => {
                self.add_inline_expression(inline_expr);
            },
        }
    }

    /// Adds the usages of an inline expression.
    pub fn add_inline_expression(&mut self, inline_expr: &InlineExpression)
        ensures
            final(self)@ == after_inline(old(self)@, *inline_expr),
        decreases inline_expr,
    {
        match inline_expr {
            InlineExpression::StringLiteral { .. } | InlineExpression::NumberLiteral { .. } => (),
            InlineExpression::FunctionReference { id } => push_name(&mut self.functions, id),
            InlineExpression::MessageReference { id } => push_name(&mut self.messages, id),
            InlineExpression::TermReference { id } => push_name(&mut self.terms, id),
            InlineExpression::VariableReference { id } => push_name(&mut self.variables, id),
            InlineExpression::Placeable { expression } => self.add_expression(expression),
        }
    }
}

/// The messages of one locale: for each message key the usages of the
/// message.
pub struct Messages {
    messages: StringHashMap<MessageUsages>,
}

impl View for Messages {
    type V = Map<Seq<char>, UsagesView>;

    closed spec fn view(&self) -> Map<Seq<char>, UsagesView> {
        self.messages@.map_values(|usages: MessageUsages| usages@)
    }
}

impl Messages {
    /// No messages.
    pub fn new() -> (messages: Messages)
        ensures
            messages@ == Map::<Seq<char>, UsagesView>::empty(),
    {
        let messages = Messages { messages: StringHashMap::new() };
        assert(messages@ =~= Map::<Seq<char>, UsagesView>::empty());
        messages
    }

    /// How many messages there are.
    pub fn len(&self) -> (n: usize)
        ensures
            n == self@.len(),
    {
        proof {
            assert(self@.dom() =~= self.messages@.dom());
        }
        self.messages.len()
    }

    /// The usages of the message with the given key.
    pub fn get(&self, key: &str) -> (r: Option<&MessageUsages>)
        ensures
            match r {
                Some(usages) => self@.contains_key(key@) && usages@ == self@[key@],
                None => !self@.contains_key(key@),
            },
    {
        self.messages.get(key)
    }

    /// Puts the usages of a message under its key, in the place of what
    /// was there.
    pub fn insert(&mut self, key: String, usages: MessageUsages)
        ensures
            final(self)@ == old(self)@.insert(key@, usages@),
    {
        self.messages.insert(key, usages);
        assert(self@ =~= old(self)@.insert(key@, usages@));
    }
}

} // verus!
