//! The operations of the calculator and the names that select them.

use vstd::prelude::*;
use crate::text::same_text;

verus! {

/// An arithmetic operation of the calculator.
#[derive(Clone, Copy, Debug, PartialEq, Eq, Structural)]
pub enum Operation {
    Add,
    Subtract,
    Multiply,
    Divide,
    Power,
    Sqrt,
    Modulo,
}

impl Operation {
    /// The lower-case name that selects the operation.
    pub open spec fn spec_name(self) -> Seq<char> {
        match self {
            Operation::Add => "add"@,
            Operation::Subtract => "subtract"@,
            Operation::Multiply => "multiply"@,
            Operation::Divide => "divide"@,
            Operation::Power => "power"@,
            Operation::Sqrt => "sqrt"@,
            Operation::Modulo => "modulo"@,
        }
    }

    /// What the operation is called in a sentence.
    pub open spec fn spec_noun(self) -> Seq<char> {
        match self {
            Operation::Add => "addition"@,
            Operation::Subtract => "subtraction"@,
            Operation::Multiply => "multiplication"@,
            Operation::Divide => "division"@,
            Operation::Power => "power"@,
            Operation::Sqrt => "square root"@,
            Operation::Modulo => "modulo"@,
        }
    }

    /// Whether the operation takes two operands. Only the square root takes one.
    pub open spec fn spec_is_binary(self) -> bool {
        !(self is Sqrt)
    }

    /// Whether the operation takes two operands.
    pub fn is_binary(&self) -> (answer: bool)
        ensures
            answer == self.spec_is_binary(),
    {
        match self {
            Operation::Sqrt => false,
            _ => true,
        }
    }

    /// What the operation is called in a sentence.
    pub fn noun(&self) -> (noun: &'static str)
        ensures
            noun@ == self.spec_noun(),
    {
        match self {
            Operation::Add => "addition",
            Operation::Subtract => "subtraction",
            Operation::Multiply => "multiplication",
            Operation::Divide => "division",
            Operation::Power => "power",
            Operation::Sqrt => "square root",
            Operation::Modulo => "modulo",
        }
    }

    /// The name that selects the operation.
    pub fn name(&self) -> (name: &'static str)
        ensures
            name@ == self.spec_name(),
    {
        match self {
            Operation::Add => "add",
            Operation::Subtract => "subtract",
            Operation::Multiply => "multiply",
            Operation::Divide => "divide",
            Operation::Power => "power",
            Operation::Sqrt => "sqrt",
            Operation::Modulo => "modulo",
        }
    }

    /// The operation that a name selects: the one that bears it, if any does.
    pub open spec fn named(name: Seq<char>) -> Option<Operation> {
        if name == Operation::Add.spec_name() {
            Some(Operation::Add)
        } else if name == Operation::Subtract.spec_name() {
            Some(Operation::Subtract)
        } else if name == Operation::Multiply.spec_name() {
            Some(Operation::Multiply)
        } else if name == Operation::Divide.spec_name() {
            Some(Operation::Divide)
        } else if name == Operation::Power.spec_name() {
            Some(Operation::Power)
        } else if name == Operation::Sqrt.spec_name() {
            Some(Operation::Sqrt)
        } else if name == Operation::Modulo.spec_name() {
            Some(Operation::Modulo)
        } else {
            None
        }
    }

    /// The operation that `name` selects, if it selects one. Names are matched
    /// exactly: case matters, and nothing is trimmed.
    pub fn from_name(name: &str) -> (selected: Option<Operation>)
        ensures
            selected == Operation::named(name@),
    {
        if same_text(name, "add") {
            Some(Operation::Add)
        } else if same_text(name, "subtract") {
            Some(Operation::Subtract)
        } else if same_text(name, "multiply") {
            Some(Operation::Multiply)
        } else if same_text(name, "divide") {
            Some(Operation::Divide)
        } else if same_text(name, "power") {
            Some(Operation::Power)
        } else if same_text(name, "sqrt") {
            Some(Operation::Sqrt)
        } else if same_text(name, "modulo") {
            Some(Operation::Modulo)
        } else {
            None
        }
    }

    /// Every operation, in the order in which the calculator lists them.
    pub fn all() -> (operations: Vec<Operation>)
        ensures
            operations@ == seq![
                Operation::Add,
                Operation::Subtract,
                Operation::Multiply,
                Operation::Divide,
                Operation::Power,
                Operation::Sqrt,
                Operation::Modulo,
            ],
            forall|operation: Operation| operations@.contains(operation),
    {
        let operations = vec![
            Operation::Add,
            Operation::Subtract,
            Operation::Multiply,
            Operation::Divide,
            Operation::Power,
            Operation::Sqrt,
            Operation::Modulo,
        ];
        assert(operations@[0] == Operation::Add);
        assert(operations@[1] == Operation::Subtract);
        assert(operations@[2] == Operation::Multiply);
        assert(operations@[3] == Operation::Divide);
        assert(operations@[4] == Operation::Power);
        assert(operations@[5] == Operation::Sqrt);
        assert(operations@[6] == Operation::Modulo);
        operations
    }
}

/// No two operations share a name.
pub proof fn lemma_names_differ(first: Operation, second: Operation)
    requires
        first.spec_name() == second.spec_name(),
    ensures
        first == second,
{
    reveal_strlit("add");
    reveal_strlit("subtract");
    reveal_strlit("multiply");
    reveal_strlit("divide");
    reveal_strlit("power");
    reveal_strlit("sqrt");
    reveal_strlit("modulo");
    assert("add"@.len() == 3 && "sqrt"@.len() == 4 && "power"@.len() == 5);
    assert("divide"@.len() == 6 && "modulo"@.len() == 6);
    assert("subtract"@.len() == 8 && "multiply"@.len() == 8);
    assert("divide"@[0] == 'd' && "modulo"@[0] == 'm');
    assert("subtract"@[0] == 's' && "multiply"@[0] == 'm');
}

/// A name selects an operation exactly when it is that operation's name.
pub proof fn lemma_named_is_bearer(name: Seq<char>, operation: Operation)
    ensures
        Operation::named(name) == Some(operation) <==> operation.spec_name() == name,
{
    if operation.spec_name() == name {
        match Operation::named(name) {
            Some(found) => {
                lemma_names_differ(found, operation);
            },
            None => {},
        }
    }
}

/// Looking an operation up by its own name finds that operation.
pub proof fn lemma_name_round_trip(operation: Operation)
    ensures
        Operation::named(operation.spec_name()) == Some(operation),
{
    lemma_named_is_bearer(operation.spec_name(), operation);
}

} // verus!
