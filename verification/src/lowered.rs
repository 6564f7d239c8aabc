//! Lowered expressions: the intermediate form that casts are compiled to.

use vstd::prelude::*;
use crate::text::{signed_decimal, signed_decimal_text};

verus! {

/// A callable of the target runtime.
#[derive(Clone, Copy, Debug, PartialEq, Eq, Structural)]
pub enum Intrinsic {
    /// Truncates a double toward zero, giving an integer.
    Truncate,
    /// Builds an angle from a double and a width in bits.
    DoubleAsAngle,
    /// Builds a complex value from its real and imaginary parts.
    Complex,
    /// Converts a double to a single two-valued result.
    DoubleAsResult,
}

impl Intrinsic {
    /// The qualified name of the callable.
    pub open spec fn name(self) -> Seq<char> {
        match self {
            Intrinsic::Truncate => "Std.Math.Truncate"@,
            Intrinsic::DoubleAsAngle => "Std.OpenQASM.Angle.DoubleAsAngle"@,
            Intrinsic::Complex => "Std.Math.Complex"@,
            Intrinsic::DoubleAsResult => "Std.OpenQASM.Convert.DoubleAsResult"@,
        }
    }

    /// The exec counterpart of [`Intrinsic::name`].
    pub fn name_text(self) -> (r: &'static str)
        ensures
            r@ == self.name(),
    {
        match self {
            Intrinsic::Truncate => "Std.Math.Truncate",
            Intrinsic::DoubleAsAngle => "Std.OpenQASM.Angle.DoubleAsAngle",
            Intrinsic::Complex => "Std.Math.Complex",
            Intrinsic::DoubleAsResult => "Std.OpenQASM.Convert.DoubleAsResult",
        }
    }
}

/// A lowered value expression.
#[derive(Debug, PartialEq, Eq)]
pub enum LoweredExpression {
    /// A variable, by name.
    Name(String),
    /// An integer literal.
    Int(i64),
    /// A double literal, kept as it is written.
    Double(String),
    /// A boolean literal.
    Bool(bool),
    /// A call of an intrinsic with its arguments in order.
    Call(Intrinsic, Vec<LoweredExpression>),
    /// A test of two values for equality.
    Equals(Box<LoweredExpression>, Box<LoweredExpression>),
    /// A conditional with a condition and the values of its two branches.
    IfElse(Box<LoweredExpression>, Box<LoweredExpression>, Box<LoweredExpression>),
}

/// The mathematical content of a [`LoweredExpression`].
pub enum LoweredView {
    Name(Seq<char>),
    Int(int),
    Double(Seq<char>),
    Bool(bool),
    Call(Intrinsic, Seq<LoweredView>),
    Equals(Box<LoweredView>, Box<LoweredView>),
    IfElse(Box<LoweredView>, Box<LoweredView>, Box<LoweredView>),
}

/// One level of indentation.
pub open spec fn indent_step() -> Seq<char> {
    "    "@
}

/// The text of an expression whose lines start at the indentation `indent`.
///
/// A call is written as the callee's name and the arguments in parentheses,
/// separated by a comma and a space; an equality test with ` == ` between
/// its sides; a conditional as `if`, the condition, and the two branches in
/// braces, each on a line of its own, one level deeper.
pub open spec fn rendered(e: LoweredView, indent: Seq<char>) -> Seq<char>
    decreases e, 0nat,
{
    match e {
        LoweredView::Name(name) => name,
        LoweredView::Int(value) => signed_decimal(value),
        LoweredView::Double(literal) => literal,
        LoweredView::Bool(value) => if value {
            "true"@
        } else {
            "false"@
        },
        LoweredView::Call(callee, args) => callee.name() + "("@ + rendered_list(args, indent)
            + ")"@,
        LoweredView::Equals(left, right) => rendered(*left, indent) + " == "@ + rendered(
            *right,
            indent,
        ),
        LoweredView::IfElse(condition, then, otherwise) => "if "@ + rendered(*condition, indent)
            + " {\n"@ + (indent + indent_step()) + rendered(*then, indent + indent_step())
            + "\n"@ + indent + "} else {\n"@ + (indent + indent_step()) + rendered(
            *otherwise,
            indent + indent_step(),
        ) + "\n"@ + indent + "}"@,
    }
}

/// The texts of `args` in order, separated by a comma and a space.
pub open spec fn rendered_list(args: Seq<LoweredView>, indent: Seq<char>) -> Seq<char>
    decreases args, 1nat,
{
    if args.len() == 0 {
        Seq::empty()
    } else if args.len() == 1 {
        rendered(args[0], indent)
    } else {
        rendered_list(args.drop_last(), indent) + ", "@ + rendered(args.last(), indent)
    }
}

impl LoweredExpression {
    /// The content of this expression, node by node.
    pub open spec fn content(self) -> LoweredView
        decreases self,
    {
        match self {
            LoweredExpression::Name(name) => LoweredView::Name(name@),
            LoweredExpression::Int(value) => LoweredView::Int(value as int),
            LoweredExpression::Double(literal) => LoweredView::Double(literal@),
            LoweredExpression::Bool(value) => LoweredView::Bool(value),
            LoweredExpression::Call(callee, args) => LoweredView::Call(
                callee,
                Seq::new(
                    args.len() as nat,
                    |i: int|
                        if 0 <= i < args.len() {
                            args[i].content()
                        } else {
                            LoweredView::Bool(false)
                        },
                ),
            ),
            LoweredExpression::Equals(left, right) => LoweredView::Equals(
                Box::new(left.content()),
                Box::new(right.content()),
            ),
            LoweredExpression::IfElse(condition, then, otherwise) => LoweredView::IfElse(
                Box::new(condition.content()),
                Box::new(then.content()),
                Box::new(otherwise.content()),
            ),
        }
    }

    /// A variable named `name`.
    pub fn name(name: &str) -> (r: LoweredExpression)
        ensures
            r@ == LoweredView::Name(name@),
    {
        LoweredExpression::Name(String::from_str(name))
    }

    /// A call of `callee` with one argument.
    pub fn call1(callee: Intrinsic, arg: LoweredExpression) -> (r: LoweredExpression)
        ensures
            r@ == LoweredView::Call(callee, seq![arg@]),
    {
        let mut args: Vec<LoweredExpression> = Vec::new();
        args.push(arg);
        let r = LoweredExpression::Call(callee, args);
        assert(r@->Call_1 =~= seq![arg@]);
        r
    }

    /// A call of `callee` with two arguments.
    pub fn call2(callee: Intrinsic, first: LoweredExpression, second: LoweredExpression) -> (r:
        LoweredExpression)
        ensures
            r@ == LoweredView::Call(callee, seq![first@, second@]),
    {
        let mut args: Vec<LoweredExpression> = Vec::new();
        args.push(first);
        args.push(second);
        let r = LoweredExpression::Call(callee, args);
        assert(r@->Call_1 =~= seq![first@, second@]);
        r
    }

    /// A copy of this expression, node for node.
    fn duplicate(&self) -> (r: LoweredExpression)
        ensures
            r@ == self@,
        decreases self,
    {
        match self {
            LoweredExpression::Name(name) => LoweredExpression::Name(name.clone()),
            LoweredExpression::Int(value) => LoweredExpression::Int(*value),
            LoweredExpression::Double(literal) => LoweredExpression::Double(literal.clone()),
            LoweredExpression::Bool(value) => LoweredExpression::Bool(*value),
            LoweredExpression::Call(callee, args) => {
                assert(decreases_to!(*self => *args));
                let mut copies: Vec<LoweredExpression> = Vec::new();
                let mut i: usize = 0;
                while i < args.len()
                    invariant
                        i <= args.len(),
                        decreases_to!(*self => *args),
                        copies.len() == i,
                        forall|k: int| 0 <= k < i ==> copies[k]@ == args[k]@,
                    decreases args.len() - i,
                {
                    proof {
                        assert(decreases_to!(*args => args[i as int]));
                    }
                    copies.push(args[i].duplicate());
                    i += 1;
                }
                let r = LoweredExpression::Call(*callee, copies);
                assert(r@->Call_1 =~= self@->Call_1);
                r
            },
            LoweredExpression::Equals(left, right) => LoweredExpression::Equals(
                Box::new(left.duplicate()),
                Box::new(right.duplicate()),
            ),
            LoweredExpression::IfElse(condition, then, otherwise) => LoweredExpression::IfElse(
                Box::new(condition.duplicate()),
                Box::new(then.duplicate()),
                Box::new(otherwise.duplicate()),
            ),
        }
    }

    /// Writes this expression as text, starting at the left margin.
    pub fn render(&self) -> (r: String)
        ensures
            r@ == rendered(self@, Seq::empty()),
    {
        let mut r = String::new();
        self.render_into("", &mut r);
        proof {
            reveal_strlit("");
            assert(""@ =~= Seq::<char>::empty());
            assert(Seq::<char>::empty() + rendered(self@, Seq::empty()) =~= rendered(
                self@,
                Seq::empty(),
            ));
        }
        r
    }

    /// Appends the text of this expression to `out`, with `indent` as the
    /// indentation of the line that the expression starts on.
    pub fn render_into(&self, indent: &str, out: &mut String)
        ensures
            final(out)@ == old(out)@ + rendered(self@, indent@),
        decreases self, 1nat,
    {
        match self {
            LoweredExpression::Name(name) => {
                out.append(name.as_str());
            },
            LoweredExpression::Int(value) => {
                let digits = signed_decimal_text(*value);
                out.append(digits.as_str());
            },
            LoweredExpression::Double(literal) => {
                out.append(literal.as_str());
            },
            LoweredExpression::Bool(value) => {
                if *value {
                    out.append("true");
                } else {
                    out.append("false");
                }
            },
            LoweredExpression::Call(_, _) => {
                self.render_call(indent, out);
            },
            LoweredExpression::Equals(left, right) => {
                left.render_into(indent, out);
                out.append(" == ");
                right.render_into(indent, out);
                proof {
                    assert(out@ =~= old(out)@ + (rendered(left@, indent@) + " == "@ + rendered(
                        right@,
                        indent@,
                    )));
                }
            },
            LoweredExpression::IfElse(_, _, _) => {
                self.render_conditional(indent, out);
            },
        }
    }

    /// Appends the text of a call: the name, and the arguments in parentheses.
    fn render_call(&self, indent: &str, out: &mut String)
        requires
            self is Call,
        ensures
            final(out)@ == old(out)@ + rendered(self@, indent@),
        decreases self, 0nat,
    {
        if let LoweredExpression::Call(callee, args) = self {
            let ghost views = self@->Call_1;
            assert(decreases_to!(*self => *args));
            let mut list = String::new();
            let mut i: usize = 0;
            while i < args.len()
                invariant
                    i <= args.len(),
                    decreases_to!(*self => *args),
                    views.len() == args.len(),
                    forall|k: int| 0 <= k < args.len() ==> views[k] == args[k]@,
                    list@ == rendered_list(views.take(i as int), indent@),
                decreases args.len() - i,
            {
                let ghost before = list@;
                if i > 0 {
                    list.append(", ");
                }
                proof {
                    assert(decreases_to!(*args => args[i as int]));
                }
                args[i].render_into(indent, &mut list);
                proof {
                    let shorter = views.take(i as int);
                    let longer = views.take(i + 1);
                    assert(longer.drop_last() =~= shorter);
                    assert(longer.last() == args[i as int]@);
                    if i == 0 {
                        assert(longer[0] == args[0]@);
                        assert(list@ =~= rendered(longer[0], indent@));
                    } else {
                        assert(list@ =~= before + ", "@ + rendered(longer.last(), indent@));
                    }
                }
                i += 1;
            }
            proof {
                assert(views.take(args.len() as int) =~= views);
            }
            out.append(callee.name_text());
            out.append("(");
            out.append(list.as_str());
            out.append(")");
            proof {
                assert(out@ =~= old(out)@ + (callee.name() + "("@ + rendered_list(views, indent@)
                    + ")"@));
            }
        }
    }

    /// Appends the text of a conditional: the condition, and each branch on
    /// a line of its own, one level deeper than `indent`.
    fn render_conditional(&self, indent: &str, out: &mut String)
        requires
            self is IfElse,
        ensures
            final(out)@ == old(out)@ + rendered(self@, indent@),
        decreases self, 0nat,
    {
        if let LoweredExpression::IfElse(condition, then, otherwise) = self {
            let mut deeper = String::from_str(indent);
            deeper.append("    ");
            let mut text = String::from_str("if ");
            condition.render_into(indent, &mut text);
            text.append(" {\n");
            text.append(deeper.as_str());
            then.render_into(deeper.as_str(), &mut text);
            text.append("\n");
            text.append(indent);
            text.append("} else {\n");
            text.append(deeper.as_str());
            otherwise.render_into(deeper.as_str(), &mut text);
            text.append("\n");
            text.append(indent);
            text.append("}");
            out.append(text.as_str());
            proof {
                assert(deeper@ == indent@ + indent_step());
                assert(text@ == rendered(self@, indent@));
            }
        }
    }
}

impl Clone for LoweredExpression {
    fn clone(&self) -> (r: Self)
        ensures
            r@ == self@,
    {
        self.duplicate()
    }
}

impl View for LoweredExpression {
    type V = LoweredView;

    open spec fn view(&self) -> LoweredView {
        self.content()
    }
}

} // verus!
