//! The statement representation: labels, directives and instructions over
//! register/expression arguments, the chunks of static data objects, and the
//! fatal error taxonomy of the compiler.
use vstd::prelude::*;

use crate::FunctionKind;
use crate::Register;

verus! {

use vstd::string::StringExecFns;

/// Unary operators inside constant expressions.
#[derive(Clone, Copy, PartialEq, Eq, Structural, Debug)]
pub enum UnaryOpKind {
    Negation,
}

/// Binary operators inside constant expressions.
#[derive(Clone, Copy, PartialEq, Eq, Structural, Debug)]
pub enum BinaryOpKind {
    Or,
    Xor,
    And,
    LeftShift,
    RightShift,
    Add,
    Sub,
    Mul,
    Div,
    Mod,
}

/// A constant expression of the statement stream: a resolved literal, an
/// unresolved symbol, or an operator node over sub-expressions.
pub enum Expression {
    Number(i64),
    Symbol(String),
    UnaryOp(UnaryOpKind, Box<Expression>),
    BinaryOp(BinaryOpKind, Box<Expression>, Box<Expression>),
    FunctionOp(FunctionKind, Box<Expression>),
}

/// The mathematical model of an [`Expression`].
pub ghost enum ExprV {
    Number(int),
    Symbol(Seq<char>),
    UnaryOp(UnaryOpKind, Box<ExprV>),
    BinaryOp(BinaryOpKind, Box<ExprV>, Box<ExprV>),
    FunctionOp(FunctionKind, Box<ExprV>),
}

pub open spec fn expr_view(e: Expression) -> ExprV
    decreases e,
{
    match e {
        Expression::Number(n) => ExprV::Number(n as int),
        Expression::Symbol(s) => ExprV::Symbol(s@),
        Expression::UnaryOp(op, inner) => ExprV::UnaryOp(op, Box::new(expr_view(*inner))),
        Expression::BinaryOp(op, a, b) => ExprV::BinaryOp(
            op,
            Box::new(expr_view(*a)),
            Box::new(expr_view(*b)),
        ),
        Expression::FunctionOp(op, inner) => ExprV::FunctionOp(op, Box::new(expr_view(*inner))),
    }
}

impl View for Expression {
    type V = ExprV;

    open spec fn view(&self) -> ExprV {
        expr_view(*self)
    }
}

/// One argument of an instruction or directive: a register, a constant
/// expression, or a register with an expression offset (based memory access).
pub enum Argument {
    Register(Register),
    RegOffset(Register, Expression),
    Expression(Expression),
}

/// The mathematical model of an [`Argument`].
pub ghost enum ArgV {
    Register(Register),
    RegOffset(Register, ExprV),
    Expression(ExprV),
}

pub open spec fn arg_view(a: Argument) -> ArgV {
    match a {
        Argument::Register(r) => ArgV::Register(r),
        Argument::RegOffset(r, e) => ArgV::RegOffset(r, expr_view(e)),
        Argument::Expression(e) => ArgV::Expression(expr_view(e)),
    }
}

impl View for Argument {
    type V = ArgV;

    open spec fn view(&self) -> ArgV {
        arg_view(*self)
    }
}

pub open spec fn args_view(args: Seq<Argument>) -> Seq<ArgV> {
    args.map_values(|a: Argument| arg_view(a))
}

/// One element of the statement stream.
pub enum Statement {
    Label(String),
    Directive(String, Vec<Argument>),
    Instruction(String, Vec<Argument>),
}

/// The mathematical model of a [`Statement`].
pub ghost enum StmtV {
    Label(Seq<char>),
    Directive(Seq<char>, Seq<ArgV>),
    Instruction(Seq<char>, Seq<ArgV>),
}

pub open spec fn stmt_view(s: Statement) -> StmtV {
    match s {
        Statement::Label(l) => StmtV::Label(l@),
        Statement::Directive(d, args) => StmtV::Directive(d@, args_view(args@)),
        Statement::Instruction(i, args) => StmtV::Instruction(i@, args_view(args@)),
    }
}

impl View for Statement {
    type V = StmtV;

    open spec fn view(&self) -> StmtV {
        stmt_view(*self)
    }
}

pub open spec fn stmts_view(stmts: Seq<Statement>) -> Seq<StmtV> {
    stmts.map_values(|s: Statement| stmt_view(s))
}

/// One chunk of a static data object: a run of implicit zero bytes, a literal
/// byte payload, a pointer-sized slot holding another symbol's address, or
/// the (unimplemented) difference of two label addresses.
pub enum DataValue {
    Zero(usize),
    Direct(Vec<u8>),
    Reference(String),
    Offset(String, String),
}

/// The mathematical model of a [`DataValue`].
pub ghost enum DataValueV {
    Zero(nat),
    Direct(Seq<u8>),
    Reference(Seq<char>),
    Offset(Seq<char>, Seq<char>),
}

pub open spec fn data_value_view(v: DataValue) -> DataValueV {
    match v {
        DataValue::Zero(n) => DataValueV::Zero(n as nat),
        DataValue::Direct(bytes) => DataValueV::Direct(bytes@),
        DataValue::Reference(s) => DataValueV::Reference(s@),
        DataValue::Offset(a, b) => DataValueV::Offset(a@, b@),
    }
}

impl View for DataValue {
    type V = DataValueV;

    open spec fn view(&self) -> DataValueV {
        data_value_view(*self)
    }
}

/// The size in bytes that one chunk occupies (a reference slot is one
/// 4-byte pointer).
pub open spec fn data_value_size(v: DataValueV) -> int {
    match v {
        DataValueV::Zero(n) => n as int,
        DataValueV::Direct(bytes) => bytes.len() as int,
        DataValueV::Reference(_) => 4,
        DataValueV::Offset(_, _) => 4,
    }
}

impl DataValue {
    /// The size in bytes of this chunk.
    pub fn size(&self) -> (r: usize)
        ensures
            r == data_value_size(self@),
    {
        match self {
            DataValue::Zero(n) => *n,
            DataValue::Direct(bytes) => bytes.len(),
            DataValue::Reference(_) => 4,
            DataValue::Offset(_, _) => 4,
        }
    }
}

/// A named data object: its name and its ordered chunks.
pub struct DataObject {
    pub name: String,
    pub values: Vec<DataValue>,
}

/// The mathematical model of a [`DataObject`].
pub ghost struct DataObjectV {
    pub name: Seq<char>,
    pub values: Seq<DataValueV>,
}

pub open spec fn data_values_view(values: Seq<DataValue>) -> Seq<DataValueV> {
    values.map_values(|v: DataValue| data_value_view(v))
}

impl View for DataObject {
    type V = DataObjectV;

    open spec fn view(&self) -> DataObjectV {
        DataObjectV { name: self.name@, values: data_values_view(self.values@) }
    }
}

pub open spec fn data_objects_view(objects: Seq<DataObject>) -> Seq<DataObjectV> {
    objects.map_values(|o: DataObject| o.view())
}

/// Whether the object table holds an object of the given name.
pub open spec fn objects_contain_name(objects: Seq<DataObjectV>, name: Seq<char>) -> bool {
    exists|i: int| 0 <= i < objects.len() && objects[i].name == name
}

/// A fatal compile error. Compilation aborts on the first occurrence; there
/// is no partial output.
#[derive(Debug)]
pub enum CompileError {
    /// The mnemonic is not in the lowering table.
    UnsupportedInstruction(String),
    /// An instruction's argument shapes match no expected pattern for its
    /// mnemonic.
    MalformedOperands(String),
    /// An expression that must be a concrete number still contains an
    /// unresolved symbol.
    UnresolvedConstant(String),
    /// An `Offset` data chunk was encountered; that relocation is not
    /// implemented.
    UnimplementedRelocation,
}

/// The mathematical model of a [`CompileError`].
pub ghost enum CompileErrorV {
    UnsupportedInstruction(Seq<char>),
    MalformedOperands(Seq<char>),
    UnresolvedConstant(Seq<char>),
    UnimplementedRelocation,
}

pub open spec fn error_view(e: CompileError) -> CompileErrorV {
    match e {
        CompileError::UnsupportedInstruction(s) => CompileErrorV::UnsupportedInstruction(s@),
        CompileError::MalformedOperands(s) => CompileErrorV::MalformedOperands(s@),
        CompileError::UnresolvedConstant(s) => CompileErrorV::UnresolvedConstant(s@),
        CompileError::UnimplementedRelocation => CompileErrorV::UnimplementedRelocation,
    }
}

impl View for CompileError {
    type V = CompileErrorV;

    open spec fn view(&self) -> CompileErrorV {
        error_view(*self)
    }
}

impl CompileError {
    /// A short description of the error kind followed by the offending name,
    /// for reporting.
    pub fn message(&self) -> (r: String)
        ensures
            match self@ {
                CompileErrorV::UnsupportedInstruction(s) => r@ == "unsupported instruction: "@
                    + s,
                CompileErrorV::MalformedOperands(s) => r@ == "malformed operands for: "@ + s,
                CompileErrorV::UnresolvedConstant(s) => r@ == "unresolved constant expression: "@
                    + s,
                CompileErrorV::UnimplementedRelocation => r@
                    == "unimplemented offset relocation"@,
            },
    {
        match self {
            CompileError::UnsupportedInstruction(s) => {
                let mut r = String::from_str("unsupported instruction: ");
                r.append(s.as_str());
                r
            },
            CompileError::MalformedOperands(s) => {
                let mut r = String::from_str("malformed operands for: ");
                r.append(s.as_str());
                r
            },
            CompileError::UnresolvedConstant(s) => {
                let mut r = String::from_str("unresolved constant expression: ");
                r.append(s.as_str());
                r
            },
            CompileError::UnimplementedRelocation => String::from_str(
                "unimplemented offset relocation",
            ),
        }
    }
}

/// Rebuilds an expression; the copy has the same model.
pub fn clone_expression(e: &Expression) -> (r: Expression)
    ensures
        r@ == e@,
    decreases *e,
{
    match e {
        Expression::Number(n) => Expression::Number(*n),
        Expression::Symbol(s) => Expression::Symbol(s.clone()),
        Expression::UnaryOp(op, inner) => Expression::UnaryOp(
            *op,
            Box::new(clone_expression(inner)),
        ),
        Expression::BinaryOp(op, a, b) => Expression::BinaryOp(
            *op,
            Box::new(clone_expression(a)),
            Box::new(clone_expression(b)),
        ),
        Expression::FunctionOp(op, inner) => Expression::FunctionOp(
            *op,
            Box::new(clone_expression(inner)),
        ),
    }
}

/// Rebuilds an argument; the copy has the same model.
pub fn clone_argument(a: &Argument) -> (r: Argument)
    ensures
        r@ == a@,
{
    match a {
        Argument::Register(r) => Argument::Register(*r),
        Argument::RegOffset(r, e) => Argument::RegOffset(*r, clone_expression(e)),
        Argument::Expression(e) => Argument::Expression(clone_expression(e)),
    }
}

/// Rebuilds a statement; the copy has the same model.
pub fn clone_statement(s: &Statement) -> (r: Statement)
    ensures
        r@ == s@,
{
    match s {
        Statement::Label(l) => Statement::Label(l.clone()),
        Statement::Directive(d, args) => Statement::Directive(d.clone(), clone_arguments(args)),
        Statement::Instruction(i, args) => Statement::Instruction(
            i.clone(),
            clone_arguments(args),
        ),
    }
}

/// Rebuilds an argument list; the copy has the same model.
pub fn clone_arguments(args: &Vec<Argument>) -> (r: Vec<Argument>)
    ensures
        args_view(r@) == args_view(args@),
{
    let mut r: Vec<Argument> = Vec::new();
    let mut i: usize = 0;
    while i < args.len()
        invariant
            i <= args.len(),
            r@.len() == i,
            forall|j: int| 0 <= j < i ==> r@[j]@ == args@[j]@,
        decreases args.len() - i,
    {
        r.push(clone_argument(&args[i]));
        i += 1;
    }
    proof {
        assert(args_view(r@) =~= args_view(args@));
    }
    r
}

} // verus!
