use lua_to_ts::acceptance::{block_accepted, expression_accepted};
use lua_to_ts::driver::{
    detect_file_kind, file_kind_of_extension, target_path, ExitStatus, FileKind, FileOutcome, Report,
    TransformFile,
};
use lua_to_ts::lua::{
    Block, Call, Expression, Field, FunctionArgs, FunctionCall, Index, LastStmt, Prefix, Stmt,
    Suffix, TableConstructor, Token, TokenKind, Value, Var,
};
use lua_to_ts::lua::{BinOp, BinaryOperation, ElseIf, GenericFor, If};
use lua_to_ts::roblox::{Dom, Instance};
use lua_to_ts::ts::{Expr, Ident, ModuleItem};

#[test]
fn file_kinds_come_from_extensions() {
    assert_eq!(detect_file_kind("src/init.lua"), Some(FileKind::Lua));
    assert_eq!(detect_file_kind("a/b.luau"), Some(FileKind::Lua));
    assert_eq!(detect_file_kind("model.rbxm"), Some(FileKind::BinaryModel));
    assert_eq!(detect_file_kind("model.rbxmx"), Some(FileKind::XmlModel));
    assert_eq!(detect_file_kind("notes.txt"), None);
    assert_eq!(detect_file_kind("Makefile"), None);
    assert_eq!(detect_file_kind(".lua"), None);
    assert_eq!(file_kind_of_extension(Some("luau")), Some(FileKind::Lua));
    assert_eq!(file_kind_of_extension(Some("LUA")), None);
    assert_eq!(file_kind_of_extension(None), None);
}

#[test]
fn target_replaces_the_extension() {
    assert_eq!(target_path("src/init.lua"), "src/init.ts");
    assert_eq!(target_path("model.rbxmx"), "model.ts");
}

#[test]
fn report_lists_failures_and_keeps_the_last_status() {
    let mut report = Report::new();
    assert_eq!(report.status, ExitStatus::Success);
    assert_eq!(report.output(), None);
    report.record("a.lua", &FileOutcome::Written);
    assert_eq!(report.output(), None);
    assert_eq!(report.status, ExitStatus::Success);
    report.record("b.txt", &FileOutcome::UnknownKind);
    assert_eq!(report.status, ExitStatus::DataErr);
    report.record("c.lua", &FileOutcome::TargetExists);
    assert_eq!(report.status, ExitStatus::CantCreat);
    report.record("d.lua", &FileOutcome::Written);
    assert_eq!(report.status, ExitStatus::CantCreat);
    assert_eq!(
        report.output(),
        Some("Could not detect file kind of `b.txt`\nRefusing to overwrite `c.ts`".to_owned())
    );
}

#[test]
fn every_failure_has_its_line_and_status() {
    let cases = vec![
        (FileOutcome::OpenFailed("denied".to_owned()), "Error while opening `x.lua`: denied", ExitStatus::DataErr),
        (FileOutcome::ParseFailed("bad".to_owned()), "Error while parsing `x.lua`: bad", ExitStatus::DataErr),
        (FileOutcome::UnknownKind, "Could not detect file kind of `x.lua`", ExitStatus::DataErr),
        (FileOutcome::TargetExists, "Refusing to overwrite `x.ts`", ExitStatus::CantCreat),
        (FileOutcome::CreateFailed("e1".to_owned()), "Error while opening file handle for `x.ts`: e1", ExitStatus::CantCreat),
        (FileOutcome::WriteFailed("e2".to_owned()), "Error while writing `x.ts`: e2", ExitStatus::IoErr),
    ];
    for (outcome, line, status) in cases {
        let mut report = Report::new();
        report.record("x.lua", &outcome);
        assert_eq!(report.failures, vec![line.to_owned()]);
        assert_eq!(report.status, status);
        assert_eq!(report.output(), Some(line.to_owned()));
    }
}

fn name(n: &str) -> Expression {
    Expression::Value { value: Box::new(Value::Var(Var::Name(n.to_owned()))), type_assertion: None }
}

fn unpack_table(suffixes: Vec<Suffix>) -> Expression {
    let call = Expression::Value {
        value: Box::new(Value::FunctionCall(FunctionCall { prefix: Prefix::Name("unpack".to_owned()), suffixes })),
        type_assertion: None,
    };
    Expression::Value {
        value: Box::new(Value::TableConstructor(TableConstructor { fields: vec![Field::NoKey(call)] })),
        type_assertion: None,
    }
}

#[test]
fn misused_unpack_is_not_accepted() {
    let good = unpack_table(vec![Suffix::Call(Call::AnonymousCall(FunctionArgs::Parentheses(vec![name("t")])))]);
    assert!(expression_accepted(&good));
    let no_argument = unpack_table(vec![Suffix::Call(Call::AnonymousCall(FunctionArgs::Parentheses(vec![])))]);
    assert!(!expression_accepted(&no_argument));
    let indexed = unpack_table(vec![Suffix::Index(Index::Dot("x".to_owned()))]);
    assert!(!expression_accepted(&indexed));
    let string_argument = unpack_table(vec![Suffix::Call(Call::AnonymousCall(FunctionArgs::String(Token {
        kind: TokenKind::StringLiteral { literal: "s".to_owned() },
        source: "\"s\"".to_owned(),
    })))]);
    assert!(expression_accepted(&string_argument));
    let block = Block { stmts: vec![Stmt::Other("x".to_owned())], last_stmt: Some(LastStmt::Return(vec![no_argument])) };
    assert!(!block_accepted(&block));
}

#[test]
fn files_that_can_be_transformed() {
    let empty_return = TransformFile::Lua(Block { stmts: vec![], last_stmt: Some(LastStmt::Return(vec![])) });
    assert!(!empty_return.can_transform());
    let module = TransformFile::Lua(Block { stmts: vec![], last_stmt: Some(LastStmt::Return(vec![name("M")])) });
    assert!(module.can_transform());
    assert_eq!(
        module.transform(),
        vec![ModuleItem::ExportDefault(Box::new(Expr::Ident(Ident { sym: "M".to_owned() })))]
    );
    let model = TransformFile::Model(Dom {
        root: Instance { name: "root".to_owned(), class: "DataModel".to_owned(), children: vec![] },
    });
    assert!(model.can_transform());
    assert_eq!(model.transform(), vec![]);
}

#[test]
fn untransformed_parts_need_not_be_accepted() {
    let no_argument = unpack_table(vec![Suffix::Call(Call::AnonymousCall(FunctionArgs::Parentheses(vec![])))]);
    let unknown_operator = Expression::BinaryOperator(Box::new(BinaryOperation {
        lhs: no_argument,
        binop: BinOp::Other("//".to_owned()),
        rhs: name("x"),
    }));
    assert!(expression_accepted(&unknown_operator));
    let no_argument = unpack_table(vec![Suffix::Call(Call::AnonymousCall(FunctionArgs::Parentheses(vec![])))]);
    let loop_over_two = Stmt::GenericFor(GenericFor {
        names: vec!["_".to_owned()],
        type_specifiers: vec![],
        expressions: vec![no_argument, name("b")],
        block: Block { stmts: vec![], last_stmt: None },
        source: "for _ in {unpack()}, b do end".to_owned(),
    });
    assert!(block_accepted(&Block { stmts: vec![loop_over_two], last_stmt: None }));
}

#[test]
fn misused_unpack_inside_an_elseif_is_not_accepted() {
    let no_argument = unpack_table(vec![Suffix::Call(Call::AnonymousCall(FunctionArgs::Parentheses(vec![])))]);
    let bad = Stmt::If(If {
        condition: name("a"),
        block: Block { stmts: vec![], last_stmt: None },
        else_if: Some(vec![ElseIf { condition: no_argument, block: Block { stmts: vec![], last_stmt: None } }]),
        else_block: None,
    });
    assert!(!block_accepted(&Block { stmts: vec![bad], last_stmt: None }));
    let good = Stmt::If(If {
        condition: name("a"),
        block: Block { stmts: vec![], last_stmt: None },
        else_if: Some(vec![ElseIf { condition: name("b"), block: Block { stmts: vec![], last_stmt: None } }]),
        else_block: None,
    });
    assert!(block_accepted(&Block { stmts: vec![good], last_stmt: None }));
}
