use box_drawing::drawing_command::DrawingCommand;
use box_drawing::geometry::{Metrics, PathOp, Point};
use box_drawing::recipe::{eval_number, resolve, DrawError, Recipe};
use box_drawing::table::{build_table, parse_code_point, translate_recipe, RecipeSource, TableError};
use box_drawing::translator::{
    build_command, normalized_const, normalized_keyword, take_expr, take_tuple, CommandRecipe,
    Expr, FieldName, Keyword, MetricName, Operator, Primitive, Term, TranslateError,
    UnaryOperator,
};

fn name(s: &str) -> Expr {
    Expr::Name(s.to_string())
}

fn text(s: &str) -> Expr {
    Expr::Str(s.to_string())
}

fn num(v: i64) -> Expr {
    Expr::Number(v)
}

fn bin(a: Expr, op: Operator, b: Expr) -> Expr {
    Expr::BinOp(Box::new(a), op, Box::new(b))
}

fn kw(k: &str, v: Expr) -> Keyword {
    Keyword { name: Some(k.to_string()), value: v }
}

fn call(f: &str, args: Vec<Expr>, keywords: Vec<Keyword>) -> Expr {
    Expr::Call(Box::new(name(f)), args, keywords)
}

fn path(cmd: &CommandRecipe) -> Vec<PathOp> {
    let m = Metrics::default();
    let c = resolve(cmd, &m).expect("resolves");
    let mut ctx = DrawingCommand::new(m);
    c.execute(&mut ctx);
    ctx.into_path()
}

#[test]
fn unknown_constant_is_named() {
    assert_eq!(
        take_expr(&name("FOO")).unwrap_err(),
        TranslateError::UnknownConstant("FOO".to_string())
    );
}

#[test]
fn unknown_string_is_named() {
    assert_eq!(
        take_expr(&text("center")).unwrap_err(),
        TranslateError::UnknownString("center".to_string())
    );
}

#[test]
fn three_tuple_fails_on_arity() {
    let t = vec![num(1), num(2), num(3)];
    assert_eq!(take_tuple(&t).unwrap_err(), TranslateError::TupleArity(3));
    let e = call("box", vec![name("boxPen"), Expr::Tuple(vec![num(1), num(2), num(3)])], vec![]);
    assert_eq!(build_command(&e).unwrap_err(), TranslateError::TupleArity(3));
}

#[test]
fn constant_and_keyword_tables() {
    assert_eq!(normalized_const(&"EM_HEIGHT".to_string()), Some(MetricName::EmHeight));
    assert_eq!(normalized_const(&"em_height".to_string()), None);
    assert_eq!(normalized_keyword(&"buttB".to_string()), Some(FieldName::ButtBot));
    assert_eq!(normalized_keyword(&"fatness".to_string()), None);
}

#[test]
fn arithmetic_evaluates_left_to_right() {
    let e = bin(bin(name("WIDTH"), Operator::Div, num(2)), Operator::Sub, name("STROKE"));
    let t = take_expr(&e).unwrap();
    assert_eq!(eval_number(&t, &Metrics::default()), Some(140));
    let neg = Expr::UnaryOp(UnaryOperator::Neg, Box::new(name("BUTT")));
    assert_eq!(eval_number(&take_expr(&neg).unwrap(), &Metrics::default()), Some(-160));
    let sub = Expr::Subscript(Box::new(name("BLOCK_TOP")), Box::new(num(1)));
    assert_eq!(eval_number(&take_expr(&sub).unwrap(), &Metrics::default()), Some(1000));
    let floor = bin(num(-7), Operator::Div, num(2));
    assert_eq!(eval_number(&take_expr(&floor).unwrap(), &Metrics::default()), Some(-4));
}

#[test]
fn division_by_zero_does_not_evaluate() {
    let t = take_expr(&bin(name("WIDTH"), Operator::Div, num(0))).unwrap();
    assert_eq!(eval_number(&t, &Metrics::default()), None);
}

#[test]
fn bad_subscripts() {
    let s2 = Expr::Subscript(Box::new(name("BLOCK_TOP")), Box::new(num(2)));
    assert_eq!(take_expr(&s2).unwrap_err(), TranslateError::BadSubscript);
    let scalar = Expr::Subscript(Box::new(name("WIDTH")), Box::new(num(0)));
    assert_eq!(take_expr(&scalar).unwrap_err(), TranslateError::BadSubscript);
    let nested = Expr::Subscript(Box::new(num(3)), Box::new(num(0)));
    assert_eq!(take_expr(&nested).unwrap_err(), TranslateError::BadSubscript);
}

#[test]
fn unsupported_shapes() {
    assert_eq!(
        take_expr(&bin(num(1), Operator::Other, num(2))).unwrap_err(),
        TranslateError::UnsupportedOperator
    );
    assert_eq!(
        take_expr(&Expr::UnaryOp(UnaryOperator::Other, Box::new(num(1)))).unwrap_err(),
        TranslateError::UnsupportedOperator
    );
    assert_eq!(
        take_expr(&Expr::Other("lambda".to_string())).unwrap_err(),
        TranslateError::UnsupportedExpression("lambda".to_string())
    );
    assert_eq!(
        take_expr(&call("hor_bar", vec![], vec![])).unwrap_err(),
        TranslateError::NestedCall
    );
    let unnamed = Keyword { name: None, value: num(1) };
    assert_eq!(
        build_command(&call("hor_bar", vec![], vec![unnamed])).unwrap_err(),
        TranslateError::UnnamedKeyword
    );
    let callee = Expr::Call(Box::new(num(1)), vec![], vec![]);
    assert_eq!(build_command(&callee).unwrap_err(), TranslateError::BadCallee);
    assert_eq!(
        take_expr(&bin(name("BLOCK_TOP"), Operator::Add, num(2))).unwrap_err(),
        TranslateError::TypeMismatch
    );
    assert_eq!(build_command(&num(1)).unwrap_err(), TranslateError::NotACall);
}

#[test]
fn call_errors() {
    assert_eq!(
        build_command(&call("circle", vec![], vec![])).unwrap_err(),
        TranslateError::UnknownPrimitive("circle".to_string())
    );
    assert_eq!(
        build_command(&call("hor_bar", vec![name("boxPen")], vec![kw("buttX", num(1))]))
            .unwrap_err(),
        TranslateError::UnknownKeyword("buttX".to_string())
    );
    assert_eq!(
        build_command(&call("hor_bar", vec![], vec![kw("buttB", num(1))])).unwrap_err(),
        TranslateError::NoSuchField(FieldName::ButtBot)
    );
    assert_eq!(
        build_command(&call("dashed_hor_line", vec![name("boxPen")], vec![])).unwrap_err(),
        TranslateError::MissingField(FieldName::Step)
    );
    assert_eq!(
        build_command(&call("polka_shade", vec![text("25"), text("50")], vec![])).unwrap_err(),
        TranslateError::TooManyArguments
    );
    assert_eq!(
        build_command(&call("hor_half_bar", vec![name("FAT")], vec![])).unwrap_err(),
        TranslateError::TypeMismatch
    );
}

#[test]
fn heavy_half_bar_from_recipe() {
    let e = call(
        "hor_half_bar",
        vec![name("boxPen"), text("right"), name("FAT")],
        vec![kw("buttL", name("STROKE"))],
    );
    let cmd = build_command(&e).unwrap();
    assert_eq!(cmd.primitive, Primitive::HorHalfBar);
    assert_eq!(cmd.slots.len(), 5);
    let p = |x, y| Point { x, y };
    assert_eq!(
        path(&cmd),
        vec![
            PathOp::MoveTo(p(220, 140)),
            PathOp::LineTo(p(680, 140)),
            PathOp::LineTo(p(680, 460)),
            PathOp::LineTo(p(220, 460)),
            PathOp::ClosePath
        ]
    );
}

#[test]
fn translating_twice_draws_the_same() {
    let make = || {
        call(
            "arc",
            vec![
                name("boxPen"),
                Expr::Tuple(vec![bin(name("WIDTH"), Operator::Div, num(2)), name("MEDIAN")]),
                Expr::Tuple(vec![name("WIDTH"), name("MEDIAN")]),
                text("TL"),
                name("STROKE"),
                name("RADIUS"),
            ],
            vec![],
        )
    };
    let a = build_command(&make()).unwrap();
    let b = build_command(&make()).unwrap();
    let pa = path(&a);
    assert_eq!(pa.len(), 9);
    assert_eq!(pa, path(&b));
}

#[test]
fn code_points_in_hexadecimal() {
    assert_eq!(parse_code_point(&"2500".to_string()), Some(0x2500));
    assert_eq!(parse_code_point(&"257f".to_string()), Some(0x257F));
    assert_eq!(parse_code_point(&"FFFFFFFF".to_string()), Some(u32::MAX));
    assert_eq!(parse_code_point(&"100000000".to_string()), None);
    assert_eq!(parse_code_point(&"25g0".to_string()), None);
    assert_eq!(parse_code_point(&"".to_string()), None);
}

fn source(code: &str, commands: Vec<Expr>) -> RecipeSource {
    RecipeSource { code: code.to_string(), name: "glyph".to_string(), commands }
}

#[test]
fn table_of_recipes() {
    let srcs = vec![
        source("2500", vec![call("hor_bar", vec![name("boxPen")], vec![])]),
        source(
            "2502",
            vec![call("vert_bar", vec![name("boxPen"), name("FAT")], vec![])],
        ),
    ];
    let table = build_table(&srcs).unwrap();
    assert_eq!(table.len(), 2);
    assert_eq!(table[0].c, 0x2500);
    assert_eq!(table[1].c, 0x2502);
    assert_eq!(table[1].name, "glyph");
}

#[test]
fn table_errors() {
    let dup = vec![source("2500", vec![]), source("2500", vec![])];
    assert_eq!(build_table(&dup).unwrap_err(), TableError::DuplicateCodePoint(0x2500));
    let bad = source("xyz", vec![]);
    assert_eq!(translate_recipe(&bad).unwrap_err(), TableError::BadCodePoint("xyz".to_string()));
    let failing = source("2501", vec![call("hor_bar", vec![name("FOO")], vec![])]);
    assert_eq!(
        translate_recipe(&failing).unwrap_err(),
        TableError::Command(0x2501, TranslateError::UnknownConstant("FOO".to_string()))
    );
}

#[test]
fn unresolvable_recipe() {
    let zero_step = CommandRecipe {
        primitive: Primitive::DashedHorLine,
        slots: vec![
            Some(Term::Div(Box::new(Term::Number(1)), Box::new(Term::Number(0)))),
            None,
            None,
        ],
    };
    let recipe = Recipe { c: 0x2504, name: "broken".to_string(), commands: vec![zero_step] };
    let mut ctx = DrawingCommand::new(Metrics::default());
    assert_eq!(recipe.execute(&mut ctx), Err(DrawError::Unresolvable(0x2504)));
}
