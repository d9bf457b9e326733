use c64_assembler::expansion::{
    application, build_address_mode, build_function, build_instructions, build_module, function,
    instructions, module, Allowed, ExpansionError, TokenTree,
};

fn ident(name: &str) -> TokenTree {
    TokenTree::Ident(name.to_string())
}

fn punct(punct: char) -> TokenTree {
    TokenTree::Punct(punct)
}

fn literal(text: &str) -> TokenTree {
    TokenTree::Literal(text.to_string())
}

fn group(tokens: Vec<TokenTree>) -> TokenTree {
    TokenTree::Group(tokens)
}

fn black_border_instructions() -> Vec<TokenTree> {
    vec![
        ident("include_basic_header"),
        ident("main_entry_point"),
        punct(':'),
        literal("\"Load black color into accumulator\""),
        ident("lda"),
        punct('#'),
        punct('$'),
        literal("00"),
        ident("sta"),
        ident("VIC20_BORDER_COLOR"),
        ident("rts"),
    ]
}

const BLACK_BORDER_INSTRUCTIONS: [&str; 7] = [
    "  InstructionBuilder::default()",
    "    .add_basic_header()",
    "    .label(\"main_entry_point\")",
    "    .lda_imm(0x00)",
    "    .sta_addr(\"VIC20_BORDER_COLOR\")",
    "    .rts()",
    "    .finalize()",
];

#[test]
fn application_in_assembler_syntax() {
    let tokens = vec![
        ident("name"),
        punct('='),
        literal("\"Set black border\""),
        ident("entry_point"),
        punct('='),
        literal("0x0800"),
        ident("include_vic20_defines"),
        ident("include_sid_defines"),
        ident("module"),
        punct('!'),
        group(vec![
            ident("name"),
            punct('='),
            literal("\"main\""),
            ident("instructions"),
            punct('!'),
            group(black_border_instructions()),
            ident("function"),
            punct('!'),
            group(vec![
                ident("name"),
                punct('='),
                literal("\"tail\""),
                ident("instructions"),
                punct('!'),
                group(vec![ident("rts")]),
            ]),
        ]),
    ];
    let mut expected = vec![
        "{",
        "  use c64_assembler::builder::{*};",
        "  ApplicationBuilder::default()",
        "    .name(\"Set black border\")",
        "    .entry_point(0x0800)",
        "    .include_vic20_defines()",
        "    .include_sid_defines()",
        "    .module(",
        "  ModuleBuilder::default()",
        "    .name(\"main\")",
        "    .instructions(",
    ];
    expected.extend(BLACK_BORDER_INSTRUCTIONS);
    expected.extend([
        "    )",
        "    .function(",
        "  FunctionBuilder::default()",
        "    .name(\"tail\")",
        "    .instructions(",
        "  InstructionBuilder::default()",
        "    .rts()",
        "    .finalize()",
        "    )",
        "    .build()",
        "    )",
        "    .finalize()",
        "    )",
        "    .finalize()",
        "}",
    ]);
    assert_eq!(expected.join("\n"), application(&tokens).unwrap());
}

#[test]
fn empty_descriptions() {
    assert_eq!(
        [
            "{",
            "  use c64_assembler::builder::{*};",
            "  ApplicationBuilder::default()",
            "    .finalize()",
            "}",
        ]
        .join("\n"),
        application(&[]).unwrap()
    );
    assert_eq!("  ModuleBuilder::default()\n    .finalize()", build_module(&[]).unwrap());
    assert_eq!("  FunctionBuilder::default()\n    .build()", build_function(&[]).unwrap());
    assert_eq!(
        "  InstructionBuilder::default()\n    .finalize()",
        build_instructions(&[]).unwrap()
    );
}

#[test]
fn blocks_of_the_parts() {
    let block = |expression: &str| {
        format!("{{\n  use c64_assembler::builder::{{*}};\n{expression}\n}}")
    };
    assert_eq!(
        block("  ModuleBuilder::default()\n    .name(\"m\")\n    .finalize()"),
        module(&[ident("name"), punct('='), literal("\"m\"")]).unwrap()
    );
    assert_eq!(
        block("  FunctionBuilder::default()\n    .name(\"f\")\n    .build()"),
        function(&[ident("name"), punct('='), literal("\"f\"")]).unwrap()
    );
    assert_eq!(
        block(&BLACK_BORDER_INSTRUCTIONS.join("\n")),
        instructions(&black_border_instructions()).unwrap()
    );
}

fn lines_of(tokens: Vec<TokenTree>) -> Vec<String> {
    let source = build_instructions(&tokens).unwrap();
    let lines: Vec<&str> = source.split('\n').collect();
    assert_eq!("  InstructionBuilder::default()", lines[0]);
    assert_eq!("    .finalize()", lines[lines.len() - 1]);
    lines[1..lines.len() - 1].iter().map(|line| line.to_string()).collect()
}

#[test]
fn operands_in_assembler_syntax() {
    let cases = vec![
        (vec![ident("lda"), punct('#'), literal("12")], "    .lda_imm(12)"),
        (vec![ident("lda"), punct('#'), punct('$'), ident("C0")], "    .lda_imm(0xC0)"),
        (vec![ident("lda"), punct('#'), punct('$'), literal("7f")], "    .lda_imm(0x7f)"),
        (vec![ident("lda"), punct('#'), punct('<'), ident("data")], "    .lda_imm_low(\"data\")"),
        (vec![ident("lda"), punct('#'), punct('>'), ident("data")], "    .lda_imm_high(\"data\")"),
        (vec![ident("lda"), punct('#'), ident("data")], "    .lda_imm(\"data\")"),
        (vec![ident("lda"), punct('#')], "    .lda_imm"),
        (vec![ident("asl"), ident("a")], "    .asl_acc()"),
        (vec![ident("asl"), ident("data")], "    .asl_addr(\"data\")"),
        (vec![ident("sta"), ident("data")], "    .sta_addr(\"data\")"),
        (
            vec![ident("sta"), ident("data"), punct('+'), literal("8")],
            "    .sta_addr_offs(\"data\", 8)",
        ),
        (
            vec![ident("sta"), ident("data"), punct('+'), literal("+0012")],
            "    .sta_addr_offs(\"data\", 12)",
        ),
        (
            vec![ident("sta"), ident("data"), punct('+'), literal("65535")],
            "    .sta_addr_offs(\"data\", 65535)",
        ),
        (vec![ident("sta"), ident("data"), punct('+'), literal("0")], "    .sta_addr(\"data\")"),
        (vec![ident("sta"), ident("data"), punct('+')], "    .sta_addr(\"data\")"),
        (vec![ident("sta"), ident("data"), punct(','), ident("x")], "    .sta_addr_x(\"data\")"),
        (vec![ident("sta"), ident("data"), punct(','), ident("y")], "    .sta_addr_y(\"data\")"),
        (vec![ident("sta"), ident("data"), punct(',')], "    .sta_addr(\"data\")"),
        (vec![ident("bne"), ident("target")], "    .bne_addr(\"target\")"),
        (vec![ident("jmp"), group(vec![ident("vector")])], "    .jmp_ind(\"vector\")"),
        (
            vec![ident("lda"), group(vec![ident("ptr"), punct(','), ident("x")])],
            "    .lda_ind_x(\"ptr\")",
        ),
        (
            vec![ident("lda"), group(vec![ident("ptr")]), punct(','), ident("y")],
            "    .lda_ind_y(\"ptr\")",
        ),
        (vec![ident("lda"), group(vec![])], "    .lda_ind(\"\")"),
        (vec![ident("lda"), punct('*')], "    .lda"),
        (vec![ident("nop")], "    .nop()"),
        (vec![ident("include_basic_header")], "    .add_basic_header()"),
        (vec![ident("loop"), punct(':')], "    .label(\"loop\")"),
        (vec![ident("loop")], "    .label(\"loop\")"),
    ];
    for (tokens, expected) in cases {
        assert_eq!(vec![expected.to_string()], lines_of(tokens.clone_tokens()), "{expected}");
    }
}

trait CloneTokens {
    fn clone_tokens(&self) -> Vec<TokenTree>;
}

impl CloneTokens for Vec<TokenTree> {
    fn clone_tokens(&self) -> Vec<TokenTree> {
        self.iter()
            .map(|token| match token {
                TokenTree::Group(group) => TokenTree::Group(group.clone_tokens()),
                TokenTree::Ident(name) => TokenTree::Ident(name.clone()),
                TokenTree::Punct(punct) => TokenTree::Punct(*punct),
                TokenTree::Literal(text) => TokenTree::Literal(text.clone()),
            })
            .collect()
    }
}

#[test]
fn every_instruction_is_known() {
    let with_operand = [
        "asl", "lsr", "ror", "rol", "adc", "and", "cmp", "cpx", "cpy", "eor", "lda", "ldx", "ldy",
        "ora", "sbc", "bcc", "bcs", "beq", "bmi", "bne", "bpl", "bvc", "bvs", "jsr", "bit", "dec",
        "inc", "sta", "stx", "sty", "jmp",
    ];
    for name in with_operand {
        assert_eq!(
            vec![format!("    .{name}_addr(\"data\")")],
            lines_of(vec![ident(name), ident("data")])
        );
    }
    let implied = [
        "brk", "cld", "cli", "clv", "dex", "dey", "inx", "iny", "nop", "pha", "pla", "php", "plp",
        "rti", "sec", "sed", "sei", "tax", "tay", "tsx", "txa", "txs", "tya", "clc", "rts",
    ];
    for name in implied {
        assert_eq!(
            vec![format!("    .{name}()"), "    .label(\"data\")".to_string()],
            lines_of(vec![ident(name), ident("data")])
        );
    }
    assert_eq!(56, with_operand.len() + implied.len());
}

#[test]
fn instructions_follow_each_other() {
    let lines = lines_of(vec![
        ident("start"),
        punct(':'),
        ident("ldx"),
        punct('#'),
        literal("8"),
        ident("again"),
        punct(':'),
        ident("lda"),
        ident("table"),
        punct(','),
        ident("x"),
        ident("sta"),
        group(vec![ident("target")]),
        punct(','),
        ident("y"),
        ident("dex"),
        ident("bne"),
        ident("again"),
        ident("rts"),
    ]);
    assert_eq!(
        vec![
            "    .label(\"start\")",
            "    .ldx_imm(8)",
            "    .label(\"again\")",
            "    .lda_addr_x(\"table\")",
            "    .sta_ind_y(\"target\")",
            "    .dex()",
            "    .bne_addr(\"again\")",
            "    .rts()",
        ],
        lines
    );
}

#[test]
fn operands_that_an_instruction_does_not_take() {
    let cases = vec![
        vec![ident("asl"), punct('#'), literal("1")],
        vec![ident("asl"), group(vec![ident("ptr")])],
        vec![ident("lda"), ident("a")],
        vec![ident("sta"), punct('#'), literal("1")],
        vec![ident("sta"), ident("a")],
        vec![ident("bne"), punct('#'), literal("1")],
        vec![ident("bne"), ident("a")],
        vec![ident("bne"), group(vec![ident("ptr")])],
    ];
    for tokens in cases {
        assert_eq!(Err(ExpansionError::AddressModeNotAllowed), build_instructions(&tokens));
    }
}

#[test]
fn descriptions_that_end_too_early() {
    assert_eq!(Err(ExpansionError::MissingToken), build_instructions(&[ident("lda")]));
    assert_eq!(
        Err(ExpansionError::MissingToken),
        build_instructions(&[ident("rts"), ident("jmp")])
    );
    for word in ["name", "instructions"] {
        assert_eq!(Err(ExpansionError::MissingToken), build_function(&[ident(word)]));
    }
    for word in ["name", "instructions", "function"] {
        assert_eq!(Err(ExpansionError::MissingToken), build_module(&[ident(word)]));
    }
    for word in ["name", "entry_point", "module"] {
        assert_eq!(Err(ExpansionError::MissingToken), application(&[ident(word)]));
    }
    assert!(application(&[ident("name"), punct('=')]).is_ok());
    assert!(application(&[ident("module"), punct('!')]).is_ok());
}

#[test]
fn tokens_that_cannot_stand_where_they_stand() {
    assert_eq!(
        Err(ExpansionError::UnexpectedToken),
        build_instructions(&[ident("lda"), literal("12")])
    );
    assert_eq!(
        Err(ExpansionError::UnexpectedToken),
        build_instructions(&[ident("lda"), punct('#'), group(vec![])])
    );
}

#[test]
fn offsets_that_are_no_number() {
    for text in ["65536", "0x10", "", "+", "-1", "1_000", "8u16", "١"] {
        assert_eq!(
            Err(ExpansionError::InvalidOffset),
            build_instructions(&[ident("sta"), ident("data"), punct('+'), literal(text)]),
            "{text}"
        );
    }
}

#[test]
fn errors_come_out_of_the_groups() {
    let broken = || group(vec![ident("lda")]);
    assert_eq!(
        Err(ExpansionError::MissingToken),
        build_function(&[ident("instructions"), punct('!'), broken()])
    );
    assert_eq!(
        Err(ExpansionError::MissingToken),
        build_module(&[
            ident("function"),
            punct('!'),
            group(vec![ident("instructions"), punct('!'), broken()])
        ])
    );
    assert_eq!(
        Err(ExpansionError::MissingToken),
        application(&[
            ident("module"),
            punct('!'),
            group(vec![ident("instructions"), punct('!'), broken()])
        ])
    );
}

#[test]
fn what_is_no_value_is_passed_over() {
    assert_eq!(
        "  FunctionBuilder::default()\n    .build()",
        build_function(&[
            ident("name"),
            punct('='),
            ident("not_a_literal"),
            ident("instructions"),
            punct('!'),
            literal("\"not a group\""),
            punct('?'),
            ident("other"),
        ])
        .unwrap()
    );
}

#[test]
fn operand_and_number_of_its_tokens() {
    let everything = Allowed { immediate: true, accumulator: true, absolute: true, indirect: true };
    let operand = |tokens: Vec<TokenTree>, start: usize| {
        let mut line = String::from("lda");
        build_address_mode(&mut line, &tokens, start, everything).map(|count| (line, count))
    };
    assert_eq!(
        Ok(("lda_imm(0x00)".to_string(), 3)),
        operand(vec![punct('#'), punct('$'), literal("00")], 0)
    );
    assert_eq!(
        Ok(("lda_imm(7)".to_string(), 4)),
        operand(
            vec![
                ident("skipped"), punct('#'), punct('+'), punct('-'), literal("7"), ident("rts"),
            ],
            1,
        )
    );
    assert_eq!(Ok(("lda_acc()".to_string(), 1)), operand(vec![ident("a"), ident("rts")], 0));
    assert_eq!(
        Ok(("lda_addr_offs(\"data\", 300)".to_string(), 3)),
        operand(vec![ident("data"), punct('+'), literal("300")], 0)
    );
    assert_eq!(
        Ok(("lda_addr_x(\"data\")".to_string(), 3)),
        operand(vec![ident("data"), punct(','), ident("x")], 0)
    );
    assert_eq!(
        Ok(("lda_addr(\"data\")".to_string(), 1)),
        operand(vec![ident("data"), punct(':')], 0)
    );
    assert_eq!(
        Ok(("lda_ind_y(\"ptr\")".to_string(), 3)),
        operand(vec![group(vec![ident("ptr")]), punct(','), ident("y")], 0)
    );
    assert_eq!(
        Ok(("lda_ind_x(\"ptr\")".to_string(), 1)),
        operand(
            vec![
                group(vec![ident("first"), ident("ptr"), punct(','), ident("x")]), punct(','),
            ],
            0,
        )
    );
    assert_eq!(Ok(("lda".to_string(), 0)), operand(vec![punct('=')], 0));
    assert_eq!(Err(ExpansionError::MissingToken), operand(vec![ident("data")], 1));
    assert_eq!(Err(ExpansionError::MissingToken), operand(vec![], 7));
}
