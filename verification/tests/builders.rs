use c64_assembler::builder::{
    ApplicationBuilder, FunctionBuilder, InstructionBuilder, ModuleBuilder,
};
use c64_assembler::instruction::operation::Operation;
use c64_assembler::instruction::Instruction;
use c64_assembler::memory::address_mode::{AddressMode, Immediate};
use c64_assembler::memory::define::{Define, Value};
use c64_assembler::memory::label::AddressReference;
use c64_assembler::memory::user_count::UserCount;
use c64_assembler::{Function, Module};

fn define_of(name: &str, value: Value) -> Define {
    Define { name: name.to_string(), value, user_count: 0 }
}

#[test]
fn application_builder_defaults() {
    let application = ApplicationBuilder::default().finalize();
    assert_eq!("", application.name);
    assert_eq!(0x0800, application.entry_point);
    assert!(application.modules.is_empty());
    assert!(application.defines.is_empty());
    assert_eq!(0, application.address_lookup.len());
}

#[test]
fn application_builder_sets_what_it_is_given() {
    let mut builder = ApplicationBuilder::default();
    builder
        .name("first")
        .name("My application")
        .entry_point(0x1000)
        .entry_point(0xC000)
        .define_address("VIC_BORDER_COLOR", 0xD020)
        .define_address("ZEROPAGE_FE", 0xFE)
        .module(ModuleBuilder::default().name("one").finalize())
        .module(ModuleBuilder::default().name("two").finalize());
    let application = builder.finalize();
    assert_eq!("My application", application.name);
    assert_eq!(0xC000, application.entry_point);
    assert_eq!(
        vec!["one", "two"],
        application.modules.iter().map(|module| module.name.as_str()).collect::<Vec<_>>()
    );
    assert_eq!(
        vec![
            define_of("VIC_BORDER_COLOR", Value::Address(0xD020)),
            define_of("ZEROPAGE_FE", Value::Zeropage(0xFE)),
        ],
        application.defines
    );
    assert_eq!(2, application.address_lookup.len());
    assert_eq!(0xD020, application.lookup_address(&"VIC_BORDER_COLOR".to_string()).unwrap());
    assert_eq!(0x00FE, application.lookup_address(&"ZEROPAGE_FE".to_string()).unwrap());

    let again = builder.clone().finalize();
    assert_eq!(application.defines, again.defines);
    assert_eq!(2, again.modules.len());
}

#[test]
fn vic20_defines() {
    let application = ApplicationBuilder::default().include_vic20_defines().finalize();
    assert_eq!(49, application.defines.len());
    assert_eq!(49, application.address_lookup.len());
    assert_eq!(define_of("VIC20_BASE", Value::Address(0xD000)), application.defines[0]);
    assert_eq!(define_of("VIC20_SPRITE_7_COLOR", Value::Address(0xD02E)), application.defines[48]);
    let expected = [
        ("VIC20_BASE", 0xD000),
        ("VIC20_SPRITE_0_X", 0xD000),
        ("VIC20_SPRITE_7_Y", 0xD00F),
        ("VIC20_SPRITE_X_MSB", 0xD010),
        ("VIC20_CONTROL_1", 0xD011),
        ("VIC20_RASTER", 0xD012),
        ("VIC20_SPRITE_ENABLE", 0xD015),
        ("VIC20_MEMORY_SETUP", 0xD018),
        ("VIC20_IRQ_STATUS", 0xD019),
        ("VIC20_BORDER_COLOR", 0xD020),
        ("VIC20_BACKGROUND_COLOR", 0xD021),
        ("VIC20_BACKGROUND_COLOR_0", 0xD021),
        ("VIC20_BACKGROUND_COLOR_3", 0xD024),
        ("VIC20_SPRITE_MULTICOLOR_1", 0xD026),
        ("VIC20_SPRITE_0_COLOR", 0xD027),
        ("VIC20_SPRITE_7_COLOR", 0xD02E),
    ];
    for (name, address) in expected {
        assert_eq!(address, application.lookup_address(&name.to_string()).unwrap(), "{name}");
    }
    for (index, define) in application.defines[1..17].iter().enumerate() {
        assert_eq!(Value::Address(0xD000 + index as u16), define.value);
    }
}

#[test]
fn sid_defines() {
    let application = ApplicationBuilder::default().include_sid_defines().finalize();
    assert_eq!(30, application.defines.len());
    assert_eq!(30, application.address_lookup.len());
    assert_eq!(define_of("SID_BASE", Value::Address(0xD400)), application.defines[0]);
    for (index, define) in application.defines[1..].iter().enumerate() {
        assert_eq!(Value::Address(0xD400 + index as u16), define.value, "{}", define.name);
    }
    let expected = [
        ("SID_VOICE_1_FREQ_LO", 0xD400),
        ("SID_VOICE_1_CTRL", 0xD404),
        ("SID_VOICE_2_FREQ_LO", 0xD407),
        ("SID_VOICE_3_SR", 0xD414),
        ("SID_FILTER_CUTOFF_LO", 0xD415),
        ("SID_VOLUME_FC", 0xD418),
        ("SID_OSC3_RANDOM", 0xD41B),
        ("SID_ENV3", 0xD41C),
    ];
    for (name, address) in expected {
        assert_eq!(address, application.lookup_address(&name.to_string()).unwrap(), "{name}");
    }
}

#[test]
fn defines_of_both_chips() {
    let application =
        ApplicationBuilder::default().include_sid_defines().include_vic20_defines().finalize();
    assert_eq!(79, application.defines.len());
    assert_eq!("SID_BASE", application.defines[0].name);
    assert_eq!("VIC20_BASE", application.defines[30].name);
}

#[test]
fn module_builder() {
    let empty = ModuleBuilder::default().finalize();
    assert_eq!("", empty.name);
    assert!(empty.instructions.instructions.is_empty());
    assert!(empty.functions.is_empty());

    let mut builder = ModuleBuilder::default();
    builder
        .name("main")
        .instructions(InstructionBuilder::default().nop().finalize())
        .instructions(InstructionBuilder::default().rts().rti().finalize())
        .function(FunctionBuilder::default().name("first").build())
        .function(FunctionBuilder::default().name("second").build());
    let module = builder.finalize();
    assert_eq!("main", module.name);
    assert_eq!(
        vec![Operation::RTS, Operation::RTI],
        module.instructions.instructions.iter().map(|i| i.operation.clone()).collect::<Vec<_>>()
    );
    assert_eq!(
        vec!["first", "second"],
        module.functions.iter().map(|function| function.name.as_str()).collect::<Vec<_>>()
    );
    assert_eq!("main", builder.clone().finalize().name);
    assert_eq!("", Module::default().name);
}

#[test]
fn function_builder() {
    let empty = FunctionBuilder::default().build();
    assert_eq!("", empty.name);
    assert!(empty.documentation.is_empty());
    assert!(empty.instructions.instructions.is_empty());
    assert_eq!(0, empty.user_count());

    let mut builder = FunctionBuilder::default();
    builder
        .name("clear_screen")
        .doc(&["Clears the screen.", "Uses the accumulator."])
        .doc(&[])
        .doc(&["Returns nothing."])
        .instructions(InstructionBuilder::default().lda_imm(0x20).rts().finalize());
    let function = builder.build();
    assert_eq!("clear_screen", function.name);
    assert_eq!(
        vec!["Clears the screen.", "Uses the accumulator.", "Returns nothing."],
        function.documentation
    );
    assert_eq!(2, function.instructions.instructions.len());
    assert_eq!(3, builder.clone().build().documentation.len());
}

#[test]
fn user_count_of_function_and_define() {
    let mut function = Function::default();
    assert!(function.user_empty());
    function.user_increase();
    function.user_increase();
    assert_eq!(2, function.user_count());
    assert!(!function.user_empty());
    function.user_count = usize::MAX;
    function.user_increase();
    assert_eq!(usize::MAX, function.user_count());

    let mut define = Define::new("BORDER", Value::Address(0xD020));
    assert_eq!(define_of("BORDER", Value::Address(0xD020)), define);
    assert!(define.user_empty());
    define.user_increase();
    assert_eq!(1, define.user_count());
    assert!(!define.user_empty());
    assert_eq!(0xD020, define.value.address());
    assert_eq!(0x00FE, Value::Zeropage(0xFE).address());
}

fn instruction(operation: Operation, address_mode: AddressMode) -> Instruction {
    Instruction { operation, address_mode, comments: vec![] }
}

#[test]
fn instruction_builder_adds_instructions_in_order() {
    let reference = |name: &str| AddressReference::new(name);
    let instructions = InstructionBuilder::default()
        .label("start")
        .lda_imm(0x12)
        .lda_imm_low("data")
        .lda_imm_high("data")
        .asl_acc()
        .sta_addr("data")
        .sta_addr_offs("data", 3)
        .sta_addr_x("data")
        .sta_addr_y("data")
        .bne_addr("start")
        .bne_addr_offs("start", 2)
        .jmp_ind("data")
        .cmp_ind_x("data")
        .cmp_ind_y("data")
        .and_imm(1)
        .brk()
        .raw(&[9, 8, 7])
        .finalize();
    let expected = vec![
        instruction(Operation::Label("start".to_string()), AddressMode::Implied),
        instruction(Operation::LDA, AddressMode::Immediate(Immediate::Byte(0x12))),
        instruction(Operation::LDA, AddressMode::Immediate(Immediate::Low(reference("data")))),
        instruction(Operation::LDA, AddressMode::Immediate(Immediate::High(reference("data")))),
        instruction(Operation::ASL, AddressMode::Accumulator),
        instruction(Operation::STA, AddressMode::Absolute(reference("data"))),
        instruction(
            Operation::STA,
            AddressMode::Absolute(AddressReference::with_offset("data", 3)),
        ),
        instruction(Operation::STA, AddressMode::AbsoluteX(reference("data"))),
        instruction(Operation::STA, AddressMode::AbsoluteY(reference("data"))),
        instruction(Operation::BNE, AddressMode::Relative(reference("start"))),
        instruction(
            Operation::BNE,
            AddressMode::Relative(AddressReference::with_offset("start", 2)),
        ),
        instruction(Operation::JMP, AddressMode::Indirect(reference("data"))),
        instruction(Operation::CMP, AddressMode::IndexedIndirect(reference("data"))),
        instruction(Operation::CMP, AddressMode::IndirectIndexed(reference("data"))),
        instruction(Operation::AND, AddressMode::Immediate(Immediate::Byte(1))),
        instruction(Operation::BRK, AddressMode::Implied),
        instruction(Operation::Raw(vec![9, 8, 7]), AddressMode::Implied),
    ];
    assert_eq!(expected, instructions.instructions);
}

#[test]
fn comment_goes_to_the_last_instruction() {
    let mut builder = InstructionBuilder::default();
    builder.comment("lost");
    assert!(builder.finalize().instructions.is_empty());
    builder.nop().comment("first").comment("second").rts().nop().comment("third");
    let instructions = builder.clone().finalize().instructions;
    assert_eq!(vec!["first", "second"], instructions[0].comments);
    assert!(instructions[1].comments.is_empty());
    assert_eq!(vec!["third"], instructions[2].comments);
}

#[test]
fn basic_header() {
    let instructions =
        InstructionBuilder::default().nop().add_basic_header().finalize().instructions;
    assert_eq!(4, instructions.len());
    assert_eq!(Operation::Raw(vec![0x00, 0x0C, 0x08]), instructions[1].operation);
    assert_eq!(vec!["New basic line"], instructions[1].comments);
    assert_eq!(
        Operation::Raw(vec![0x0A, 0x00, 0x9E, 0x20, 0x32, 0x30, 0x36, 0x32]),
        instructions[2].operation
    );
    assert_eq!(vec!["10 SYS 2062"], instructions[2].comments);
    assert_eq!(Operation::Raw(vec![0x00, 0x00, 0x00]), instructions[3].operation);
    assert_eq!(vec!["End basic program"], instructions[3].comments);
    for instruction in &instructions[1..] {
        assert_eq!(AddressMode::Implied, instruction.address_mode);
    }
}

#[test]
fn basic_header_starts_the_code_behind_it() {
    let application = ApplicationBuilder::default()
        .module(
            ModuleBuilder::default()
                .instructions(
                    InstructionBuilder::default().add_basic_header().label("code").finalize(),
                )
                .finalize(),
        )
        .finalize();
    assert_eq!(2062, application.lookup_address(&"code".to_string()).unwrap());
}

#[test]
fn defaults_of_the_data_types() {
    assert_eq!(instruction(Operation::NOP, AddressMode::Implied), Instruction::default());
    assert_eq!(Operation::NOP, Operation::default());
    assert_eq!(AddressMode::Implied, AddressMode::default());
    let reference = AddressReference::with_offset("name", 7);
    assert_eq!(reference, reference.clone());
    assert_eq!("name", reference.name);
    assert_eq!(7, reference.offset);
    assert_eq!(0, AddressReference::new("name").offset);
}

#[test]
fn define_mut_finds_the_first_define_of_a_name() {
    let mut application = ApplicationBuilder::default()
        .define_address("OTHER", 0x1000)
        .define_address("BORDER", 0xD020)
        .define_address("BORDER", 0xD021)
        .finalize();
    let name = "BORDER".to_string();
    assert_eq!(Value::Address(0xD020), application.define_mut(&name).value);
    application.define_mut(&name).user_increase();
    application.define_mut(&name).user_increase();
    application.define_mut(&"OTHER".to_string()).value = Value::Address(0x2000);
    assert_eq!(
        vec![
            Define { name: "OTHER".to_string(), value: Value::Address(0x2000), user_count: 0 },
            Define { name: "BORDER".to_string(), value: Value::Address(0xD020), user_count: 2 },
            Define { name: "BORDER".to_string(), value: Value::Address(0xD021), user_count: 0 },
        ],
        application.defines
    );
    assert_eq!(0xD021, application.lookup_address(&name).unwrap());
}
