use c64_assembler::builder::{ApplicationBuilder, InstructionBuilder, ModuleBuilder};
use c64_assembler::generator::{Generator, ProgramGenerator};
use c64_assembler::instruction::operation::Operation;
use c64_assembler::isa::InstructionDef;
use c64_assembler::memory::address_mode::{AddressMode, Immediate};
use c64_assembler::memory::label::AddressReference;
use c64_assembler::validator::Error;
use c64_assembler::{Application, Instructions};

fn application_of(builder: &mut ApplicationBuilder, instructions: Instructions) -> Application {
    builder.module(ModuleBuilder::default().name("main").instructions(instructions).finalize());
    builder.finalize()
}

fn program_of(builder: &mut ApplicationBuilder, instructions: Instructions) -> Vec<u8> {
    ProgramGenerator::default().generate(application_of(builder, instructions)).unwrap()
}

fn error_of(builder: &mut ApplicationBuilder, instructions: Instructions) -> Error {
    ProgramGenerator::default().generate(application_of(builder, instructions)).unwrap_err()
}

#[test]
fn load_store_return() {
    let program = program_of(
        ApplicationBuilder::default().define_address("DEVICE_REGISTER", 0xD020),
        InstructionBuilder::default().lda_imm(0x00).sta_addr("DEVICE_REGISTER").rts().finalize(),
    );
    assert_eq!(vec![0x00, 0x08, 0xA9, 0x00, 0x8D, 0x20, 0xD0, 0x60], program);
}

#[test]
fn program_starts_with_entry_point() {
    for entry_point in [0x0000u16, 0x0001, 0x00FF, 0x0100, 0x0800, 0x1234, 0xC000, 0xFFFF] {
        let program = program_of(
            ApplicationBuilder::default().entry_point(entry_point),
            InstructionBuilder::default().nop().finalize(),
        );
        assert_eq!(entry_point, u16::from_le_bytes([program[0], program[1]]));
        assert_eq!(vec![0xEA], program[2..]);
    }
}

#[test]
fn empty_application_is_its_entry_point() {
    let program =
        ProgramGenerator::default().generate(ApplicationBuilder::default().finalize()).unwrap();
    assert_eq!(vec![0x00, 0x08], program);
}

#[test]
fn define_is_the_operand_wherever_it_is_declared() {
    let instructions = || {
        InstructionBuilder::default()
            .lda_addr("SCREEN")
            .lda_addr_offs("SCREEN", 0x28)
            .lda_imm_low("SCREEN")
            .lda_imm_high("SCREEN")
            .jmp_ind("SCREEN")
            .finalize()
    };
    let expected = vec![
        0x00, 0x08, 0xAD, 0x00, 0x04, 0xAD, 0x28, 0x04, 0xA9, 0x00, 0xA9, 0x04, 0x6C, 0x00, 0x04,
    ];
    let declared_first =
        program_of(ApplicationBuilder::default().define_address("SCREEN", 0x0400), instructions());
    assert_eq!(expected, declared_first);

    let mut builder = ApplicationBuilder::default();
    builder
        .module(ModuleBuilder::default().instructions(instructions()).finalize())
        .define_address("SCREEN", 0x0400);
    let declared_last = ProgramGenerator::default().generate(builder.finalize()).unwrap();
    assert_eq!(expected, declared_last);
}

#[test]
fn later_define_of_a_name_counts() {
    let program = program_of(
        ApplicationBuilder::default().define_address("DATA", 0x1000).define_address("DATA", 0x2000),
        InstructionBuilder::default().lda_addr("DATA").finalize(),
    );
    assert_eq!(vec![0x00, 0x08, 0xAD, 0x00, 0x20], program);
}

#[test]
fn label_counts_over_a_define_of_its_name() {
    let program = program_of(
        ApplicationBuilder::default().define_address("data", 0x1000),
        InstructionBuilder::default().nop().label("data").jmp_addr("data").finalize(),
    );
    assert_eq!(vec![0x00, 0x08, 0xEA, 0x4C, 0x01, 0x08], program);
}

#[test]
fn zeropage_form_where_address_and_instruction_allow_it() {
    let mut builder = ApplicationBuilder::default();
    builder.define_address("ZP", 0x00FF).define_address("NEXT", 0x0100);
    let program = program_of(
        &mut builder,
        InstructionBuilder::default()
            .lda_addr("ZP")
            .lda_addr("NEXT")
            .lda_addr_x("ZP")
            .lda_addr_x("NEXT")
            .ldx_addr_y("ZP")
            .ldx_addr_y("NEXT")
            .finalize(),
    );
    assert_eq!(
        vec![
            0x00, 0x08, 0xA5, 0xFF, 0xAD, 0x00, 0x01, 0xB5, 0xFF, 0xBD, 0x00, 0x01, 0xB6, 0xFF,
            0xBE, 0x00, 0x01,
        ],
        program
    );
}

#[test]
fn absolute_form_where_the_instruction_has_no_zeropage_form() {
    let program = program_of(
        ApplicationBuilder::default().define_address("ZP", 0x00FE),
        InstructionBuilder::default().jmp_addr("ZP").lda_addr_y("ZP").jsr_addr("ZP").finalize(),
    );
    assert_eq!(vec![0x00, 0x08, 0x4C, 0xFE, 0x00, 0xB9, 0xFE, 0x00, 0x20, 0xFE, 0x00], program);
}

#[test]
fn offset_decides_on_the_zeropage_form() {
    let program = program_of(
        ApplicationBuilder::default().define_address("ZP", 0x00F8),
        InstructionBuilder::default().lda_addr_offs("ZP", 7).lda_addr_offs("ZP", 8).finalize(),
    );
    assert_eq!(vec![0x00, 0x08, 0xA5, 0xFF, 0xAD, 0x00, 0x01], program);
}

#[test]
fn address_wraps_around_with_offset() {
    let program = program_of(
        ApplicationBuilder::default().define_address("TOP", 0xFFFF),
        InstructionBuilder::default().lda_addr_offs("TOP", 2).finalize(),
    );
    assert_eq!(vec![0x00, 0x08, 0xA5, 0x01], program);
}

#[test]
fn indirect_modes_take_the_low_byte() {
    let mut builder = ApplicationBuilder::default();
    builder.define_address("POINTER", 0x00FB).define_address("FAR", 0x12FB);
    let program = program_of(
        &mut builder,
        InstructionBuilder::default()
            .lda_ind_x("POINTER")
            .sta_ind_y("POINTER")
            .lda_ind_x("FAR")
            .finalize(),
    );
    assert_eq!(vec![0x00, 0x08, 0xA1, 0xFB, 0x91, 0xFB, 0xA1, 0xFB], program);
}

#[test]
fn accumulator_and_raw_bytes() {
    let program = program_of(
        &mut ApplicationBuilder::default(),
        InstructionBuilder::default().asl_acc().raw(&[1, 2, 3]).ror_acc().raw(&[]).finalize(),
    );
    assert_eq!(vec![0x00, 0x08, 0x0A, 1, 2, 3, 0x6A], program);
}

#[test]
fn branch_to_the_label_behind_it_has_distance_zero() {
    let program = program_of(
        &mut ApplicationBuilder::default(),
        InstructionBuilder::default().beq_addr("next").label("next").rts().finalize(),
    );
    assert_eq!(vec![0x00, 0x08, 0xF0, 0x00, 0x60], program);
}

#[test]
fn branch_backwards() {
    let program = program_of(
        &mut ApplicationBuilder::default(),
        InstructionBuilder::default().label("again").dex().bne_addr("again").rts().finalize(),
    );
    assert_eq!(vec![0x00, 0x08, 0xCA, 0xD0, 0xFD, 0x60], program);
}

#[test]
fn branch_to_itself() {
    let program = program_of(
        &mut ApplicationBuilder::default(),
        InstructionBuilder::default().label("here").bcc_addr("here").finalize(),
    );
    assert_eq!(vec![0x00, 0x08, 0x90, 0xFE], program);
}

#[test]
fn branch_with_offset() {
    let program = program_of(
        &mut ApplicationBuilder::default(),
        InstructionBuilder::default().bne_addr_offs("next", 3).label("next").finalize(),
    );
    assert_eq!(vec![0x00, 0x08, 0xD0, 0x03], program);
}

fn branch_over(length: usize) -> Instructions {
    InstructionBuilder::default()
        .bne_addr("target")
        .raw(&vec![0xEA; length])
        .label("target")
        .finalize()
}

fn branch_back_over(length: usize) -> Instructions {
    InstructionBuilder::default()
        .label("target")
        .raw(&vec![0xEA; length])
        .bne_addr("target")
        .finalize()
}

#[test]
fn branch_reaches_127_bytes_forward() {
    let program = program_of(&mut ApplicationBuilder::default(), branch_over(127));
    assert_eq!([0xD0, 0x7F], program[2..4]);
    assert_eq!(2 + 2 + 127, program.len());
}

#[test]
fn branch_does_not_reach_128_bytes_forward() {
    match error_of(&mut ApplicationBuilder::default(), branch_over(128)) {
        Error::BranchOutOfRange(name) => assert_eq!("target", name),
        error => panic!("{error:?}"),
    }
}

#[test]
fn branch_reaches_128_bytes_backward() {
    let program = program_of(&mut ApplicationBuilder::default(), branch_back_over(126));
    assert_eq!([0xD0, 0x80], program[2 + 126..]);
}

#[test]
fn branch_does_not_reach_129_bytes_backward() {
    match error_of(&mut ApplicationBuilder::default(), branch_back_over(127)) {
        Error::BranchOutOfRange(name) => assert_eq!("target", name),
        error => panic!("{error:?}"),
    }
}

#[test]
fn unknown_name_is_an_error_of_the_generator() {
    let instructions = [
        InstructionBuilder::default().lda_addr("missing").finalize(),
        InstructionBuilder::default().lda_addr_x("missing").finalize(),
        InstructionBuilder::default().lda_addr_y("missing").finalize(),
        InstructionBuilder::default().lda_imm_low("missing").finalize(),
        InstructionBuilder::default().lda_imm_high("missing").finalize(),
        InstructionBuilder::default().bne_addr("missing").finalize(),
        InstructionBuilder::default().jmp_ind("missing").finalize(),
        InstructionBuilder::default().lda_ind_x("missing").finalize(),
        InstructionBuilder::default().lda_ind_y("missing").finalize(),
    ];
    for instructions in instructions {
        match error_of(&mut ApplicationBuilder::default(), instructions) {
            Error::AddressNameUnknown(name) => assert_eq!("missing", name),
            error => panic!("{error:?}"),
        }
    }
}

#[test]
fn instruction_without_the_address_mode_is_an_internal_error() {
    let mut builder = InstructionBuilder::default();
    builder.add_instruction(Operation::RTS, AddressMode::Absolute(AddressReference::new("there")));
    builder.label("there");
    let error = error_of(&mut ApplicationBuilder::default(), builder.finalize());
    assert!(matches!(error, Error::InternalCompilerError));

    let mut builder = InstructionBuilder::default();
    builder.add_instruction(Operation::LDA, AddressMode::Implied);
    let error = error_of(&mut ApplicationBuilder::default(), builder.finalize());
    assert!(matches!(error, Error::InternalCompilerError));

    let mut builder = InstructionBuilder::default();
    builder.add_instruction(Operation::STA, AddressMode::Immediate(Immediate::Byte(1)));
    let error = error_of(&mut ApplicationBuilder::default(), builder.finalize());
    assert!(matches!(error, Error::InternalCompilerError));
}

#[test]
fn first_error_ends_the_program() {
    let mut builder = InstructionBuilder::default();
    builder.lda_addr("first_missing");
    builder.add_instruction(Operation::RTS, AddressMode::Accumulator);
    builder.lda_addr("second_missing");
    match error_of(&mut ApplicationBuilder::default(), builder.finalize()) {
        Error::AddressNameUnknown(name) => assert_eq!("first_missing", name),
        error => panic!("{error:?}"),
    }
}

fn definition(zeropage: u8, absolute: u8, relative: u8) -> InstructionDef {
    InstructionDef {
        instruction: "tst",
        implied: 0x01,
        immediate: 0x02,
        accumulator: 0x03,
        absolute,
        absolute_x: 0x05,
        absolute_y: 0x06,
        zeropage,
        zeropage_x: 0x08,
        zeropage_y: 0xFF,
        relative,
        indirect: 0x0B,
        indexed_indirect: 0x0C,
        indirect_indexed: 0x0D,
    }
}

#[test]
fn add_byte_code_of_a_given_definition() {
    let mut builder = ApplicationBuilder::default();
    builder.define_address("ZP", 0x0034).define_address("FAR", 0x1234);
    let application = application_of(
        &mut builder,
        InstructionBuilder::default().label("start").finalize(),
    );
    let absolute = |name| AddressMode::Absolute(AddressReference::new(name));
    let encode = |definition: InstructionDef, mode: AddressMode| {
        let mut generator = ProgramGenerator::default();
        generator
            .add_byte_code(&application, &mode, &definition)
            .map(|_| generator.output().clone())
    };
    assert_eq!(vec![0x07, 0x34], encode(definition(0x07, 0x04, 0x0A), absolute("ZP")).unwrap());
    assert_eq!(
        vec![0x04, 0x34, 0x00],
        encode(definition(0xFF, 0x04, 0x0A), absolute("ZP")).unwrap()
    );
    assert_eq!(
        vec![0x04, 0x34, 0x12],
        encode(definition(0x07, 0x04, 0x0A), absolute("FAR")).unwrap()
    );
    assert!(matches!(
        encode(definition(0x07, 0xFF, 0x0A), absolute("FAR")),
        Err(Error::InternalCompilerError)
    ));
    assert_eq!(
        vec![0x07, 0x34],
        encode(definition(0x07, 0xFF, 0x0A), absolute("ZP")).unwrap()
    );
    assert_eq!(
        vec![0x06, 0x34, 0x00],
        encode(
            definition(0x07, 0x04, 0x0A),
            AddressMode::AbsoluteY(AddressReference::new("ZP"))
        )
        .unwrap()
    );
    assert_eq!(vec![0x01], encode(definition(0x07, 0x04, 0x0A), AddressMode::Implied).unwrap());
    assert!(matches!(
        encode(definition(0x07, 0x04, 0xFF), AddressMode::Relative(AddressReference::new("start"))),
        Err(Error::InternalCompilerError)
    ));
}

#[test]
fn add_byte_code_takes_the_branch_from_where_the_output_ends() {
    let application = application_of(
        &mut ApplicationBuilder::default(),
        InstructionBuilder::default().label("start").finalize(),
    );
    let mut generator = ProgramGenerator::default();
    let branch = AddressMode::Relative(AddressReference::new("start"));
    let implied = AddressMode::Implied;
    for _ in 0..2 {
        generator.add_byte_code(&application, &implied, &definition(0x07, 0x04, 0x0A)).unwrap();
    }
    generator.add_byte_code(&application, &branch, &definition(0x07, 0x04, 0x0A)).unwrap();
    assert_eq!(&vec![0x01, 0x01, 0x0A, 0xFE], generator.output());
    generator.add_byte_code(&application, &branch, &definition(0x07, 0x04, 0x0A)).unwrap();
    assert_eq!(&vec![0x01, 0x01, 0x0A, 0xFE, 0x0A, 0xFC], generator.output());
}
