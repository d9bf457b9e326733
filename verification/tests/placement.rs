use c64_assembler::builder::{
    ApplicationBuilder, FunctionBuilder, InstructionBuilder, ModuleBuilder,
};
use c64_assembler::generator::placement::{labels_mark_their_bytes, size_in_program};
use c64_assembler::generator::{Generator, ProgramGenerator};
use c64_assembler::instruction::operation::Operation;
use c64_assembler::instruction::Instruction;
use c64_assembler::memory::address_mode::{AddressMode, Immediate};
use c64_assembler::memory::label::AddressReference;
use c64_assembler::validator::{validate_relative_addressing, Error, Validator};
use c64_assembler::{Application, Instructions};

fn application_of(builder: &mut ApplicationBuilder, instructions: Instructions) -> Application {
    builder.module(ModuleBuilder::default().instructions(instructions).finalize());
    builder.finalize()
}

#[test]
fn labels_of_a_usual_program_mark_their_bytes() {
    let application = ApplicationBuilder::default()
        .define_address("ZP", 0x00FB)
        .define_address("BORDER", 0xD020)
        .module(
            ModuleBuilder::default()
                .instructions(
                    InstructionBuilder::default()
                        .add_basic_header()
                        .label("start")
                        .lda_addr("ZP")
                        .sta_addr("BORDER")
                        .ldx_addr_y("ZP")
                        .label("again")
                        .dex()
                        .bne_addr("again")
                        .jmp_addr("end")
                        .finalize(),
                )
                .function(
                    FunctionBuilder::default()
                        .instructions(
                            InstructionBuilder::default()
                                .raw(&[1, 2, 3])
                                .label("end")
                                .jmp_addr("start")
                                .finalize(),
                        )
                        .build(),
                )
                .finalize(),
        )
        .finalize();
    assert!(labels_mark_their_bytes(&application));
    let end = application.lookup_address(&"end".to_string()).unwrap();
    let program = ProgramGenerator::default().generate(application).unwrap();
    assert_eq!(0x4C, program[2 + (end - 0x0800) as usize]);
    assert_eq!([0x4C, 0x0E, 0x08], program[program.len() - 3..]);
}

#[test]
fn application_without_labels() {
    assert!(labels_mark_their_bytes(&ApplicationBuilder::default().finalize()));
    let application = application_of(
        ApplicationBuilder::default().define_address("ZP", 0x10),
        InstructionBuilder::default().jmp_addr("ZP").finalize(),
    );
    assert!(labels_mark_their_bytes(&application));
}

#[test]
fn label_behind_an_instruction_without_zeropage_form() {
    let application = application_of(
        ApplicationBuilder::default().define_address("ZP", 0x10),
        InstructionBuilder::default()
            .label("before")
            .jmp_addr("ZP")
            .label("behind")
            .rts()
            .finalize(),
    );
    assert_eq!(0x0802, application.lookup_address(&"behind".to_string()).unwrap());
    assert!(!labels_mark_their_bytes(&application));
    let program = ProgramGenerator::default().generate(application).unwrap();
    assert_eq!(vec![0x00, 0x08, 0x4C, 0x10, 0x00, 0x60], program);
}

#[test]
fn label_in_the_zero_page_that_is_declared_further_on() {
    let application = application_of(
        ApplicationBuilder::default().entry_point(0x0010),
        InstructionBuilder::default().lda_addr("ahead").label("ahead").rts().finalize(),
    );
    assert_eq!(0x0013, application.lookup_address(&"ahead".to_string()).unwrap());
    assert!(!labels_mark_their_bytes(&application));
    let program = ProgramGenerator::default().generate(application).unwrap();
    assert_eq!(vec![0x10, 0x00, 0xA5, 0x13, 0x60], program);
}

#[test]
fn label_that_the_lookup_does_not_hold() {
    let mut application = ApplicationBuilder::default().finalize();
    application.modules.push(
        ModuleBuilder::default()
            .instructions(InstructionBuilder::default().label("late").finalize())
            .finalize(),
    );
    assert!(!labels_mark_their_bytes(&application));
}

#[test]
fn two_labels_of_one_name_at_one_address() {
    let same_address = application_of(
        &mut ApplicationBuilder::default(),
        InstructionBuilder::default().nop().label("twice").label("twice").finalize(),
    );
    assert!(labels_mark_their_bytes(&same_address));
    let other_address = application_of(
        &mut ApplicationBuilder::default(),
        InstructionBuilder::default().label("twice").nop().label("twice").finalize(),
    );
    assert!(!labels_mark_their_bytes(&other_address));
}

#[test]
fn size_of_instructions_in_the_program() {
    let application = ApplicationBuilder::default()
        .define_address("ZP", 0x00FF)
        .define_address("FAR", 0x0100)
        .finalize();
    let reference = |name| AddressReference::new(name);
    let instruction =
        |operation, address_mode| Instruction { operation, address_mode, comments: vec![] };
    let sizes = vec![
        (Operation::RTS, AddressMode::Implied, 1),
        (Operation::ASL, AddressMode::Accumulator, 1),
        (Operation::LDA, AddressMode::Immediate(Immediate::Byte(1)), 2),
        (Operation::LDA, AddressMode::Immediate(Immediate::Low(reference("FAR"))), 2),
        (Operation::LDA, AddressMode::Absolute(reference("ZP")), 2),
        (Operation::LDA, AddressMode::Absolute(reference("FAR")), 3),
        (Operation::LDA, AddressMode::Absolute(reference("missing")), 3),
        (Operation::LDA, AddressMode::Absolute(AddressReference::with_offset("ZP", 1)), 3),
        (Operation::JMP, AddressMode::Absolute(reference("ZP")), 3),
        (Operation::LDA, AddressMode::AbsoluteX(reference("ZP")), 2),
        (Operation::LDX, AddressMode::AbsoluteX(reference("ZP")), 3),
        (Operation::LDA, AddressMode::AbsoluteY(reference("ZP")), 3),
        (Operation::LDX, AddressMode::AbsoluteY(reference("ZP")), 2),
        (Operation::LDX, AddressMode::AbsoluteY(reference("FAR")), 3),
        (Operation::BNE, AddressMode::Relative(reference("FAR")), 2),
        (Operation::JMP, AddressMode::Indirect(reference("ZP")), 3),
        (Operation::LDA, AddressMode::IndexedIndirect(reference("ZP")), 2),
        (Operation::LDA, AddressMode::IndirectIndexed(reference("ZP")), 2),
        (Operation::Label("l".to_string()), AddressMode::Absolute(reference("FAR")), 0),
        (Operation::Raw(vec![7; 5]), AddressMode::Absolute(reference("FAR")), 5),
        (Operation::Raw(vec![7; 0x1_0003]), AddressMode::Implied, 3),
    ];
    for (operation, address_mode, size) in sizes {
        let instruction = instruction(operation, address_mode);
        assert_eq!(size, size_in_program(&application, &instruction), "{instruction:?}");
    }
}

#[test]
fn branches_are_checked_where_they_stand_in_the_program() {
    // The jump takes three bytes in the program: the branch stands one byte
    // further from its target than the sizes of the layout say.
    let reaches = |filler: usize| {
        let application = application_of(
            ApplicationBuilder::default().define_address("ZP", 0x10),
            InstructionBuilder::default()
                .label("target")
                .jmp_addr("ZP")
                .raw(&vec![0xEA; filler])
                .bne_addr("target")
                .finalize(),
        );
        let checked = validate_relative_addressing(&application);
        let generated = ProgramGenerator::default().generate(application);
        match (&checked, &generated) {
            (Ok(()), Ok(_)) => true,
            (Err(Error::BranchOutOfRange(_)), Err(Error::BranchOutOfRange(_))) => false,
            _ => panic!("{checked:?} {generated:?}"),
        }
    };
    assert!(reaches(123));
    assert!(!reaches(124));
}

#[test]
fn valid_application_has_a_program() {
    let application = application_of(
        ApplicationBuilder::default().define_address("ZP", 0x10).entry_point(0x00F0),
        InstructionBuilder::default()
            .jmp_addr("ZP")
            .lda_addr("ahead")
            .label("back")
            .raw(&[0; 100])
            .bne_addr("back")
            .label("ahead")
            .beq_addr("ahead")
            .finalize(),
    );
    assert!(application.validate().is_ok());
    assert!(ProgramGenerator::default().generate(application).is_ok());
}
