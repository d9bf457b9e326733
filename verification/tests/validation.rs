use c64_assembler::builder::{
    ApplicationBuilder, FunctionBuilder, InstructionBuilder, ModuleBuilder,
};
use c64_assembler::generator::{Generator, ProgramGenerator};
use c64_assembler::instruction::operation::Operation;
use c64_assembler::memory::address_mode::AddressMode;
use c64_assembler::memory::label::AddressReference;
use c64_assembler::validator::{
    validate_address_names_exists, validate_address_names_unique, validate_relative_addressing,
    Error, Validator,
};
use c64_assembler::{Application, Instructions};

fn application_of(instructions: Instructions) -> Application {
    ApplicationBuilder::default()
        .module(ModuleBuilder::default().instructions(instructions).finalize())
        .finalize()
}

#[test]
fn unknown_name_is_reported_before_duplicate_label() {
    let application = application_of(
        InstructionBuilder::default()
            .label("twice")
            .label("twice")
            .jmp_addr("nowhere")
            .finalize(),
    );
    match application.validate() {
        Err(Error::AddressNameUnknown(name)) => assert_eq!("nowhere", name),
        result => panic!("{result:?}"),
    }
    match validate_address_names_unique(&application) {
        Err(Error::AddressNameNotUnique(name)) => assert_eq!("twice", name),
        result => panic!("{result:?}"),
    }
}

#[test]
fn duplicate_label_is_reported_before_branch_out_of_range() {
    let application = application_of(
        InstructionBuilder::default()
            .label("far")
            .raw(&[0; 200])
            .bne_addr("far")
            .label("twice")
            .label("twice")
            .finalize(),
    );
    match application.validate() {
        Err(Error::AddressNameNotUnique(name)) => assert_eq!("twice", name),
        result => panic!("{result:?}"),
    }
    match validate_relative_addressing(&application) {
        Err(Error::BranchOutOfRange(name)) => assert_eq!("far", name),
        result => panic!("{result:?}"),
    }
    assert!(validate_address_names_exists(&application).is_ok());
}

#[test]
fn first_unknown_name_is_reported() {
    let application = ApplicationBuilder::default()
        .define_address("KNOWN", 0x1000)
        .module(
            ModuleBuilder::default()
                .instructions(InstructionBuilder::default().lda_addr("KNOWN").finalize())
                .function(
                    FunctionBuilder::default()
                        .instructions(
                            InstructionBuilder::default()
                                .lda_imm(1)
                                .sta_addr("first")
                                .sta_addr("second")
                                .finalize(),
                        )
                        .build(),
                )
                .finalize(),
        )
        .module(
            ModuleBuilder::default()
                .instructions(InstructionBuilder::default().sta_addr("third").finalize())
                .finalize(),
        )
        .finalize();
    match application.validate() {
        Err(Error::AddressNameUnknown(name)) => assert_eq!("first", name),
        result => panic!("{result:?}"),
    }
}

#[test]
fn every_kind_of_reference_is_checked() {
    let streams = [
        InstructionBuilder::default().lda_imm_low("missing").finalize(),
        InstructionBuilder::default().lda_imm_high("missing").finalize(),
        InstructionBuilder::default().lda_addr("missing").finalize(),
        InstructionBuilder::default().lda_addr_x("missing").finalize(),
        InstructionBuilder::default().lda_addr_y("missing").finalize(),
        InstructionBuilder::default().beq_addr("missing").finalize(),
        InstructionBuilder::default().jmp_ind("missing").finalize(),
        InstructionBuilder::default().lda_ind_x("missing").finalize(),
        InstructionBuilder::default().lda_ind_y("missing").finalize(),
    ];
    for stream in streams {
        match validate_address_names_exists(&application_of(stream)) {
            Err(Error::AddressNameUnknown(name)) => assert_eq!("missing", name),
            result => panic!("{result:?}"),
        }
    }
    let without_reference =
        InstructionBuilder::default().lda_imm(0).asl_acc().nop().raw(&[1]).label("l").finalize();
    assert!(validate_address_names_exists(&application_of(without_reference)).is_ok());
}

#[test]
fn second_label_of_a_name_is_reported() {
    let application = application_of(
        InstructionBuilder::default()
            .label("a")
            .label("b")
            .label("c")
            .label("b")
            .label("a")
            .finalize(),
    );
    match validate_address_names_unique(&application) {
        Err(Error::AddressNameNotUnique(name)) => assert_eq!("b", name),
        result => panic!("{result:?}"),
    }
}

#[test]
fn label_may_have_the_name_of_a_define() {
    let application = ApplicationBuilder::default()
        .define_address("shared", 0x1000)
        .module(
            ModuleBuilder::default()
                .instructions(InstructionBuilder::default().label("shared").finalize())
                .finalize(),
        )
        .finalize();
    assert!(application.validate().is_ok());
}

#[test]
fn branch_within_reach_is_valid() {
    let forward = application_of(
        InstructionBuilder::default().bne_addr("t").raw(&[0; 127]).label("t").finalize(),
    );
    assert!(forward.validate().is_ok());
    let backward = application_of(
        InstructionBuilder::default().label("t").raw(&[0; 126]).bne_addr("t").finalize(),
    );
    assert!(backward.validate().is_ok());
}

#[test]
fn branch_out_of_reach_is_reported() {
    let forward = application_of(
        InstructionBuilder::default().bne_addr("t").raw(&[0; 128]).label("t").finalize(),
    );
    match forward.validate() {
        Err(Error::BranchOutOfRange(name)) => assert_eq!("t", name),
        result => panic!("{result:?}"),
    }
    let backward = application_of(
        InstructionBuilder::default().label("t").raw(&[0; 127]).bne_addr("t").finalize(),
    );
    match backward.validate() {
        Err(Error::BranchOutOfRange(name)) => assert_eq!("t", name),
        result => panic!("{result:?}"),
    }
}

#[test]
fn branch_to_a_define_out_of_reach_is_reported() {
    let application = ApplicationBuilder::default()
        .define_address("KERNAL", 0xFFD2)
        .module(
            ModuleBuilder::default()
                .instructions(InstructionBuilder::default().bne_addr("KERNAL").finalize())
                .finalize(),
        )
        .finalize();
    match application.validate() {
        Err(Error::BranchOutOfRange(name)) => assert_eq!("KERNAL", name),
        result => panic!("{result:?}"),
    }
}

#[test]
fn branch_to_unknown_name_is_reported_by_the_branch_check() {
    let application =
        application_of(InstructionBuilder::default().bne_addr("missing").finalize());
    match validate_relative_addressing(&application) {
        Err(Error::AddressNameUnknown(name)) => assert_eq!("missing", name),
        result => panic!("{result:?}"),
    }
}

#[test]
fn relative_mode_of_a_label_is_no_branch() {
    let mut builder = InstructionBuilder::default();
    builder.label("far").raw(&[0; 300]);
    builder.add_instruction(
        Operation::Label("marker".to_string()),
        AddressMode::Relative(AddressReference::new("far")),
    );
    assert!(validate_relative_addressing(&application_of(builder.finalize())).is_ok());
}

#[test]
fn valid_application_generates_a_program() {
    let application = ApplicationBuilder::default()
        .define_address("BORDER", 0xD020)
        .module(
            ModuleBuilder::default()
                .instructions(
                    InstructionBuilder::default()
                        .label("start")
                        .lda_imm(0)
                        .sta_addr("BORDER")
                        .bne_addr("start")
                        .jmp_addr("end")
                        .finalize(),
                )
                .function(
                    FunctionBuilder::default()
                        .instructions(InstructionBuilder::default().label("end").rts().finalize())
                        .build(),
                )
                .finalize(),
        )
        .finalize();
    assert!(application.validate().is_ok());
    let program = ProgramGenerator::default().generate(application).unwrap();
    assert_eq!(
        vec![0x00, 0x08, 0xA9, 0x00, 0x8D, 0x20, 0xD0, 0xD0, 0xF9, 0x4C, 0x0A, 0x08, 0x60],
        program
    );
}
