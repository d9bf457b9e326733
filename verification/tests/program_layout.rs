use c64_assembler::builder::finalize::finalize;
use c64_assembler::builder::{
    ApplicationBuilder, FunctionBuilder, InstructionBuilder, ModuleBuilder,
};
use c64_assembler::instruction::operation::Operation;
use c64_assembler::instruction::Instruction;
use c64_assembler::memory::address_mode::{AddressMode, Immediate};
use c64_assembler::memory::label::AddressReference;
use c64_assembler::validator::Error;
use c64_assembler::{Application, Instructions};

fn application_of(builder: &mut ApplicationBuilder, instructions: Instructions) -> Application {
    builder.module(ModuleBuilder::default().instructions(instructions).finalize());
    builder.finalize()
}

fn address_of(application: &Application, name: &str) -> u16 {
    application.lookup_address(&name.to_string()).unwrap()
}

#[test]
fn labels_get_the_address_of_what_follows() {
    let application = application_of(
        ApplicationBuilder::default().define_address("ZP", 0x10).define_address("FAR", 0x1000),
        InstructionBuilder::default()
            .label("at_entry")
            .nop()
            .label("after_implied")
            .asl_acc()
            .label("after_accumulator")
            .lda_imm(1)
            .label("after_immediate")
            .lda_addr("ZP")
            .label("after_zeropage")
            .lda_addr("FAR")
            .label("after_absolute")
            .lda_addr_x("ZP")
            .lda_addr_y("FAR")
            .label("after_indexed")
            .bne_addr("at_entry")
            .label("after_relative")
            .jmp_ind("FAR")
            .label("after_indirect")
            .lda_ind_x("ZP")
            .lda_ind_y("ZP")
            .label("after_indexed_indirect")
            .raw(&[1, 2, 3, 4, 5])
            .label("after_raw")
            .label("same_place")
            .finalize(),
    );
    let expected = [
        ("at_entry", 0x0800),
        ("after_implied", 0x0801),
        ("after_accumulator", 0x0802),
        ("after_immediate", 0x0804),
        ("after_zeropage", 0x0806),
        ("after_absolute", 0x0809),
        ("after_indexed", 0x080E),
        ("after_relative", 0x0810),
        ("after_indirect", 0x0813),
        ("after_indexed_indirect", 0x0817),
        ("after_raw", 0x081C),
        ("same_place", 0x081C),
        ("ZP", 0x0010),
        ("FAR", 0x1000),
    ];
    for (name, address) in expected {
        assert_eq!(address, address_of(&application, name), "{name}");
    }
}

#[test]
fn layout_walks_module_then_functions_then_next_module() {
    let application = ApplicationBuilder::default()
        .entry_point(0x1000)
        .module(
            ModuleBuilder::default()
                .instructions(InstructionBuilder::default().label("m1").nop().finalize())
                .function(
                    FunctionBuilder::default()
                        .instructions(
                            InstructionBuilder::default().label("f1").nop().nop().finalize(),
                        )
                        .build(),
                )
                .function(
                    FunctionBuilder::default()
                        .instructions(InstructionBuilder::default().label("f2").nop().finalize())
                        .build(),
                )
                .finalize(),
        )
        .module(
            ModuleBuilder::default()
                .instructions(InstructionBuilder::default().label("m2").finalize())
                .finalize(),
        )
        .finalize();
    assert_eq!(0x1000, address_of(&application, "m1"));
    assert_eq!(0x1001, address_of(&application, "f1"));
    assert_eq!(0x1003, address_of(&application, "f2"));
    assert_eq!(0x1004, address_of(&application, "m2"));
}

#[test]
fn reference_to_a_label_further_on_takes_three_bytes() {
    let application = application_of(
        ApplicationBuilder::default().entry_point(0x0010),
        InstructionBuilder::default()
            .lda_addr("ahead")
            .label("ahead")
            .lda_addr("ahead")
            .label("behind")
            .finalize(),
    );
    assert_eq!(0x0013, address_of(&application, "ahead"));
    assert_eq!(0x0015, address_of(&application, "behind"));
}

#[test]
fn addresses_wrap_around() {
    let application = application_of(
        ApplicationBuilder::default().entry_point(0xFFFE),
        InstructionBuilder::default()
            .nop()
            .label("last")
            .nop()
            .label("first")
            .nop()
            .label("second")
            .finalize(),
    );
    assert_eq!(0xFFFF, address_of(&application, "last"));
    assert_eq!(0x0000, address_of(&application, "first"));
    assert_eq!(0x0001, address_of(&application, "second"));
}

#[test]
fn later_label_of_a_name_counts() {
    let application = application_of(
        &mut ApplicationBuilder::default(),
        InstructionBuilder::default().label("twice").nop().label("twice").finalize(),
    );
    assert_eq!(0x0801, address_of(&application, "twice"));
}

#[test]
fn finalize_keeps_what_the_lookup_holds() {
    let mut application = ApplicationBuilder::default().define_address("KEPT", 0x1234).finalize();
    application.modules.push(
        ModuleBuilder::default()
            .instructions(InstructionBuilder::default().nop().label("added").finalize())
            .finalize(),
    );
    finalize(&mut application);
    assert_eq!(0x1234, address_of(&application, "KEPT"));
    assert_eq!(0x0801, address_of(&application, "added"));
    assert_eq!(1, application.defines.len());
    assert_eq!(1, application.modules.len());
}

#[test]
fn lookup_of_unknown_name() {
    let application = ApplicationBuilder::default().finalize();
    match application.lookup_address(&"missing".to_string()) {
        Err(Error::AddressNameUnknown(name)) => assert_eq!("missing", name),
        result => panic!("{result:?}"),
    }
}

#[test]
fn address_adds_the_offset() {
    let application = ApplicationBuilder::default()
        .define_address("BASE", 0xD000)
        .define_address("TOP", 0xFFFF)
        .finalize();
    assert_eq!(0xD000, application.address(&AddressReference::new("BASE")));
    assert_eq!(0xD020, application.address(&AddressReference::with_offset("BASE", 0x20)));
    assert_eq!(0x0000, application.address(&AddressReference::with_offset("TOP", 1)));
}

#[test]
fn byte_size_of_address_modes() {
    let application = ApplicationBuilder::default()
        .define_address("ZP", 0x00FF)
        .define_address("FAR", 0x0100)
        .finalize();
    let reference = |name| AddressReference::new(name);
    let sizes = [
        (AddressMode::Implied, 1),
        (AddressMode::Accumulator, 1),
        (AddressMode::Immediate(Immediate::Byte(7)), 2),
        (AddressMode::Immediate(Immediate::Low(reference("missing"))), 2),
        (AddressMode::Immediate(Immediate::High(reference("FAR"))), 2),
        (AddressMode::Absolute(reference("ZP")), 2),
        (AddressMode::Absolute(reference("FAR")), 3),
        (AddressMode::AbsoluteX(reference("ZP")), 2),
        (AddressMode::AbsoluteX(reference("FAR")), 3),
        (AddressMode::AbsoluteY(reference("ZP")), 2),
        (AddressMode::AbsoluteY(reference("FAR")), 3),
        (AddressMode::Absolute(AddressReference::with_offset("ZP", 1)), 3),
        (AddressMode::Relative(reference("missing")), 2),
        (AddressMode::Indirect(reference("ZP")), 3),
        (AddressMode::IndexedIndirect(reference("FAR")), 2),
        (AddressMode::IndirectIndexed(reference("missing")), 2),
    ];
    for (mode, size) in sizes {
        assert_eq!(size, mode.byte_size(&application).unwrap(), "{mode:?}");
        assert_eq!(size, mode.byte_size_in(&application.address_lookup), "{mode:?}");
    }
    for mode in [
        AddressMode::Absolute(reference("missing")),
        AddressMode::AbsoluteX(reference("missing")),
        AddressMode::AbsoluteY(reference("missing")),
    ] {
        match mode.byte_size(&application) {
            Err(Error::AddressNameUnknown(name)) => assert_eq!("missing", name),
            result => panic!("{result:?}"),
        }
        assert_eq!(3, mode.byte_size_in(&application.address_lookup));
    }
}

#[test]
fn byte_size_of_instructions() {
    let application = ApplicationBuilder::default().define_address("ZP", 0x0010).finalize();
    let instruction =
        |operation, address_mode| Instruction { operation, address_mode, comments: vec![] };
    let size = |operation, address_mode| {
        instruction(operation, address_mode).byte_size(&application).unwrap()
    };
    let absolute = |name| AddressMode::Absolute(AddressReference::new(name));
    assert_eq!(0, size(Operation::Label("l".to_string()), absolute("missing")));
    assert_eq!(3, size(Operation::Raw(vec![1, 2, 3]), absolute("missing")));
    assert_eq!(0, size(Operation::Raw(vec![]), AddressMode::Implied));
    assert_eq!(0x0010, size(Operation::Raw(vec![0; 0x1_0010]), AddressMode::Implied));
    assert_eq!(2, size(Operation::LDA, absolute("ZP")));
    assert_eq!(1, size(Operation::RTS, AddressMode::Implied));
    match instruction(Operation::LDA, absolute("missing")).byte_size(&application) {
        Err(Error::AddressNameUnknown(name)) => assert_eq!("missing", name),
        result => panic!("{result:?}"),
    }
    assert_eq!(
        3,
        instruction(Operation::LDA, absolute("missing")).byte_size_in(&application.address_lookup)
    );
    assert_eq!(
        1,
        Instruction::default().byte_size(&application).unwrap()
    );
}
