use c64_assembler::builder::{
    ApplicationBuilder, FunctionBuilder, InstructionBuilder, ModuleBuilder,
};
use c64_assembler::instruction::operation::Operation;
use c64_assembler::validator::{AssemblerResult, Error, Validator};

#[test]
fn address_names_not_exist() -> AssemblerResult<()> {
    let application = ApplicationBuilder::default()
        .module(
            ModuleBuilder::default()
                .instructions(InstructionBuilder::default().jmp_addr("unknown_label").finalize())
                .finalize(),
        )
        .finalize();
    let result = application.validate();
    if let Err(Error::AddressNameUnknown(label)) = result {
        assert_eq!(&label, "unknown_label");
    }
    Ok(())
}

#[test]
fn address_names_exist() -> AssemblerResult<()> {
    let application = ApplicationBuilder::default()
        .module(
            ModuleBuilder::default()
                .instructions(
                    InstructionBuilder::default()
                        .jmp_addr("known_label")
                        .label("known_label")
                        .finalize(),
                )
                .finalize(),
        )
        .finalize();

    let result = application.validate();
    assert!(result.is_ok());
    Ok(())
}

#[test]
fn address_names_unique() -> AssemblerResult<()> {
    let application = ApplicationBuilder::default()
        .module(
            ModuleBuilder::default()
                .instructions(
                    InstructionBuilder::default()
                        .label("unique_label_a")
                        .label("unique_label_b")
                        .finalize(),
                )
                .finalize(),
        )
        .finalize();

    let result = application.validate();
    assert!(result.is_ok());
    Ok(())
}

#[test]
fn address_names_unique_modules() -> AssemblerResult<()> {
    let application = ApplicationBuilder::default()
        .module(
            ModuleBuilder::default()
                .instructions(InstructionBuilder::default().label("unique_label_a").finalize())
                .finalize(),
        )
        .module(
            ModuleBuilder::default()
                .instructions(InstructionBuilder::default().label("unique_label_b").finalize())
                .finalize(),
        )
        .finalize();

    let result = application.validate();
    assert!(result.is_ok());
    Ok(())
}

#[test]
fn address_names_not_unique_one_module() -> AssemblerResult<()> {
    let application = ApplicationBuilder::default()
        .module(
            ModuleBuilder::default()
                .instructions(
                    InstructionBuilder::default()
                        .label("not_unique_label")
                        .label("not_unique_label")
                        .finalize(),
                )
                .finalize(),
        )
        .finalize();

    let result = application.validate();
    match result {
        Err(Error::AddressNameNotUnique(label)) => assert_eq!(&label, "not_unique_label"),
        _ => {
            unreachable!()
        }
    }
    Ok(())
}

#[test]
fn address_names_not_unique_one_module_function() -> AssemblerResult<()> {
    let application = ApplicationBuilder::default()
        .module(
            ModuleBuilder::default()
                .instructions(InstructionBuilder::default().label("not_unique_label").finalize())
                .function(
                    FunctionBuilder::default()
                        .instructions(
                            InstructionBuilder::default().label("not_unique_label").finalize(),
                        )
                        .build(),
                )
                .finalize(),
        )
        .finalize();

    let result = application.validate();
    match result {
        Err(Error::AddressNameNotUnique(label)) => assert_eq!(&label, "not_unique_label"),
        _ => {
            unreachable!()
        }
    }
    Ok(())
}

#[test]
fn address_names_not_unique_modules() -> AssemblerResult<()> {
    let application = ApplicationBuilder::default()
        .module(
            ModuleBuilder::default()
                .instructions(InstructionBuilder::default().label("not_unique_label").finalize())
                .finalize(),
        )
        .module(
            ModuleBuilder::default()
                .instructions(InstructionBuilder::default().label("not_unique_label").finalize())
                .finalize(),
        )
        .finalize();

    let result = application.validate();
    match result {
        Err(Error::AddressNameNotUnique(label)) => assert_eq!(&label, "not_unique_label"),
        _ => {
            unreachable!()
        }
    }
    Ok(())
}

/// It is a common pattern to put a label at the end of an program for scratch space.
#[test]
fn label_at_end_of_instructions() -> AssemblerResult<()> {
    let application = ApplicationBuilder::default()
        .module(
            ModuleBuilder::default()
                .instructions(InstructionBuilder::default().label("label_a").finalize())
                .finalize(),
        )
        .finalize();
    assert_eq!(1, application.modules.len());
    assert_eq!(1, application.modules.get(0).unwrap().instructions.instructions.len());
    if let Operation::Label(label) = &application
        .modules
        .get(0)
        .unwrap()
        .instructions
        .instructions
        .get(0)
        .unwrap()
        .operation
    {
        assert_eq!("label_a", label);
    } else {
        unreachable!("no label instruction")
    }
    Ok(())
}
