use c64_assembler::builder::{ApplicationBuilder, InstructionBuilder, ModuleBuilder};
use c64_assembler::generator::{Generator, ProgramGenerator};
use c64_assembler::validator::AssemblerResult;

/// Relative jumps are calculated from the start of the next instruction.
#[test]
fn relative_jump() -> AssemblerResult<()> {
    let application = ApplicationBuilder::default()
        .name("Relative addressing")
        .module(
            ModuleBuilder::default()
                .name("main")
                .instructions(
                    InstructionBuilder::default()
                        .bne_addr("jump_label")
                        .rts()
                        .label("jump_label")
                        .finalize(),
                )
                .finalize(),
        )
        .finalize();

    let bytes = ProgramGenerator::default().generate(application)?;
    assert_eq!(&[0x00, 0x08, 0xD0, 0x01, 0x60], bytes.as_slice());
    Ok(())
}
